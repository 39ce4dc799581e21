//! The graphics API's usage rules for the operations of a run, as a state
//! machine: an operation the rules forbid leaves no next state.

use vstd::prelude::*;
use crate::plan::{
    pass_ops, program, resolve_ops, setup_ops, Flags, Op, PassTimestampWrites, QueryKind,
};

verus! {

/// What the device holds while operations are issued.
pub struct DeviceState {
    pub device: bool,
    /// Capacity of the pipeline-statistics query set; 0 while none exists.
    pub stats_capacity: nat,
    /// Capacity of the timestamp query set; 0 while none exists.
    pub timestamp_capacity: nat,
    /// Size of the resolve buffer; 0 while none exists.
    pub buffer_size: nat,
    pub encoder_open: bool,
    pub pass_open: bool,
    pub stats_scope_open: bool,
    pub submissions: nat,
}

/// The state before the first operation.
pub open spec fn initial_state() -> DeviceState {
    DeviceState {
        device: false,
        stats_capacity: 0,
        timestamp_capacity: 0,
        buffer_size: 0,
        encoder_open: false,
        pass_open: false,
        stats_scope_open: false,
        submissions: 0,
    }
}

/// Capacity of the query set of the given kind.
pub open spec fn capacity(s: DeviceState, kind: QueryKind) -> nat {
    match kind {
        QueryKind::PipelineStatistics => s.stats_capacity,
        QueryKind::Timestamp => s.timestamp_capacity,
    }
}

/// Timestamp writes are legal when they name two distinct slots of an existing set.
pub open spec fn timestamp_writes_allowed(s: DeviceState, w: Option<PassTimestampWrites>) -> bool {
    match w {
        None => true,
        Some(w) => w.beginning_index < s.timestamp_capacity && w.end_index
            < s.timestamp_capacity && w.beginning_index != w.end_index,
    }
}

/// The state after `op`, or `None` where the rules forbid it. A resolve writes
/// one alignment unit of the buffer, at an aligned offset.
pub open spec fn step(s: DeviceState, op: Op, alignment: nat) -> Option<DeviceState> {
    match op {
        Op::AcquireDevice => if !s.device {
            Some(DeviceState { device: true, ..s })
        } else {
            None
        },
        Op::CreateQuerySet { kind, count } => if s.device && count > 0 {
            match kind {
                QueryKind::PipelineStatistics => Some(
                    DeviceState { stats_capacity: count as nat, ..s },
                ),
                QueryKind::Timestamp => Some(DeviceState { timestamp_capacity: count as nat, ..s }),
            }
        } else {
            None
        },
        Op::CreateResolveBuffer { size } => if s.device && size > 0 {
            Some(DeviceState { buffer_size: size as nat, ..s })
        } else {
            None
        },
        Op::BeginCommands => if s.device && !s.encoder_open {
            Some(DeviceState { encoder_open: true, ..s })
        } else {
            None
        },
        Op::BeginRenderPass { timestamp_writes } => if s.encoder_open && !s.pass_open
            && timestamp_writes_allowed(s, timestamp_writes) {
            Some(DeviceState { pass_open: true, ..s })
        } else {
            None
        },
        Op::BeginPipelineStatistics { index } => if s.pass_open && !s.stats_scope_open && index
            < s.stats_capacity {
            Some(DeviceState { stats_scope_open: true, ..s })
        } else {
            None
        },
        Op::EndPipelineStatistics => if s.stats_scope_open {
            Some(DeviceState { stats_scope_open: false, ..s })
        } else {
            None
        },
        Op::EndRenderPass => if s.pass_open && !s.stats_scope_open {
            Some(DeviceState { pass_open: false, ..s })
        } else {
            None
        },
        Op::ResolveQuerySet { kind, first, count, offset } => if s.encoder_open && !s.pass_open
            && count > 0 && first + count <= capacity(s, kind) && (offset as nat) % alignment == 0
            && offset + alignment <= s.buffer_size {
            Some(s)
        } else {
            None
        },
        Op::SubmitAndWait => if s.encoder_open && !s.pass_open {
            Some(DeviceState { encoder_open: false, submissions: s.submissions + 1, ..s })
        } else {
            None
        },
    }
}

/// The state after the first `n` operations of `ops`, or `None` if one of
/// them is forbidden.
pub open spec fn run_prefix(s: DeviceState, ops: Seq<Op>, n: nat, alignment: nat) -> Option<
    DeviceState,
>
    decreases n,
{
    if n == 0 {
        Some(s)
    } else {
        match run_prefix(s, ops, (n - 1) as nat, alignment) {
            Some(t) => step(t, ops[n - 1], alignment),
            None => None,
        }
    }
}

/// The state after all of `ops` in order, or `None` if one of them is forbidden.
pub open spec fn run(s: DeviceState, ops: Seq<Op>, alignment: nat) -> Option<DeviceState> {
    run_prefix(s, ops, ops.len(), alignment)
}

/// Running a prefix of `a + b` that reaches into `b` runs all of `a` first.
proof fn lemma_run_prefix_append(s: DeviceState, a: Seq<Op>, b: Seq<Op>, k: nat, alignment: nat)
    requires
        k <= b.len(),
    ensures
        run_prefix(s, a + b, a.len() + k, alignment) == match run(s, a, alignment) {
            Some(t) => run_prefix(t, b, k, alignment),
            None => None,
        },
    decreases k,
{
    if k == 0 {
        lemma_run_prefix_same(s, a + b, a, a.len(), alignment);
    } else {
        lemma_run_prefix_append(s, a, b, (k - 1) as nat, alignment);
        assert((a + b)[a.len() + k - 1] == b[k - 1]);
    }
}

/// Two sequences that agree on their first `n` operations run alike that far.
proof fn lemma_run_prefix_same(s: DeviceState, x: Seq<Op>, y: Seq<Op>, n: nat, alignment: nat)
    requires
        n <= x.len(),
        n <= y.len(),
        forall|i: int| 0 <= i < n ==> x[i] == y[i],
    ensures
        run_prefix(s, x, n, alignment) == run_prefix(s, y, n, alignment),
    decreases n,
{
    if n > 0 {
        lemma_run_prefix_same(s, x, y, (n - 1) as nat, alignment);
    }
}

/// Running `a + b` runs `a`, then `b` from where `a` left off.
pub proof fn lemma_run_append(s: DeviceState, a: Seq<Op>, b: Seq<Op>, alignment: nat)
    ensures
        run(s, a + b, alignment) == match run(s, a, alignment) {
            Some(t) => run(t, b, alignment),
            None => None,
        },
{
    lemma_run_prefix_append(s, a, b, b.len(), alignment);
}

/// The device state after the setup operations.
pub open spec fn after_setup(alignment: u64) -> DeviceState {
    DeviceState {
        device: true,
        stats_capacity: 1,
        timestamp_capacity: 3,
        buffer_size: (2 * alignment) as nat,
        ..initial_state()
    }
}

proof fn lemma_setup_runs(alignment: u64)
    requires
        0 < alignment <= u64::MAX / 2,
    ensures
        run(initial_state(), setup_ops(alignment), alignment as nat) == Some(after_setup(alignment)),
{
    reveal_with_fuel(run_prefix, 5);
}

proof fn lemma_pass_runs(flags: Flags, alignment: u64)
    requires
        0 < alignment <= u64::MAX / 2,
    ensures
        run(after_setup(alignment), pass_ops(flags), alignment as nat) == Some(
            if flags.pass_times || flags.pass_stats {
                DeviceState { submissions: 1, ..after_setup(alignment) }
            } else {
                after_setup(alignment)
            },
        ),
{
    reveal_with_fuel(run_prefix, 7);
}

proof fn lemma_resolves_run(flags: Flags, alignment: u64, s: DeviceState)
    requires
        0 < alignment <= u64::MAX / 2,
        s == after_setup(alignment) || s == (DeviceState {
            submissions: 1,
            ..after_setup(alignment)
        }),
    ensures
        run(s, resolve_ops(flags, alignment), alignment as nat) == Some(
            DeviceState { submissions: s.submissions + 1, ..s },
        ),
{
    reveal_with_fuel(run_prefix, 5);
    vstd::arithmetic::div_mod::lemma_mod_self_0(alignment as int);
    vstd::arithmetic::div_mod::lemma_small_mod(0, alignment as nat);
}

/// For every combination of flags the operations of a run obey the usage
/// rules and leave no command sequence, pass or statistics scope open. A run
/// submits twice when a pass flag is set, and once otherwise.
pub proof fn lemma_program_obeys_usage_rules(flags: Flags, alignment: u64)
    requires
        0 < alignment <= u64::MAX / 2,
    ensures
        run(initial_state(), program(flags, alignment), alignment as nat) matches Some(t) && !t.encoder_open
            && !t.pass_open && !t.stats_scope_open && t.submissions == if flags.pass_times
            || flags.pass_stats {
            2nat
        } else {
            1nat
        },
{
    let a = alignment as nat;
    lemma_setup_runs(alignment);
    lemma_pass_runs(flags, alignment);
    let s1 = after_setup(alignment);
    let s2 = run(s1, pass_ops(flags), a).unwrap();
    lemma_resolves_run(flags, alignment, s2);
    lemma_run_append(initial_state(), setup_ops(alignment), pass_ops(flags), a);
    lemma_run_append(
        initial_state(),
        setup_ops(alignment) + pass_ops(flags),
        resolve_ops(flags, alignment),
        a,
    );
}

} // verus!
