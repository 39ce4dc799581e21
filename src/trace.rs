//! What the operations of a run contain, counted by kind.

use vstd::prelude::*;
use crate::plan::{
    pass_ops, pass_timestamp_writes, program, resolve_ops, resolve_stats_op, resolve_times_op, setup_ops, Flags, Op,
    PassTimestampWrites, QueryKind,
};
use crate::usage::{initial_state, lemma_program_obeys_usage_rules, run};

verus! {

/// Number of operations among the first `n` of `ops` that satisfy `p`.
pub open spec fn count_prefix(ops: Seq<Op>, n: nat, p: spec_fn(Op) -> bool) -> nat
    decreases n,
{
    if n == 0 || n > ops.len() {
        0
    } else {
        count_prefix(ops, (n - 1) as nat, p) + if p(ops[n - 1]) {
            1nat
        } else {
            0nat
        }
    }
}

/// Number of operations of `ops` that satisfy `p`.
pub open spec fn count(ops: Seq<Op>, p: spec_fn(Op) -> bool) -> nat {
    count_prefix(ops, ops.len(), p)
}

proof fn lemma_count_prefix_same(x: Seq<Op>, y: Seq<Op>, n: nat, p: spec_fn(Op) -> bool)
    requires
        n <= x.len(),
        n <= y.len(),
        forall|i: int| 0 <= i < n ==> x[i] == y[i],
    ensures
        count_prefix(x, n, p) == count_prefix(y, n, p),
    decreases n,
{
    if n > 0 {
        lemma_count_prefix_same(x, y, (n - 1) as nat, p);
    }
}

proof fn lemma_count_prefix_append(a: Seq<Op>, b: Seq<Op>, k: nat, p: spec_fn(Op) -> bool)
    requires
        k <= b.len(),
    ensures
        count_prefix(a + b, a.len() + k, p) == count(a, p) + count_prefix(b, k, p),
    decreases k,
{
    if k == 0 {
        lemma_count_prefix_same(a + b, a, a.len(), p);
    } else {
        lemma_count_prefix_append(a, b, (k - 1) as nat, p);
        assert((a + b)[a.len() + k - 1] == b[k - 1]);
    }
}

/// Counting over `a + b` adds the counts over `a` and over `b`.
pub proof fn lemma_count_append(a: Seq<Op>, b: Seq<Op>, p: spec_fn(Op) -> bool)
    ensures
        count(a + b, p) == count(a, p) + count(b, p),
{
    lemma_count_prefix_append(a, b, b.len(), p);
}

/// 1 where `b` holds, else 0.
pub open spec fn one_if(b: bool) -> nat {
    if b {
        1
    } else {
        0
    }
}

proof fn lemma_count_setup(alignment: u64, p: spec_fn(Op) -> bool)
    ensures
        count(setup_ops(alignment), p) == one_if(p(setup_ops(alignment)[0])) + one_if(
            p(setup_ops(alignment)[1]),
        ) + one_if(p(setup_ops(alignment)[2])) + one_if(p(setup_ops(alignment)[3])),
{
    reveal_with_fuel(count_prefix, 5);
}

proof fn lemma_count_pass(flags: Flags, p: spec_fn(Op) -> bool)
    ensures
        count(pass_ops(flags), p) == if flags.pass_times || flags.pass_stats {
            one_if(p(Op::BeginCommands)) + one_if(
                p(Op::BeginRenderPass { timestamp_writes: pass_timestamp_writes(flags) }),
            ) + (if flags.pass_stats {
                one_if(p(Op::BeginPipelineStatistics { index: 0 })) + one_if(
                    p(Op::EndPipelineStatistics),
                )
            } else {
                0
            }) + one_if(p(Op::EndRenderPass)) + one_if(p(Op::SubmitAndWait))
        } else {
            0
        },
{
    reveal_with_fuel(count_prefix, 7);
}

proof fn lemma_count_resolves(flags: Flags, alignment: u64, p: spec_fn(Op) -> bool)
    ensures
        count(resolve_ops(flags, alignment), p) == one_if(p(Op::BeginCommands)) + (if flags.query_stats {
            one_if(p(resolve_stats_op()))
        } else {
            0
        }) + (if flags.query_times {
            one_if(p(resolve_times_op(alignment)))
        } else {
            0
        }) + one_if(p(Op::SubmitAndWait)),
{
    reveal_with_fuel(count_prefix, 5);
}

proof fn lemma_count_program(flags: Flags, alignment: u64, p: spec_fn(Op) -> bool)
    ensures
        count(program(flags, alignment), p) == count(setup_ops(alignment), p) + count(
            pass_ops(flags),
            p,
        ) + count(resolve_ops(flags, alignment), p),
        count(setup_ops(alignment), p) == one_if(p(setup_ops(alignment)[0])) + one_if(
            p(setup_ops(alignment)[1]),
        ) + one_if(p(setup_ops(alignment)[2])) + one_if(p(setup_ops(alignment)[3])),
        count(pass_ops(flags), p) == if flags.pass_times || flags.pass_stats {
            one_if(p(Op::BeginCommands)) + one_if(
                p(Op::BeginRenderPass { timestamp_writes: pass_timestamp_writes(flags) }),
            ) + (if flags.pass_stats {
                one_if(p(Op::BeginPipelineStatistics { index: 0 })) + one_if(
                    p(Op::EndPipelineStatistics),
                )
            } else {
                0
            }) + one_if(p(Op::EndRenderPass)) + one_if(p(Op::SubmitAndWait))
        } else {
            0
        },
        count(resolve_ops(flags, alignment), p) == one_if(p(Op::BeginCommands)) + (if flags.query_stats {
            one_if(p(resolve_stats_op()))
        } else {
            0
        }) + (if flags.query_times {
            one_if(p(resolve_times_op(alignment)))
        } else {
            0
        }) + one_if(p(Op::SubmitAndWait)),
{
    lemma_count_append(setup_ops(alignment), pass_ops(flags), p);
    lemma_count_append(
        setup_ops(alignment) + pass_ops(flags),
        resolve_ops(flags, alignment),
        p,
    );
    lemma_count_setup(alignment, p);
    lemma_count_pass(flags, p);
    lemma_count_resolves(flags, alignment, p);
}

/// Operations that begin a render pass.
pub open spec fn begins_pass() -> spec_fn(Op) -> bool {
    |o: Op| o is BeginRenderPass
}

/// Operations that submit a command sequence and wait for it.
pub open spec fn submits() -> spec_fn(Op) -> bool {
    |o: Op| o is SubmitAndWait
}

/// Operations that write a timestamp.
pub open spec fn writes_timestamps() -> spec_fn(Op) -> bool {
    |o: Op| o matches Op::BeginRenderPass { timestamp_writes } && timestamp_writes is Some
}

/// Operations that write timestamps anywhere but at slot 0 on entry and slot 1 on exit.
pub open spec fn writes_other_timestamps() -> spec_fn(Op) -> bool {
    |o: Op|
        o matches Op::BeginRenderPass { timestamp_writes } && timestamp_writes is Some
            && timestamp_writes != Some(PassTimestampWrites { beginning_index: 0, end_index: 1 })
}

/// Operations equal to `op`.
pub open spec fn equals(op: Op) -> spec_fn(Op) -> bool {
    |o: Op| o == op
}

/// Operations that open a pipeline-statistics scope, at any slot.
pub open spec fn opens_stats_scope() -> spec_fn(Op) -> bool {
    |o: Op| o is BeginPipelineStatistics
}

/// Operations that resolve a query set of the given kind.
pub open spec fn resolves(kind: QueryKind) -> spec_fn(Op) -> bool {
    |o: Op| o matches Op::ResolveQuerySet { kind: k, .. } && k == kind
}

/// A render pass is recorded, once, exactly when a pass flag is set; a run
/// submits once more for it. Without pass flags no pass is recorded and the
/// run submits once.
pub proof fn lemma_pass_only_with_pass_flags(flags: Flags, alignment: u64)
    ensures
        count(program(flags, alignment), begins_pass()) == if flags.pass_times
            || flags.pass_stats {
            1nat
        } else {
            0nat
        },
        count(program(flags, alignment), submits()) == if flags.pass_times || flags.pass_stats {
            2nat
        } else {
            1nat
        },
{
    lemma_count_program(flags, alignment, begins_pass());
    lemma_count_program(flags, alignment, submits());
}

/// With pass timestamps on, one timestamp write is recorded at the pass's
/// start (slot 0) and one at its end (slot 1), and no other slot is written;
/// with them off, no timestamp is written.
pub proof fn lemma_pass_timestamp_slots(flags: Flags, alignment: u64)
    ensures
        count(program(flags, alignment), writes_timestamps()) == if flags.pass_times {
            1nat
        } else {
            0nat
        },
        count(
            program(flags, alignment),
            equals(
                Op::BeginRenderPass {
                    timestamp_writes: Some(PassTimestampWrites { beginning_index: 0, end_index: 1 }),
                },
            ),
        ) == if flags.pass_times {
            1nat
        } else {
            0nat
        },
        count(program(flags, alignment), writes_other_timestamps()) == 0,
{
    let p = equals(
        Op::BeginRenderPass {
            timestamp_writes: Some(PassTimestampWrites { beginning_index: 0, end_index: 1 }),
        },
    );
    lemma_count_program(flags, alignment, writes_timestamps());
    lemma_count_program(flags, alignment, p);
    lemma_count_program(flags, alignment, writes_other_timestamps());
}

/// With pass statistics on, one pipeline-statistics scope is opened, at slot
/// 0, and closed once; with them off, none is. Every scope lies inside the
/// render pass: the usage rules, which the run obeys, open one only inside an
/// open pass and end no pass while one is open.
pub proof fn lemma_pass_stats_scope(flags: Flags, alignment: u64)
    requires
        0 < alignment <= u64::MAX / 2,
    ensures
        count(program(flags, alignment), opens_stats_scope()) == if flags.pass_stats {
            1nat
        } else {
            0nat
        },
        count(program(flags, alignment), equals(Op::BeginPipelineStatistics { index: 0 }))
            == if flags.pass_stats {
            1nat
        } else {
            0nat
        },
        count(program(flags, alignment), equals(Op::EndPipelineStatistics)) == if flags.pass_stats {
            1nat
        } else {
            0nat
        },
        run(initial_state(), program(flags, alignment), alignment as nat) is Some,
{
    lemma_count_program(flags, alignment, opens_stats_scope());
    lemma_count_program(flags, alignment, equals(Op::BeginPipelineStatistics { index: 0 }));
    lemma_count_program(flags, alignment, equals(Op::EndPipelineStatistics));
    lemma_program_obeys_usage_rules(flags, alignment);
}

/// The statistics result is resolved, once, into offset 0 exactly when the
/// statistics resolve flag is set; the two timestamps are resolved, once, into
/// the alignment offset exactly when the timestamp resolve flag is set. No
/// other resolve is issued.
pub proof fn lemma_resolves_follow_flags(flags: Flags, alignment: u64)
    ensures
        count(program(flags, alignment), resolves(QueryKind::PipelineStatistics)) == if flags.query_stats {
            1nat
        } else {
            0nat
        },
        count(program(flags, alignment), equals(resolve_stats_op())) == if flags.query_stats {
            1nat
        } else {
            0nat
        },
        count(program(flags, alignment), resolves(QueryKind::Timestamp)) == if flags.query_times {
            1nat
        } else {
            0nat
        },
        count(program(flags, alignment), equals(resolve_times_op(alignment))) == if flags.query_times {
            1nat
        } else {
            0nat
        },
{
    lemma_count_program(flags, alignment, resolves(QueryKind::PipelineStatistics));
    lemma_count_program(flags, alignment, equals(resolve_stats_op()));
    lemma_count_program(flags, alignment, resolves(QueryKind::Timestamp));
    lemma_count_program(flags, alignment, equals(resolve_times_op(alignment)));
}

} // verus!
