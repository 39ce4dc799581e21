//! The operations of one probe run, chosen from the four flags.

use vstd::prelude::*;

verus! {

/// Capacity of the pipeline-statistics query set.
pub const STATS_QUERY_COUNT: u32 = 1;

/// Capacity of the timestamp query set (only the first two slots are written).
pub const TIMESTAMP_QUERY_COUNT: u32 = 3;

/// Number of timestamps a render pass writes: one at its start, one at its end.
pub const PASS_TIMESTAMP_COUNT: u32 = 2;

/// The four independent switches of a run.
#[derive(Clone, Copy, Debug, PartialEq, Eq, Structural)]
pub struct Flags {
    /// Resolve the pipeline-statistics result into the buffer.
    pub query_stats: bool,
    /// Resolve the timestamp results into the buffer.
    pub query_times: bool,
    /// Attach timestamp writes to the render pass.
    pub pass_times: bool,
    /// Open a pipeline-statistics scope inside the render pass.
    pub pass_stats: bool,
}

/// The two kinds of query set a run allocates.
#[derive(Clone, Copy, Debug, PartialEq, Eq, Structural)]
pub enum QueryKind {
    PipelineStatistics,
    Timestamp,
}

/// Slots of the timestamp query set written at the start and at the end of a pass.
#[derive(Clone, Copy, Debug, PartialEq, Eq, Structural)]
pub struct PassTimestampWrites {
    pub beginning_index: u32,
    pub end_index: u32,
}

/// One operation issued to the graphics device.
#[derive(Clone, Copy, Debug, PartialEq, Eq, Structural)]
pub enum Op {
    /// Obtain an adapter, then a device and queue with the query features enabled.
    AcquireDevice,
    /// Allocate a query set of the given kind and capacity.
    CreateQuerySet { kind: QueryKind, count: u32 },
    /// Allocate the buffer that query results are resolved into.
    CreateResolveBuffer { size: u64 },
    /// Start recording a command sequence.
    BeginCommands,
    /// Begin a render pass on a 1x1 target cleared to black.
    BeginRenderPass { timestamp_writes: Option<PassTimestampWrites> },
    /// Open a pipeline-statistics scope at the given slot.
    BeginPipelineStatistics { index: u32 },
    /// Close the open pipeline-statistics scope.
    EndPipelineStatistics,
    /// End the open render pass.
    EndRenderPass,
    /// Copy `count` results starting at slot `first` into the buffer at `offset`.
    ResolveQuerySet { kind: QueryKind, first: u32, count: u32, offset: u64 },
    /// Finish and submit the recorded commands, then block until they complete.
    SubmitAndWait,
}

/// Device acquisition and resource allocation, common to every run.
pub open spec fn setup_ops(alignment: u64) -> Seq<Op> {
    seq![
        Op::AcquireDevice,
        Op::CreateQuerySet { kind: QueryKind::PipelineStatistics, count: STATS_QUERY_COUNT },
        Op::CreateQuerySet { kind: QueryKind::Timestamp, count: TIMESTAMP_QUERY_COUNT },
        Op::CreateResolveBuffer { size: (2 * alignment) as u64 },
    ]
}

/// The timestamp writes a pass carries under the given flags.
pub open spec fn pass_timestamp_writes(flags: Flags) -> Option<PassTimestampWrites> {
    if flags.pass_times {
        Some(PassTimestampWrites { beginning_index: 0, end_index: 1 })
    } else {
        None
    }
}

/// The instrumented render pass and its submission; empty unless a pass flag is set.
pub open spec fn pass_ops(flags: Flags) -> Seq<Op> {
    if flags.pass_times || flags.pass_stats {
        seq![
            Op::BeginCommands,
            Op::BeginRenderPass { timestamp_writes: pass_timestamp_writes(flags) },
        ] + (if flags.pass_stats {
            seq![Op::BeginPipelineStatistics { index: 0 }, Op::EndPipelineStatistics]
        } else {
            Seq::<Op>::empty()
        }) + seq![Op::EndRenderPass, Op::SubmitAndWait]
    } else {
        Seq::empty()
    }
}

/// The resolve of the statistics result into the first half of the buffer.
pub open spec fn resolve_stats_op() -> Op {
    Op::ResolveQuerySet {
        kind: QueryKind::PipelineStatistics,
        first: 0,
        count: STATS_QUERY_COUNT,
        offset: 0,
    }
}

/// The resolve of the two pass timestamps into the second half of the buffer.
pub open spec fn resolve_times_op(alignment: u64) -> Op {
    Op::ResolveQuerySet {
        kind: QueryKind::Timestamp,
        first: 0,
        count: PASS_TIMESTAMP_COUNT,
        offset: alignment,
    }
}

/// The resolve command sequence and its submission, recorded in every run.
pub open spec fn resolve_ops(flags: Flags, alignment: u64) -> Seq<Op> {
    seq![Op::BeginCommands] + (if flags.query_stats {
        seq![resolve_stats_op()]
    } else {
        Seq::<Op>::empty()
    }) + (if flags.query_times {
        seq![resolve_times_op(alignment)]
    } else {
        Seq::<Op>::empty()
    }) + seq![Op::SubmitAndWait]
}

/// Every operation of a run, in order, for the given flags and the backend's
/// query-resolve alignment.
pub open spec fn program(flags: Flags, alignment: u64) -> Seq<Op> {
    setup_ops(alignment) + pass_ops(flags) + resolve_ops(flags, alignment)
}

/// Appends the device acquisition and the allocation of both query sets and
/// of a buffer two alignment units long.
pub fn record_setup(alignment: u64, ops: &mut Vec<Op>)
    requires
        alignment <= u64::MAX / 2,
    ensures
        final(ops)@ == old(ops)@ + setup_ops(alignment),
{
    ops.push(Op::AcquireDevice);
    ops.push(Op::CreateQuerySet { kind: QueryKind::PipelineStatistics, count: STATS_QUERY_COUNT });
    ops.push(Op::CreateQuerySet { kind: QueryKind::Timestamp, count: TIMESTAMP_QUERY_COUNT });
    ops.push(Op::CreateResolveBuffer { size: 2 * alignment });
    assert(final(ops)@ =~= old(ops)@ + setup_ops(alignment));
}

/// Appends the render pass, with the instrumentation the flags ask for, and
/// its submission.
pub fn record_render_pass(flags: Flags, ops: &mut Vec<Op>)
    requires
        flags.pass_times || flags.pass_stats,
    ensures
        final(ops)@ == old(ops)@ + pass_ops(flags),
{
    let timestamp_writes = if flags.pass_times {
        Some(PassTimestampWrites { beginning_index: 0, end_index: 1 })
    } else {
        None
    };
    ops.push(Op::BeginCommands);
    ops.push(Op::BeginRenderPass { timestamp_writes });
    if flags.pass_stats {
        ops.push(Op::BeginPipelineStatistics { index: 0 });
        ops.push(Op::EndPipelineStatistics);
    }
    ops.push(Op::EndRenderPass);
    ops.push(Op::SubmitAndWait);
    assert(final(ops)@ =~= old(ops)@ + pass_ops(flags));
}

/// Appends the resolve command sequence that the flags ask for and its submission.
pub fn record_resolves(flags: Flags, alignment: u64, ops: &mut Vec<Op>)
    ensures
        final(ops)@ == old(ops)@ + resolve_ops(flags, alignment),
{
    ops.push(Op::BeginCommands);
    if flags.query_stats {
        ops.push(
            Op::ResolveQuerySet {
                kind: QueryKind::PipelineStatistics,
                first: 0,
                count: STATS_QUERY_COUNT,
                offset: 0,
            },
        );
    }
    if flags.query_times {
        ops.push(
            Op::ResolveQuerySet {
                kind: QueryKind::Timestamp,
                first: 0,
                count: PASS_TIMESTAMP_COUNT,
                offset: alignment,
            },
        );
    }
    ops.push(Op::SubmitAndWait);
    assert(final(ops)@ =~= old(ops)@ + resolve_ops(flags, alignment));
}

/// Every operation of a run, in the order it is performed.
pub fn plan(flags: Flags, alignment: u64) -> (r: Vec<Op>)
    requires
        alignment <= u64::MAX / 2,
    ensures
        r@ == program(flags, alignment),
{
    let mut ops: Vec<Op> = Vec::new();
    record_setup(alignment, &mut ops);
    if flags.pass_times || flags.pass_stats {
        record_render_pass(flags, &mut ops);
    }
    record_resolves(flags, alignment, &mut ops);
    assert(ops@ =~= program(flags, alignment));
    ops
}

} // verus!
