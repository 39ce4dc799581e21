use query_probe::plan::{
    plan, record_render_pass, record_resolves, record_setup, Flags, Op, PassTimestampWrites,
    QueryKind,
};

const ALIGNMENT: u64 = 256;

fn flags(query_stats: bool, query_times: bool, pass_times: bool, pass_stats: bool) -> Flags {
    Flags { query_stats, query_times, pass_times, pass_stats }
}

fn all_flags() -> Vec<Flags> {
    let mut v = Vec::new();
    for bits in 0u8..16 {
        v.push(flags(bits & 1 != 0, bits & 2 != 0, bits & 4 != 0, bits & 8 != 0));
    }
    v
}

fn setup() -> Vec<Op> {
    vec![
        Op::AcquireDevice,
        Op::CreateQuerySet { kind: QueryKind::PipelineStatistics, count: 1 },
        Op::CreateQuerySet { kind: QueryKind::Timestamp, count: 3 },
        Op::CreateResolveBuffer { size: 512 },
    ]
}

const PASS_WRITES: PassTimestampWrites = PassTimestampWrites { beginning_index: 0, end_index: 1 };

fn stats_resolve() -> Op {
    Op::ResolveQuerySet { kind: QueryKind::PipelineStatistics, first: 0, count: 1, offset: 0 }
}

fn times_resolve() -> Op {
    Op::ResolveQuerySet { kind: QueryKind::Timestamp, first: 0, count: 2, offset: 256 }
}

fn count(ops: &[Op], p: impl Fn(&Op) -> bool) -> usize {
    ops.iter().filter(|o| p(o)).count()
}

#[test]
fn no_flags_gives_setup_and_one_empty_submission() {
    let mut expected = setup();
    expected.extend([Op::BeginCommands, Op::SubmitAndWait]);
    assert_eq!(plan(flags(false, false, false, false), ALIGNMENT), expected);
}

#[test]
fn all_flags_give_the_full_sequence() {
    let mut expected = setup();
    expected.extend([
        Op::BeginCommands,
        Op::BeginRenderPass { timestamp_writes: Some(PASS_WRITES) },
        Op::BeginPipelineStatistics { index: 0 },
        Op::EndPipelineStatistics,
        Op::EndRenderPass,
        Op::SubmitAndWait,
        Op::BeginCommands,
        stats_resolve(),
        times_resolve(),
        Op::SubmitAndWait,
    ]);
    assert_eq!(plan(flags(true, true, true, true), ALIGNMENT), expected);
}

#[test]
fn pass_times_alone_records_a_pass_without_a_scope() {
    let mut expected = setup();
    expected.extend([
        Op::BeginCommands,
        Op::BeginRenderPass { timestamp_writes: Some(PASS_WRITES) },
        Op::EndRenderPass,
        Op::SubmitAndWait,
        Op::BeginCommands,
        Op::SubmitAndWait,
    ]);
    assert_eq!(plan(flags(false, false, true, false), ALIGNMENT), expected);
}

#[test]
fn pass_stats_alone_records_a_pass_without_timestamps() {
    let mut expected = setup();
    expected.extend([
        Op::BeginCommands,
        Op::BeginRenderPass { timestamp_writes: None },
        Op::BeginPipelineStatistics { index: 0 },
        Op::EndPipelineStatistics,
        Op::EndRenderPass,
        Op::SubmitAndWait,
        Op::BeginCommands,
        Op::SubmitAndWait,
    ]);
    assert_eq!(plan(flags(false, false, false, true), ALIGNMENT), expected);
}

#[test]
fn query_times_alone_resolves_at_the_alignment_offset() {
    let mut expected = setup();
    expected.extend([Op::BeginCommands, times_resolve(), Op::SubmitAndWait]);
    assert_eq!(plan(flags(false, true, false, false), ALIGNMENT), expected);
}

#[test]
fn query_stats_alone_resolves_at_offset_zero() {
    let mut expected = setup();
    expected.extend([Op::BeginCommands, stats_resolve(), Op::SubmitAndWait]);
    assert_eq!(plan(flags(true, false, false, false), ALIGNMENT), expected);
}

#[test]
fn buffer_is_two_alignment_units() {
    let ops = plan(flags(false, false, false, false), 64);
    assert_eq!(ops[3], Op::CreateResolveBuffer { size: 128 });
    let ops = plan(flags(false, true, false, false), 64);
    assert_eq!(
        ops[5],
        Op::ResolveQuerySet { kind: QueryKind::Timestamp, first: 0, count: 2, offset: 64 }
    );
}

#[test]
fn no_pass_without_pass_flags() {
    for f in all_flags() {
        let ops = plan(f, ALIGNMENT);
        let passes = count(&ops, |o| matches!(o, Op::BeginRenderPass { .. }));
        let submissions = count(&ops, |o| *o == Op::SubmitAndWait);
        if f.pass_times || f.pass_stats {
            assert_eq!(passes, 1);
            assert_eq!(submissions, 2);
        } else {
            assert_eq!(passes, 0);
            assert_eq!(submissions, 1);
        }
    }
}

#[test]
fn pass_timestamps_write_slots_zero_and_one_only() {
    for f in all_flags() {
        let ops = plan(f, ALIGNMENT);
        let writes: Vec<PassTimestampWrites> = ops
            .iter()
            .filter_map(|o| match o {
                Op::BeginRenderPass { timestamp_writes } => *timestamp_writes,
                _ => None,
            })
            .collect();
        if f.pass_times {
            assert_eq!(writes, vec![PASS_WRITES]);
        } else {
            assert!(writes.is_empty());
        }
    }
}

#[test]
fn stats_scope_lies_inside_the_pass() {
    for f in all_flags() {
        let ops = plan(f, ALIGNMENT);
        let opens: Vec<usize> = (0..ops.len())
            .filter(|&i| matches!(ops[i], Op::BeginPipelineStatistics { .. }))
            .collect();
        let closes: Vec<usize> =
            (0..ops.len()).filter(|&i| ops[i] == Op::EndPipelineStatistics).collect();
        if f.pass_stats {
            assert_eq!(opens.len(), 1);
            assert_eq!(closes.len(), 1);
            assert_eq!(ops[opens[0]], Op::BeginPipelineStatistics { index: 0 });
            let begin = ops.iter().position(|o| matches!(o, Op::BeginRenderPass { .. })).unwrap();
            let end = ops.iter().position(|o| *o == Op::EndRenderPass).unwrap();
            assert!(begin < opens[0] && opens[0] < closes[0] && closes[0] < end);
        } else {
            assert!(opens.is_empty());
            assert!(closes.is_empty());
        }
    }
}

#[test]
fn resolves_follow_query_flags() {
    for f in all_flags() {
        let ops = plan(f, ALIGNMENT);
        let stats: Vec<&Op> = ops
            .iter()
            .filter(|o| {
                matches!(o, Op::ResolveQuerySet { kind: QueryKind::PipelineStatistics, .. })
            })
            .collect();
        let times: Vec<&Op> = ops
            .iter()
            .filter(|o| matches!(o, Op::ResolveQuerySet { kind: QueryKind::Timestamp, .. }))
            .collect();
        assert_eq!(stats.len(), if f.query_stats { 1 } else { 0 });
        assert_eq!(times.len(), if f.query_times { 1 } else { 0 });
        if f.query_stats {
            assert_eq!(*stats[0], stats_resolve());
        }
        if f.query_times {
            assert_eq!(*times[0], times_resolve());
        }
    }
}

#[test]
fn planning_twice_gives_the_same_operations() {
    for f in all_flags() {
        assert_eq!(plan(f, ALIGNMENT), plan(f, ALIGNMENT));
    }
}

#[test]
fn recorders_append_to_what_is_there() {
    let mut ops = vec![Op::SubmitAndWait];
    record_setup(ALIGNMENT, &mut ops);
    assert_eq!(ops.len(), 5);
    assert_eq!(ops[0], Op::SubmitAndWait);
    assert_eq!(ops[1..].to_vec(), setup());

    let mut ops = Vec::new();
    record_render_pass(flags(false, false, true, false), &mut ops);
    assert_eq!(
        ops,
        vec![
            Op::BeginCommands,
            Op::BeginRenderPass { timestamp_writes: Some(PASS_WRITES) },
            Op::EndRenderPass,
            Op::SubmitAndWait,
        ]
    );

    let mut ops = Vec::new();
    record_resolves(flags(true, false, false, false), ALIGNMENT, &mut ops);
    assert_eq!(ops, vec![Op::BeginCommands, stats_resolve(), Op::SubmitAndWait]);
}
