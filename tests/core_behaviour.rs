use springql_core::dataflow::{Row, TaskQueues};
use springql_core::error::{ForeignInfo, SpringError, SpringErrorResponsibility, StreamName};
use springql_core::event_queue::{
    BlockingEvent, BlockingEventTag, EventQueue, EventTag, NonBlockingEvent, NonBlockingEventTag,
};
use springql_core::memory_state_machine::{
    MemoryState, MemoryStateMachine, MemoryStateMachineThreshold, MemoryStateTransition,
};
use springql_core::performance_metrics::{MetricsUpdateByTaskExecutionOrPurge, PerformanceMetrics};
use springql_core::pipeline::{DdlCommand, Pipeline, PipelineDerivatives, PumpState};
use springql_core::server::{ServerInstanceFactory, ServerType, SinkServerKind};
use springql_core::worker::{
    apply_new_pipeline, drain_events, event_subscription, generic_main_loop_cycle,
    MemoryStateMachineWorker, SourceWorkerThread, TaskWorkerKind, TaskWorkerLoopState,
    SinkWorkerThread, TaskRoundRobin, WorkerSetupCoordinator,
};

fn cause() -> anyhow::Error {
    anyhow::Error::msg("cause")
}

fn row(s: &str) -> Row {
    Row { payload: s.as_bytes().to_vec() }
}

fn timeout() -> SpringError {
    SpringError::ForeignInputTimeout {
        foreign_info: ForeignInfo::GenericTcp { host: "127.0.0.1".to_string(), port: 1 },
        source: cause(),
    }
}

fn payloads(q: &std::collections::VecDeque<Row>) -> Vec<Vec<u8>> {
    q.iter().map(|r| r.payload.clone()).collect()
}

fn ready_setup() -> WorkerSetupCoordinator {
    let mut c = WorkerSetupCoordinator::new(1, 1, 1, 1);
    c.ready_memory_state_machine_worker();
    c.ready(TaskWorkerKind::Source);
    c.ready(TaskWorkerKind::Generic);
    c.ready(TaskWorkerKind::Sink);
    c
}

fn default_machine() -> MemoryStateMachine {
    MemoryStateMachine::new(MemoryStateMachineThreshold::new(10000, 6000, 9500, 8000, 4000).unwrap())
}

fn states_for(readings: &[u64]) -> Vec<MemoryState> {
    let mut m = default_machine();
    let mut out = vec![m.state];
    for r in readings {
        m.update_memory_usage(*r);
        out.push(m.state);
    }
    out
}

#[test]
fn responsibility_of_each_variant() {
    let info = || ForeignInfo::InMemoryQueue { name: "q".to_string() };
    let cases = vec![
        (SpringError::ForeignIo { foreign_info: info(), source: cause() }, SpringErrorResponsibility::Foreign),
        (timeout(), SpringErrorResponsibility::Foreign),
        (
            SpringError::InputTimeout { stream_name: StreamName { name: "s".to_string() }, source: cause() },
            SpringErrorResponsibility::SpringQlCore,
        ),
        (SpringError::SpringQlCoreIo(cause()), SpringErrorResponsibility::SpringQlCore),
        (
            SpringError::InvalidOption { key: "k".to_string(), value: "v".to_string(), source: cause() },
            SpringErrorResponsibility::Client,
        ),
        (SpringError::InvalidFormat { s: "x".to_string(), source: cause() }, SpringErrorResponsibility::Client),
        (SpringError::Sql(cause()), SpringErrorResponsibility::Client),
    ];
    for (e, want) in cases {
        assert_eq!(e.responsibility(), want);
    }
}

#[test]
fn poisoned_engine_is_a_core_error() {
    let e = SpringError::poisoned_engine("a worker panicked".to_string());
    assert!(matches!(e, SpringError::SpringQlCoreIo(_)));
    assert_eq!(e.responsibility(), SpringErrorResponsibility::SpringQlCore);
}

#[test]
fn memory_readings_with_a_fall_below_critical_exit() {
    assert_eq!(states_for(&[5000, 7000, 9600, 7900, 3500]), vec![MemoryState::Moderate, MemoryState::Moderate, MemoryState::Severe, MemoryState::Critical, MemoryState::Severe, MemoryState::Moderate]);
}

#[test]
fn memory_reading_above_critical_exit_stays_critical() {
    assert_eq!(states_for(&[5000, 7000, 9600, 8500, 3500]), vec![MemoryState::Moderate, MemoryState::Moderate, MemoryState::Severe, MemoryState::Critical, MemoryState::Critical, MemoryState::Severe]);
}

#[test]
fn memory_state_moves_one_step_at_a_time() {
    let mut m = default_machine();
    let t = m.update_memory_usage(9900);
    assert_eq!(t, Some(MemoryStateTransition { from_state: MemoryState::Moderate, to_state: MemoryState::Severe }));
    assert!(t.unwrap().is_upward());
    assert_eq!(m.update_memory_usage(9900).unwrap().to_state, MemoryState::Critical);
    let down = m.update_memory_usage(0).unwrap();
    assert_eq!(down.to_state, MemoryState::Severe);
    assert!(!down.is_upward());
    assert_eq!(m.update_memory_usage(0).unwrap().to_state, MemoryState::Moderate);
}

#[test]
fn memory_state_does_not_flap_at_a_threshold() {
    let mut m = default_machine();
    assert!(m.update_memory_usage(6000).is_some());
    for _ in 0..5 {
        assert_eq!(m.update_memory_usage(6000), None);
        assert_eq!(m.state, MemoryState::Severe);
    }
    let mut m = default_machine();
    m.update_memory_usage(6000);
    m.update_memory_usage(9500);
    assert_eq!(m.state, MemoryState::Critical);
    for _ in 0..5 {
        assert_eq!(m.update_memory_usage(8000), None);
        assert_eq!(m.state, MemoryState::Critical);
    }
}

#[test]
fn invalid_thresholds_are_a_client_error() {
    let e = MemoryStateMachineThreshold::new(10000, 4000, 9500, 8000, 6000).unwrap_err();
    assert!(matches!(e, SpringError::InvalidOption { .. }));
    assert_eq!(e.responsibility(), SpringErrorResponsibility::Client);
    assert!(MemoryStateMachineThreshold::new(9000, 6000, 9500, 8000, 4000).is_err());
    assert!(MemoryStateMachineThreshold::new(10000, 6000, 9500, 9500, 4000).is_err());
    assert_eq!(
        MemoryStateMachineThreshold::new(10000, 6000, 9500, 8000, 4000).unwrap(),
        MemoryStateMachineThreshold::default_thresholds()
    );
}

#[test]
fn metrics_updates_commute() {
    let u1 = MetricsUpdateByTaskExecutionOrPurge { rows_processed: 2, rows_enqueued: 5, rows_dequeued: 1, bytes_allocated: 100, bytes_released: 30 };
    let u2 = MetricsUpdateByTaskExecutionOrPurge { rows_processed: 1, rows_enqueued: 0, rows_dequeued: 3, bytes_allocated: u64::MAX, bytes_released: 10 };
    let mut a = PerformanceMetrics::new();
    a.update_by_task_execution_or_purge(&u1);
    a.update_by_task_execution_or_purge(&u2);
    let mut b = PerformanceMetrics::new();
    b.update_by_task_execution_or_purge(&u2);
    b.update_by_task_execution_or_purge(&u1);
    assert_eq!(a, b);
    assert_eq!(a.bytes_allocated, u64::MAX);
    let mut c = PerformanceMetrics::new();
    c.update_by_task_execution_or_purge(&u1);
    let s = c.summary();
    assert_eq!((s.rows_processed, s.queued_rows, s.memory_usage_bytes), (2, 4, 70));
}

#[test]
fn non_blocking_events_keep_the_latest_value() {
    let mut q = EventQueue::new();
    let id = q.subscribe(SourceWorkerThread::event_subscription());
    let mut m1 = PerformanceMetrics::new();
    m1.rows_processed = 1;
    let mut m2 = PerformanceMetrics::new();
    m2.rows_processed = 2;
    q.publish_non_blocking(NonBlockingEvent::ReplacePerformanceMetrics(m1));
    q.publish_non_blocking(NonBlockingEvent::ReplacePerformanceMetrics(m2));
    assert_eq!(
        q.poll_non_blocking(id, NonBlockingEventTag::ReplacePerformanceMetrics),
        Some(NonBlockingEvent::ReplacePerformanceMetrics(m2))
    );
    assert_eq!(q.poll_non_blocking(id, NonBlockingEventTag::ReplacePerformanceMetrics), None);
}

#[test]
fn blocking_events_arrive_in_publish_order() {
    let mut q = EventQueue::new();
    let id = q.subscribe(event_subscription(TaskWorkerKind::Generic));
    let mut p = PipelineDerivatives::empty();
    p.version = 7;
    let t = MemoryStateTransition { from_state: MemoryState::Moderate, to_state: MemoryState::Severe };
    q.publish_blocking(BlockingEvent::UpdatePipeline(p));
    q.publish_blocking(BlockingEvent::TransitMemoryState(t));
    assert_eq!(q.poll_blocking(id), Some(BlockingEvent::UpdatePipeline(p)));
    assert_eq!(q.poll_blocking(id), Some(BlockingEvent::TransitMemoryState(t)));
    assert_eq!(q.poll_blocking(id), None);
}

#[test]
fn publishing_to_an_unsubscribed_tag_does_nothing() {
    let mut q = EventQueue::new();
    let id = q.subscribe(SourceWorkerThread::event_subscription());
    let t = MemoryStateTransition { from_state: MemoryState::Moderate, to_state: MemoryState::Severe };
    q.publish_blocking(BlockingEvent::TransitMemoryState(t));
    assert_eq!(q.poll_blocking(id), None);
    let mut empty = EventQueue::new();
    empty.publish_blocking(BlockingEvent::TransitMemoryState(t));
    assert_eq!(empty.subscriptions.len(), 0);
}

#[test]
fn drain_installs_the_last_pipeline_and_metrics() {
    let mut q = EventQueue::new();
    let id = q.subscribe(event_subscription(TaskWorkerKind::Generic));
    let mut first_snapshot = PipelineDerivatives::empty();
    first_snapshot.version = 1;
    let mut second_snapshot = PipelineDerivatives::empty();
    second_snapshot.version = 2;
    let t = MemoryStateTransition { from_state: MemoryState::Moderate, to_state: MemoryState::Severe };
    q.publish_blocking(BlockingEvent::UpdatePipeline(first_snapshot));
    q.publish_blocking(BlockingEvent::TransitMemoryState(t));
    q.publish_blocking(BlockingEvent::UpdatePipeline(second_snapshot));
    let m = PerformanceMetrics::new();
    q.publish_non_blocking(NonBlockingEvent::ReplacePerformanceMetrics(m));
    let s = drain_events(TaskWorkerKind::Generic, TaskWorkerLoopState::new(), &mut q, id);
    assert_eq!(s.pipeline_derivatives, Some(second_snapshot));
    assert_eq!(s.memory_state, MemoryState::Severe);
    assert_eq!(s.metrics, Some(m));
    assert_eq!(q.poll_blocking(id), None);
}

#[test]
fn memory_worker_publishes_transitions() {
    let mut q = EventQueue::new();
    let id = q.subscribe(event_subscription(TaskWorkerKind::Generic));
    let mut w = MemoryStateMachineWorker::new();
    let mut m = PerformanceMetrics::new();
    m.bytes_allocated = 7000;
    assert!(w.evaluate(&m.summary(), &mut q).is_some());
    assert_eq!(w.evaluate(&m.summary(), &mut q), None);
    let s = drain_events(TaskWorkerKind::Generic, TaskWorkerLoopState::new(), &mut q, id);
    assert_eq!(s.memory_state, MemoryState::Severe);
}

fn started_pipeline(q: &mut EventQueue) -> Pipeline {
    let mut pipeline = Pipeline::new();
    for cmd in [DdlCommand::CreateSourceStream, DdlCommand::CreateSinkStream, DdlCommand::CreatePump, DdlCommand::StartPump] {
        apply_new_pipeline(&mut pipeline, cmd, q).unwrap();
    }
    pipeline
}

fn run_to_sink(rows: Vec<Row>) -> Vec<Vec<u8>> {
    let mut q = EventQueue::new();
    let src = q.subscribe(SourceWorkerThread::event_subscription());
    let gen = q.subscribe(event_subscription(TaskWorkerKind::Generic));
    let snk = q.subscribe(event_subscription(TaskWorkerKind::Sink));
    let pipeline = started_pipeline(&mut q);
    assert_eq!(pipeline.current.pump, PumpState::Started);
    let src_state = drain_events(TaskWorkerKind::Source, TaskWorkerLoopState::new(), &mut q, src);
    let gen_state = drain_events(TaskWorkerKind::Generic, TaskWorkerLoopState::new(), &mut q, gen);
    let snk_state = drain_events(TaskWorkerKind::Sink, TaskWorkerLoopState::new(), &mut q, snk);
    assert_eq!(snk_state.pipeline_derivatives.unwrap().version, 4);
    let setup = ready_setup();
    assert!(SinkWorkerThread::should_send(&snk_state, &setup));
    let mut queues = TaskQueues::new();
    for r in rows {
        SourceWorkerThread::main_loop_cycle(&src_state, &setup, &mut queues, Ok(r)).unwrap();
        SourceWorkerThread::main_loop_cycle(&src_state, &setup, &mut queues, Err(timeout())).unwrap();
    }
    let mut delivered = Vec::new();
    while queues.buffered_rows() > 0 || queues.sink_backlog() > 0 {
        generic_main_loop_cycle(&gen_state, &setup, &mut queues);
        while let Some(r) = queues.sink_next_row() {
            delivered.push(r.payload.clone());
            queues.sink_cycle(Ok(())).unwrap();
        }
    }
    delivered
}

#[test]
fn identity_pump_round_trip_keeps_order() {
    let got = run_to_sink(vec![row("A"), row("B"), row("C")]);
    assert_eq!(got, vec![b"A".to_vec(), b"B".to_vec(), b"C".to_vec()]);
}

#[test]
fn passthrough_pipeline_delivers_json_rows_unmodified() {
    let rows = vec![
        r#"{"ts":"2021-11-04 23:02:52.123456789","ticker":"ORCL","amount":20}"#,
        r#"{"ts":"2021-11-04 23:03:29.123456789","ticker":"IBM","amount":30}"#,
        r#"{"ts":"2021-11-04 23:03:42.123456789","ticker":"GOOGL","amount":100}"#,
    ];
    let got = run_to_sink(rows.iter().map(|s| row(s)).collect());
    let want: Vec<Vec<u8>> = rows.iter().map(|s| s.as_bytes().to_vec()).collect();
    assert_eq!(got, want);
}

#[test]
fn many_rows_pass_in_order_over_several_cycles() {
    let names: Vec<String> = (0..40).map(|i| format!("r{}", i)).collect();
    let got = run_to_sink(names.iter().map(|s| row(s)).collect());
    let want: Vec<Vec<u8>> = names.iter().map(|s| s.as_bytes().to_vec()).collect();
    assert_eq!(got, want);
}

#[test]
fn ddl_that_does_not_fit_is_refused_and_not_published() {
    let mut q = EventQueue::new();
    let id = q.subscribe(SourceWorkerThread::event_subscription());
    let mut pipeline = Pipeline::new();
    let e = apply_new_pipeline(&mut pipeline, DdlCommand::CreatePump, &mut q).unwrap_err();
    assert!(matches!(e, SpringError::Sql(_)));
    assert_eq!(e.responsibility(), SpringErrorResponsibility::Client);
    assert_eq!(q.poll_blocking(id), None);
    assert_eq!(pipeline.current.version, 0);
    let d = apply_new_pipeline(&mut pipeline, DdlCommand::CreateSourceStream, &mut q).unwrap();
    assert_eq!(d.version, 1);
    assert!(apply_new_pipeline(&mut pipeline, DdlCommand::CreateSourceStream, &mut q).is_err());
    assert_eq!(q.poll_blocking(id), Some(BlockingEvent::UpdatePipeline(d)));
}

#[test]
fn critical_pressure_purges_then_moderate_resumes() {
    let mut q = EventQueue::new();
    let gen = q.subscribe(event_subscription(TaskWorkerKind::Generic));
    started_pipeline(&mut q);
    let mut state = drain_events(TaskWorkerKind::Generic, TaskWorkerLoopState::new(), &mut q, gen);
    let mut queues = TaskQueues::new();
    for s in ["a", "bb", "ccc"] {
        queues.source_cycle(Ok(row(s))).unwrap();
    }
    state.memory_state = MemoryState::Critical;
    let before = queues.buffered_rows();
    let u = generic_main_loop_cycle(&state, &ready_setup(), &mut queues);
    assert!(queues.buffered_rows() < before);
    assert_eq!(queues.buffered_rows(), 0);
    assert_eq!(queues.sink_backlog(), 0);
    assert_eq!((u.rows_dequeued, u.bytes_released), (3, 6));
    queues.source_cycle(Ok(row("d"))).unwrap();
    state.memory_state = MemoryState::Moderate;
    let u = generic_main_loop_cycle(&state, &ready_setup(), &mut queues);
    assert_eq!(u.rows_processed, 1);
    assert_eq!(payloads(&queues.sink_queue), vec![b"d".to_vec()]);
}

#[test]
fn severe_pressure_moves_one_row_per_cycle() {
    let mut q = EventQueue::new();
    let gen = q.subscribe(event_subscription(TaskWorkerKind::Generic));
    started_pipeline(&mut q);
    let mut state = drain_events(TaskWorkerKind::Generic, TaskWorkerLoopState::new(), &mut q, gen);
    state.memory_state = MemoryState::Severe;
    let mut queues = TaskQueues::new();
    for s in ["a", "b"] {
        queues.source_cycle(Ok(row(s))).unwrap();
    }
    generic_main_loop_cycle(&state, &ready_setup(), &mut queues);
    assert_eq!(payloads(&queues.sink_queue), vec![b"a".to_vec()]);
    assert_eq!(payloads(&queues.source_queue), vec![b"b".to_vec()]);
}

#[test]
fn stopped_pump_moves_nothing() {
    let state = TaskWorkerLoopState::new();
    let mut queues = TaskQueues::new();
    queues.source_cycle(Ok(row("a"))).unwrap();
    let u = generic_main_loop_cycle(&state, &ready_setup(), &mut queues);
    assert_eq!(u.rows_processed, 0);
    assert_eq!(queues.buffered_rows(), 1);
}

#[test]
fn source_errors_other_than_timeout_are_handed_back() {
    let mut queues = TaskQueues::new();
    let u = queues.source_cycle(Err(timeout())).unwrap();
    assert_eq!(u.rows_enqueued, 0);
    let e = queues
        .source_cycle(Err(SpringError::ForeignIo { foreign_info: ForeignInfo::InMemoryQueue { name: "q".to_string() }, source: cause() }))
        .unwrap_err();
    assert_eq!(e.responsibility(), SpringErrorResponsibility::Foreign);
    assert_eq!(queues.buffered_rows(), 0);
    let u = queues.source_cycle(Ok(row("abcd"))).unwrap();
    assert_eq!((u.rows_enqueued, u.bytes_allocated), (1, 4));
}

#[test]
fn source_worker_without_pipeline_queues_nothing() {
    let state = TaskWorkerLoopState::new();
    assert!(!SourceWorkerThread::should_pull(&state, &ready_setup()));
    let mut queues = TaskQueues::new();
    SourceWorkerThread::main_loop_cycle(&state, &ready_setup(), &mut queues, Ok(row("a"))).unwrap();
    assert_eq!(queues.buffered_rows(), 0);
    assert_eq!(SourceWorkerThread::thread_name(), "SourceWorker");
    assert_eq!(
        SourceWorkerThread::event_subscription(),
        vec![
            EventTag::Blocking(BlockingEventTag::UpdatePipeline),
            EventTag::NonBlocking(NonBlockingEventTag::ReplacePerformanceMetrics)
        ]
    );
}

#[test]
fn failed_sink_send_is_retried() {
    let mut queues = TaskQueues::new();
    queues.sink_queue.push_back(row("x"));
    queues.sink_queue.push_back(row("y"));
    let e = queues
        .sink_cycle(Err(SpringError::ForeignIo { foreign_info: ForeignInfo::InMemoryQueue { name: "q".to_string() }, source: cause() }))
        .unwrap_err();
    assert_eq!(e.responsibility(), SpringErrorResponsibility::Foreign);
    assert_eq!(queues.sink_next_row().unwrap().payload, b"x".to_vec());
    let u = queues.sink_cycle(Ok(())).unwrap();
    assert_eq!((u.rows_dequeued, u.bytes_released), (1, 1));
    assert_eq!(queues.sink_next_row().unwrap().payload, b"y".to_vec());
}

#[test]
fn sink_factory_picks_the_instance_kind() {
    assert!(!ServerInstanceFactory::is_sink(ServerType::SourceNet));
    assert_eq!(ServerInstanceFactory::sink(ServerType::SinkNet), SinkServerKind::Net);
    assert_eq!(ServerInstanceFactory::sink(ServerType::SinkInMemoryQueue), SinkServerKind::InMemoryQueue);
}

#[test]
fn setup_barrier_waits_for_every_worker() {
    let mut c = WorkerSetupCoordinator::new(1, 2, 1, 1);
    assert!(!c.is_setup_done());
    SourceWorkerThread::setup_ready(&mut c);
    SourceWorkerThread::setup_ready(&mut c);
    assert_eq!(c.ready_source, 1);
    c.ready(TaskWorkerKind::Generic);
    c.ready(TaskWorkerKind::Sink);
    assert!(!c.is_setup_done());
    c.ready(TaskWorkerKind::Generic);
    assert!(!c.is_setup_done());
    c.ready_memory_state_machine_worker();
    c.ready_memory_state_machine_worker();
    assert_eq!(c.ready_memory, 1);
    assert!(c.is_setup_done());
}

#[test]
fn memory_worker_reads_the_latest_summary() {
    let mut q = EventQueue::new();
    let gen = q.subscribe(event_subscription(TaskWorkerKind::Generic));
    let mem = q.subscribe(MemoryStateMachineWorker::event_subscription());
    let mut w = MemoryStateMachineWorker::new();
    assert_eq!(w.main_loop_cycle(&mut q, mem), None);
    let mut low = PerformanceMetrics::new();
    low.bytes_allocated = 100;
    let mut high = PerformanceMetrics::new();
    high.bytes_allocated = 6500;
    q.publish_non_blocking(NonBlockingEvent::ReportMetricsSummary(low.summary()));
    q.publish_non_blocking(NonBlockingEvent::ReportMetricsSummary(high.summary()));
    let t = w.main_loop_cycle(&mut q, mem).unwrap();
    assert_eq!(t.to_state, MemoryState::Severe);
    assert_eq!(w.main_loop_cycle(&mut q, mem), None);
    assert_eq!(q.poll_blocking(gen), Some(BlockingEvent::TransitMemoryState(t)));
}

#[test]
fn no_dataflow_before_the_setup_barrier() {
    let mut q = EventQueue::new();
    let src = q.subscribe(SourceWorkerThread::event_subscription());
    let gen = q.subscribe(event_subscription(TaskWorkerKind::Generic));
    let snk = q.subscribe(SinkWorkerThread::event_subscription());
    started_pipeline(&mut q);
    let src_state = drain_events(TaskWorkerKind::Source, TaskWorkerLoopState::new(), &mut q, src);
    let gen_state = drain_events(TaskWorkerKind::Generic, TaskWorkerLoopState::new(), &mut q, gen);
    let snk_state = drain_events(TaskWorkerKind::Sink, TaskWorkerLoopState::new(), &mut q, snk);
    let mut setup = WorkerSetupCoordinator::new(1, 1, 1, 1);
    setup.ready_memory_state_machine_worker();
    SourceWorkerThread::setup_ready(&mut setup);
    setup.ready(TaskWorkerKind::Generic);
    assert!(!SourceWorkerThread::should_pull(&src_state, &setup));
    assert!(!SinkWorkerThread::should_send(&snk_state, &setup));
    let mut queues = TaskQueues::new();
    SourceWorkerThread::main_loop_cycle(&src_state, &setup, &mut queues, Ok(row("a"))).unwrap();
    assert_eq!(queues.buffered_rows(), 0);
    queues.source_cycle(Ok(row("b"))).unwrap();
    let u = generic_main_loop_cycle(&gen_state, &setup, &mut queues);
    assert_eq!(u.rows_processed, 0);
    assert_eq!(queues.sink_backlog(), 0);
    setup.ready(TaskWorkerKind::Sink);
    assert!(SourceWorkerThread::should_pull(&src_state, &setup));
    assert!(SinkWorkerThread::should_send(&snk_state, &setup));
    generic_main_loop_cycle(&gen_state, &setup, &mut queues);
    assert_eq!(queues.sink_backlog(), 1);
}

#[test]
fn round_robin_visits_tasks_in_registration_order() {
    let mut rr = TaskRoundRobin::new(3);
    let picks: Vec<Option<usize>> = (0..7).map(|_| rr.next_task()).collect();
    assert_eq!(picks, vec![Some(0), Some(1), Some(2), Some(0), Some(1), Some(2), Some(0)]);
    let mut none = TaskRoundRobin::new(0);
    assert_eq!(none.next_task(), None);
}

#[test]
fn drain_with_only_metrics_keeps_the_snapshot() {
    let mut q = EventQueue::new();
    let id = q.subscribe(SourceWorkerThread::event_subscription());
    let mut m1 = PerformanceMetrics::new();
    m1.rows_processed = 5;
    let mut m2 = PerformanceMetrics::new();
    m2.rows_processed = 9;
    q.publish_non_blocking(NonBlockingEvent::ReplacePerformanceMetrics(m1));
    q.publish_non_blocking(NonBlockingEvent::ReplacePerformanceMetrics(m2));
    let mut start = TaskWorkerLoopState::new();
    start.pipeline_derivatives = Some(PipelineDerivatives::empty());
    let s = drain_events(TaskWorkerKind::Source, start, &mut q, id);
    assert_eq!(s.metrics, Some(m2));
    assert_eq!(s.pipeline_derivatives, Some(PipelineDerivatives::empty()));
    let again = drain_events(TaskWorkerKind::Source, s, &mut q, id);
    assert_eq!(again, s);
}
