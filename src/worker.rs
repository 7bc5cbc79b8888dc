//! Worker loop state and the decisions each worker makes per cycle.
//!
//! A worker first applies its pending blocking events in publish order,
//! then the latest value of each non-blocking tag it listens to, and only
//! then runs its scheduler with the state that results. The threads and the
//! foreign I/O around these decisions are not part of this module.

use vstd::prelude::*;
use crate::dataflow::{
    metrics_update, pumped_sink, pumped_source, row_bytes, rows_bytes, rows_moved, Row, TaskQueues,
};
use crate::error::SpringError;
use crate::event_queue::{
    blocking_tag_of, offered_blocking, BlockingEvent, BlockingEventTag, EventQueue, EventTag, NonBlockingEvent,
    NonBlockingEventTag,
};
use crate::memory_state_machine::{
    next_state, MemoryState, MemoryStateMachine, MemoryStateMachineThreshold, MemoryStateTransition,
    DEFAULT_CRITICAL_TO_SEVERE_BYTES, DEFAULT_MODERATE_TO_SEVERE_BYTES,
    DEFAULT_SEVERE_TO_CRITICAL_BYTES, DEFAULT_SEVERE_TO_MODERATE_BYTES, DEFAULT_UPPER_LIMIT_BYTES,
};
use crate::performance_metrics::{
    MetricsUpdateByTaskExecutionOrPurge, PerformanceMetrics, PerformanceMetricsSummary,
};
use crate::pipeline::{
    ddl_allowed, ddl_applied, pump_runs, DdlCommand, Pipeline, PipelineDerivatives, PumpState,
};

verus! {

/// What a task worker carries from one cycle to the next.
#[derive(Clone, Copy, PartialEq, Eq, Structural, Debug)]
pub struct TaskWorkerLoopState {
    /// The pipeline snapshot in use; none before the first one arrives.
    pub pipeline_derivatives: Option<PipelineDerivatives>,
    /// The latest metrics this worker was sent.
    pub metrics: Option<PerformanceMetrics>,
    pub memory_state: MemoryState,
}

/// The kinds of task workers.
#[derive(Clone, Copy, PartialEq, Eq, Structural, Debug)]
pub enum TaskWorkerKind {
    Source,
    Generic,
    Sink,
}

/// The tags a worker kind listens to.
pub open spec fn subscription_of(kind: TaskWorkerKind) -> Seq<EventTag> {
    match kind {
        TaskWorkerKind::Source => seq![
            EventTag::Blocking(BlockingEventTag::UpdatePipeline),
            EventTag::NonBlocking(NonBlockingEventTag::ReplacePerformanceMetrics),
        ],
        TaskWorkerKind::Generic => seq![
            EventTag::Blocking(BlockingEventTag::UpdatePipeline),
            EventTag::Blocking(BlockingEventTag::TransitMemoryState),
            EventTag::NonBlocking(NonBlockingEventTag::ReplacePerformanceMetrics),
        ],
        TaskWorkerKind::Sink => seq![
            EventTag::Blocking(BlockingEventTag::UpdatePipeline),
            EventTag::NonBlocking(NonBlockingEventTag::ReplacePerformanceMetrics),
        ],
    }
}

/// The state after applying one blocking event.
pub open spec fn applied_blocking(s: TaskWorkerLoopState, e: BlockingEvent) -> TaskWorkerLoopState {
    match e {
        BlockingEvent::UpdatePipeline(p) => TaskWorkerLoopState { pipeline_derivatives: Some(p), ..s },
        BlockingEvent::TransitMemoryState(t) => TaskWorkerLoopState { memory_state: t.to_state, ..s },
    }
}

/// The state after applying `evs` in order.
pub open spec fn applied_all(s: TaskWorkerLoopState, evs: Seq<BlockingEvent>) -> TaskWorkerLoopState
    decreases evs.len(),
{
    if evs.len() == 0 {
        s
    } else {
        applied_blocking(applied_all(s, evs.drop_last()), evs.last())
    }
}

/// The snapshot of the last `UpdatePipeline` event of `evs`, if any.
pub open spec fn last_pipeline(evs: Seq<BlockingEvent>) -> Option<PipelineDerivatives>
    decreases evs.len(),
{
    if evs.len() == 0 {
        None
    } else {
        match evs.last() {
            BlockingEvent::UpdatePipeline(p) => Some(p),
            _ => last_pipeline(evs.drop_last()),
        }
    }
}

/// The state after the latest non-blocking event, where one was waiting.
pub open spec fn applied_latest_metrics(
    s: TaskWorkerLoopState,
    latest: Option<NonBlockingEvent>,
) -> TaskWorkerLoopState {
    match latest {
        Some(NonBlockingEvent::ReplacePerformanceMetrics(m)) => TaskWorkerLoopState {
            metrics: Some(m),
            ..s
        },
        _ => s,
    }
}

impl TaskWorkerLoopState {
    /// The state of a worker that has received nothing yet.
    pub fn new() -> (r: Self)
        ensures
            r.pipeline_derivatives is None,
            r.metrics is None,
            r.memory_state == MemoryState::Moderate,
    {
        TaskWorkerLoopState {
            pipeline_derivatives: None,
            metrics: None,
            memory_state: MemoryState::Moderate,
        }
    }
}

/// The tags a worker kind listens to.
pub fn event_subscription(kind: TaskWorkerKind) -> (r: Vec<EventTag>)
    ensures
        r@ == subscription_of(kind),
{
    let mut v: Vec<EventTag> = Vec::new();
    v.push(EventTag::Blocking(BlockingEventTag::UpdatePipeline));
    match kind {
        TaskWorkerKind::Generic => {
            v.push(EventTag::Blocking(BlockingEventTag::TransitMemoryState));
        },
        _ => {},
    }
    v.push(EventTag::NonBlocking(NonBlockingEventTag::ReplacePerformanceMetrics));
    assert(v@ =~= subscription_of(kind));
    v
}

/// Applies one blocking event. Only events of tags the worker kind listens
/// to can reach it.
pub fn apply_blocking_event(kind: TaskWorkerKind, state: TaskWorkerLoopState, e: BlockingEvent) -> (r:
    TaskWorkerLoopState)
    requires
        subscription_of(kind).contains(EventTag::Blocking(blocking_tag_of(e))),
    ensures
        r == applied_blocking(state, e),
{
    match e {
        BlockingEvent::UpdatePipeline(p) => ev_update_pipeline(state, p),
        BlockingEvent::TransitMemoryState(t) => {
            proof {
                if kind != TaskWorkerKind::Generic {
                    assert(subscription_of(kind)[0] != EventTag::Blocking(blocking_tag_of(e)));
                    assert(subscription_of(kind)[1] != EventTag::Blocking(blocking_tag_of(e)));
                }
            }
            TaskWorkerLoopState { memory_state: t.to_state, ..state }
        },
    }
}

/// Installs a new pipeline snapshot.
pub fn ev_update_pipeline(state: TaskWorkerLoopState, pipeline_derivatives: PipelineDerivatives) -> (r:
    TaskWorkerLoopState)
    ensures
        r == (TaskWorkerLoopState { pipeline_derivatives: Some(pipeline_derivatives), ..state }),
{
    TaskWorkerLoopState { pipeline_derivatives: Some(pipeline_derivatives), ..state }
}

/// Installs the latest metrics.
pub fn ev_replace_performance_metrics(state: TaskWorkerLoopState, metrics: PerformanceMetrics) -> (r:
    TaskWorkerLoopState)
    ensures
        r == (TaskWorkerLoopState { metrics: Some(metrics), ..state }),
{
    TaskWorkerLoopState { metrics: Some(metrics), ..state }
}

/// Start of a cycle: applies every pending blocking event of subscriber
/// `id` in publish order, then its latest metrics, if one is waiting.
/// Afterwards nothing is pending for it.
pub fn drain_events(
    kind: TaskWorkerKind,
    state: TaskWorkerLoopState,
    queue: &mut EventQueue,
    id: usize,
) -> (r: TaskWorkerLoopState)
    requires
        old(queue).wf(),
        id < old(queue).subscriptions@.len(),
        old(queue).subscriptions@[id as int].tags@ == subscription_of(kind),
    ensures
        final(queue).wf(),
        final(queue).subscriptions@.len() == old(queue).subscriptions@.len(),
        forall|i: int| 0 <= i < old(queue).subscriptions@.len() && i != id
            ==> final(queue).subscriptions@[i] == old(queue).subscriptions@[i],
        final(queue).subscriptions@[id as int].tags@ == subscription_of(kind),
        final(queue).subscriptions@[id as int].blocking@.len() == 0,
        final(queue).subscriptions@[id as int].latest_of(
            NonBlockingEventTag::ReplacePerformanceMetrics,
        ) is None,
        r == applied_latest_metrics(
            applied_all(state, old(queue).subscriptions@[id as int].blocking@),
            old(queue).subscriptions@[id as int].latest_of(
                NonBlockingEventTag::ReplacePerformanceMetrics,
            ),
        ),
        r.pipeline_derivatives == match last_pipeline(old(queue).subscriptions@[id as int].blocking@) {
            Some(p) => Some(p),
            None => state.pipeline_derivatives,
        },
        r.metrics == match old(queue).subscriptions@[id as int].latest_of(
            NonBlockingEventTag::ReplacePerformanceMetrics,
        ) {
            Some(NonBlockingEvent::ReplacePerformanceMetrics(m)) => Some(m),
            _ => state.metrics,
        },
{
    let ghost pending = queue.subscriptions@[id as int].blocking@;
    let mut s = state;
    let ghost mut taken: int = 0;
    loop
        invariant
            queue.wf(),
            id < queue.subscriptions@.len(),
            queue.subscriptions@.len() == old(queue).subscriptions@.len(),
            forall|i: int| 0 <= i < old(queue).subscriptions@.len() && i != id
                ==> queue.subscriptions@[i] == old(queue).subscriptions@[i],
            queue.subscriptions@[id as int].tags@ == subscription_of(kind),
            queue.subscriptions@[id as int].latest@ == old(queue).subscriptions@[id as int].latest@,
            pending == old(queue).subscriptions@[id as int].blocking@,
            0 <= taken <= pending.len(),
            queue.subscriptions@[id as int].blocking@ == pending.subrange(taken, pending.len() as int),
            s == applied_all(state, pending.subrange(0, taken)),
        ensures
            queue.wf(),
            id < queue.subscriptions@.len(),
            queue.subscriptions@.len() == old(queue).subscriptions@.len(),
            forall|i: int| 0 <= i < old(queue).subscriptions@.len() && i != id
                ==> queue.subscriptions@[i] == old(queue).subscriptions@[i],
            queue.subscriptions@[id as int].tags@ == subscription_of(kind),
            queue.subscriptions@[id as int].latest@ == old(queue).subscriptions@[id as int].latest@,
            queue.subscriptions@[id as int].blocking@.len() == 0,
            s == applied_all(state, pending),
        decreases pending.len() - taken,
    {
        proof {
            assert(queue.subscriptions@[id as int].wf());
        }
        match queue.poll_blocking(id) {
            Some(e) => {
                proof {
                    let t = taken;
                    let old_sub = pending.subrange(t, pending.len() as int);
                    assert(old_sub[0] == pending[t]);
                    assert(pending.subrange(0, t + 1).drop_last() =~= pending.subrange(0, t));
                    assert(old_sub.drop_first() =~= pending.subrange(t + 1, pending.len() as int));
                }
                s = apply_blocking_event(kind, s, e);
                proof {
                    taken = taken + 1;
                }
            },
            None => {
                proof {
                    assert(pending.subrange(0, taken) =~= pending);
                }
                break;
            },
        }
    }
    proof {
        assert(queue.subscriptions@[id as int].wf());
        lemma_latest_snapshot_installed(state, pending);
        lemma_blocking_keeps_metrics(state, pending);
    }
    let latest = queue.poll_non_blocking(id, NonBlockingEventTag::ReplacePerformanceMetrics);
    match latest {
        Some(NonBlockingEvent::ReplacePerformanceMetrics(m)) => ev_replace_performance_metrics(s, m),
        _ => s,
    }
}

/// A worker that applied the blocking events `evs` in order holds the
/// snapshot of the last `UpdatePipeline` among them, and keeps the one it
/// had where there was none: it never runs a cycle on an older snapshot.
pub proof fn lemma_latest_snapshot_installed(s: TaskWorkerLoopState, evs: Seq<BlockingEvent>)
    ensures
        applied_all(s, evs).pipeline_derivatives == match last_pipeline(evs) {
            Some(p) => Some(p),
            None => s.pipeline_derivatives,
        },
    decreases evs.len(),
{
    if evs.len() > 0 {
        lemma_latest_snapshot_installed(s, evs.drop_last());
    }
}

/// Startup barrier bookkeeping: how many workers of each kind are expected
/// and how many have signalled readiness. No worker starts dataflow work
/// before every expected worker is ready.
#[derive(Debug)]
pub struct WorkerSetupCoordinator {
    pub n_source_workers: u64,
    pub n_generic_workers: u64,
    pub n_sink_workers: u64,
    pub n_memory_workers: u64,
    pub ready_source: u64,
    pub ready_generic: u64,
    pub ready_sink: u64,
    pub ready_memory: u64,
}

impl WorkerSetupCoordinator {
    /// Readiness never exceeds what is expected.
    pub open spec fn wf(&self) -> bool {
        &&& self.ready_source <= self.n_source_workers
        &&& self.ready_generic <= self.n_generic_workers
        &&& self.ready_sink <= self.n_sink_workers
        &&& self.ready_memory <= self.n_memory_workers
    }

    /// Whether every expected worker is ready.
    pub open spec fn setup_done(&self) -> bool {
        &&& self.ready_source == self.n_source_workers
        &&& self.ready_generic == self.n_generic_workers
        &&& self.ready_sink == self.n_sink_workers
        &&& self.ready_memory == self.n_memory_workers
    }

    /// A barrier expecting the given numbers of workers, none ready yet.
    pub fn new(
        n_source_workers: u64,
        n_generic_workers: u64,
        n_sink_workers: u64,
        n_memory_workers: u64,
    ) -> (r: Self)
        ensures
            r.wf(),
            r.n_source_workers == n_source_workers,
            r.n_generic_workers == n_generic_workers,
            r.n_sink_workers == n_sink_workers,
            r.n_memory_workers == n_memory_workers,
            r.ready_source == 0 && r.ready_generic == 0 && r.ready_sink == 0 && r.ready_memory == 0,
    {
        WorkerSetupCoordinator {
            n_source_workers,
            n_generic_workers,
            n_sink_workers,
            n_memory_workers,
            ready_source: 0,
            ready_generic: 0,
            ready_sink: 0,
            ready_memory: 0,
        }
    }

    /// The memory state machine worker is ready. A signal beyond the
    /// expected number is ignored.
    pub fn ready_memory_state_machine_worker(&mut self)
        requires
            old(self).wf(),
        ensures
            final(self).wf(),
            final(self).n_source_workers == old(self).n_source_workers,
            final(self).n_generic_workers == old(self).n_generic_workers,
            final(self).n_sink_workers == old(self).n_sink_workers,
            final(self).n_memory_workers == old(self).n_memory_workers,
            final(self).ready_source == old(self).ready_source,
            final(self).ready_generic == old(self).ready_generic,
            final(self).ready_sink == old(self).ready_sink,
            final(self).ready_memory == if old(self).ready_memory < old(self).n_memory_workers {
                old(self).ready_memory + 1
            } else {
                old(self).ready_memory as int
            },
    {
        if self.ready_memory < self.n_memory_workers {
            self.ready_memory = self.ready_memory + 1;
        }
    }

    /// One worker of `kind` is ready. A signal beyond the expected number
    /// is ignored.
    pub fn ready(&mut self, kind: TaskWorkerKind)
        requires
            old(self).wf(),
        ensures
            final(self).wf(),
            final(self).n_source_workers == old(self).n_source_workers,
            final(self).n_generic_workers == old(self).n_generic_workers,
            final(self).n_sink_workers == old(self).n_sink_workers,
            final(self).n_memory_workers == old(self).n_memory_workers,
            final(self).ready_memory == old(self).ready_memory,
            final(self).ready_source == if kind == TaskWorkerKind::Source && old(self).ready_source
                < old(self).n_source_workers {
                old(self).ready_source + 1
            } else {
                old(self).ready_source as int
            },
            final(self).ready_generic == if kind == TaskWorkerKind::Generic && old(self).ready_generic
                < old(self).n_generic_workers {
                old(self).ready_generic + 1
            } else {
                old(self).ready_generic as int
            },
            final(self).ready_sink == if kind == TaskWorkerKind::Sink && old(self).ready_sink
                < old(self).n_sink_workers {
                old(self).ready_sink + 1
            } else {
                old(self).ready_sink as int
            },
    {
        match kind {
            TaskWorkerKind::Source => {
                if self.ready_source < self.n_source_workers {
                    self.ready_source = self.ready_source + 1;
                }
            },
            TaskWorkerKind::Generic => {
                if self.ready_generic < self.n_generic_workers {
                    self.ready_generic = self.ready_generic + 1;
                }
            },
            TaskWorkerKind::Sink => {
                if self.ready_sink < self.n_sink_workers {
                    self.ready_sink = self.ready_sink + 1;
                }
            },
        }
    }

    /// Whether every expected worker is ready, so dataflow work may start.
    pub fn is_setup_done(&self) -> (r: bool)
        ensures
            r == self.setup_done(),
    {
        self.ready_source == self.n_source_workers && self.ready_generic == self.n_generic_workers
            && self.ready_sink == self.n_sink_workers && self.ready_memory == self.n_memory_workers
    }
}

/// Blocking events never touch the metrics a worker holds.
pub proof fn lemma_blocking_keeps_metrics(s: TaskWorkerLoopState, evs: Seq<BlockingEvent>)
    ensures
        applied_all(s, evs).metrics == s.metrics,
    decreases evs.len(),
{
    if evs.len() > 0 {
        lemma_blocking_keeps_metrics(s, evs.drop_last());
    }
}

/// The task that the `i`-th pick after cursor `start` selects, among `n`
/// tasks in registration order.
pub open spec fn round_robin_pick(start: int, n: int, i: int) -> int {
    if start + i < n {
        start + i
    } else {
        start + i - n
    }
}

/// Whether one of the first `n` picks after cursor `start` selects `t`.
pub open spec fn picked_within(start: int, n: int, t: int) -> bool {
    exists|i: int| 0 <= i < n && #[trigger] round_robin_pick(start, n, i) == t
}

/// Round-robin choice among `n_tasks` tasks in registration order, so no
/// task starves.
#[derive(Debug)]
pub struct TaskRoundRobin {
    pub n_tasks: usize,
    pub cursor: usize,
}

impl TaskRoundRobin {
    /// The cursor points at a registered task where there is one.
    pub open spec fn wf(&self) -> bool {
        &&& self.n_tasks == 0 ==> self.cursor == 0
        &&& self.n_tasks > 0 ==> self.cursor < self.n_tasks
    }

    /// A rotation over `n_tasks` tasks that starts with the first one.
    pub fn new(n_tasks: usize) -> (r: Self)
        ensures
            r.wf(),
            r.n_tasks == n_tasks,
            r.cursor == 0,
    {
        TaskRoundRobin { n_tasks, cursor: 0 }
    }

    /// The task to run this cycle, and the rotation moves on by one.
    /// Without tasks there is none.
    pub fn next_task(&mut self) -> (r: Option<usize>)
        requires
            old(self).wf(),
        ensures
            final(self).wf(),
            final(self).n_tasks == old(self).n_tasks,
            old(self).n_tasks == 0 ==> r is None && final(self).cursor == 0,
            old(self).n_tasks > 0 ==> r == Some(old(self).cursor) && final(self).cursor
                == round_robin_pick(old(self).cursor as int, old(self).n_tasks as int, 1),
    {
        if self.n_tasks == 0 {
            return None;
        }
        let picked = self.cursor;
        self.cursor = if self.cursor + 1 == self.n_tasks {
            0
        } else {
            self.cursor + 1
        };
        Some(picked)
    }
}

/// No task starves: the picks of `n` consecutive cycles, starting at any
/// cursor, select every one of the `n` tasks, each exactly once, and each
/// pick is where the previous one left the cursor.
pub proof fn lemma_round_robin_covers_all(start: int, n: int)
    requires
        0 <= start < n,
    ensures
        forall|i: int| 0 <= i < n ==> 0 <= #[trigger] round_robin_pick(start, n, i) < n,
        forall|t: int| 0 <= t < n ==> #[trigger] picked_within(start, n, t),
        forall|i: int, j: int| 0 <= i < j < n ==> #[trigger] round_robin_pick(start, n, i) != #[trigger] round_robin_pick(start, n, j),
        forall|i: int| 0 <= i < n - 1 ==> #[trigger] round_robin_pick(round_robin_pick(start, n, 1), n, i)
            == round_robin_pick(start, n, i + 1),
{
    assert forall|t: int| 0 <= t < n implies #[trigger] picked_within(start, n, t) by {
        let i = if t >= start { t - start } else { t + n - start };
        assert(round_robin_pick(start, n, i) == t);
    }
}

/// The source worker: pulls rows from the foreign source into the source
/// queue.
#[derive(Debug)]
pub struct SourceWorkerThread;

/// Whether a worker in state `s` has a source stream to pull from.
pub open spec fn has_source(s: TaskWorkerLoopState) -> bool {
    s.pipeline_derivatives is Some && s.pipeline_derivatives->Some_0.has_source_stream
}

/// A source worker pulls once the barrier is passed and it has a source.
pub open spec fn may_pull(s: TaskWorkerLoopState, setup: WorkerSetupCoordinator) -> bool {
    setup.setup_done() && has_source(s)
}

/// Whether a worker in state `s` has a sink stream to send to.
pub open spec fn has_sink(s: TaskWorkerLoopState) -> bool {
    s.pipeline_derivatives is Some && s.pipeline_derivatives->Some_0.has_sink_stream
}

impl SourceWorkerThread {
    /// Name of the thread that runs it.
    pub fn thread_name() -> (r: &'static str)
        ensures
            r@ == "SourceWorker"@,
    {
        "SourceWorker"
    }

    /// Signals at the startup barrier that a source worker is ready.
    pub fn setup_ready(worker_setup_coordinator: &mut WorkerSetupCoordinator)
        requires
            old(worker_setup_coordinator).wf(),
        ensures
            final(worker_setup_coordinator).wf(),
            final(worker_setup_coordinator).ready_source == if old(worker_setup_coordinator).ready_source
                < old(worker_setup_coordinator).n_source_workers {
                old(worker_setup_coordinator).ready_source + 1
            } else {
                old(worker_setup_coordinator).ready_source as int
            },
            final(worker_setup_coordinator).ready_generic == old(worker_setup_coordinator).ready_generic,
            final(worker_setup_coordinator).ready_sink == old(worker_setup_coordinator).ready_sink,
            final(worker_setup_coordinator).ready_memory == old(worker_setup_coordinator).ready_memory,
            final(worker_setup_coordinator).n_memory_workers == old(worker_setup_coordinator).n_memory_workers,
            final(worker_setup_coordinator).n_source_workers == old(worker_setup_coordinator).n_source_workers,
            final(worker_setup_coordinator).n_generic_workers == old(worker_setup_coordinator).n_generic_workers,
            final(worker_setup_coordinator).n_sink_workers == old(worker_setup_coordinator).n_sink_workers,
    {
        worker_setup_coordinator.ready(TaskWorkerKind::Source)
    }

    /// Listens to `UpdatePipeline` and `ReplacePerformanceMetrics`.
    pub fn event_subscription() -> (r: Vec<EventTag>)
        ensures
            r@ == subscription_of(TaskWorkerKind::Source),
    {
        event_subscription(TaskWorkerKind::Source)
    }

    /// Whether this cycle should pull a row: only once every worker passed
    /// the startup barrier and a snapshot with a source stream is installed.
    pub fn should_pull(state: &TaskWorkerLoopState, setup: &WorkerSetupCoordinator) -> (r: bool)
        ensures
            r == may_pull(*state, *setup),
    {
        if !setup.is_setup_done() {
            return false;
        }
        match state.pipeline_derivatives {
            Some(p) => p.has_source_stream,
            None => false,
        }
    }

    /// One scheduling cycle on the outcome of a pull. Before the startup
    /// barrier is passed, or without a source stream, nothing is queued and
    /// the outcome is dropped.
    pub fn main_loop_cycle(
        state: &TaskWorkerLoopState,
        setup: &WorkerSetupCoordinator,
        queues: &mut TaskQueues,
        pulled: Result<Row, SpringError>,
    ) -> (r: Result<MetricsUpdateByTaskExecutionOrPurge, SpringError>)
        ensures
            final(queues).sink_queue@ == old(queues).sink_queue@,
            !may_pull(*state, *setup) ==> final(queues).source_queue@ == old(queues).source_queue@
                && r is Ok && r->Ok_0 == metrics_update(0, 0, 0, 0, 0),
            may_pull(*state, *setup) && pulled is Ok ==> final(queues).source_queue@ == old(
                queues,
            ).source_queue@.push(pulled->Ok_0) && r is Ok && r->Ok_0 == metrics_update(
                0,
                1,
                0,
                row_bytes(pulled->Ok_0),
                0,
            ),
            may_pull(*state, *setup) && pulled is Err ==> final(queues).source_queue@ == old(
                queues,
            ).source_queue@,
            may_pull(*state, *setup) && pulled is Err && pulled->Err_0 is ForeignInputTimeout ==> r is Ok
                && r->Ok_0 == metrics_update(0, 0, 0, 0, 0),
            may_pull(*state, *setup) && pulled is Err && !(pulled->Err_0 is ForeignInputTimeout) ==> r is Err
                && r->Err_0 == pulled->Err_0,
    {
        if Self::should_pull(state, setup) {
            queues.source_cycle(pulled)
        } else {
            Ok(
                MetricsUpdateByTaskExecutionOrPurge {
                    rows_processed: 0,
                    rows_enqueued: 0,
                    rows_dequeued: 0,
                    bytes_allocated: 0,
                    bytes_released: 0,
                },
            )
        }
    }
}

/// The snapshot a generic worker runs on: the installed one, or the empty
/// pipeline before any arrived.
pub open spec fn effective_pipeline(s: TaskWorkerLoopState) -> PipelineDerivatives {
    match s.pipeline_derivatives {
        Some(p) => p,
        None => PipelineDerivatives {
            version: 0,
            has_source_stream: false,
            has_sink_stream: false,
            pump: PumpState::Absent,
        },
    }
}

/// Generic worker, one scheduling cycle: once the startup barrier is
/// passed, a pump cycle on the installed snapshot under the memory state the
/// worker was last told; before that, nothing.
pub fn generic_main_loop_cycle(
    state: &TaskWorkerLoopState,
    setup: &WorkerSetupCoordinator,
    queues: &mut TaskQueues,
) -> (r: MetricsUpdateByTaskExecutionOrPurge)
    ensures
        !setup.setup_done() ==> final(queues).source_queue@ == old(queues).source_queue@
            && final(queues).sink_queue@ == old(queues).sink_queue@ && r == metrics_update(0, 0, 0, 0, 0),
        setup.setup_done() ==> final(queues).source_queue@ == pumped_source(
            old(queues).source_queue@,
            effective_pipeline(*state),
            state.memory_state,
        ),
        setup.setup_done() ==> final(queues).sink_queue@ == pumped_sink(
            old(queues).source_queue@,
            old(queues).sink_queue@,
            effective_pipeline(*state),
            state.memory_state,
        ),
        setup.setup_done() && state.memory_state == MemoryState::Critical ==> r == metrics_update(
            0,
            0,
            old(queues).source_queue@.len() as u64,
            0,
            rows_bytes(old(queues).source_queue@),
        ),
        setup.setup_done() && state.memory_state != MemoryState::Critical && pump_runs(effective_pipeline(*state)) ==> r
            == metrics_update(
            rows_moved(old(queues).source_queue@.len() as int, state.memory_state) as u64,
            0,
            0,
            0,
            0,
        ),
        setup.setup_done() && state.memory_state != MemoryState::Critical && !pump_runs(effective_pipeline(*state)) ==> r
            == metrics_update(0, 0, 0, 0, 0),
{
    if !setup.is_setup_done() {
        return MetricsUpdateByTaskExecutionOrPurge {
            rows_processed: 0,
            rows_enqueued: 0,
            rows_dequeued: 0,
            bytes_allocated: 0,
            bytes_released: 0,
        };
    }
    let p = match state.pipeline_derivatives {
        Some(p) => p,
        None => PipelineDerivatives::empty(),
    };
    queues.pump_cycle(&p, state.memory_state)
}

/// The sink worker: hands rows of the sink queue to the foreign sink.
#[derive(Debug)]
pub struct SinkWorkerThread;

impl SinkWorkerThread {
    /// Listens to `UpdatePipeline` and `ReplacePerformanceMetrics`.
    pub fn event_subscription() -> (r: Vec<EventTag>)
        ensures
            r@ == subscription_of(TaskWorkerKind::Sink),
    {
        event_subscription(TaskWorkerKind::Sink)
    }

    /// Whether this cycle should send the front row: only once every worker
    /// passed the startup barrier and a snapshot with a sink stream is
    /// installed.
    pub fn should_send(state: &TaskWorkerLoopState, setup: &WorkerSetupCoordinator) -> (r: bool)
        ensures
            r == (setup.setup_done() && has_sink(*state)),
    {
        if !setup.is_setup_done() {
            return false;
        }
        match state.pipeline_derivatives {
            Some(p) => p.has_sink_stream,
            None => false,
        }
    }
}

/// The memory state machine worker: evaluates each metrics summary it is
/// sent and publishes the transitions.
#[derive(Debug)]
pub struct MemoryStateMachineWorker {
    pub machine: MemoryStateMachine,
}

impl MemoryStateMachineWorker {
    /// A worker with the default thresholds, in the Moderate state.
    pub fn new() -> (r: Self)
        ensures
            r.machine.threshold.wf(),
            r.machine.threshold.upper_limit_bytes == DEFAULT_UPPER_LIMIT_BYTES,
            r.machine.threshold.moderate_to_severe_bytes == DEFAULT_MODERATE_TO_SEVERE_BYTES,
            r.machine.threshold.severe_to_critical_bytes == DEFAULT_SEVERE_TO_CRITICAL_BYTES,
            r.machine.threshold.critical_to_severe_bytes == DEFAULT_CRITICAL_TO_SEVERE_BYTES,
            r.machine.threshold.severe_to_moderate_bytes == DEFAULT_SEVERE_TO_MODERATE_BYTES,
            r.machine.state == MemoryState::Moderate,
    {
        let threshold = MemoryStateMachineThreshold::default_thresholds();
        MemoryStateMachineWorker { machine: MemoryStateMachine::new(threshold) }
    }

    /// The tags this worker listens to: `ReportMetricsSummary`.
    pub fn event_subscription() -> (r: Vec<EventTag>)
        ensures
            r@ == seq![EventTag::NonBlocking(NonBlockingEventTag::ReportMetricsSummary)],
    {
        let mut v: Vec<EventTag> = Vec::new();
        v.push(EventTag::NonBlocking(NonBlockingEventTag::ReportMetricsSummary));
        v
    }

    /// One cycle: evaluates a metrics summary and, where the state changed,
    /// publishes the transition as a `TransitMemoryState` event.
    pub fn evaluate(&mut self, summary: &PerformanceMetricsSummary, queue: &mut EventQueue) -> (r:
        Option<MemoryStateTransition>)
        requires
            old(queue).wf(),
        ensures
            final(queue).wf(),
            final(self).machine.threshold == old(self).machine.threshold,
            final(self).machine.state == next_state(
                old(self).machine.threshold,
                old(self).machine.state,
                summary.memory_usage_bytes,
            ),
            r is None <==> final(self).machine.state == old(self).machine.state,
            r is Some ==> r->Some_0 == (MemoryStateTransition {
                from_state: old(self).machine.state,
                to_state: final(self).machine.state,
            }),
            r is None ==> *final(queue) == *old(queue),
            r is Some ==> final(queue).subscriptions@.len() == old(queue).subscriptions@.len() && forall|
                i: int,
            |
                0 <= i < old(queue).subscriptions@.len() ==> {
                    let (o, n) = (#[trigger] old(queue).subscriptions@[i], final(queue).subscriptions@[i]);
                    &&& n.tags@ == o.tags@
                    &&& n.latest@ == o.latest@
                    &&& n.blocking@ == offered_blocking(
                        o.blocking@,
                        o.tags@,
                        BlockingEvent::TransitMemoryState(r->Some_0),
                    )
                },
    {
        let t = self.machine.update_memory_usage(summary.memory_usage_bytes);
        match t {
            Some(tr) => {
                queue.publish_blocking(BlockingEvent::TransitMemoryState(tr));
            },
            None => {},
        }
        t
    }
}

impl MemoryStateMachineWorker {
    /// One cycle of the worker as subscriber `id`: takes the latest metrics
    /// summary, if one was published since the last cycle, and evaluates
    /// it. Without a new summary nothing changes.
    pub fn main_loop_cycle(&mut self, queue: &mut EventQueue, id: usize) -> (r: Option<
        MemoryStateTransition,
    >)
        requires
            old(queue).wf(),
            id < old(queue).subscriptions@.len(),
        ensures
            final(queue).wf(),
            final(queue).subscriptions@.len() == old(queue).subscriptions@.len(),
            final(queue).subscriptions@[id as int].latest_of(NonBlockingEventTag::ReportMetricsSummary) is None,
            final(self).machine.threshold == old(self).machine.threshold,
            ({
                let latest = old(queue).subscriptions@[id as int].latest_of(
                    NonBlockingEventTag::ReportMetricsSummary,
                );
                match latest {
                    Some(NonBlockingEvent::ReportMetricsSummary(sm)) => {
                        &&& final(self).machine.state == next_state(
                            old(self).machine.threshold,
                            old(self).machine.state,
                            sm.memory_usage_bytes,
                        )
                        &&& (r is None <==> final(self).machine.state == old(self).machine.state)
                        &&& r is Some ==> r->Some_0 == (MemoryStateTransition {
                            from_state: old(self).machine.state,
                            to_state: final(self).machine.state,
                        })
                    },
                    _ => r is None && final(self).machine == old(self).machine,
                }
            }),
    {
        proof {
            assert(queue.subscriptions@[id as int].wf());
        }
        let latest = queue.poll_non_blocking(id, NonBlockingEventTag::ReportMetricsSummary);
        match latest {
            Some(NonBlockingEvent::ReportMetricsSummary(sm)) => self.evaluate(&sm, queue),
            _ => None,
        }
    }
}

/// Applies a DDL command and, where it succeeds, publishes the new snapshot
/// as an `UpdatePipeline` blocking event. A refused command publishes
/// nothing.
pub fn apply_new_pipeline(
    pipeline: &mut Pipeline,
    cmd: DdlCommand,
    queue: &mut EventQueue,
) -> (r: Result<PipelineDerivatives, SpringError>)
    requires
        old(queue).wf(),
    ensures
        final(queue).wf(),
        r is Ok <==> ddl_allowed(old(pipeline).current, cmd) && old(pipeline).current.version
            < u64::MAX,
        r is Ok ==> r->Ok_0 == ddl_applied(old(pipeline).current, cmd) && final(pipeline).current
            == r->Ok_0,
        r is Err ==> r->Err_0 is Sql && final(pipeline).current == old(pipeline).current
            && *final(queue) == *old(queue),
        r is Ok ==> final(queue).subscriptions@.len() == old(queue).subscriptions@.len() && forall|
            i: int,
        |
            0 <= i < old(queue).subscriptions@.len() ==> {
                let (o, n) = (#[trigger] old(queue).subscriptions@[i], final(queue).subscriptions@[i]);
                &&& n.tags@ == o.tags@
                &&& n.latest@ == o.latest@
                &&& n.blocking@ == offered_blocking(
                    o.blocking@,
                    o.tags@,
                    BlockingEvent::UpdatePipeline(r->Ok_0),
                )
            },
{
    let r = pipeline.apply_ddl(cmd);
    match &r {
        Ok(d) => {
            queue.publish_blocking(BlockingEvent::UpdatePipeline(*d));
        },
        Err(_) => {},
    }
    r
}

} // verus!
