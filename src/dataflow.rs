//! Rows in flight and the three task schedulers that move them.
//!
//! Rows pulled from the foreign source wait in the source queue; the
//! passthrough pump moves them, in order, to the sink queue; the sink
//! scheduler hands the front row to the foreign sink and drops it once the
//! sink took it, so a failed send is retried on the next cycle.

use vstd::prelude::*;
use std::collections::VecDeque;
use crate::error::SpringError;
use crate::memory_state_machine::MemoryState;
use crate::performance_metrics::{sat_add, MetricsUpdateByTaskExecutionOrPurge};
use crate::pipeline::{pump_runs, PipelineDerivatives};

verus! {

/// One row, as the bytes the foreign source sent.
#[derive(Debug)]
pub struct Row {
    pub payload: Vec<u8>,
}

/// Memory a row takes, in the unit of the memory metric.
pub open spec fn row_bytes(r: Row) -> u64 {
    r.payload.len() as u64
}

/// Memory of all rows of `rows`, held at `u64::MAX`.
pub open spec fn rows_bytes(rows: Seq<Row>) -> u64
    decreases rows.len(),
{
    if rows.len() == 0 {
        0
    } else {
        sat_add(rows_bytes(rows.drop_last()), row_bytes(rows.last()))
    }
}

/// Rows the pump moves per cycle without memory pressure.
pub const MODERATE_BATCH_ROWS: usize = 16;
/// Rows the pump moves per cycle under Severe pressure.
pub const SEVERE_BATCH_ROWS: usize = 1;

/// Rows the pump may move per cycle in memory state `s`; none under
/// Critical pressure, where it purges instead.
pub open spec fn batch_rows(s: MemoryState) -> int {
    match s {
        MemoryState::Moderate => MODERATE_BATCH_ROWS as int,
        MemoryState::Severe => SEVERE_BATCH_ROWS as int,
        MemoryState::Critical => 0,
    }
}

/// Rows one pump cycle moves from a source queue of `len` rows.
pub open spec fn rows_moved(len: int, s: MemoryState) -> int {
    if batch_rows(s) < len {
        batch_rows(s)
    } else {
        len
    }
}

/// Every row in flight, oldest first: the sink queue, then the source queue.
pub open spec fn in_flight(source: Seq<Row>, sink: Seq<Row>) -> Seq<Row> {
    sink + source
}

/// The source queue after one pump cycle.
pub open spec fn pumped_source(source: Seq<Row>, p: PipelineDerivatives, s: MemoryState) -> Seq<Row> {
    if s == MemoryState::Critical {
        Seq::empty()
    } else if pump_runs(p) {
        source.subrange(rows_moved(source.len() as int, s), source.len() as int)
    } else {
        source
    }
}

/// The sink queue after one pump cycle.
pub open spec fn pumped_sink(
    source: Seq<Row>,
    sink: Seq<Row>,
    p: PipelineDerivatives,
    s: MemoryState,
) -> Seq<Row> {
    if s != MemoryState::Critical && pump_runs(p) {
        sink + source.subrange(0, rows_moved(source.len() as int, s))
    } else {
        sink
    }
}

/// A metrics update with all counters at zero but those given.
pub open spec fn metrics_update(
    processed: u64,
    enqueued: u64,
    dequeued: u64,
    allocated: u64,
    released: u64,
) -> MetricsUpdateByTaskExecutionOrPurge {
    MetricsUpdateByTaskExecutionOrPurge {
        rows_processed: processed,
        rows_enqueued: enqueued,
        rows_dequeued: dequeued,
        bytes_allocated: allocated,
        bytes_released: released,
    }
}

fn zero_update() -> (r: MetricsUpdateByTaskExecutionOrPurge)
    ensures
        r == metrics_update(0, 0, 0, 0, 0),
{
    MetricsUpdateByTaskExecutionOrPurge {
        rows_processed: 0,
        rows_enqueued: 0,
        rows_dequeued: 0,
        bytes_allocated: 0,
        bytes_released: 0,
    }
}

/// The row queues of the running pipeline.
#[derive(Debug)]
pub struct TaskQueues {
    pub source_queue: VecDeque<Row>,
    pub sink_queue: VecDeque<Row>,
}

impl TaskQueues {
    /// Empty queues.
    pub fn new() -> (r: Self)
        ensures
            r.source_queue@.len() == 0,
            r.sink_queue@.len() == 0,
    {
        TaskQueues { source_queue: VecDeque::new(), sink_queue: VecDeque::new() }
    }

    /// Rows the pump has not taken yet.
    pub fn buffered_rows(&self) -> (r: usize)
        ensures
            r == self.source_queue@.len(),
    {
        self.source_queue.len()
    }

    /// Rows waiting for the sink.
    pub fn sink_backlog(&self) -> (r: usize)
        ensures
            r == self.sink_queue@.len(),
    {
        self.sink_queue.len()
    }

    /// Source scheduler: takes the outcome of one pull from the foreign
    /// source. A row joins the end of the source queue; a timeout means
    /// nothing was ready and is no failure; any other error is handed back,
    /// with the queues unchanged.
    pub fn source_cycle(&mut self, pulled: Result<Row, SpringError>) -> (r: Result<
        MetricsUpdateByTaskExecutionOrPurge,
        SpringError,
    >)
        ensures
            final(self).sink_queue@ == old(self).sink_queue@,
            pulled is Ok ==> final(self).source_queue@ == old(self).source_queue@.push(pulled->Ok_0),
            pulled is Ok ==> r is Ok && r->Ok_0 == metrics_update(0, 1, 0, row_bytes(pulled->Ok_0), 0),
            pulled is Err ==> final(self).source_queue@ == old(self).source_queue@,
            pulled is Err && pulled->Err_0 is ForeignInputTimeout ==> r == Ok::<
                MetricsUpdateByTaskExecutionOrPurge,
                SpringError,
            >(metrics_update(0, 0, 0, 0, 0)),
            pulled is Err && !(pulled->Err_0 is ForeignInputTimeout) ==> r is Err && r->Err_0
                == pulled->Err_0,
    {
        match pulled {
            Ok(row) => {
                let bytes = row.payload.len() as u64;
                self.source_queue.push_back(row);
                let u = MetricsUpdateByTaskExecutionOrPurge {
                    rows_processed: 0,
                    rows_enqueued: 1,
                    rows_dequeued: 0,
                    bytes_allocated: bytes,
                    bytes_released: 0,
                };
                Ok(u)
            },
            Err(SpringError::ForeignInputTimeout { .. }) => Ok(zero_update()),
            Err(e) => Err(e),
        }
    }

    /// Drops every row of the source queue and returns what that released.
    fn purge(&mut self) -> (r: MetricsUpdateByTaskExecutionOrPurge)
        ensures
            final(self).source_queue@.len() == 0,
            final(self).sink_queue@ == old(self).sink_queue@,
            r == metrics_update(
                0,
                0,
                old(self).source_queue@.len() as u64,
                0,
                rows_bytes(old(self).source_queue@),
            ),
    {
        let ghost orig = self.source_queue@;
        let total = self.source_queue.len();
        let mut dropped: usize = 0;
        let mut released: u64 = 0;
        while self.source_queue.len() > 0
            invariant
                self.sink_queue@ == old(self).sink_queue@,
                orig == old(self).source_queue@,
                total == orig.len(),
                dropped as int + self.source_queue@.len() == orig.len(),
                self.source_queue@ == orig.subrange(dropped as int, orig.len() as int),
                released == rows_bytes(orig.subrange(0, dropped as int)),
            decreases self.source_queue@.len(),
        {
            let row = self.source_queue.pop_front().unwrap();
            proof {
                let d = dropped as int;
                assert(orig.subrange(0, d + 1).drop_last() =~= orig.subrange(0, d));
                assert(self.source_queue@ =~= orig.subrange(d + 1, orig.len() as int));
            }
            released = released.saturating_add(row.payload.len() as u64);
            dropped = dropped + 1;
        }
        assert(orig.subrange(0, dropped as int) =~= orig);
        MetricsUpdateByTaskExecutionOrPurge {
            rows_processed: 0,
            rows_enqueued: 0,
            rows_dequeued: dropped as u64,
            bytes_allocated: 0,
            bytes_released: released,
        }
    }

    /// Generic (pump) scheduler, one cycle. Under Critical pressure it takes
    /// no row and purges the source queue. Otherwise, where the pump runs,
    /// it moves the oldest rows of the source queue, in order, to the end
    /// of the sink queue: at most 16 under Moderate pressure, at most one
    /// under Severe pressure.
    pub fn pump_cycle(&mut self, pipeline: &PipelineDerivatives, memory_state: MemoryState) -> (r:
        MetricsUpdateByTaskExecutionOrPurge)
        ensures
            final(self).source_queue@ == pumped_source(old(self).source_queue@, *pipeline, memory_state),
            final(self).sink_queue@ == pumped_sink(
                old(self).source_queue@,
                old(self).sink_queue@,
                *pipeline,
                memory_state,
            ),
            memory_state == MemoryState::Critical ==> {
                &&& final(self).source_queue@.len() == 0
                &&& final(self).sink_queue@ == old(self).sink_queue@
                &&& r == metrics_update(
                    0,
                    0,
                    old(self).source_queue@.len() as u64,
                    0,
                    rows_bytes(old(self).source_queue@),
                )
            },
            memory_state != MemoryState::Critical && !pump_runs(*pipeline) ==> {
                &&& final(self).source_queue@ == old(self).source_queue@
                &&& final(self).sink_queue@ == old(self).sink_queue@
                &&& r == metrics_update(0, 0, 0, 0, 0)
            },
            memory_state != MemoryState::Critical && pump_runs(*pipeline) ==> {
                let k = rows_moved(old(self).source_queue@.len() as int, memory_state);
                let src = old(self).source_queue@;
                &&& final(self).source_queue@ == src.subrange(k, src.len() as int)
                &&& final(self).sink_queue@ == old(self).sink_queue@ + src.subrange(0, k)
                &&& r == metrics_update(k as u64, 0, 0, 0, 0)
            },
    {
        let batch: usize = match memory_state {
            MemoryState::Critical => {
                let u = self.purge();
                assert(self.source_queue@ =~= Seq::<Row>::empty());
                return u;
            },
            MemoryState::Severe => SEVERE_BATCH_ROWS,
            MemoryState::Moderate => MODERATE_BATCH_ROWS,
        };
        if !pipeline.pump_runs() {
            return zero_update();
        }
        let ghost src = self.source_queue@;
        let ghost snk = self.sink_queue@;
        let ghost k = rows_moved(src.len() as int, memory_state);
        let mut moved: usize = 0;
        while moved < batch && self.source_queue.len() > 0
            invariant
                batch as int == batch_rows(memory_state),
                src == old(self).source_queue@,
                snk == old(self).sink_queue@,
                k == rows_moved(src.len() as int, memory_state),
                moved <= k,
                self.source_queue@ == src.subrange(moved as int, src.len() as int),
                self.sink_queue@ == snk + src.subrange(0, moved as int),
            decreases self.source_queue@.len(),
        {
            let row = self.source_queue.pop_front().unwrap();
            self.sink_queue.push_back(row);
            proof {
                let m = moved as int;
                assert(self.source_queue@ =~= src.subrange(m + 1, src.len() as int));
                assert(self.sink_queue@ =~= snk + src.subrange(0, m + 1));
            }
            moved = moved + 1;
        }
        MetricsUpdateByTaskExecutionOrPurge {
            rows_processed: moved as u64,
            rows_enqueued: 0,
            rows_dequeued: 0,
            bytes_allocated: 0,
            bytes_released: 0,
        }
    }

    /// Sink scheduler: the row to hand to the foreign sink next, if any.
    pub fn sink_next_row(&self) -> (r: Option<&Row>)
        ensures
            self.sink_queue@.len() == 0 ==> r is None,
            self.sink_queue@.len() > 0 ==> r is Some && *r->Some_0 == self.sink_queue@[0],
    {
        if self.sink_queue.len() == 0 {
            None
        } else {
            Some(&self.sink_queue[0])
        }
    }

    /// Sink scheduler: takes the outcome of sending the front row. Where the
    /// sink took it, the row leaves the queue; where the send failed, the
    /// row stays at the front for the next cycle and the error is handed
    /// back to be reported.
    pub fn sink_cycle(&mut self, sent: Result<(), SpringError>) -> (r: Result<
        MetricsUpdateByTaskExecutionOrPurge,
        SpringError,
    >)
        ensures
            final(self).source_queue@ == old(self).source_queue@,
            sent is Ok && old(self).sink_queue@.len() > 0 ==> final(self).sink_queue@ == old(
                self,
            ).sink_queue@.drop_first() && r == Ok::<MetricsUpdateByTaskExecutionOrPurge, SpringError>(
                metrics_update(0, 0, 1, 0, row_bytes(old(self).sink_queue@[0])),
            ),
            sent is Ok && old(self).sink_queue@.len() == 0 ==> final(self).sink_queue@ == old(
                self,
            ).sink_queue@ && r == Ok::<MetricsUpdateByTaskExecutionOrPurge, SpringError>(
                metrics_update(0, 0, 0, 0, 0),
            ),
            sent is Err ==> final(self).sink_queue@ == old(self).sink_queue@ && r is Err
                && r->Err_0 == sent->Err_0,
    {
        match sent {
            Ok(()) => {
                match self.sink_queue.pop_front() {
                    Some(row) => {
                        assert(self.sink_queue@ =~= old(self).sink_queue@.drop_first());
                        Ok(
                            MetricsUpdateByTaskExecutionOrPurge {
                                rows_processed: 0,
                                rows_enqueued: 0,
                                rows_dequeued: 1,
                                bytes_allocated: 0,
                                bytes_released: row.payload.len() as u64,
                            },
                        )
                    },
                    None => Ok(zero_update()),
                }
            },
            Err(e) => Err(e),
        }
    }
}

/// Rows leave in the order they came, none lost and none repeated: a
/// pulled row joins the end of the rows in flight, a pump cycle without
/// Critical pressure keeps them as they are, and a delivery to the sink
/// takes the first of them.
pub proof fn lemma_flow_order(
    source: Seq<Row>,
    sink: Seq<Row>,
    row: Row,
    p: PipelineDerivatives,
    s: MemoryState,
)
    ensures
        in_flight(source.push(row), sink) == in_flight(source, sink).push(row),
        s != MemoryState::Critical ==> in_flight(pumped_source(source, p, s), pumped_sink(source, sink, p, s))
            == in_flight(source, sink),
        sink.len() > 0 ==> seq![sink[0]] + in_flight(source, sink.drop_first()) == in_flight(
            source,
            sink,
        ),
{
    assert(in_flight(source.push(row), sink) =~= in_flight(source, sink).push(row));
    if s != MemoryState::Critical && pump_runs(p) {
        let k = rows_moved(source.len() as int, s);
        assert((sink + source.subrange(0, k)) + source.subrange(k, source.len() as int) =~= sink
            + source);
    }
    if sink.len() > 0 {
        assert(seq![sink[0]] + (sink.drop_first() + source) =~= sink + source);
    }
}

/// The source and sink queues after `n` pump cycles.
pub open spec fn pumped_times(
    source: Seq<Row>,
    sink: Seq<Row>,
    p: PipelineDerivatives,
    s: MemoryState,
    n: nat,
) -> (Seq<Row>, Seq<Row>)
    decreases n,
{
    if n == 0 {
        (source, sink)
    } else {
        let (a, b) = pumped_times(source, sink, p, s, (n - 1) as nat);
        (pumped_source(a, p, s), pumped_sink(a, b, p, s))
    }
}

/// After `n` cycles of a running pump without Critical pressure, the rows
/// in flight are those of the start, in the same order, and at most
/// `len - n` of them still wait in the source queue.
pub proof fn lemma_pumped_times(
    source: Seq<Row>,
    sink: Seq<Row>,
    p: PipelineDerivatives,
    s: MemoryState,
    n: nat,
)
    requires
        pump_runs(p),
        s != MemoryState::Critical,
    ensures
        ({
            let (a, b) = pumped_times(source, sink, p, s, n);
            &&& in_flight(a, b) == in_flight(source, sink)
            &&& a.len() + n <= source.len() || a.len() == 0
        }),
    decreases n,
{
    if n > 0 {
        let (a, b) = pumped_times(source, sink, p, s, (n - 1) as nat);
        lemma_pumped_times(source, sink, p, s, (n - 1) as nat);
        let k = rows_moved(a.len() as int, s);
        assert((b + a.subrange(0, k)) + a.subrange(k, a.len() as int) =~= b + a);
    }
}

/// The source queue after the source scheduler queued each row of `rows`,
/// one cycle each, in order.
pub open spec fn ingested_all(source: Seq<Row>, rows: Seq<Row>) -> Seq<Row>
    decreases rows.len(),
{
    if rows.len() == 0 {
        source
    } else {
        ingested_all(source, rows.drop_last()).push(rows.last())
    }
}

/// Queuing rows one by one appends them in order.
pub proof fn lemma_ingested_all(source: Seq<Row>, rows: Seq<Row>)
    ensures
        ingested_all(source, rows) == source + rows,
    decreases rows.len(),
{
    if rows.len() > 0 {
        lemma_ingested_all(source, rows.drop_last());
        assert((source + rows.drop_last()).push(rows.last()) =~= source + rows);
    }
}

/// Round trip through the identity pump: rows pulled one by one into an
/// empty pipeline, after as many pump cycles without Critical pressure as
/// there are rows, all stand in the sink queue in the order they came, once
/// each, and the sink takes them front first.
pub proof fn lemma_round_trip(rows: Seq<Row>, p: PipelineDerivatives, s: MemoryState, n: nat)
    requires
        pump_runs(p),
        s != MemoryState::Critical,
        n >= rows.len(),
    ensures
        ingested_all(Seq::empty(), rows) == rows,
        pumped_times(ingested_all(Seq::empty(), rows), Seq::empty(), p, s, n) == (
            Seq::<Row>::empty(),
            rows,
        ),
{
    lemma_ingested_all(Seq::empty(), rows);
    assert(Seq::<Row>::empty() + rows =~= rows);
    lemma_pumped_times(rows, Seq::empty(), p, s, n);
    let (a, b) = pumped_times(rows, Seq::empty(), p, s, n);
    assert(a.len() == 0);
    assert(a =~= Seq::<Row>::empty());
    assert(Seq::<Row>::empty() + rows =~= rows);
    assert(b + a =~= b);
}

/// Under Critical pressure a pump cycle takes no row into the sink queue and
/// leaves no row buffered, so a non-empty buffer shrinks; back under
/// Moderate pressure a running pump takes rows again.
pub proof fn lemma_critical_purges_then_resumes(source: Seq<Row>, sink: Seq<Row>, p: PipelineDerivatives)
    ensures
        pumped_sink(source, sink, p, MemoryState::Critical) == sink,
        pumped_source(source, p, MemoryState::Critical).len() == 0,
        source.len() > 0 ==> pumped_source(source, p, MemoryState::Critical).len() < source.len(),
        pump_runs(p) && source.len() > 0 ==> pumped_source(source, p, MemoryState::Moderate).len()
            < source.len() && pumped_sink(source, sink, p, MemoryState::Moderate).len() > sink.len(),
{
}

} // verus!
