//! The event bus between workers.
//!
//! Blocking events (a new pipeline, a memory state transition) are queued
//! for each subscriber and handed out in publish order, each exactly once.
//! Non-blocking events (metrics) keep only the latest value per tag: a new
//! one overwrites an older one that nobody consumed yet.

use vstd::prelude::*;
use std::collections::VecDeque;
use crate::memory_state_machine::MemoryStateTransition;
use crate::performance_metrics::{
    MetricsUpdateByTaskExecutionOrPurge, PerformanceMetrics, PerformanceMetricsSummary,
};
use crate::pipeline::PipelineDerivatives;

verus! {

/// Tags of events that every subscriber applies before further work.
#[derive(Clone, Copy, PartialEq, Eq, Structural, Debug)]
pub enum BlockingEventTag {
    UpdatePipeline,
    TransitMemoryState,
}

/// Tags of best-effort, latest-value events.
#[derive(Clone, Copy, PartialEq, Eq, Structural, Debug)]
pub enum NonBlockingEventTag {
    ReplacePerformanceMetrics,
    IncrementalUpdateMetrics,
    ReportMetricsSummary,
}

/// Any event tag.
#[derive(Clone, Copy, PartialEq, Eq, Structural, Debug)]
pub enum EventTag {
    Blocking(BlockingEventTag),
    NonBlocking(NonBlockingEventTag),
}

/// A blocking event with its payload.
#[derive(Clone, Copy, PartialEq, Eq, Structural, Debug)]
pub enum BlockingEvent {
    UpdatePipeline(PipelineDerivatives),
    TransitMemoryState(MemoryStateTransition),
}

/// A non-blocking event with its payload.
#[derive(Clone, Copy, PartialEq, Eq, Structural, Debug)]
pub enum NonBlockingEvent {
    ReplacePerformanceMetrics(PerformanceMetrics),
    IncrementalUpdateMetrics(MetricsUpdateByTaskExecutionOrPurge),
    ReportMetricsSummary(PerformanceMetricsSummary),
}

pub open spec fn blocking_tag_of(e: BlockingEvent) -> BlockingEventTag {
    match e {
        BlockingEvent::UpdatePipeline(_) => BlockingEventTag::UpdatePipeline,
        BlockingEvent::TransitMemoryState(_) => BlockingEventTag::TransitMemoryState,
    }
}

pub open spec fn non_blocking_tag_of(e: NonBlockingEvent) -> NonBlockingEventTag {
    match e {
        NonBlockingEvent::ReplacePerformanceMetrics(_) => NonBlockingEventTag::ReplacePerformanceMetrics,
        NonBlockingEvent::IncrementalUpdateMetrics(_) => NonBlockingEventTag::IncrementalUpdateMetrics,
        NonBlockingEvent::ReportMetricsSummary(_) => NonBlockingEventTag::ReportMetricsSummary,
    }
}

/// The slot that holds the latest event of a non-blocking tag.
pub open spec fn slot_of(t: NonBlockingEventTag) -> int {
    match t {
        NonBlockingEventTag::ReplacePerformanceMetrics => 0,
        NonBlockingEventTag::IncrementalUpdateMetrics => 1,
        NonBlockingEventTag::ReportMetricsSummary => 2,
    }
}

/// Number of non-blocking tags.
pub const NON_BLOCKING_TAGS: usize = 3;

impl BlockingEvent {
    pub fn tag(&self) -> (r: BlockingEventTag)
        ensures
            r == blocking_tag_of(*self),
    {
        match self {
            BlockingEvent::UpdatePipeline(_) => BlockingEventTag::UpdatePipeline,
            BlockingEvent::TransitMemoryState(_) => BlockingEventTag::TransitMemoryState,
        }
    }
}

impl NonBlockingEvent {
    pub fn tag(&self) -> (r: NonBlockingEventTag)
        ensures
            r == non_blocking_tag_of(*self),
    {
        match self {
            NonBlockingEvent::ReplacePerformanceMetrics(_) => NonBlockingEventTag::ReplacePerformanceMetrics,
            NonBlockingEvent::IncrementalUpdateMetrics(_) => NonBlockingEventTag::IncrementalUpdateMetrics,
            NonBlockingEvent::ReportMetricsSummary(_) => NonBlockingEventTag::ReportMetricsSummary,
        }
    }
}

fn slot_index(t: NonBlockingEventTag) -> (r: usize)
    ensures
        r == slot_of(t),
        r < NON_BLOCKING_TAGS,
{
    match t {
        NonBlockingEventTag::ReplacePerformanceMetrics => 0,
        NonBlockingEventTag::IncrementalUpdateMetrics => 1,
        NonBlockingEventTag::ReportMetricsSummary => 2,
    }
}

/// One subscriber's interest and the events waiting for it.
#[derive(Debug)]
pub struct EventSubscription {
    pub tags: Vec<EventTag>,
    pub blocking: VecDeque<BlockingEvent>,
    pub latest: Vec<Option<NonBlockingEvent>>,
}

/// What a subscriber holds for a tag after a non-blocking publish of `e`:
/// `e` itself where it subscribes to the tag, else what it held before.
pub open spec fn offered_latest(
    held: Option<NonBlockingEvent>,
    tags: Seq<EventTag>,
    e: NonBlockingEvent,
) -> Option<NonBlockingEvent> {
    if tags.contains(EventTag::NonBlocking(non_blocking_tag_of(e))) {
        Some(e)
    } else {
        held
    }
}

/// A subscriber's pending blocking events after a publish of `e`: `e` at
/// the end where it subscribes to the tag, else unchanged.
pub open spec fn offered_blocking(
    pending: Seq<BlockingEvent>,
    tags: Seq<EventTag>,
    e: BlockingEvent,
) -> Seq<BlockingEvent> {
    if tags.contains(EventTag::Blocking(blocking_tag_of(e))) {
        pending.push(e)
    } else {
        pending
    }
}

impl EventSubscription {
    /// Three latest-value slots, and only events of subscribed tags pending.
    pub open spec fn wf(&self) -> bool {
        &&& self.latest@.len() == NON_BLOCKING_TAGS
        &&& forall|i: int| 0 <= i < self.blocking@.len()
            ==> self.tags@.contains(EventTag::Blocking(blocking_tag_of(#[trigger] self.blocking@[i])))
        &&& forall|t: NonBlockingEventTag| #[trigger] self.latest@[slot_of(t)] is Some
            ==> self.tags@.contains(EventTag::NonBlocking(t))
            && non_blocking_tag_of(self.latest@[slot_of(t)]->Some_0) == t
    }

    /// The latest unconsumed event of tag `t`.
    pub open spec fn latest_of(&self, t: NonBlockingEventTag) -> Option<NonBlockingEvent> {
        self.latest@[slot_of(t)]
    }

    /// A subscription to `tags` with nothing pending.
    pub fn new(tags: Vec<EventTag>) -> (r: Self)
        ensures
            r.wf(),
            r.tags@ == tags@,
            r.blocking@.len() == 0,
            forall|t: NonBlockingEventTag| r.latest_of(t) is None,
    {
        let mut latest: Vec<Option<NonBlockingEvent>> = Vec::new();
        latest.push(None);
        latest.push(None);
        latest.push(None);
        EventSubscription { tags, blocking: VecDeque::new(), latest }
    }

    /// Whether the subscriber listens to `tag`.
    pub fn subscribes(&self, tag: EventTag) -> (r: bool)
        ensures
            r == self.tags@.contains(tag),
    {
        let mut i: usize = 0;
        while i < self.tags.len()
            invariant
                0 <= i <= self.tags@.len(),
                forall|j: int| 0 <= j < i ==> self.tags@[j] != tag,
            decreases self.tags@.len() - i,
        {
            if self.tags[i] == tag {
                return true;
            }
            i = i + 1;
        }
        false
    }

    /// Queues a blocking event where the subscriber listens to its tag.
    pub fn offer_blocking(&mut self, e: BlockingEvent)
        requires
            old(self).wf(),
        ensures
            final(self).wf(),
            final(self).tags@ == old(self).tags@,
            final(self).latest@ == old(self).latest@,
            final(self).blocking@ == offered_blocking(old(self).blocking@, old(self).tags@, e),
    {
        if self.subscribes(EventTag::Blocking(e.tag())) {
            self.blocking.push_back(e);
        }
    }

    /// Overwrites the latest event of the tag of `e` where the subscriber
    /// listens to it.
    pub fn offer_non_blocking(&mut self, e: NonBlockingEvent)
        requires
            old(self).wf(),
        ensures
            final(self).wf(),
            final(self).tags@ == old(self).tags@,
            final(self).blocking@ == old(self).blocking@,
            final(self).latest@ == old(self).latest@.update(
                slot_of(non_blocking_tag_of(e)),
                offered_latest(old(self).latest_of(non_blocking_tag_of(e)), old(self).tags@, e),
            ),
    {
        let t = e.tag();
        if self.subscribes(EventTag::NonBlocking(t)) {
            let k = slot_index(t);
            self.latest.set(k, Some(e));
        }
    }
}

/// Latest value wins: after two non-blocking publishes of one tag, a
/// subscriber of that tag holds the second payload, whatever it held before
/// and whatever the first was.
pub proof fn lemma_latest_value_wins(
    held: Option<NonBlockingEvent>,
    tags: Seq<EventTag>,
    e1: NonBlockingEvent,
    e2: NonBlockingEvent,
)
    requires
        non_blocking_tag_of(e1) == non_blocking_tag_of(e2),
    ensures
        offered_latest(offered_latest(held, tags, e1), tags, e2) == offered_latest(held, tags, e2),
        tags.contains(EventTag::NonBlocking(non_blocking_tag_of(e2))) ==> offered_latest(
            offered_latest(held, tags, e1),
            tags,
            e2,
        ) == Some(e2),
{
}

/// Blocking events queue up in publish order: a subscriber of both tags
/// finds two published events behind what it had pending, first before
/// second.
pub proof fn lemma_blocking_in_publish_order(
    pending: Seq<BlockingEvent>,
    tags: Seq<EventTag>,
    e1: BlockingEvent,
    e2: BlockingEvent,
)
    requires
        tags.contains(EventTag::Blocking(blocking_tag_of(e1))),
        tags.contains(EventTag::Blocking(blocking_tag_of(e2))),
    ensures
        offered_blocking(offered_blocking(pending, tags, e1), tags, e2) == pending + seq![e1, e2],
{
    assert(pending.push(e1).push(e2) =~= pending + seq![e1, e2]);
}

/// The bus: one subscription per subscriber, addressed by the index that
/// `subscribe` returned.
#[derive(Debug)]
pub struct EventQueue {
    pub subscriptions: Vec<EventSubscription>,
}

impl EventQueue {
    pub open spec fn wf(&self) -> bool {
        forall|i: int| 0 <= i < self.subscriptions@.len() ==> #[trigger] self.subscriptions@[i].wf()
    }

    /// A bus with no subscriber.
    pub fn new() -> (r: Self)
        ensures
            r.wf(),
            r.subscriptions@.len() == 0,
    {
        EventQueue { subscriptions: Vec::new() }
    }

    /// Registers a subscriber to `tags`. It sees the events published from
    /// now on.
    pub fn subscribe(&mut self, tags: Vec<EventTag>) -> (id: usize)
        requires
            old(self).wf(),
        ensures
            final(self).wf(),
            id == old(self).subscriptions@.len(),
            final(self).subscriptions@.len() == old(self).subscriptions@.len() + 1,
            forall|i: int| 0 <= i < id ==> final(self).subscriptions@[i] == old(self).subscriptions@[i],
            final(self).subscriptions@[id as int].tags@ == tags@,
            final(self).subscriptions@[id as int].blocking@.len() == 0,
            forall|t: NonBlockingEventTag| final(self).subscriptions@[id as int].latest_of(t) is None,
    {
        let id = self.subscriptions.len();
        self.subscriptions.push(EventSubscription::new(tags));
        id
    }

    /// Queues `e` for every subscriber of its tag. Publishing to a tag
    /// nobody listens to does nothing.
    pub fn publish_blocking(&mut self, e: BlockingEvent)
        requires
            old(self).wf(),
        ensures
            final(self).wf(),
            final(self).subscriptions@.len() == old(self).subscriptions@.len(),
            forall|i: int| 0 <= i < old(self).subscriptions@.len() ==> {
                let (o, n) = (#[trigger] old(self).subscriptions@[i], final(self).subscriptions@[i]);
                &&& n.tags@ == o.tags@
                &&& n.latest@ == o.latest@
                &&& n.blocking@ == offered_blocking(o.blocking@, o.tags@, e)
            },
    {
        let n = self.subscriptions.len();
        let mut i: usize = 0;
        while i < n
            invariant
                0 <= i <= n,
                n == old(self).subscriptions@.len(),
                self.subscriptions@.len() == n,
                forall|j: int| 0 <= j < n ==> #[trigger] self.subscriptions@[j].wf(),
                forall|j: int| 0 <= j < n ==> {
                    let (o, c) = (#[trigger] old(self).subscriptions@[j], self.subscriptions@[j]);
                    &&& c.tags@ == o.tags@
                    &&& c.latest@ == o.latest@
                    &&& c.blocking@ == if j < i {
                        offered_blocking(o.blocking@, o.tags@, e)
                    } else {
                        o.blocking@
                    }
                },
            decreases n - i,
        {
            let ghost before = self.subscriptions@;
            self.subscriptions[i].offer_blocking(e);
            assert forall|j: int| 0 <= j < n implies #[trigger] self.subscriptions@[j].wf() by {
                if j != i {
                    assert(self.subscriptions@[j] == before[j]);
                } else {
                    assert(before[j].wf());
                }
            }
            i = i + 1;
        }
    }

    /// Overwrites the latest event of the tag of `e` for every subscriber of
    /// that tag.
    pub fn publish_non_blocking(&mut self, e: NonBlockingEvent)
        requires
            old(self).wf(),
        ensures
            final(self).wf(),
            final(self).subscriptions@.len() == old(self).subscriptions@.len(),
            forall|i: int| 0 <= i < old(self).subscriptions@.len() ==> {
                let (o, n) = (#[trigger] old(self).subscriptions@[i], final(self).subscriptions@[i]);
                &&& n.tags@ == o.tags@
                &&& n.blocking@ == o.blocking@
                &&& n.latest@ == o.latest@.update(
                    slot_of(non_blocking_tag_of(e)),
                    offered_latest(o.latest_of(non_blocking_tag_of(e)), o.tags@, e),
                )
            },
    {
        let n = self.subscriptions.len();
        let mut i: usize = 0;
        while i < n
            invariant
                0 <= i <= n,
                n == old(self).subscriptions@.len(),
                self.subscriptions@.len() == n,
                forall|j: int| 0 <= j < n ==> #[trigger] self.subscriptions@[j].wf(),
                forall|j: int| 0 <= j < n ==> {
                    let (o, c) = (#[trigger] old(self).subscriptions@[j], self.subscriptions@[j]);
                    &&& c.tags@ == o.tags@
                    &&& c.blocking@ == o.blocking@
                    &&& c.latest@ == if j < i {
                        o.latest@.update(
                            slot_of(non_blocking_tag_of(e)),
                            offered_latest(o.latest_of(non_blocking_tag_of(e)), o.tags@, e),
                        )
                    } else {
                        o.latest@
                    }
                },
            decreases n - i,
        {
            assert(self.subscriptions@[i as int].wf());
            let ghost before = self.subscriptions@;
            self.subscriptions[i].offer_non_blocking(e);
            assert forall|j: int| 0 <= j < n implies #[trigger] self.subscriptions@[j].wf() by {
                if j != i {
                    assert(self.subscriptions@[j] == before[j]);
                }
            }
            i = i + 1;
        }
    }

    /// Takes the oldest pending blocking event of subscriber `id`.
    pub fn poll_blocking(&mut self, id: usize) -> (r: Option<BlockingEvent>)
        requires
            old(self).wf(),
            id < old(self).subscriptions@.len(),
        ensures
            final(self).wf(),
            final(self).subscriptions@.len() == old(self).subscriptions@.len(),
            forall|i: int| 0 <= i < old(self).subscriptions@.len() && i != id
                ==> final(self).subscriptions@[i] == old(self).subscriptions@[i],
            ({
                let (o, n) = (old(self).subscriptions@[id as int], final(self).subscriptions@[id as int]);
                &&& n.tags@ == o.tags@
                &&& n.latest@ == o.latest@
                &&& o.blocking@.len() == 0 ==> r is None && n.blocking@ == o.blocking@
                &&& o.blocking@.len() > 0 ==> r == Some(o.blocking@[0]) && n.blocking@
                    == o.blocking@.drop_first()
            }),
    {
        let r = self.subscriptions[id].blocking.pop_front();
        proof {
            let o = old(self).subscriptions@[id as int];
            assert(o.wf());
            assert forall|i: int| 0 <= i < self.subscriptions@.len() implies #[trigger] self.subscriptions@[i].wf() by {
                assert(old(self).subscriptions@[i].wf());
            }
            if o.blocking@.len() > 0 {
                assert(o.blocking@.subrange(1, o.blocking@.len() as int) =~= o.blocking@.drop_first());
            }
        }
        r
    }

    /// Takes the latest event of tag `t` for subscriber `id`, leaving
    /// nothing in its place.
    pub fn poll_non_blocking(&mut self, id: usize, t: NonBlockingEventTag) -> (r: Option<
        NonBlockingEvent,
    >)
        requires
            old(self).wf(),
            id < old(self).subscriptions@.len(),
        ensures
            final(self).wf(),
            final(self).subscriptions@.len() == old(self).subscriptions@.len(),
            forall|i: int| 0 <= i < old(self).subscriptions@.len() && i != id
                ==> final(self).subscriptions@[i] == old(self).subscriptions@[i],
            ({
                let (o, n) = (old(self).subscriptions@[id as int], final(self).subscriptions@[id as int]);
                &&& n.tags@ == o.tags@
                &&& n.blocking@ == o.blocking@
                &&& n.latest@ == o.latest@.update(slot_of(t), None)
                &&& r == o.latest_of(t)
            }),
    {
        let k = slot_index(t);
        assert(self.subscriptions@[id as int].wf());
        let r = self.subscriptions[id].latest[k];
        self.subscriptions[id].latest.set(k, None);
        r
    }
}

} // verus!
