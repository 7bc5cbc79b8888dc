//! Memory state machine with three states: Moderate, Severe and Critical.
//!
//! A transition happens when the task executor's memory usage crosses a
//! threshold. Each boundary has an enter threshold (used while rising) and a
//! lower exit threshold (used while falling), so a reading held between the
//! two never makes the machine flap.

use vstd::prelude::*;
use crate::error::{cause_from_message, SpringError};

verus! {

/// Memory pressure level.
#[derive(Clone, Copy, PartialEq, Eq, Structural, Debug)]
pub enum MemoryState {
    Moderate,
    Severe,
    Critical,
}

/// Pressure level as a number: 0, 1 or 2.
pub open spec fn level(s: MemoryState) -> int {
    match s {
        MemoryState::Moderate => 0,
        MemoryState::Severe => 1,
        MemoryState::Critical => 2,
    }
}

/// A change of memory state, published to the workers.
#[derive(Clone, Copy, PartialEq, Eq, Structural, Debug)]
pub struct MemoryStateTransition {
    pub from_state: MemoryState,
    pub to_state: MemoryState,
}

impl MemoryStateTransition {
    /// Whether the transition goes to a higher pressure level.
    pub fn is_upward(&self) -> (r: bool)
        ensures
            r == (level(self.to_state) > level(self.from_state)),
    {
        match (self.from_state, self.to_state) {
            (MemoryState::Moderate, MemoryState::Severe) => true,
            (MemoryState::Moderate, MemoryState::Critical) => true,
            (MemoryState::Severe, MemoryState::Critical) => true,
            _ => false,
        }
    }
}

/// The five thresholds of the state machine, in the unit of the aggregated
/// memory metric.
#[derive(Clone, Copy, PartialEq, Eq, Structural, Debug)]
pub struct MemoryStateMachineThreshold {
    pub upper_limit_bytes: u64,
    /// Enter Severe from Moderate at or above this.
    pub moderate_to_severe_bytes: u64,
    /// Enter Critical from Severe at or above this.
    pub severe_to_critical_bytes: u64,
    /// Leave Critical for Severe below this.
    pub critical_to_severe_bytes: u64,
    /// Leave Severe for Moderate below this.
    pub severe_to_moderate_bytes: u64,
}

/// Default upper limit of the memory metric.
pub const DEFAULT_UPPER_LIMIT_BYTES: u64 = 10_000;
/// Default threshold to enter Severe.
pub const DEFAULT_MODERATE_TO_SEVERE_BYTES: u64 = 6_000;
/// Default threshold to enter Critical.
pub const DEFAULT_SEVERE_TO_CRITICAL_BYTES: u64 = 9_500;
/// Default threshold to leave Critical.
pub const DEFAULT_CRITICAL_TO_SEVERE_BYTES: u64 = 8_000;
/// Default threshold to leave Severe.
pub const DEFAULT_SEVERE_TO_MODERATE_BYTES: u64 = 4_000;

/// The thresholds form hysteresis bands: each exit threshold lies below its
/// enter threshold, the Severe band lies below the Critical band, and all
/// lie within the upper limit.
pub open spec fn thresholds_valid(
    upper: u64,
    moderate_to_severe: u64,
    severe_to_critical: u64,
    critical_to_severe: u64,
    severe_to_moderate: u64,
) -> bool {
    &&& severe_to_moderate < moderate_to_severe
    &&& critical_to_severe < severe_to_critical
    &&& moderate_to_severe < severe_to_critical
    &&& severe_to_moderate < critical_to_severe
    &&& severe_to_critical <= upper
}

impl MemoryStateMachineThreshold {
    pub open spec fn wf(&self) -> bool {
        thresholds_valid(
            self.upper_limit_bytes,
            self.moderate_to_severe_bytes,
            self.severe_to_critical_bytes,
            self.critical_to_severe_bytes,
            self.severe_to_moderate_bytes,
        )
    }

    /// Builds the thresholds, or fails with `InvalidOption` where they do not
    /// form valid hysteresis bands.
    pub fn new(
        upper_limit_bytes: u64,
        moderate_to_severe_bytes: u64,
        severe_to_critical_bytes: u64,
        critical_to_severe_bytes: u64,
        severe_to_moderate_bytes: u64,
    ) -> (r: Result<Self, SpringError>)
        ensures
            r is Ok <==> thresholds_valid(
                upper_limit_bytes,
                moderate_to_severe_bytes,
                severe_to_critical_bytes,
                critical_to_severe_bytes,
                severe_to_moderate_bytes,
            ),
            r is Ok ==> r->Ok_0 == (MemoryStateMachineThreshold {
                upper_limit_bytes,
                moderate_to_severe_bytes,
                severe_to_critical_bytes,
                critical_to_severe_bytes,
                severe_to_moderate_bytes,
            }),
            r is Err ==> r->Err_0 is InvalidOption,
    {
        let broken: Option<&str> = if !(severe_to_moderate_bytes < moderate_to_severe_bytes) {
            Some("severe_to_moderate_bytes")
        } else if !(critical_to_severe_bytes < severe_to_critical_bytes) {
            Some("critical_to_severe_bytes")
        } else if !(moderate_to_severe_bytes < severe_to_critical_bytes) {
            Some("moderate_to_severe_bytes")
        } else if !(severe_to_moderate_bytes < critical_to_severe_bytes) {
            Some("severe_to_moderate_bytes")
        } else if !(severe_to_critical_bytes <= upper_limit_bytes) {
            Some("upper_limit_bytes")
        } else {
            None
        };
        match broken {
            Some(key) => Err(
                SpringError::InvalidOption {
                    key: key.to_string(),
                    value: String::new(),
                    source: cause_from_message(
                        "memory thresholds do not form hysteresis bands".to_string(),
                    ),
                },
            ),
            None => Ok(
                MemoryStateMachineThreshold {
                    upper_limit_bytes,
                    moderate_to_severe_bytes,
                    severe_to_critical_bytes,
                    critical_to_severe_bytes,
                    severe_to_moderate_bytes,
                },
            ),
        }
    }

    /// The default thresholds: upper limit 10000, enter Severe at 6000, leave
    /// it below 4000, enter Critical at 9500, leave it below 8000.
    pub fn default_thresholds() -> (r: Self)
        ensures
            r.wf(),
            r.upper_limit_bytes == DEFAULT_UPPER_LIMIT_BYTES,
            r.moderate_to_severe_bytes == DEFAULT_MODERATE_TO_SEVERE_BYTES,
            r.severe_to_critical_bytes == DEFAULT_SEVERE_TO_CRITICAL_BYTES,
            r.critical_to_severe_bytes == DEFAULT_CRITICAL_TO_SEVERE_BYTES,
            r.severe_to_moderate_bytes == DEFAULT_SEVERE_TO_MODERATE_BYTES,
    {
        MemoryStateMachineThreshold {
            upper_limit_bytes: DEFAULT_UPPER_LIMIT_BYTES,
            moderate_to_severe_bytes: DEFAULT_MODERATE_TO_SEVERE_BYTES,
            severe_to_critical_bytes: DEFAULT_SEVERE_TO_CRITICAL_BYTES,
            critical_to_severe_bytes: DEFAULT_CRITICAL_TO_SEVERE_BYTES,
            severe_to_moderate_bytes: DEFAULT_SEVERE_TO_MODERATE_BYTES,
        }
    }
}

/// The state after one evaluation of `usage` in state `s`: at most one step
/// up when an enter threshold is reached, at most one step down when the
/// reading falls below an exit threshold.
pub open spec fn next_state(t: MemoryStateMachineThreshold, s: MemoryState, usage: u64) -> MemoryState {
    match s {
        MemoryState::Moderate => {
            if usage >= t.moderate_to_severe_bytes {
                MemoryState::Severe
            } else {
                MemoryState::Moderate
            }
        },
        MemoryState::Severe => {
            if usage >= t.severe_to_critical_bytes {
                MemoryState::Critical
            } else if usage < t.severe_to_moderate_bytes {
                MemoryState::Moderate
            } else {
                MemoryState::Severe
            }
        },
        MemoryState::Critical => {
            if usage < t.critical_to_severe_bytes {
                MemoryState::Severe
            } else {
                MemoryState::Critical
            }
        },
    }
}

/// The state machine: its thresholds and its current state.
#[derive(Clone, Copy, PartialEq, Eq, Structural, Debug)]
pub struct MemoryStateMachine {
    pub threshold: MemoryStateMachineThreshold,
    pub state: MemoryState,
}

impl MemoryStateMachine {
    /// A machine in the Moderate state.
    pub fn new(threshold: MemoryStateMachineThreshold) -> (r: Self)
        ensures
            r.threshold == threshold,
            r.state == MemoryState::Moderate,
    {
        MemoryStateMachine { threshold, state: MemoryState::Moderate }
    }

    /// Evaluates the latest memory reading. Returns the transition where the
    /// state changed, `None` where it stayed.
    pub fn update_memory_usage(&mut self, memory_usage_bytes: u64) -> (r: Option<
        MemoryStateTransition,
    >)
        ensures
            final(self).threshold == old(self).threshold,
            final(self).state == next_state(old(self).threshold, old(self).state, memory_usage_bytes),
            r is None <==> final(self).state == old(self).state,
            r is Some ==> r->Some_0 == (MemoryStateTransition {
                from_state: old(self).state,
                to_state: final(self).state,
            }),
            -1 <= level(final(self).state) - level(old(self).state) <= 1,
    {
        let t = self.threshold;
        let from = self.state;
        let to = match from {
            MemoryState::Moderate => {
                if memory_usage_bytes >= t.moderate_to_severe_bytes {
                    MemoryState::Severe
                } else {
                    MemoryState::Moderate
                }
            },
            MemoryState::Severe => {
                if memory_usage_bytes >= t.severe_to_critical_bytes {
                    MemoryState::Critical
                } else if memory_usage_bytes < t.severe_to_moderate_bytes {
                    MemoryState::Moderate
                } else {
                    MemoryState::Severe
                }
            },
            MemoryState::Critical => {
                if memory_usage_bytes < t.critical_to_severe_bytes {
                    MemoryState::Severe
                } else {
                    MemoryState::Critical
                }
            },
        };
        self.state = to;
        if to == from {
            None
        } else {
            Some(MemoryStateTransition { from_state: from, to_state: to })
        }
    }
}

/// One evaluation never moves the state by more than one level.
pub proof fn lemma_single_step(t: MemoryStateMachineThreshold, s: MemoryState, usage: u64)
    ensures
        -1 <= level(next_state(t, s, usage)) - level(s) <= 1,
{
}

/// Hysteresis: with valid thresholds and a reading held at one value, the
/// state never turns back. Once a step went up, the next evaluation of the
/// same reading does not go down, and once a step went down, it does not go
/// up; a reading that kept the state keeps it again.
pub proof fn lemma_no_oscillation(t: MemoryStateMachineThreshold, s: MemoryState, usage: u64)
    requires
        t.wf(),
    ensures
        ({
            let s1 = next_state(t, s, usage);
            let s2 = next_state(t, s1, usage);
            &&& level(s1) > level(s) ==> level(s2) >= level(s1)
            &&& level(s1) < level(s) ==> level(s2) <= level(s1)
            &&& s1 == s ==> s2 == s
        }),
{
}

} // verus!
