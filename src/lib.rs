//! Core of an embeddable streaming SQL engine: the event bus, the memory
//! pressure state machine, the worker loop state and the task schedulers
//! that move rows from foreign sources through pumps to foreign sinks.

pub mod dataflow;
pub mod error;
pub mod event_queue;
pub mod memory_state_machine;
pub mod performance_metrics;
pub mod pipeline;
pub mod server;
pub mod worker;
