//! The pipeline and its compiled snapshot.
//!
//! A pipeline is a source stream, a sink stream, and a passthrough pump
//! from the first to the second. Each DDL command that changes it yields a
//! new `PipelineDerivatives`: an immutable snapshot, with a version one
//! higher than the last, that replaces the old one in every worker.

use vstd::prelude::*;
use crate::error::{cause_from_message, SpringError};

verus! {

/// Whether the pump exists, and whether it runs.
#[derive(Clone, Copy, PartialEq, Eq, Structural, Debug)]
pub enum PumpState {
    Absent,
    Stopped,
    Started,
}

/// An immutable snapshot of the compiled pipeline.
#[derive(Clone, Copy, PartialEq, Eq, Structural, Debug)]
pub struct PipelineDerivatives {
    pub version: u64,
    pub has_source_stream: bool,
    pub has_sink_stream: bool,
    pub pump: PumpState,
}

/// A command that changes the pipeline.
#[derive(Clone, Copy, PartialEq, Eq, Structural, Debug)]
pub enum DdlCommand {
    CreateSourceStream,
    CreateSinkStream,
    CreatePump,
    StartPump,
    StopPump,
    DropPump,
}

/// The pump moves rows: it is started, and both its streams exist.
pub open spec fn pump_runs(d: PipelineDerivatives) -> bool {
    d.pump == PumpState::Started && d.has_source_stream && d.has_sink_stream
}

/// Whether `cmd` makes sense on the pipeline `d`.
pub open spec fn ddl_allowed(d: PipelineDerivatives, cmd: DdlCommand) -> bool {
    match cmd {
        DdlCommand::CreateSourceStream => !d.has_source_stream,
        DdlCommand::CreateSinkStream => !d.has_sink_stream,
        DdlCommand::CreatePump => d.pump == PumpState::Absent && d.has_source_stream
            && d.has_sink_stream,
        DdlCommand::StartPump => d.pump == PumpState::Stopped,
        DdlCommand::StopPump => d.pump == PumpState::Started,
        DdlCommand::DropPump => d.pump == PumpState::Stopped,
    }
}

/// The snapshot after `cmd`, with the next version.
pub open spec fn ddl_applied(d: PipelineDerivatives, cmd: DdlCommand) -> PipelineDerivatives {
    let v = (d.version + 1) as u64;
    match cmd {
        DdlCommand::CreateSourceStream => PipelineDerivatives {
            version: v,
            has_source_stream: true,
            ..d
        },
        DdlCommand::CreateSinkStream => PipelineDerivatives {
            version: v,
            has_sink_stream: true,
            ..d
        },
        DdlCommand::CreatePump => PipelineDerivatives {
            version: v,
            pump: PumpState::Stopped,
            ..d
        },
        DdlCommand::StartPump => PipelineDerivatives {
            version: v,
            pump: PumpState::Started,
            ..d
        },
        DdlCommand::StopPump => PipelineDerivatives {
            version: v,
            pump: PumpState::Stopped,
            ..d
        },
        DdlCommand::DropPump => PipelineDerivatives {
            version: v,
            pump: PumpState::Absent,
            ..d
        },
    }
}

impl PipelineDerivatives {
    /// The empty pipeline, version 0.
    pub fn empty() -> (r: Self)
        ensures
            r == (PipelineDerivatives {
                version: 0,
                has_source_stream: false,
                has_sink_stream: false,
                pump: PumpState::Absent,
            }),
    {
        PipelineDerivatives {
            version: 0,
            has_source_stream: false,
            has_sink_stream: false,
            pump: PumpState::Absent,
        }
    }

    /// Whether the pump moves rows in this snapshot.
    pub fn pump_runs(&self) -> (r: bool)
        ensures
            r == pump_runs(*self),
    {
        match self.pump {
            PumpState::Started => self.has_source_stream && self.has_sink_stream,
            _ => false,
        }
    }
}

/// The pipeline as the DDL commands left it.
#[derive(Debug)]
pub struct Pipeline {
    pub current: PipelineDerivatives,
}

impl Pipeline {
    /// A pipeline with nothing in it.
    pub fn new() -> (r: Self)
        ensures
            r.current == (PipelineDerivatives {
                version: 0,
                has_source_stream: false,
                has_sink_stream: false,
                pump: PumpState::Absent,
            }),
    {
        Pipeline { current: PipelineDerivatives::empty() }
    }

    /// Applies one DDL command and returns the new snapshot. A command that
    /// does not fit the pipeline fails with `Sql` and changes nothing, as
    /// does one that would run the version past its range.
    pub fn apply_ddl(&mut self, cmd: DdlCommand) -> (r: Result<PipelineDerivatives, SpringError>)
        ensures
            r is Ok <==> ddl_allowed(old(self).current, cmd) && old(self).current.version
                < u64::MAX,
            r is Ok ==> r->Ok_0 == ddl_applied(old(self).current, cmd) && final(self).current
                == r->Ok_0,
            r is Err ==> r->Err_0 is Sql && final(self).current == old(self).current,
    {
        let d = self.current;
        let allowed = match cmd {
            DdlCommand::CreateSourceStream => !d.has_source_stream,
            DdlCommand::CreateSinkStream => !d.has_sink_stream,
            DdlCommand::CreatePump => d.pump == PumpState::Absent && d.has_source_stream
                && d.has_sink_stream,
            DdlCommand::StartPump => d.pump == PumpState::Stopped,
            DdlCommand::StopPump => d.pump == PumpState::Started,
            DdlCommand::DropPump => d.pump == PumpState::Stopped,
        };
        if !allowed {
            return Err(
                SpringError::Sql(
                    cause_from_message("the command does not fit the pipeline".to_string()),
                ),
            );
        }
        if d.version == u64::MAX {
            return Err(
                SpringError::Sql(cause_from_message("pipeline version exhausted".to_string())),
            );
        }
        let v = d.version + 1;
        let next = match cmd {
            DdlCommand::CreateSourceStream => PipelineDerivatives {
                version: v,
                has_source_stream: true,
                ..d
            },
            DdlCommand::CreateSinkStream => PipelineDerivatives {
                version: v,
                has_sink_stream: true,
                ..d
            },
            DdlCommand::CreatePump => PipelineDerivatives {
                version: v,
                pump: PumpState::Stopped,
                ..d
            },
            DdlCommand::StartPump => PipelineDerivatives {
                version: v,
                pump: PumpState::Started,
                ..d
            },
            DdlCommand::StopPump => PipelineDerivatives {
                version: v,
                pump: PumpState::Stopped,
                ..d
            },
            DdlCommand::DropPump => PipelineDerivatives {
                version: v,
                pump: PumpState::Absent,
                ..d
            },
        };
        self.current = next;
        Ok(next)
    }
}

} // verus!
