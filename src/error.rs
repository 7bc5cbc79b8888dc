//! Error type of the engine and who is responsible for each error.

use vstd::prelude::*;

verus! {

#[verifier::external_type_specification]
#[verifier::external_body]
pub struct ExAnyhowError(anyhow::Error);

/// Relies on anyhow::Error::msg: wraps a message into an error value.
#[verifier::external_body]
pub(crate) fn cause_from_message(message: String) -> (r: anyhow::Error) {
    anyhow::Error::msg(message)
}

/// Which party is to blame for an error.
#[derive(Clone, Copy, PartialEq, Eq, Structural, Debug)]
pub enum SpringErrorResponsibility {
    /// The caller: malformed configuration or DDL.
    Client,
    /// An external system: a foreign source or sink.
    Foreign,
    /// The engine itself: an internal invariant was broken.
    SpringQlCore,
}

/// Describes the foreign system an error came from.
#[derive(Debug)]
pub enum ForeignInfo {
    /// A TCP peer.
    GenericTcp { host: String, port: u16 },
    /// An in-process queue, by its name.
    InMemoryQueue { name: String },
}

/// Name of a stream.
#[derive(Debug)]
pub struct StreamName {
    pub name: String,
}

/// Error type.
#[derive(Debug)]
pub enum SpringError {
    ForeignIo { foreign_info: ForeignInfo, source: anyhow::Error },
    ForeignInputTimeout { foreign_info: ForeignInfo, source: anyhow::Error },
    InputTimeout { stream_name: StreamName, source: anyhow::Error },
    SpringQlCoreIo(anyhow::Error),
    InvalidOption { key: String, value: String, source: anyhow::Error },
    InvalidFormat { s: String, source: anyhow::Error },
    Sql(anyhow::Error),
}

/// Result type.
pub type Result<T> = core::result::Result<T, SpringError>;

/// The party responsible for an error, by its variant.
pub open spec fn responsibility_of(e: &SpringError) -> SpringErrorResponsibility {
    match e {
        SpringError::ForeignIo { .. } => SpringErrorResponsibility::Foreign,
        SpringError::ForeignInputTimeout { .. } => SpringErrorResponsibility::Foreign,
        SpringError::InputTimeout { .. } => SpringErrorResponsibility::SpringQlCore,
        SpringError::SpringQlCoreIo(_) => SpringErrorResponsibility::SpringQlCore,
        SpringError::InvalidOption { .. } => SpringErrorResponsibility::Client,
        SpringError::InvalidFormat { .. } => SpringErrorResponsibility::Client,
        SpringError::Sql(_) => SpringErrorResponsibility::Client,
    }
}

impl SpringError {
    /// Get who is responsible for the error.
    /// Used for error handling and bug reports.
    pub fn responsibility(&self) -> (r: SpringErrorResponsibility)
        ensures
            r == responsibility_of(self),
    {
        match self {
            SpringError::ForeignIo { .. }
            | SpringError::ForeignInputTimeout { .. } => SpringErrorResponsibility::Foreign,
            SpringError::InputTimeout { .. }
            | SpringError::SpringQlCoreIo(_) => SpringErrorResponsibility::SpringQlCore,
            SpringError::InvalidOption { .. }
            | SpringError::InvalidFormat { .. }
            | SpringError::Sql(_) => SpringErrorResponsibility::Client,
        }
    }

    /// An error for a shared engine state that another thread left poisoned
    /// by panicking while it held it.
    pub fn poisoned_engine(detail: String) -> (r: SpringError)
        ensures
            r is SpringQlCoreIo,
            responsibility_of(&r) == SpringErrorResponsibility::SpringQlCore,
    {
        SpringError::SpringQlCoreIo(cause_from_message(detail))
    }
}

} // verus!
