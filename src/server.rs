//! Foreign servers: which kind of server instance a pipeline's server type
//! needs. Opening the connection itself is I/O and happens outside this
//! library.

use vstd::prelude::*;

verus! {

/// The server types a stream can be attached to.
#[derive(Clone, Copy, PartialEq, Eq, Structural, Debug)]
pub enum ServerType {
    SourceNet,
    SinkNet,
    SinkInMemoryQueue,
}

/// The kinds of sink server instances.
#[derive(Clone, Copy, PartialEq, Eq, Structural, Debug)]
pub enum SinkServerKind {
    Net,
    InMemoryQueue,
}

/// Whether a server type writes rows out.
pub open spec fn is_sink_type(t: ServerType) -> bool {
    t != ServerType::SourceNet
}

/// Picks the server instance for a server type.
pub struct ServerInstanceFactory;

impl ServerInstanceFactory {
    /// Whether `server_type` is a sink type.
    pub fn is_sink(server_type: ServerType) -> (r: bool)
        ensures
            r == is_sink_type(server_type),
    {
        match server_type {
            ServerType::SourceNet => false,
            _ => true,
        }
    }

    /// The sink instance kind for a sink server type.
    pub fn sink(server_type: ServerType) -> (r: SinkServerKind)
        requires
            is_sink_type(server_type),
        ensures
            server_type == ServerType::SinkNet ==> r == SinkServerKind::Net,
            server_type == ServerType::SinkInMemoryQueue ==> r == SinkServerKind::InMemoryQueue,
    {
        match server_type {
            ServerType::SinkInMemoryQueue => SinkServerKind::InMemoryQueue,
            _ => SinkServerKind::Net,
        }
    }
}

} // verus!
