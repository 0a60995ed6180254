use crate::error::Error;
use vstd::prelude::*;

verus! {

/// What the storage side is asked to do with definitions; each request
/// carries the channel on which its answer goes back.
pub enum DefinitionStorageAction {
    /// The definition at the given version (a commit of the repository).
    Get {
        version: String,
        replier: tokio::sync::oneshot::Sender<
            Result<cooplan_definitions_lib::definition::Definition, Error>,
        >,
    },
    /// The latest definition.
    GetLatest {
        replier: tokio::sync::oneshot::Sender<
            Result<cooplan_definitions_lib::definition::Definition, Error>,
        >,
    },
}

/// A request to the storage side.
pub enum StorageRequest {
    DefinitionRequest(DefinitionStorageAction),
}

} // verus!
