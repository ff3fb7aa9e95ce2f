//! Core of an agent-centric data node: a registry of independently
//! synchronized knowledge-graph units ("perspectives") together with the
//! capability-based authorization model that guards access to them.
//!
//! The registry owns the canonical instance of every perspective and keeps
//! three invariants: perspective identities are unique, an operation on an
//! unknown identity fails with a typed error, and synchronization diffs are
//! routed only to perspectives bound to the diff's source channel.

use vstd::prelude::*;
use vstd::string::StringExecFns;

pub mod capabilities;
mod clock;
pub mod perspectives;

verus! {

/// The error taxonomy of the core: duplicate identity on add, unknown
/// identity on update/remove, a failed durable-store operation, and an
/// unreadable wall clock.
#[derive(Debug)]
pub enum CoreError {
    AlreadyExists { uuid: String },
    NotFound { uuid: String },
    PersistenceFailure { message: String },
    EnvironmentFault,
}

impl CoreError {
    /// Render the error as the string surfaced through the API layer:
    /// operation context plus the identity it concerns.
    pub fn message(&self) -> (r: String)
        ensures
            match self {
                CoreError::AlreadyExists { uuid } => r@ == "Perspective with uuid "@ + uuid@
                    + " already exists"@,
                CoreError::NotFound { uuid } => r@ == "Perspective with uuid "@ + uuid@
                    + " not found"@,
                CoreError::PersistenceFailure { message } => r@ == "Persistence operation failed: "@
                    + message@,
                CoreError::EnvironmentFault => r@ == "Could not read system clock"@,
            },
    {
        match self {
            CoreError::AlreadyExists { uuid } => {
                let s: String = "Perspective with uuid ".to_owned();
                let s = s.concat(uuid.as_str());
                s.concat(" already exists")
            },
            CoreError::NotFound { uuid } => {
                let s: String = "Perspective with uuid ".to_owned();
                let s = s.concat(uuid.as_str());
                s.concat(" not found")
            },
            CoreError::PersistenceFailure { message } => {
                let s: String = "Persistence operation failed: ".to_owned();
                s.concat(message.as_str())
            },
            CoreError::EnvironmentFault => "Could not read system clock".to_owned(),
        }
    }
}

} // verus!
