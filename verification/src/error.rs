//! Error type for registry operations.
use vstd::prelude::*;

verus! {

/// What can go wrong in a registry operation.
///
/// The database and JSON failures carry the text that the failing component
/// gave for them.
#[derive(Debug)]
pub enum RegistryError {
    /// The database failed: the driver's description of the failure.
    Database(String),
    /// No entry has this id.
    NotFound { id: String },
    /// A stored value could not be read back: the reader's description.
    Json(String),
}

/// The message of an error, as it is shown to users.
pub open spec fn error_message(e: RegistryError) -> Seq<char> {
    match e {
        RegistryError::Database(reason) => "database error: "@ + reason@,
        RegistryError::NotFound { id } => "service not found: "@ + id@,
        RegistryError::Json(reason) => "serialisation error: "@ + reason@,
    }
}

impl RegistryError {
    /// The user-facing message of this error.
    pub fn message(&self) -> (m: String)
        ensures
            m@ == error_message(*self),
    {
        let (mut m, detail) = match self {
            RegistryError::Database(reason) => (String::from_str("database error: "), reason),
            RegistryError::NotFound { id } => (String::from_str("service not found: "), id),
            RegistryError::Json(reason) => (String::from_str("serialisation error: "), reason),
        };
        m.append(detail.as_str());
        m
    }

    /// Whether this is the error for a missing entry.
    pub fn is_not_found(&self) -> (b: bool)
        ensures
            b == (*self is NotFound),
    {
        match self {
            RegistryError::NotFound { .. } => true,
            _ => false,
        }
    }
}

} // verus!
