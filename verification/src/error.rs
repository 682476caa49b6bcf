use vstd::prelude::*;

verus! {

/// Why an adapter operation failed.
#[derive(Clone, Debug, PartialEq, Eq)]
pub enum AuthError {
    /// The user to change or remove does not exist.
    UserNotFound,
    /// The session to change does not exist.
    SessionNotFound,
    /// Some other record does not exist; the text says which.
    NotFound(String),
    /// The database refused a query; the text is its message.
    Database(String),
}

} // verus!
