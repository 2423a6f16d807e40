use vstd::prelude::*;

verus! {

/// What can go wrong where accounts are kept.
#[derive(Debug, PartialEq)]
pub enum AuthStoreError {
    Database(String),
    NotFound(String),
    Conflict(String),
}

impl AuthStoreError {
    /// The error in words.
    pub fn message(&self) -> (s: String)
        ensures
            s@ == match *self {
                AuthStoreError::Database(m) => "Database error: "@ + m@,
                AuthStoreError::NotFound(m) => "Not found: "@ + m@,
                AuthStoreError::Conflict(m) => "Conflict: "@ + m@,
            },
    {
        match self {
            AuthStoreError::Database(m) => crate::text::concat("Database error: ", m.as_str()),
            AuthStoreError::NotFound(m) => crate::text::concat("Not found: ", m.as_str()),
            AuthStoreError::Conflict(m) => crate::text::concat("Conflict: ", m.as_str()),
        }
    }

    /// The status that a request answers with after this error: 404 for
    /// what was not found, 409 for what is there already, 500 otherwise.
    pub fn status_code(&self) -> (code: u16)
        ensures
            code == match *self {
                AuthStoreError::Database(_) => 500u16,
                AuthStoreError::NotFound(_) => 404u16,
                AuthStoreError::Conflict(_) => 409u16,
            },
    {
        match self {
            AuthStoreError::Database(_) => 500,
            AuthStoreError::NotFound(_) => 404,
            AuthStoreError::Conflict(_) => 409,
        }
    }
}

} // verus!
