use vstd::prelude::*;

verus! {

/// What can go wrong in a storage backend.  Every backend reports its
/// failures in these terms.
#[derive(Debug, PartialEq)]
pub enum StorageError {
    Database(String),
    Serialization(String),
    /// A failure of the file system or the network stack, with its message.
    Io(String),
    NotFound,
    Network(String),
    Configuration(String),
    Backend(String),
}

/// The status that a request answers with after a storage error of each
/// kind.
pub open spec fn storage_status(e: StorageError) -> u16 {
    match e {
        StorageError::NotFound => 404,
        StorageError::Network(_) => 502,
        _ => 500,
    }
}

impl StorageError {
    /// The status that a request answers with after this error: 404 for a
    /// missing entity, 502 for a failure of the network, 500 otherwise.
    pub fn status_code(&self) -> (code: u16)
        ensures
            code == storage_status(*self),
    {
        match self {
            StorageError::NotFound => 404,
            StorageError::Network(_) => 502,
            _ => 500,
        }
    }

    /// The error in words.
    pub fn message(&self) -> (s: String)
        ensures
            s@ == match *self {
                StorageError::Database(m) => "database error: "@ + m@,
                StorageError::Serialization(m) => "serialization error: "@ + m@,
                StorageError::Io(m) => "io error: "@ + m@,
                StorageError::NotFound => "not found"@,
                StorageError::Network(m) => "network error: "@ + m@,
                StorageError::Configuration(m) => "configuration error: "@ + m@,
                StorageError::Backend(m) => "backend error: "@ + m@,
            },
    {
        match self {
            StorageError::Database(m) => crate::text::concat("database error: ", m.as_str()),
            StorageError::Serialization(m) => crate::text::concat(
                "serialization error: ",
                m.as_str(),
            ),
            StorageError::Io(m) => crate::text::concat("io error: ", m.as_str()),
            StorageError::NotFound => "not found".to_owned(),
            StorageError::Network(m) => crate::text::concat("network error: ", m.as_str()),
            StorageError::Configuration(m) => crate::text::concat(
                "configuration error: ",
                m.as_str(),
            ),
            StorageError::Backend(m) => crate::text::concat("backend error: ", m.as_str()),
        }
    }
}

} // verus!
