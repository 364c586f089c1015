use vstd::prelude::*;

verus! {

/// The two ways a storage operation can fail: the hosting runtime could not
/// resolve the application's private data directory, or an underlying
/// filesystem call failed. Each variant carries the underlying failure's
/// textual description, verbatim.
#[derive(Debug, PartialEq, Eq)]
pub enum StorageError {
    /// The data directory could not be determined; always fatal to the
    /// current operation, and no filesystem access is attempted after it.
    Resolution(String),
    /// A filesystem operation (directory creation, file read, write or
    /// delete) failed; the message is the operating system's own error text.
    IoFailure(String),
}

impl StorageError {
    /// The carried failure description.
    pub open spec fn message_spec(&self) -> Seq<char> {
        match self {
            StorageError::Resolution(m) => m@,
            StorageError::IoFailure(m) => m@,
        }
    }

    /// Renders the error outward as a plain message string: exactly the
    /// underlying failure's description, with nothing added.
    pub fn message(self) -> (r: String)
        ensures
            r@ == self.message_spec(),
    {
        match self {
            StorageError::Resolution(m) => m,
            StorageError::IoFailure(m) => m,
        }
    }
}

} // verus!
