//! A keyed, whole-document JSON-text store backed by one file per key.
//!
//! Each key maps to a backing file named `<key>.json` directly inside the
//! hosting application's private data directory. Three operations are
//! offered: read, write and remove. The host binding resolves the data
//! directory and performs the filesystem work; every decision an operation
//! makes — how a key names its backing file, what an absent document reads
//! as, when an operation succeeds, and which error each failure carries —
//! lives here and is verified.

pub mod error;
pub mod model;
pub mod naming;
pub mod ops;

pub use error::StorageError;
pub use naming::backing_file_name;
pub use ops::{locate_backing_file, read_storage, remove_storage, write_finish, write_storage};
pub use ops::FileWrite;
