use vstd::prelude::*;
use vstd::string::StringExecFns;

use crate::error::StorageError;
use crate::model::{null_text, read_of, reflects, DirSnapshot};
use crate::naming::{backing_file_name, backing_file_name_of};

verus! {

/// Spec-level view of a probe-and-read outcome handed in by the host
/// binding: absent, or the outcome of reading the backing file in full.
pub open spec fn found_view(found: Option<Result<String, String>>) -> Option<
    Result<Seq<char>, Seq<char>>,
> {
    match found {
        None => None,
        Some(Ok(text)) => Some(Ok(text@)),
        Some(Err(m)) => Some(Err(m@)),
    }
}

/// Shared setup of every operation. The host runtime first resolves the
/// application's private data directory; `resolution` is that attempt's
/// outcome, carrying the failure's textual description when it failed. On a
/// failure the operation fails at once with a Resolution error carrying that
/// description verbatim, and no filesystem access may follow. Otherwise the
/// operation proceeds against the backing file named `<key>.json`, directly
/// inside the resolved directory.
pub fn locate_backing_file(key: &str, resolution: Result<(), String>) -> (r: Result<
    String,
    StorageError,
>)
    ensures
        r is Ok <==> resolution is Ok,
        r is Ok ==> r->Ok_0@ == backing_file_name_of(key@),
        resolution matches Err(m) ==> (r matches Err(StorageError::Resolution(d)) && d@ == m@),
{
    match resolution {
        Ok(()) => Ok(backing_file_name(key)),
        Err(m) => Err(StorageError::Resolution(m)),
    }
}

/// The read decision, once the backing file has been probed and, when
/// present, read in full: `found` is `None` when no backing file exists, and
/// otherwise carries the read's outcome — the file's entire text, or the
/// operating system's error description. An absent document reads as the
/// literal text `null`; a present document's text is returned unmodified; a
/// failed read fails with an IoFailure error carrying the description
/// verbatim. Against any fault-free snapshot of the directory, the result is
/// exactly what the snapshot holds for the key.
pub fn read_storage(found: Option<Result<String, String>>) -> (r: Result<String, StorageError>)
    ensures
        found is None ==> (r is Ok && r->Ok_0@ == null_text()),
        found matches Some(Ok(text)) ==> (r matches Ok(t) && t == text),
        found matches Some(Err(m)) ==> (r matches Err(StorageError::IoFailure(d)) && d@ == m@),
        r is Ok <==> !(found matches Some(Err(_))),
        forall|docs: DirSnapshot, key: Seq<char>|
            #[trigger] reflects(docs, key, found_view(found)) ==> (r is Ok && r->Ok_0@ == read_of(
                docs,
                key,
            )),
{
    match found {
        None => Ok(String::from_str("null")),
        Some(Ok(text)) => Ok(text),
        Some(Err(m)) => Err(StorageError::IoFailure(m)),
    }
}

/// The write a successful write operation performs against the filesystem:
/// which backing file to replace, and its complete new contents.
#[derive(Debug)]
pub struct FileWrite {
    /// Name of the backing file, directly inside the data directory.
    pub file_name: String,
    /// The complete new contents of that file.
    pub contents: String,
}

/// Everything the write operation decides before the filesystem is touched.
/// On a successful resolution it yields the write to perform: the backing
/// file for `key`, and `value` — byte for byte, untransformed — as that
/// file's complete new contents, replacing any prior document in full. On a
/// resolution failure it fails at once with a Resolution error carrying the
/// description verbatim. No inspection of `value` is performed: any string
/// is accepted and stored as given.
pub fn write_storage(key: &str, value: String, resolution: Result<(), String>) -> (r: Result<
    FileWrite,
    StorageError,
>)
    ensures
        r is Ok <==> resolution is Ok,
        r matches Ok(w) ==> (w.file_name@ == backing_file_name_of(key@) && w.contents@ == value@),
        resolution matches Err(m) ==> (r matches Err(StorageError::Resolution(d)) && d@ == m@),
{
    match locate_backing_file(key, resolution) {
        Ok(file_name) => Ok(FileWrite { file_name, contents: value }),
        Err(e) => Err(e),
    }
}

/// The write operation's outcome mapping for its filesystem work — creating
/// the data directory (unconditionally, parents included) and then writing
/// the backing file. A success passes through with no payload; a failure of
/// either step fails with an IoFailure error carrying the operating system's
/// error description verbatim.
pub fn write_finish(outcome: Result<(), String>) -> (r: Result<(), StorageError>)
    ensures
        r is Ok <==> outcome is Ok,
        outcome matches Err(m) ==> (r matches Err(StorageError::IoFailure(d)) && d@ == m@),
{
    match outcome {
        Ok(()) => Ok(()),
        Err(m) => Err(StorageError::IoFailure(m)),
    }
}

/// The remove decision, once the backing file has been probed and, when
/// present, deleted: `deleted` is `None` when no backing file existed — the
/// remove then succeeds as an idempotent no-op — and otherwise carries the
/// deletion's outcome. A successful deletion succeeds with no payload; a
/// failed one fails with an IoFailure error carrying the operating system's
/// error description verbatim.
pub fn remove_storage(deleted: Option<Result<(), String>>) -> (r: Result<(), StorageError>)
    ensures
        deleted is None ==> r is Ok,
        deleted matches Some(Err(m)) ==> (r matches Err(StorageError::IoFailure(d)) && d@ == m@),
        r is Ok <==> !(deleted matches Some(Err(_))),
{
    match deleted {
        None => Ok(()),
        Some(Ok(())) => Ok(()),
        Some(Err(m)) => Err(StorageError::IoFailure(m)),
    }
}

} // verus!
