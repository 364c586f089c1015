use vstd::prelude::*;

verus! {

/// What a read of an absent document returns: the literal four-character
/// text `null`. This is a result value, not an absence signal.
pub open spec fn null_text() -> Seq<char> {
    "null"@
}

/// An abstract snapshot of the data directory: the documents it holds, as a
/// map from key to stored document text. A key outside the map's domain has
/// no backing file.
pub type DirSnapshot = Map<Seq<char>, Seq<char>>;

/// The text a read of `key` observes against snapshot `docs`: the stored
/// document's text when one exists, the literal text `null` otherwise.
pub open spec fn read_of(docs: DirSnapshot, key: Seq<char>) -> Seq<char> {
    if docs.dom().contains(key) {
        docs[key]
    } else {
        null_text()
    }
}

/// The snapshot after writing `value` under `key`: the document is created,
/// or replaced in full — nothing is merged or appended.
pub open spec fn write_of(docs: DirSnapshot, key: Seq<char>, value: Seq<char>) -> DirSnapshot {
    docs.insert(key, value)
}

/// The snapshot after removing `key`: its document is gone; every other
/// document is untouched.
pub open spec fn remove_of(docs: DirSnapshot, key: Seq<char>) -> DirSnapshot {
    docs.remove(key)
}

/// What probing and then reading the backing file for `key` reports when the
/// directory matches snapshot `docs` and the filesystem reports no fault:
/// nothing when no document exists, and otherwise the stored text, in full.
pub open spec fn reflects(
    docs: DirSnapshot,
    key: Seq<char>,
    found: Option<Result<Seq<char>, Seq<char>>>,
) -> bool {
    match found {
        None => !docs.dom().contains(key),
        Some(outcome) => outcome is Ok && docs.dom().contains(key) && outcome->Ok_0 == docs[key],
    }
}

/// A key never written reads as the literal text `null`.
pub proof fn lemma_read_unwritten(docs: DirSnapshot, key: Seq<char>)
    requires
        !docs.dom().contains(key),
    ensures
        read_of(docs, key) == null_text(),
{
}

/// Round-trip fidelity: writing `value` under `key` and then reading `key`
/// yields exactly `value`.
pub proof fn lemma_write_then_read(docs: DirSnapshot, key: Seq<char>, value: Seq<char>)
    ensures
        read_of(write_of(docs, key, value), key) == value,
{
}

/// A write fully overwrites: after writing `v1` and then `v2` under the same
/// key, a read of that key yields `v2`.
pub proof fn lemma_write_overwrites(docs: DirSnapshot, key: Seq<char>, v1: Seq<char>, v2: Seq<char>)
    ensures
        read_of(write_of(write_of(docs, key, v1), key, v2), key) == v2,
{
}

/// Removing a key that holds no document changes nothing: the remove is an
/// idempotent no-op.
pub proof fn lemma_remove_absent(docs: DirSnapshot, key: Seq<char>)
    requires
        !docs.dom().contains(key),
    ensures
        remove_of(docs, key) == docs,
{
    assert(remove_of(docs, key) =~= docs);
}

/// After a remove, the removed key reads as the literal text `null`.
pub proof fn lemma_remove_then_read(docs: DirSnapshot, key: Seq<char>)
    ensures
        read_of(remove_of(docs, key), key) == null_text(),
{
}

/// Operations on distinct keys do not interfere: a write or a remove under
/// one key leaves what any other key reads unchanged.
pub proof fn lemma_distinct_keys_independent(
    docs: DirSnapshot,
    k1: Seq<char>,
    k2: Seq<char>,
    value: Seq<char>,
)
    requires
        k1 != k2,
    ensures
        read_of(write_of(docs, k1, value), k2) == read_of(docs, k2),
        read_of(remove_of(docs, k1), k2) == read_of(docs, k2),
{
}

} // verus!
