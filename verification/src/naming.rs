use vstd::prelude::*;
use vstd::string::StringExecFns;

verus! {

/// The fixed suffix appended to a key to form its backing file's name.
pub open spec fn json_suffix() -> Seq<char> {
    ".json"@
}

/// The name of the backing file that stores the document for `key`: the key
/// itself, used verbatim, with `.json` appended. No escaping, sanitization or
/// collision detection is performed on the key.
pub open spec fn backing_file_name_of(key: Seq<char>) -> Seq<char> {
    key + json_suffix()
}

/// Computes the backing file name for `key`.
pub fn backing_file_name(key: &str) -> (r: String)
    ensures
        r@ == backing_file_name_of(key@),
{
    key.to_owned().concat(".json")
}

/// Keys name backing files injectively: distinct keys always use distinct
/// backing files. So at most one backing file exists per key, and an
/// operation on one key can never touch another key's document.
pub proof fn lemma_backing_file_names_distinct(k1: Seq<char>, k2: Seq<char>)
    requires
        k1 != k2,
    ensures
        backing_file_name_of(k1) != backing_file_name_of(k2),
{
    if backing_file_name_of(k1) == backing_file_name_of(k2) {
        assert((k1 + json_suffix()).len() == k1.len() + json_suffix().len());
        assert((k2 + json_suffix()).len() == k2.len() + json_suffix().len());
        assert(k1.len() == k2.len());
        assert forall|i: int| 0 <= i < k1.len() implies k1[i] == k2[i] by {
            assert(backing_file_name_of(k1)[i] == k1[i]);
            assert(backing_file_name_of(k2)[i] == k2[i]);
        }
        assert(k1 =~= k2);
    }
}

} // verus!
