use vstd::prelude::*;
use crate::manager::{has_id, ids_distinct, index_of, lookup, without_id};
use crate::record::FileRecord;

verus! {

/// In a store that lacks `r.id`, the record under `r.id` after `r` is added
/// is `r`, found at the end.
proof fn lemma_new_record_at_end(s: Seq<FileRecord>, r: FileRecord)
    requires
        !has_id(s, r.id),
    ensures
        has_id(s.push(r), r.id),
        index_of(s.push(r), r.id) == s.len(),
{
    let t = s.push(r);
    assert(t[s.len() as int].id == r.id);
    let k = index_of(t, r.id);
    if k < s.len() {
        assert(s[k].id == r.id);
    }
}

/// Storing a record and then listing the store gives back every earlier
/// record unchanged, in its place, and the new record, equal in every
/// field, last.
pub proof fn lemma_insert_then_list(s: Seq<FileRecord>, r: FileRecord)
    requires
        !has_id(s, r.id),
    ensures
        s.push(r).len() == s.len() + 1,
        s.push(r)[s.len() as int] == r,
        forall|i: int| 0 <= i < s.len() ==> #[trigger] s.push(r)[i] == s[i],
{
}

/// Identifiers stay pairwise distinct over any run of successful inserts:
/// adding a record whose identifier is fresh keeps them distinct.
pub proof fn lemma_ingest_keeps_ids_distinct(s: Seq<FileRecord>, r: FileRecord)
    requires
        ids_distinct(s),
        !has_id(s, r.id),
    ensures
        ids_distinct(s.push(r)),
{
    let t = s.push(r);
    assert forall|i: int, j: int| 0 <= i < t.len() && 0 <= j < t.len() && i != j implies
        #[trigger] t[i].id != #[trigger] t[j].id by {
        if i == s.len() {
            assert(s[j].id != r.id);
        } else if j == s.len() {
            assert(s[i].id != r.id);
        } else {
            assert(s[i].id != s[j].id);
        }
    }
}

/// Once an upload has been stored, a lookup of its identifier finds exactly
/// its record, and the listing holds it.
pub proof fn lemma_ingest_visible(s: Seq<FileRecord>, r: FileRecord)
    requires
        !has_id(s, r.id),
    ensures
        lookup(s.push(r), r.id) == Some(r),
        s.push(r).contains(r),
{
    lemma_new_record_at_end(s, r);
    assert(s.push(r)[s.len() as int] == r);
}

/// Taking back a just-stored record after its metadata failed to save
/// leaves the listing exactly as it was before the upload.
pub proof fn lemma_undo_restores(s: Seq<FileRecord>, r: FileRecord)
    requires
        !has_id(s, r.id),
    ensures
        without_id(s.push(r), r.id) == s,
{
    lemma_new_record_at_end(s, r);
    assert(s.push(r).remove(s.len() as int) =~= s);
}

} // verus!
