//! The store's cross-operation guarantees, stated and proved once over
//! the same spec functions the operations' contracts use.
use vstd::prelude::*;
use crate::StoreError;
use crate::files::{chunk_spec, file_info_spec, owned_children};
use crate::notes::owned_notes;
use crate::records::{FileChunkV, FileInfoV, NoteV, TaskV};
use crate::tasks::owned_tasks;

verus! {

/// Every record in a directory listing belongs to the owner the listing
/// was filtered by.
pub proof fn lemma_listed_files_owned(
    s: Seq<(Seq<char>, FileInfoV)>,
    owner: Seq<u8>,
    parent: Option<Seq<char>>,
    i: int,
)
    requires
        0 <= i < owned_children(s, owner, parent).len(),
    ensures
        owned_children(s, owner, parent)[i].owner == owner,
    decreases s.len(),
{
    if s.len() > 0 {
        let rest = owned_children(s.drop_last(), owner, parent);
        if i < rest.len() {
            lemma_listed_files_owned(s.drop_last(), owner, parent, i);
        }
    }
}

/// A file record owned by one identity never appears in another
/// identity's listing, whatever parent it is queried under.
pub proof fn lemma_file_isolated(
    s: Seq<(Seq<char>, FileInfoV)>,
    a: Seq<u8>,
    b: Seq<u8>,
    parent: Option<Seq<char>>,
    f: FileInfoV,
)
    requires
        a != b,
        f.owner == a,
    ensures
        !owned_children(s, b, parent).contains(f),
{
    let listed = owned_children(s, b, parent);
    if listed.contains(f) {
        let i = choose|i: int| 0 <= i < listed.len() && listed[i] == f;
        lemma_listed_files_owned(s, b, parent, i);
    }
}

/// Every note in an owner-filtered listing belongs to that owner.
pub proof fn lemma_listed_notes_owned(s: Seq<(Seq<char>, NoteV)>, owner: Seq<u8>, i: int)
    requires
        0 <= i < owned_notes(s, owner).len(),
    ensures
        owned_notes(s, owner)[i].owner == owner,
    decreases s.len(),
{
    if s.len() > 0 {
        let rest = owned_notes(s.drop_last(), owner);
        if i < rest.len() {
            lemma_listed_notes_owned(s.drop_last(), owner, i);
        }
    }
}

/// A note owned by one identity never appears in another identity's
/// listing.
pub proof fn lemma_note_isolated(s: Seq<(Seq<char>, NoteV)>, a: Seq<u8>, b: Seq<u8>, n: NoteV)
    requires
        a != b,
        n.owner == a,
    ensures
        !owned_notes(s, b).contains(n),
{
    let listed = owned_notes(s, b);
    if listed.contains(n) {
        let i = choose|i: int| 0 <= i < listed.len() && listed[i] == n;
        lemma_listed_notes_owned(s, b, i);
    }
}

/// Every task in an owner-filtered listing belongs to that owner.
pub proof fn lemma_listed_tasks_owned(s: Seq<(Seq<char>, TaskV)>, owner: Seq<u8>, i: int)
    requires
        0 <= i < owned_tasks(s, owner).len(),
    ensures
        owned_tasks(s, owner)[i].owner == owner,
    decreases s.len(),
{
    if s.len() > 0 {
        let rest = owned_tasks(s.drop_last(), owner);
        if i < rest.len() {
            lemma_listed_tasks_owned(s.drop_last(), owner, i);
        }
    }
}

/// A task owned by one identity never appears in another identity's
/// listing.
pub proof fn lemma_task_isolated(s: Seq<(Seq<char>, TaskV)>, a: Seq<u8>, b: Seq<u8>, t: TaskV)
    requires
        a != b,
        t.owner == a,
    ensures
        !owned_tasks(s, b).contains(t),
{
    let listed = owned_tasks(s, b);
    if listed.contains(t) {
        let i = choose|i: int| 0 <= i < listed.len() && listed[i] == t;
        lemma_listed_tasks_owned(s, b, i);
    }
}

/// Round trip: a file record just stored under an identifier is exactly
/// what a fetch of that identifier returns, every field included.
pub proof fn lemma_file_round_trip(m: Map<Seq<char>, FileInfoV>, id: Seq<char>, v: FileInfoV)
    ensures
        file_info_spec(m.insert(id, v), id) == Result::<FileInfoV, StoreError>::Ok(v),
{
}

/// Round trip: a chunk just stored under an identifier is exactly what a
/// fetch of that identifier returns.
pub proof fn lemma_chunk_round_trip(m: Map<Seq<char>, FileChunkV>, id: Seq<char>, v: FileChunkV)
    ensures
        chunk_spec(m.insert(id, v), id) == Result::<FileChunkV, StoreError>::Ok(v),
{
}

/// Lookups are pure: the outcome is a function of the collection and the
/// identifier alone, so repeated calls on an unchanged store agree.
pub proof fn lemma_file_lookup_deterministic(
    m: Map<Seq<char>, FileInfoV>,
    id: Seq<char>,
    r1: Result<FileInfoV, StoreError>,
    r2: Result<FileInfoV, StoreError>,
)
    requires
        r1 == file_info_spec(m, id),
        r2 == file_info_spec(m, id),
    ensures
        r1 == r2,
{
}

/// Owner-filtered listings are pure in the same sense.
pub proof fn lemma_listing_deterministic(
    s: Seq<(Seq<char>, NoteV)>,
    owner: Seq<u8>,
    r1: Seq<NoteV>,
    r2: Seq<NoteV>,
)
    requires
        r1 == owned_notes(s, owner),
        r2 == owned_notes(s, owner),
    ensures
        r1 == r2,
{
}

/// Cascade: after a file's chunk identifiers are all removed, fetching
/// any one of them reports it absent.
pub proof fn lemma_cascade_removes_chunks(
    m: Map<Seq<char>, FileChunkV>,
    cids: Seq<Seq<char>>,
    c: Seq<char>,
)
    requires
        cids.contains(c),
    ensures
        chunk_spec(m.remove_keys(cids.to_set()), c) == Result::<FileChunkV, StoreError>::Err(
            StoreError::NotFound,
        ),
{
    assert(cids.to_set().contains(c));
}

/// Cascade: the deleted file record itself is gone afterwards.
pub proof fn lemma_deleted_file_gone(m: Map<Seq<char>, FileInfoV>, id: Seq<char>)
    ensures
        file_info_spec(m.remove(id), id) == Result::<FileInfoV, StoreError>::Err(
            StoreError::NotFound,
        ),
{
}

} // verus!
