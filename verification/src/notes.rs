//! The note subsystem: owned-record CRUD over the notes collection.
use vstd::prelude::*;
use crate::identity::{Identity, same_identity};
use crate::records::{Note, NoteV, strs_v};
use crate::{Store, StoreError};

verus! {

/// The record that `create_note` stores and returns.
pub open spec fn new_note_v(
    id: Seq<char>,
    title: Seq<char>,
    content: Seq<char>,
    tags: Seq<Seq<char>>,
    now: u64,
    owner: Seq<u8>,
) -> NoteV {
    NoteV { id, title, content, created_at: now, updated_at: now, owner, tags }
}

/// An existing note after an update: the three mutable fields replaced,
/// the update timestamp refreshed, identifier, owner and creation time
/// kept.
pub open spec fn updated_note_v(
    n: NoteV,
    title: Seq<char>,
    content: Seq<char>,
    tags: Seq<Seq<char>>,
    now: u64,
) -> NoteV {
    NoteV {
        id: n.id,
        title,
        content,
        created_at: n.created_at,
        updated_at: now,
        owner: n.owner,
        tags,
    }
}

/// The caller's notes, in the collection's stable iteration order.
pub open spec fn owned_notes(s: Seq<(Seq<char>, NoteV)>, owner: Seq<u8>) -> Seq<NoteV>
    decreases s.len(),
{
    if s.len() == 0 {
        Seq::empty()
    } else {
        let rest = owned_notes(s.drop_last(), owner);
        if s.last().1.owner == owner {
            rest.push(s.last().1)
        } else {
            rest
        }
    }
}

/// View of a sequence of notes.
pub open spec fn notes_v(s: Seq<Note>) -> Seq<NoteV> {
    s.map_values(|n: Note| n@)
}

/// Creates a note for the caller. Always succeeds; both timestamps are
/// set to `now` and the tags are kept in the order supplied, duplicates
/// included.
pub fn create_note(
    store: &mut Store,
    caller: &Identity,
    id: String,
    now: u64,
    title: String,
    content: String,
    tags: Vec<String>,
) -> (r: Note)
    requires
        old(store).wf(),
    ensures
        final(store).wf(),
        r@ == new_note_v(id@, title@, content@, strs_v(tags@), now, caller@),
        final(store).notes.m() == old(store).notes.m().insert(id@, r@),
        final(store).files == old(store).files,
        final(store).chunks == old(store).chunks,
        final(store).tasks == old(store).tasks,
{
    let note = Note {
        id: id.clone(),
        title,
        content,
        created_at: now,
        updated_at: now,
        owner: caller.dup(),
        tags,
    };
    let r = note.dup();
    store.notes.insert(id, note);
    r
}

/// Replaces a note's title, content and tags, if the caller owns it.
/// On any error the store is unchanged.
pub fn update_note(
    store: &mut Store,
    caller: &Identity,
    now: u64,
    note_id: &String,
    title: String,
    content: String,
    tags: Vec<String>,
) -> (r: Result<Note, StoreError>)
    requires
        old(store).wf(),
    ensures
        final(store).wf(),
        final(store).files == old(store).files,
        final(store).chunks == old(store).chunks,
        final(store).tasks == old(store).tasks,
        r == Result::<Note, StoreError>::Err(StoreError::NotFound) <==> !old(
            store,
        ).notes.m().contains_key(note_id@),
        r == Result::<Note, StoreError>::Err(StoreError::Unauthorized) <==> (old(
            store,
        ).notes.m().contains_key(note_id@) && old(store).notes.m()[note_id@].owner != caller@),
        match r {
            Result::Ok(n) => {
                &&& old(store).notes.m().contains_key(note_id@)
                &&& old(store).notes.m()[note_id@].owner == caller@
                &&& n@ == updated_note_v(
                    old(store).notes.m()[note_id@],
                    title@,
                    content@,
                    strs_v(tags@),
                    now,
                )
                &&& final(store).notes.m() == old(store).notes.m().insert(note_id@, n@)
            },
            Result::Err(StoreError::NotFound) => {
                &&& !old(store).notes.m().contains_key(note_id@)
                &&& *final(store) == *old(store)
            },
            Result::Err(StoreError::Unauthorized) => {
                &&& old(store).notes.m().contains_key(note_id@)
                &&& old(store).notes.m()[note_id@].owner != caller@
                &&& *final(store) == *old(store)
            },
        },
{
    let existing = match store.notes.get(note_id) {
        Some(n) => {
            if !same_identity(&n.owner, caller) {
                return Result::Err(StoreError::Unauthorized);
            }
            n.dup()
        },
        None => {
            return Result::Err(StoreError::NotFound);
        },
    };
    let mut note = existing;
    note.title = title;
    note.content = content;
    note.tags = tags;
    note.updated_at = now;
    let r = note.dup();
    proof {
        assert(note@ =~= updated_note_v(
            old(store).notes.m()[note_id@],
            title@,
            content@,
            strs_v(tags@),
            now,
        ));
    }
    store.notes.insert(note_id.clone(), note);
    Result::Ok(r)
}

/// Lists every note owned by the caller.
pub fn get_notes(store: &Store, caller: &Identity) -> (r: Vec<Note>)
    requires
        store.wf(),
    ensures
        notes_v(r@) == owned_notes(store.notes.sv(), caller@),
{
    let ghost owner = caller@;
    let mut out: Vec<Note> = Vec::new();
    let n = store.notes.entries.len();
    let mut i: usize = 0;
    while i < n
        invariant
            store.wf(),
            n == store.notes.entries@.len(),
            i <= n,
            owner == caller@,
            notes_v(out@) == owned_notes(store.notes.sv().subrange(0, i as int), owner),
        decreases n - i,
    {
        let ghost prefix = store.notes.sv().subrange(0, i as int);
        let ghost cur = store.notes.sv()[i as int];
        let e = &store.notes.entries[i];
        let keep = same_identity(&e.1.owner, caller);
        let ghost before = out@;
        if keep {
            out.push(e.1.dup());
        }
        proof {
            let ext = prefix.push(cur);
            assert(store.notes.sv().subrange(0, i + 1) =~= ext);
            assert(ext.drop_last() =~= prefix);
            assert(cur.1 == e.1@);
            if keep {
                assert(notes_v(out@) =~= notes_v(before).push(cur.1));
            }
            assert(notes_v(out@) =~= owned_notes(store.notes.sv().subrange(0, i + 1), owner));
        }
        i += 1;
    }
    proof {
        assert(store.notes.sv().subrange(0, n as int) =~= store.notes.sv());
    }
    out
}

/// Deletes a note the caller owns. On any error the store is unchanged.
pub fn delete_note(store: &mut Store, caller: &Identity, note_id: &String) -> (r: Result<
    (),
    StoreError,
>)
    requires
        old(store).wf(),
    ensures
        final(store).wf(),
        final(store).files == old(store).files,
        final(store).chunks == old(store).chunks,
        final(store).tasks == old(store).tasks,
        r == Result::<(), StoreError>::Err(StoreError::NotFound) <==> !old(
            store,
        ).notes.m().contains_key(note_id@),
        r == Result::<(), StoreError>::Err(StoreError::Unauthorized) <==> (old(
            store,
        ).notes.m().contains_key(note_id@) && old(store).notes.m()[note_id@].owner != caller@),
        match r {
            Result::Ok(()) => {
                &&& old(store).notes.m().contains_key(note_id@)
                &&& old(store).notes.m()[note_id@].owner == caller@
                &&& final(store).notes.m() == old(store).notes.m().remove(note_id@)
            },
            Result::Err(StoreError::NotFound) => {
                &&& !old(store).notes.m().contains_key(note_id@)
                &&& *final(store) == *old(store)
            },
            Result::Err(StoreError::Unauthorized) => {
                &&& old(store).notes.m().contains_key(note_id@)
                &&& old(store).notes.m()[note_id@].owner != caller@
                &&& *final(store) == *old(store)
            },
        },
{
    match store.notes.get(note_id) {
        Some(n) => {
            if !same_identity(&n.owner, caller) {
                return Result::Err(StoreError::Unauthorized);
            }
        },
        None => {
            return Result::Err(StoreError::NotFound);
        },
    }
    store.notes.remove(note_id);
    Result::Ok(())
}

} // verus!
