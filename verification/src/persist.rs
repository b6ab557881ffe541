//! The persistence boundary: a full dump of the store as plain entry
//! lists, and reconstruction from such a dump.
//!
//! The host's pre-shutdown hook takes the dump, serialises it however it
//! likes (the encoding is its concern, not the store's) and writes it
//! out; the post-restart hook reads it back, decodes it and rebuilds the
//! store. [`save_store`] and [`restore_store`] guarantee between them
//! that the rebuilt store holds exactly the records the dump was taken
//! from: no record lost, none changed.
use vstd::prelude::*;
use crate::records::{FileChunk, FileInfo, Note, Task};
use crate::table::{Table, entries_sv, map_of};
use crate::Store;

verus! {

/// Every record of all four collections, as plain entry lists in the
/// collections' iteration order.
pub struct StoreDump {
    pub files: Vec<(String, FileInfo)>,
    pub chunks: Vec<(String, FileChunk)>,
    pub notes: Vec<(String, Note)>,
    pub tasks: Vec<(String, Task)>,
}

/// An independent copy of the file collection's entries.
fn dump_files(t: &Table<FileInfo>) -> (r: Vec<(String, FileInfo)>)
    ensures
        entries_sv(r@) == t.sv(),
{
    let mut out: Vec<(String, FileInfo)> = Vec::new();
    let n = t.entries.len();
    let mut i: usize = 0;
    while i < n
        invariant
            n == t.entries@.len(),
            i <= n,
            entries_sv(out@) == t.sv().subrange(0, i as int),
        decreases n - i,
    {
        let ghost pre = out@;
        let e = &t.entries[i];
        out.push((e.0.clone(), e.1.dup()));
        proof {
            assert(entries_sv(out@) =~= entries_sv(pre).push(t.sv()[i as int]));
            assert(entries_sv(out@) =~= t.sv().subrange(0, i + 1));
        }
        i += 1;
    }
    proof {
        assert(t.sv().subrange(0, n as int) =~= t.sv());
    }
    out
}

/// An independent copy of the chunk collection's entries.
fn dump_chunks(t: &Table<FileChunk>) -> (r: Vec<(String, FileChunk)>)
    ensures
        entries_sv(r@) == t.sv(),
{
    let mut out: Vec<(String, FileChunk)> = Vec::new();
    let n = t.entries.len();
    let mut i: usize = 0;
    while i < n
        invariant
            n == t.entries@.len(),
            i <= n,
            entries_sv(out@) == t.sv().subrange(0, i as int),
        decreases n - i,
    {
        let ghost pre = out@;
        let e = &t.entries[i];
        out.push((e.0.clone(), e.1.dup()));
        proof {
            assert(entries_sv(out@) =~= entries_sv(pre).push(t.sv()[i as int]));
            assert(entries_sv(out@) =~= t.sv().subrange(0, i + 1));
        }
        i += 1;
    }
    proof {
        assert(t.sv().subrange(0, n as int) =~= t.sv());
    }
    out
}

/// An independent copy of the note collection's entries.
fn dump_notes(t: &Table<Note>) -> (r: Vec<(String, Note)>)
    ensures
        entries_sv(r@) == t.sv(),
{
    let mut out: Vec<(String, Note)> = Vec::new();
    let n = t.entries.len();
    let mut i: usize = 0;
    while i < n
        invariant
            n == t.entries@.len(),
            i <= n,
            entries_sv(out@) == t.sv().subrange(0, i as int),
        decreases n - i,
    {
        let ghost pre = out@;
        let e = &t.entries[i];
        out.push((e.0.clone(), e.1.dup()));
        proof {
            assert(entries_sv(out@) =~= entries_sv(pre).push(t.sv()[i as int]));
            assert(entries_sv(out@) =~= t.sv().subrange(0, i + 1));
        }
        i += 1;
    }
    proof {
        assert(t.sv().subrange(0, n as int) =~= t.sv());
    }
    out
}

/// An independent copy of the task collection's entries.
fn dump_tasks(t: &Table<Task>) -> (r: Vec<(String, Task)>)
    ensures
        entries_sv(r@) == t.sv(),
{
    let mut out: Vec<(String, Task)> = Vec::new();
    let n = t.entries.len();
    let mut i: usize = 0;
    while i < n
        invariant
            n == t.entries@.len(),
            i <= n,
            entries_sv(out@) == t.sv().subrange(0, i as int),
        decreases n - i,
    {
        let ghost pre = out@;
        let e = &t.entries[i];
        out.push((e.0.clone(), e.1.dup()));
        proof {
            assert(entries_sv(out@) =~= entries_sv(pre).push(t.sv()[i as int]));
            assert(entries_sv(out@) =~= t.sv().subrange(0, i + 1));
        }
        i += 1;
    }
    proof {
        assert(t.sv().subrange(0, n as int) =~= t.sv());
    }
    out
}

/// Takes the pre-shutdown dump: every record of every collection, in
/// iteration order, leaving the store as it was.
pub fn save_store(store: &Store) -> (d: StoreDump)
    ensures
        entries_sv(d.files@) == store.files.sv(),
        entries_sv(d.chunks@) == store.chunks.sv(),
        entries_sv(d.notes@) == store.notes.sv(),
        entries_sv(d.tasks@) == store.tasks.sv(),
{
    StoreDump {
        files: dump_files(&store.files),
        chunks: dump_chunks(&store.chunks),
        notes: dump_notes(&store.notes),
        tasks: dump_tasks(&store.tasks),
    }
}

/// Rebuilds the store from a dump after a restart. Whatever the dump
/// holds, the result is a well-formed store whose content is the mapping
/// the dump's lists denote; on a dump taken by [`save_store`] that is
/// exactly the saved store's content.
pub fn restore_store(d: StoreDump) -> (r: Store)
    ensures
        r.wf(),
        r.files.m() == map_of(entries_sv(d.files@)),
        r.chunks.m() == map_of(entries_sv(d.chunks@)),
        r.notes.m() == map_of(entries_sv(d.notes@)),
        r.tasks.m() == map_of(entries_sv(d.tasks@)),
{
    let StoreDump { files, chunks, notes, tasks } = d;
    Store {
        files: Table::rebuild(files),
        chunks: Table::rebuild(chunks),
        notes: Table::rebuild(notes),
        tasks: Table::rebuild(tasks),
    }
}

/// Persistence round trip: a dump taken by [`save_store`] and fed to
/// [`restore_store`] reproduces every record of every collection — the
/// rebuilt store's content is the saved store's content.
pub proof fn lemma_persistence_round_trip(pre: Store, d: StoreDump, post: Store)
    requires
        entries_sv(d.files@) == pre.files.sv(),
        entries_sv(d.chunks@) == pre.chunks.sv(),
        entries_sv(d.notes@) == pre.notes.sv(),
        entries_sv(d.tasks@) == pre.tasks.sv(),
        post.files.m() == map_of(entries_sv(d.files@)),
        post.chunks.m() == map_of(entries_sv(d.chunks@)),
        post.notes.m() == map_of(entries_sv(d.notes@)),
        post.tasks.m() == map_of(entries_sv(d.tasks@)),
    ensures
        post.files.m() == pre.files.m(),
        post.chunks.m() == pre.chunks.m(),
        post.notes.m() == pre.notes.m(),
        post.tasks.m() == pre.tasks.m(),
{
}

} // verus!
