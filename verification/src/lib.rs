//! A multi-tenant object store: hierarchical files and folders with
//! large-file chunking, notes, and tasks, each record owned by the
//! identity that created it.
//!
//! The store is an explicit value holding four string-keyed collections.
//! Caller identity, timestamps and fresh identifiers are supplied by the
//! host as plain arguments, so every operation here is a deterministic,
//! fully specified function of its inputs.
use vstd::prelude::*;

pub mod files;
pub mod identity;
pub mod laws;
pub mod notes;
pub mod persist;
pub mod records;
pub mod table;
pub mod tasks;
pub mod usage;

verus! {

/// Why a mutation or lookup was refused: the record is absent, or it
/// exists but the caller is not its owner.
#[derive(Clone, Copy, Debug, PartialEq, Eq, Structural)]
pub enum StoreError {
    NotFound,
    Unauthorized,
}

/// The whole persistent state: four independent collections. Files and
/// chunks are coupled by the delete cascade; notes and tasks stand alone.
pub struct Store {
    pub files: table::Table<records::FileInfo>,
    pub chunks: table::Table<records::FileChunk>,
    pub notes: table::Table<records::Note>,
    pub tasks: table::Table<records::Task>,
}

impl Store {
    /// Every collection has pairwise-distinct keys.
    pub open spec fn wf(self) -> bool {
        &&& self.files.wf()
        &&& self.chunks.wf()
        &&& self.notes.wf()
        &&& self.tasks.wf()
    }
}

/// Establishes the store with all four collections empty. Runs once, on
/// first creation of the store, before any request is accepted.
pub fn init() -> (r: Store)
    ensures
        r.wf(),
        r.files.m() == Map::<Seq<char>, records::FileInfoV>::empty(),
        r.chunks.m() == Map::<Seq<char>, records::FileChunkV>::empty(),
        r.notes.m() == Map::<Seq<char>, records::NoteV>::empty(),
        r.tasks.m() == Map::<Seq<char>, records::TaskV>::empty(),
        r.files.sv() == Seq::<(Seq<char>, records::FileInfoV)>::empty(),
        r.notes.sv() == Seq::<(Seq<char>, records::NoteV)>::empty(),
        r.tasks.sv() == Seq::<(Seq<char>, records::TaskV)>::empty(),
{
    Store {
        files: table::Table::new(),
        chunks: table::Table::new(),
        notes: table::Table::new(),
        tasks: table::Table::new(),
    }
}

} // verus!
