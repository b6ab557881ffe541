//! The four record kinds the store holds, with their abstract views.
//!
//! Every record carries the identity that created it as `owner`; only
//! that identity may mutate or delete the record. Chunks are the one
//! exception: they carry no owner and inherit authorization through the
//! file that lists them.
use vstd::prelude::*;
use crate::identity::Identity;

verus! {

/// View of a sequence of strings.
pub open spec fn strs_v(s: Seq<String>) -> Seq<Seq<char>> {
    s.map_values(|x: String| x@)
}

/// View of an optional string.
pub open spec fn opt_str_v(o: Option<String>) -> Option<Seq<char>> {
    match o {
        Some(s) => Some(s@),
        None => None,
    }
}

/// View of a sequence of string pairs.
pub open spec fn pairs_v(s: Seq<(String, String)>) -> Seq<(Seq<char>, Seq<char>)> {
    s.map_values(|e: (String, String)| (e.0@, e.1@))
}

/// Metadata of a file or folder record.
#[derive(Debug)]
pub struct FileInfo {
    pub id: String,
    pub name: String,
    pub file_type: String,
    pub size: u64,
    pub created_at: u64,
    pub updated_at: u64,
    pub parent_folder: Option<String>,
    pub owner: Identity,
    pub content_chunks: Vec<String>,
    pub is_folder: bool,
    pub metadata: Vec<(String, String)>,
}

/// Abstract view of a [`FileInfo`].
#[verifier::ext_equal]
pub ghost struct FileInfoV {
    pub id: Seq<char>,
    pub name: Seq<char>,
    pub file_type: Seq<char>,
    pub size: u64,
    pub created_at: u64,
    pub updated_at: u64,
    pub parent_folder: Option<Seq<char>>,
    pub owner: Seq<u8>,
    pub content_chunks: Seq<Seq<char>>,
    pub is_folder: bool,
    pub metadata: Seq<(Seq<char>, Seq<char>)>,
}

impl View for FileInfo {
    type V = FileInfoV;

    open spec fn view(&self) -> FileInfoV {
        FileInfoV {
            id: self.id@,
            name: self.name@,
            file_type: self.file_type@,
            size: self.size,
            created_at: self.created_at,
            updated_at: self.updated_at,
            parent_folder: opt_str_v(self.parent_folder),
            owner: self.owner@,
            content_chunks: strs_v(self.content_chunks@),
            is_folder: self.is_folder,
            metadata: pairs_v(self.metadata@),
        }
    }
}

/// One fixed-index fragment of a large file's byte content.
#[derive(Debug)]
pub struct FileChunk {
    pub id: String,
    pub file_id: String,
    pub chunk_index: u32,
    pub data: Vec<u8>,
}

/// Abstract view of a [`FileChunk`].
#[verifier::ext_equal]
pub ghost struct FileChunkV {
    pub id: Seq<char>,
    pub file_id: Seq<char>,
    pub chunk_index: u32,
    pub data: Seq<u8>,
}

impl View for FileChunk {
    type V = FileChunkV;

    open spec fn view(&self) -> FileChunkV {
        FileChunkV {
            id: self.id@,
            file_id: self.file_id@,
            chunk_index: self.chunk_index,
            data: self.data@,
        }
    }
}

/// An owned note.
#[derive(Debug)]
pub struct Note {
    pub id: String,
    pub title: String,
    pub content: String,
    pub created_at: u64,
    pub updated_at: u64,
    pub owner: Identity,
    pub tags: Vec<String>,
}

/// Abstract view of a [`Note`].
#[verifier::ext_equal]
pub ghost struct NoteV {
    pub id: Seq<char>,
    pub title: Seq<char>,
    pub content: Seq<char>,
    pub created_at: u64,
    pub updated_at: u64,
    pub owner: Seq<u8>,
    pub tags: Seq<Seq<char>>,
}

impl View for Note {
    type V = NoteV;

    open spec fn view(&self) -> NoteV {
        NoteV {
            id: self.id@,
            title: self.title@,
            content: self.content@,
            created_at: self.created_at,
            updated_at: self.updated_at,
            owner: self.owner@,
            tags: strs_v(self.tags@),
        }
    }
}

/// An owned task.
#[derive(Debug)]
pub struct Task {
    pub id: String,
    pub title: String,
    pub description: String,
    pub completed: bool,
    pub created_at: u64,
    pub updated_at: u64,
    pub due_date: Option<u64>,
    pub owner: Identity,
    pub priority: String,
}

/// Abstract view of a [`Task`].
#[verifier::ext_equal]
pub ghost struct TaskV {
    pub id: Seq<char>,
    pub title: Seq<char>,
    pub description: Seq<char>,
    pub completed: bool,
    pub created_at: u64,
    pub updated_at: u64,
    pub due_date: Option<u64>,
    pub owner: Seq<u8>,
    pub priority: Seq<char>,
}

impl View for Task {
    type V = TaskV;

    open spec fn view(&self) -> TaskV {
        TaskV {
            id: self.id@,
            title: self.title@,
            description: self.description@,
            completed: self.completed,
            created_at: self.created_at,
            updated_at: self.updated_at,
            due_date: self.due_date,
            owner: self.owner@,
            priority: self.priority@,
        }
    }
}

/// An independent copy of a byte vector.
pub fn copy_bytes(v: &Vec<u8>) -> (r: Vec<u8>)
    ensures
        r@ == v@,
{
    let mut out: Vec<u8> = Vec::new();
    let n = v.len();
    let mut i: usize = 0;
    while i < n
        invariant
            n == v.len(),
            i <= n,
            out@ == v@.subrange(0, i as int),
        decreases n - i,
    {
        out.push(v[i]);
        i += 1;
    }
    proof {
        assert(out@ =~= v@);
    }
    out
}

/// An independent copy of a string vector.
pub fn copy_strings(v: &Vec<String>) -> (r: Vec<String>)
    ensures
        strs_v(r@) == strs_v(v@),
{
    let mut out: Vec<String> = Vec::new();
    let n = v.len();
    let mut i: usize = 0;
    while i < n
        invariant
            n == v.len(),
            i <= n,
            strs_v(out@) == strs_v(v@).subrange(0, i as int),
        decreases n - i,
    {
        let ghost pre = out@;
        out.push(v[i].clone());
        proof {
            assert(strs_v(out@) =~= strs_v(pre).push(v@[i as int]@));
            assert(strs_v(out@) =~= strs_v(v@).subrange(0, i + 1));
        }
        i += 1;
    }
    proof {
        assert(strs_v(v@).subrange(0, n as int) =~= strs_v(v@));
    }
    out
}

/// An independent copy of an optional string.
pub fn copy_opt_str(o: &Option<String>) -> (r: Option<String>)
    ensures
        opt_str_v(r) == opt_str_v(*o),
{
    match o {
        Some(s) => Some(s.clone()),
        None => None,
    }
}

/// An independent copy of a string-pair vector.
pub fn copy_pairs(v: &Vec<(String, String)>) -> (r: Vec<(String, String)>)
    ensures
        pairs_v(r@) == pairs_v(v@),
{
    let mut out: Vec<(String, String)> = Vec::new();
    let n = v.len();
    let mut i: usize = 0;
    while i < n
        invariant
            n == v.len(),
            i <= n,
            pairs_v(out@) == pairs_v(v@).subrange(0, i as int),
        decreases n - i,
    {
        let ghost pre = out@;
        out.push((v[i].0.clone(), v[i].1.clone()));
        proof {
            assert(pairs_v(out@) =~= pairs_v(pre).push((v@[i as int].0@, v@[i as int].1@)));
            assert(pairs_v(out@) =~= pairs_v(v@).subrange(0, i + 1));
        }
        i += 1;
    }
    proof {
        assert(pairs_v(v@).subrange(0, n as int) =~= pairs_v(v@));
    }
    out
}

impl FileInfo {
    /// An independent copy of this record.
    pub fn dup(&self) -> (r: FileInfo)
        ensures
            r@ == self@,
    {
        let r = FileInfo {
            id: self.id.clone(),
            name: self.name.clone(),
            file_type: self.file_type.clone(),
            size: self.size,
            created_at: self.created_at,
            updated_at: self.updated_at,
            parent_folder: copy_opt_str(&self.parent_folder),
            owner: self.owner.dup(),
            content_chunks: copy_strings(&self.content_chunks),
            is_folder: self.is_folder,
            metadata: copy_pairs(&self.metadata),
        };
        proof {
            assert(r@ =~= self@);
        }
        r
    }
}

impl FileChunk {
    /// An independent copy of this record.
    pub fn dup(&self) -> (r: FileChunk)
        ensures
            r@ == self@,
    {
        let r = FileChunk {
            id: self.id.clone(),
            file_id: self.file_id.clone(),
            chunk_index: self.chunk_index,
            data: copy_bytes(&self.data),
        };
        proof {
            assert(r@ =~= self@);
        }
        r
    }
}

impl Note {
    /// An independent copy of this record.
    pub fn dup(&self) -> (r: Note)
        ensures
            r@ == self@,
    {
        let r = Note {
            id: self.id.clone(),
            title: self.title.clone(),
            content: self.content.clone(),
            created_at: self.created_at,
            updated_at: self.updated_at,
            owner: self.owner.dup(),
            tags: copy_strings(&self.tags),
        };
        proof {
            assert(r@ =~= self@);
        }
        r
    }
}

impl Task {
    /// An independent copy of this record.
    pub fn dup(&self) -> (r: Task)
        ensures
            r@ == self@,
    {
        let r = Task {
            id: self.id.clone(),
            title: self.title.clone(),
            description: self.description.clone(),
            completed: self.completed,
            created_at: self.created_at,
            updated_at: self.updated_at,
            due_date: self.due_date,
            owner: self.owner.dup(),
            priority: self.priority.clone(),
        };
        proof {
            assert(r@ =~= self@);
        }
        r
    }
}

} // verus!
