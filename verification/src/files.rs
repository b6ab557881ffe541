//! The file/folder subsystem: folder creation, chunked upload, point
//! lookups, the caller's directory listing, and cascading deletion.
//!
//! A chunk's identifier is derived from its file's identifier and its
//! zero-based index, so re-uploading an index overwrites that chunk's
//! bytes in place.
use vstd::prelude::*;
use vstd::string::StringExecFns;
use crate::identity::{Identity, same_identity};
use crate::records::{
    FileChunk,
    FileChunkV,
    FileInfo,
    FileInfoV,
    copy_strings,
    opt_str_v,
    strs_v,
};
use crate::{Store, StoreError};

verus! {

/// The decimal digit for one place value.
pub open spec fn digit_char(d: nat) -> char {
    if d == 0 {
        '0'
    } else if d == 1 {
        '1'
    } else if d == 2 {
        '2'
    } else if d == 3 {
        '3'
    } else if d == 4 {
        '4'
    } else if d == 5 {
        '5'
    } else if d == 6 {
        '6'
    } else if d == 7 {
        '7'
    } else if d == 8 {
        '8'
    } else {
        '9'
    }
}

/// The decimal rendering of `n`, without sign or leading zeroes.
pub open spec fn dec_str(n: nat) -> Seq<char>
    decreases n,
{
    if n < 10 {
        seq![digit_char(n)]
    } else {
        dec_str(n / 10).push(digit_char(n % 10))
    }
}

/// The chunk identifier derived from a file identifier and chunk index.
pub open spec fn chunk_id_v(file_id: Seq<char>, chunk_index: u32) -> Seq<char> {
    file_id + "_"@ + dec_str(chunk_index as nat)
}

/// One decimal digit as a string slice.
fn digit_str(d: u32) -> (r: &'static str)
    requires
        d < 10,
    ensures
        r@ == seq![digit_char(d as nat)],
{
    if d == 0 {
        proof {
            reveal_strlit("0");
            assert("0"@ =~= seq![digit_char(0)]);
        }
        "0"
    } else if d == 1 {
        proof {
            reveal_strlit("1");
            assert("1"@ =~= seq![digit_char(1)]);
        }
        "1"
    } else if d == 2 {
        proof {
            reveal_strlit("2");
            assert("2"@ =~= seq![digit_char(2)]);
        }
        "2"
    } else if d == 3 {
        proof {
            reveal_strlit("3");
            assert("3"@ =~= seq![digit_char(3)]);
        }
        "3"
    } else if d == 4 {
        proof {
            reveal_strlit("4");
            assert("4"@ =~= seq![digit_char(4)]);
        }
        "4"
    } else if d == 5 {
        proof {
            reveal_strlit("5");
            assert("5"@ =~= seq![digit_char(5)]);
        }
        "5"
    } else if d == 6 {
        proof {
            reveal_strlit("6");
            assert("6"@ =~= seq![digit_char(6)]);
        }
        "6"
    } else if d == 7 {
        proof {
            reveal_strlit("7");
            assert("7"@ =~= seq![digit_char(7)]);
        }
        "7"
    } else if d == 8 {
        proof {
            reveal_strlit("8");
            assert("8"@ =~= seq![digit_char(8)]);
        }
        "8"
    } else {
        proof {
            reveal_strlit("9");
            assert("9"@ =~= seq![digit_char(9)]);
        }
        "9"
    }
}

/// Renders `n` in decimal.
pub fn u32_to_dec(n: u32) -> (r: String)
    ensures
        r@ == dec_str(n as nat),
    decreases n,
{
    if n < 10 {
        digit_str(n).to_owned()
    } else {
        let mut s = u32_to_dec(n / 10);
        s.append(digit_str(n % 10));
        proof {
            assert(s@ =~= dec_str(n as nat));
        }
        s
    }
}

/// Builds the chunk identifier for `(file_id, chunk_index)`.
pub fn make_chunk_id(file_id: &String, chunk_index: u32) -> (r: String)
    ensures
        r@ == chunk_id_v(file_id@, chunk_index),
{
    let mut s = file_id.clone();
    s.append("_");
    let d = u32_to_dec(chunk_index);
    s.append(d.as_str());
    proof {
        assert(s@ =~= chunk_id_v(file_id@, chunk_index));
    }
    s
}

/// The folder record that `create_folder` stores and returns.
pub open spec fn new_folder_v(
    id: Seq<char>,
    name: Seq<char>,
    now: u64,
    parent: Option<Seq<char>>,
    owner: Seq<u8>,
) -> FileInfoV {
    FileInfoV {
        id,
        name,
        file_type: "folder"@,
        size: 0,
        created_at: now,
        updated_at: now,
        parent_folder: parent,
        owner,
        content_chunks: Seq::empty(),
        is_folder: true,
        metadata: Seq::empty(),
    }
}

/// Creates a folder for the caller. Always succeeds: the parent folder
/// reference is recorded as given, without an existence or ownership
/// check. The folder invariant holds of the result: no chunks, size 0.
pub fn create_folder(
    store: &mut Store,
    caller: &Identity,
    id: String,
    now: u64,
    name: String,
    parent_folder: Option<String>,
) -> (r: FileInfo)
    requires
        old(store).wf(),
    ensures
        final(store).wf(),
        r@ == new_folder_v(id@, name@, now, opt_str_v(parent_folder), caller@),
        final(store).files.m() == old(store).files.m().insert(id@, r@),
        final(store).chunks == old(store).chunks,
        final(store).notes == old(store).notes,
        final(store).tasks == old(store).tasks,
{
    let folder = FileInfo {
        id: id.clone(),
        name,
        file_type: "folder".to_owned(),
        size: 0,
        created_at: now,
        updated_at: now,
        parent_folder,
        owner: caller.dup(),
        content_chunks: Vec::new(),
        is_folder: true,
        metadata: Vec::new(),
    };
    let r = folder.dup();
    proof {
        assert(folder@ =~= new_folder_v(
            id@,
            folder.name@,
            now,
            opt_str_v(folder.parent_folder),
            caller@,
        ));
    }
    store.files.insert(id, folder);
    r
}

/// The file record that a first upload for `file_id` creates.
pub open spec fn new_file_v(
    id: Seq<char>,
    name: Seq<char>,
    file_type: Seq<char>,
    size: u64,
    now: u64,
    parent: Option<Seq<char>>,
    owner: Seq<u8>,
    cid: Seq<char>,
) -> FileInfoV {
    FileInfoV {
        id,
        name,
        file_type,
        size,
        created_at: now,
        updated_at: now,
        parent_folder: parent,
        owner,
        content_chunks: seq![cid],
        is_folder: false,
        metadata: Seq::empty(),
    }
}

/// An existing file record after an upload touched it: the chunk
/// identifier is appended (even when already present) and the update
/// timestamp refreshed; every other field is kept.
pub open spec fn file_with_chunk(f: FileInfoV, cid: Seq<char>, now: u64) -> FileInfoV {
    FileInfoV {
        id: f.id,
        name: f.name,
        file_type: f.file_type,
        size: f.size,
        created_at: f.created_at,
        updated_at: now,
        parent_folder: f.parent_folder,
        owner: f.owner,
        content_chunks: f.content_chunks.push(cid),
        is_folder: f.is_folder,
        metadata: f.metadata,
    }
}

/// Stores the bytes of one chunk and records it on the file.
///
/// The chunk is written under its derived identifier, overwriting any
/// previous bytes for the same `(file_id, chunk_index)`. If no file
/// record exists for `file_id`, one is created with the supplied
/// metadata and the caller as owner; if one exists, only its update
/// timestamp and chunk list change, the supplied metadata is ignored,
/// and no ownership check is made against the existing record.
pub fn upload_file_chunk(
    store: &mut Store,
    caller: &Identity,
    now: u64,
    file_id: String,
    chunk_index: u32,
    data: Vec<u8>,
    file_name: String,
    file_type: String,
    total_size: u64,
    parent_folder: Option<String>,
) -> (r: String)
    requires
        old(store).wf(),
    ensures
        final(store).wf(),
        r@ == chunk_id_v(file_id@, chunk_index),
        final(store).chunks.m() == old(store).chunks.m().insert(
            chunk_id_v(file_id@, chunk_index),
            (FileChunkV {
                id: chunk_id_v(file_id@, chunk_index),
                file_id: file_id@,
                chunk_index,
                data: data@,
            }),
        ),
        old(store).files.m().contains_key(file_id@) ==> final(store).files.m() == old(
            store,
        ).files.m().insert(
            file_id@,
            file_with_chunk(
                old(store).files.m()[file_id@],
                chunk_id_v(file_id@, chunk_index),
                now,
            ),
        ),
        !old(store).files.m().contains_key(file_id@) ==> final(store).files.m() == old(
            store,
        ).files.m().insert(
            file_id@,
            new_file_v(
                file_id@,
                file_name@,
                file_type@,
                total_size,
                now,
                opt_str_v(parent_folder),
                caller@,
                chunk_id_v(file_id@, chunk_index),
            ),
        ),
        final(store).notes == old(store).notes,
        final(store).tasks == old(store).tasks,
{
    let chunk_id = make_chunk_id(&file_id, chunk_index);
    let chunk = FileChunk {
        id: chunk_id.clone(),
        file_id: file_id.clone(),
        chunk_index,
        data,
    };
    store.chunks.insert(chunk_id.clone(), chunk);
    let existing = match store.files.get(&file_id) {
        Some(f) => Some(f.dup()),
        None => None,
    };
    match existing {
        Some(f) => {
            let mut nf = f;
            nf.content_chunks.push(chunk_id.clone());
            nf.updated_at = now;
            proof {
                assert(nf@ =~= file_with_chunk(
                    old(store).files.m()[file_id@],
                    chunk_id_v(file_id@, chunk_index),
                    now,
                ));
            }
            store.files.insert(file_id, nf);
        },
        None => {
            let nf = FileInfo {
                id: file_id.clone(),
                name: file_name,
                file_type,
                size: total_size,
                created_at: now,
                updated_at: now,
                parent_folder,
                owner: caller.dup(),
                content_chunks: vec![chunk_id.clone()],
                is_folder: false,
                metadata: Vec::new(),
            };
            proof {
                assert(nf@ =~= new_file_v(
                    file_id@,
                    nf.name@,
                    nf.file_type@,
                    total_size,
                    now,
                    opt_str_v(nf.parent_folder),
                    caller@,
                    chunk_id_v(file_id@, chunk_index),
                ));
            }
            store.files.insert(file_id, nf);
        },
    }
    chunk_id
}

/// The outcome of a file lookup, as a function of the collection.
pub open spec fn file_info_spec(m: Map<Seq<char>, FileInfoV>, id: Seq<char>) -> Result<
    FileInfoV,
    StoreError,
> {
    if m.contains_key(id) {
        Result::Ok(m[id])
    } else {
        Result::Err(StoreError::NotFound)
    }
}

/// View of a file lookup's result.
pub open spec fn file_res_v(r: Result<FileInfo, StoreError>) -> Result<FileInfoV, StoreError> {
    match r {
        Result::Ok(f) => Result::Ok(f@),
        Result::Err(e) => Result::Err(e),
    }
}

/// Fetches a file record by identifier. A pure lookup with no ownership
/// filter: any caller that knows an identifier may read the record.
pub fn get_file_info(store: &Store, file_id: &String) -> (r: Result<FileInfo, StoreError>)
    requires
        store.wf(),
    ensures
        file_res_v(r) == file_info_spec(store.files.m(), file_id@),
{
    match store.files.get(file_id) {
        Some(f) => Result::Ok(f.dup()),
        None => Result::Err(StoreError::NotFound),
    }
}

/// The outcome of a chunk lookup, as a function of the collection.
pub open spec fn chunk_spec(m: Map<Seq<char>, FileChunkV>, id: Seq<char>) -> Result<
    FileChunkV,
    StoreError,
> {
    if m.contains_key(id) {
        Result::Ok(m[id])
    } else {
        Result::Err(StoreError::NotFound)
    }
}

/// View of a chunk lookup's result.
pub open spec fn chunk_res_v(r: Result<FileChunk, StoreError>) -> Result<FileChunkV, StoreError> {
    match r {
        Result::Ok(c) => Result::Ok(c@),
        Result::Err(e) => Result::Err(e),
    }
}

/// Fetches a chunk by identifier. A pure lookup with no ownership filter.
pub fn get_file_chunk(store: &Store, chunk_id: &String) -> (r: Result<FileChunk, StoreError>)
    requires
        store.wf(),
    ensures
        chunk_res_v(r) == chunk_spec(store.chunks.m(), chunk_id@),
{
    match store.chunks.get(chunk_id) {
        Some(c) => Result::Ok(c.dup()),
        None => Result::Err(StoreError::NotFound),
    }
}

/// View of a sequence of file records.
pub open spec fn files_v(s: Seq<FileInfo>) -> Seq<FileInfoV> {
    s.map_values(|f: FileInfo| f@)
}

/// The caller's records under one parent, in the collection's stable
/// iteration order.
pub open spec fn owned_children(
    s: Seq<(Seq<char>, FileInfoV)>,
    owner: Seq<u8>,
    parent: Option<Seq<char>>,
) -> Seq<FileInfoV>
    decreases s.len(),
{
    if s.len() == 0 {
        Seq::empty()
    } else {
        let rest = owned_children(s.drop_last(), owner, parent);
        let f = s.last().1;
        if f.owner == owner && f.parent_folder == parent {
            rest.push(f)
        } else {
            rest
        }
    }
}

/// True exactly when the two optional strings denote the same reference.
pub fn opt_str_eq(a: &Option<String>, b: &Option<String>) -> (r: bool)
    ensures
        r == (opt_str_v(*a) == opt_str_v(*b)),
{
    match (a, b) {
        (Some(x), Some(y)) => *x == *y,
        (None, None) => true,
        _ => false,
    }
}

/// Lists every file and folder owned by the caller whose parent reference
/// equals `folder_id` (absent means the top level).
pub fn list_files(store: &Store, caller: &Identity, folder_id: &Option<String>) -> (r: Vec<
    FileInfo,
>)
    requires
        store.wf(),
    ensures
        files_v(r@) == owned_children(store.files.sv(), caller@, opt_str_v(*folder_id)),
{
    let ghost owner = caller@;
    let ghost parent = opt_str_v(*folder_id);
    let mut out: Vec<FileInfo> = Vec::new();
    let n = store.files.entries.len();
    let mut i: usize = 0;
    while i < n
        invariant
            store.wf(),
            n == store.files.entries@.len(),
            i <= n,
            owner == caller@,
            parent == opt_str_v(*folder_id),
            files_v(out@) == owned_children(
                store.files.sv().subrange(0, i as int),
                owner,
                parent,
            ),
        decreases n - i,
    {
        let ghost prefix = store.files.sv().subrange(0, i as int);
        let ghost cur = store.files.sv()[i as int];
        let e = &store.files.entries[i];
        let keep = same_identity(&e.1.owner, caller) && opt_str_eq(&e.1.parent_folder, folder_id);
        let ghost before = out@;
        if keep {
            out.push(e.1.dup());
        }
        proof {
            let ext = prefix.push(cur);
            assert(store.files.sv().subrange(0, i + 1) =~= ext);
            assert(ext.drop_last() =~= prefix);
            assert(cur.1 == e.1@);
            assert(keep == (cur.1.owner == owner && cur.1.parent_folder == parent));
            if keep {
                assert(files_v(out@) =~= files_v(before).push(cur.1));
            }
            assert(files_v(out@) =~= owned_children(
                store.files.sv().subrange(0, i + 1),
                owner,
                parent,
            ));
        }
        i += 1;
    }
    proof {
        assert(store.files.sv().subrange(0, n as int) =~= store.files.sv());
    }
    out
}

/// Deletes a file or folder the caller owns, removing every chunk the
/// record lists (a chunk already missing is skipped silently) and then
/// the record itself. On any error the store is unchanged: the checks
/// come before any write.
pub fn delete_file(store: &mut Store, caller: &Identity, file_id: &String) -> (r: Result<
    (),
    StoreError,
>)
    requires
        old(store).wf(),
    ensures
        final(store).wf(),
        final(store).notes == old(store).notes,
        final(store).tasks == old(store).tasks,
        r == Result::<(), StoreError>::Err(StoreError::NotFound) <==> !old(
            store,
        ).files.m().contains_key(file_id@),
        r == Result::<(), StoreError>::Err(StoreError::Unauthorized) <==> (old(
            store,
        ).files.m().contains_key(file_id@) && old(store).files.m()[file_id@].owner != caller@),
        match r {
            Result::Ok(()) => {
                &&& old(store).files.m().contains_key(file_id@)
                &&& old(store).files.m()[file_id@].owner == caller@
                &&& final(store).files.m() == old(store).files.m().remove(file_id@)
                &&& final(store).chunks.m() == old(store).chunks.m().remove_keys(
                    old(store).files.m()[file_id@].content_chunks.to_set(),
                )
            },
            Result::Err(StoreError::NotFound) => {
                &&& !old(store).files.m().contains_key(file_id@)
                &&& *final(store) == *old(store)
            },
            Result::Err(StoreError::Unauthorized) => {
                &&& old(store).files.m().contains_key(file_id@)
                &&& old(store).files.m()[file_id@].owner != caller@
                &&& *final(store) == *old(store)
            },
        },
{
    let cids: Vec<String>;
    match store.files.get(file_id) {
        Some(f) => {
            if !same_identity(&f.owner, caller) {
                return Result::Err(StoreError::Unauthorized);
            }
            cids = copy_strings(&f.content_chunks);
        },
        None => {
            return Result::Err(StoreError::NotFound);
        },
    }
    let ghost all = old(store).files.m()[file_id@].content_chunks;
    proof {
        assert(strs_v(cids@) == all);
    }
    let n = cids.len();
    let mut j: usize = 0;
    while j < n
        invariant
            store.wf(),
            n == cids@.len(),
            j <= n,
            strs_v(cids@) == all,
            store.files == old(store).files,
            store.notes == old(store).notes,
            store.tasks == old(store).tasks,
            store.chunks.m() == old(store).chunks.m().remove_keys(
                all.subrange(0, j as int).to_set(),
            ),
        decreases n - j,
    {
        let ghost pj = all.subrange(0, j as int);
        let ghost c = all[j as int];
        store.chunks.remove(&cids[j]);
        proof {
            assert(cids@[j as int]@ == c);
            let pj1 = all.subrange(0, j + 1);
            assert(pj1 =~= pj.push(c));
            assert forall|x: Seq<char>|
                pj1.to_set().contains(x) <==> (pj.to_set().contains(x) || x == c) by {
                if pj1.contains(x) {
                    let idx = choose|idx: int| 0 <= idx < pj1.len() && pj1[idx] == x;
                    if idx < pj.len() {
                        assert(pj[idx] == x);
                    }
                }
                if pj.contains(x) {
                    let idx = choose|idx: int| 0 <= idx < pj.len() && pj[idx] == x;
                    assert(pj1[idx] == x);
                }
                if x == c {
                    assert(pj1[pj.len() as int] == x);
                }
            }
            assert(pj1.to_set() =~= pj.to_set().insert(c));
            assert(old(store).chunks.m().remove_keys(pj.to_set()).remove(c) =~= old(
                store,
            ).chunks.m().remove_keys(pj1.to_set()));
        }
        j += 1;
    }
    proof {
        assert(all.subrange(0, n as int) =~= all);
    }
    store.files.remove(file_id);
    Result::Ok(())
}

} // verus!
