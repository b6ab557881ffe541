//! Storage accounting: a read-only aggregation over all four collections
//! for one owner.
//!
//! The size figure sums each owned file record's declared size field; it
//! does not recompute from chunk payloads, so a caller that overstated
//! `total_size` at upload time skews it. The sum saturates at the
//! largest representable value instead of wrapping.
use vstd::prelude::*;
use crate::identity::{Identity, same_identity};
use crate::records::{FileInfoV, NoteV, TaskV};
use crate::Store;

verus! {

/// What one owner holds: counts per collection and the declared bytes.
#[derive(Clone, Copy, Debug, PartialEq, Eq, Structural)]
pub struct UsageInfo {
    pub file_count: u64,
    pub total_file_size: u64,
    pub note_count: u64,
    pub task_count: u64,
}

/// How many file records the owner holds.
pub open spec fn owned_file_count(s: Seq<(Seq<char>, FileInfoV)>, owner: Seq<u8>) -> int
    decreases s.len(),
{
    if s.len() == 0 {
        0
    } else {
        owned_file_count(s.drop_last(), owner) + if s.last().1.owner == owner {
            1int
        } else {
            0int
        }
    }
}

/// The exact sum of the owner's declared file sizes.
pub open spec fn owned_size_sum(s: Seq<(Seq<char>, FileInfoV)>, owner: Seq<u8>) -> int
    decreases s.len(),
{
    if s.len() == 0 {
        0
    } else {
        owned_size_sum(s.drop_last(), owner) + if s.last().1.owner == owner {
            s.last().1.size as int
        } else {
            0int
        }
    }
}

/// How many notes the owner holds.
pub open spec fn owned_note_count(s: Seq<(Seq<char>, NoteV)>, owner: Seq<u8>) -> int
    decreases s.len(),
{
    if s.len() == 0 {
        0
    } else {
        owned_note_count(s.drop_last(), owner) + if s.last().1.owner == owner {
            1int
        } else {
            0int
        }
    }
}

/// How many tasks the owner holds.
pub open spec fn owned_task_count(s: Seq<(Seq<char>, TaskV)>, owner: Seq<u8>) -> int
    decreases s.len(),
{
    if s.len() == 0 {
        0
    } else {
        owned_task_count(s.drop_last(), owner) + if s.last().1.owner == owner {
            1int
        } else {
            0int
        }
    }
}

/// A nonnegative total, saturated to what a 64-bit counter can hold.
pub open spec fn sat64(n: int) -> int {
    if n > u64::MAX {
        u64::MAX as int
    } else {
        n
    }
}

/// The sum of the owner's sizes never goes below any prefix's sum.
proof fn lemma_owned_size_sum_nonneg(s: Seq<(Seq<char>, FileInfoV)>, owner: Seq<u8>)
    ensures
        owned_size_sum(s, owner) >= 0,
    decreases s.len(),
{
    if s.len() > 0 {
        lemma_owned_size_sum_nonneg(s.drop_last(), owner);
    }
}

/// Full scan of all four collections filtered by owner: how many files,
/// notes and tasks the caller holds, and the saturated sum of the
/// declared file sizes.
pub fn get_user_storage_info(store: &Store, caller: &Identity) -> (r: UsageInfo)
    requires
        store.wf(),
    ensures
        r.file_count == owned_file_count(store.files.sv(), caller@),
        r.total_file_size == sat64(owned_size_sum(store.files.sv(), caller@)),
        r.note_count == owned_note_count(store.notes.sv(), caller@),
        r.task_count == owned_task_count(store.tasks.sv(), caller@),
{
    let ghost owner = caller@;
    let mut file_count: u64 = 0;
    let mut total_file_size: u64 = 0;
    let nf = store.files.entries.len();
    let mut i: usize = 0;
    while i < nf
        invariant
            store.wf(),
            nf == store.files.entries@.len(),
            i <= nf,
            owner == caller@,
            file_count == owned_file_count(store.files.sv().subrange(0, i as int), owner),
            file_count <= i,
            total_file_size == sat64(
                owned_size_sum(store.files.sv().subrange(0, i as int), owner),
            ),
        decreases nf - i,
    {
        let ghost prefix = store.files.sv().subrange(0, i as int);
        let ghost cur = store.files.sv()[i as int];
        proof {
            assert(store.files.sv().subrange(0, i + 1) =~= prefix.push(cur));
            assert(prefix.push(cur).drop_last() =~= prefix);
            lemma_owned_size_sum_nonneg(prefix, owner);
        }
        let e = &store.files.entries[i];
        if same_identity(&e.1.owner, caller) {
            file_count = file_count + 1;
            let size = e.1.size;
            if u64::MAX - total_file_size < size {
                total_file_size = u64::MAX;
            } else {
                total_file_size = total_file_size + size;
            }
            proof {
                assert(cur.1 == e.1@);
                assert(owned_size_sum(prefix.push(cur), owner) == owned_size_sum(prefix, owner)
                    + size);
            }
        }
        i += 1;
    }
    proof {
        assert(store.files.sv().subrange(0, nf as int) =~= store.files.sv());
    }
    let mut note_count: u64 = 0;
    let nn = store.notes.entries.len();
    let mut j: usize = 0;
    while j < nn
        invariant
            store.wf(),
            nn == store.notes.entries@.len(),
            j <= nn,
            owner == caller@,
            note_count == owned_note_count(store.notes.sv().subrange(0, j as int), owner),
            note_count <= j,
        decreases nn - j,
    {
        let ghost prefix = store.notes.sv().subrange(0, j as int);
        let ghost cur = store.notes.sv()[j as int];
        proof {
            assert(store.notes.sv().subrange(0, j + 1) =~= prefix.push(cur));
            assert(prefix.push(cur).drop_last() =~= prefix);
        }
        let e = &store.notes.entries[j];
        if same_identity(&e.1.owner, caller) {
            note_count = note_count + 1;
            proof {
                assert(cur.1 == e.1@);
            }
        }
        j += 1;
    }
    proof {
        assert(store.notes.sv().subrange(0, nn as int) =~= store.notes.sv());
    }
    let mut task_count: u64 = 0;
    let nt = store.tasks.entries.len();
    let mut k: usize = 0;
    while k < nt
        invariant
            store.wf(),
            nt == store.tasks.entries@.len(),
            k <= nt,
            owner == caller@,
            task_count == owned_task_count(store.tasks.sv().subrange(0, k as int), owner),
            task_count <= k,
        decreases nt - k,
    {
        let ghost prefix = store.tasks.sv().subrange(0, k as int);
        let ghost cur = store.tasks.sv()[k as int];
        proof {
            assert(store.tasks.sv().subrange(0, k + 1) =~= prefix.push(cur));
            assert(prefix.push(cur).drop_last() =~= prefix);
        }
        let e = &store.tasks.entries[k];
        if same_identity(&e.1.owner, caller) {
            task_count = task_count + 1;
            proof {
                assert(cur.1 == e.1@);
            }
        }
        k += 1;
    }
    proof {
        assert(store.tasks.sv().subrange(0, nt as int) =~= store.tasks.sv());
    }
    UsageInfo { file_count, total_file_size, note_count, task_count }
}

} // verus!
