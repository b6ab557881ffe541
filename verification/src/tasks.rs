//! The task subsystem: owned-record CRUD over the tasks collection.
use vstd::prelude::*;
use crate::identity::{Identity, same_identity};
use crate::records::{Task, TaskV, strs_v};
use crate::{Store, StoreError};

verus! {

/// The record that `create_task` stores and returns: not yet completed,
/// both timestamps set to `now`. The priority label is free-form; the
/// store validates nothing about it.
pub open spec fn new_task_v(
    id: Seq<char>,
    title: Seq<char>,
    description: Seq<char>,
    due_date: Option<u64>,
    priority: Seq<char>,
    now: u64,
    owner: Seq<u8>,
) -> TaskV {
    TaskV {
        id,
        title,
        description,
        completed: false,
        created_at: now,
        updated_at: now,
        due_date,
        owner,
        priority,
    }
}

/// An existing task after an update: every mutable field replaced, the
/// completion flag included; identifier, owner and creation time kept.
pub open spec fn updated_task_v(
    t: TaskV,
    title: Seq<char>,
    description: Seq<char>,
    completed: bool,
    due_date: Option<u64>,
    priority: Seq<char>,
    now: u64,
) -> TaskV {
    TaskV {
        id: t.id,
        title,
        description,
        completed,
        created_at: t.created_at,
        updated_at: now,
        due_date,
        owner: t.owner,
        priority,
    }
}

/// The caller's tasks, in the collection's stable iteration order.
pub open spec fn owned_tasks(s: Seq<(Seq<char>, TaskV)>, owner: Seq<u8>) -> Seq<TaskV>
    decreases s.len(),
{
    if s.len() == 0 {
        Seq::empty()
    } else {
        let rest = owned_tasks(s.drop_last(), owner);
        if s.last().1.owner == owner {
            rest.push(s.last().1)
        } else {
            rest
        }
    }
}

/// View of a sequence of tasks.
pub open spec fn tasks_v(s: Seq<Task>) -> Seq<TaskV> {
    s.map_values(|t: Task| t@)
}

/// Creates a task for the caller. Always succeeds.
pub fn create_task(
    store: &mut Store,
    caller: &Identity,
    id: String,
    now: u64,
    title: String,
    description: String,
    due_date: Option<u64>,
    priority: String,
) -> (r: Task)
    requires
        old(store).wf(),
    ensures
        final(store).wf(),
        r@ == new_task_v(id@, title@, description@, due_date, priority@, now, caller@),
        final(store).tasks.m() == old(store).tasks.m().insert(id@, r@),
        final(store).files == old(store).files,
        final(store).chunks == old(store).chunks,
        final(store).notes == old(store).notes,
{
    let task = Task {
        id: id.clone(),
        title,
        description,
        completed: false,
        created_at: now,
        updated_at: now,
        due_date,
        owner: caller.dup(),
        priority,
    };
    let r = task.dup();
    store.tasks.insert(id, task);
    r
}

/// Replaces a task's mutable fields, the completion flag included, if
/// the caller owns it. On any error the store is unchanged.
pub fn update_task(
    store: &mut Store,
    caller: &Identity,
    now: u64,
    task_id: &String,
    title: String,
    description: String,
    completed: bool,
    due_date: Option<u64>,
    priority: String,
) -> (r: Result<Task, StoreError>)
    requires
        old(store).wf(),
    ensures
        final(store).wf(),
        final(store).files == old(store).files,
        final(store).chunks == old(store).chunks,
        final(store).notes == old(store).notes,
        r == Result::<Task, StoreError>::Err(StoreError::NotFound) <==> !old(
            store,
        ).tasks.m().contains_key(task_id@),
        r == Result::<Task, StoreError>::Err(StoreError::Unauthorized) <==> (old(
            store,
        ).tasks.m().contains_key(task_id@) && old(store).tasks.m()[task_id@].owner != caller@),
        match r {
            Result::Ok(t) => {
                &&& old(store).tasks.m().contains_key(task_id@)
                &&& old(store).tasks.m()[task_id@].owner == caller@
                &&& t@ == updated_task_v(
                    old(store).tasks.m()[task_id@],
                    title@,
                    description@,
                    completed,
                    due_date,
                    priority@,
                    now,
                )
                &&& final(store).tasks.m() == old(store).tasks.m().insert(task_id@, t@)
            },
            Result::Err(StoreError::NotFound) => {
                &&& !old(store).tasks.m().contains_key(task_id@)
                &&& *final(store) == *old(store)
            },
            Result::Err(StoreError::Unauthorized) => {
                &&& old(store).tasks.m().contains_key(task_id@)
                &&& old(store).tasks.m()[task_id@].owner != caller@
                &&& *final(store) == *old(store)
            },
        },
{
    let existing = match store.tasks.get(task_id) {
        Some(t) => {
            if !same_identity(&t.owner, caller) {
                return Result::Err(StoreError::Unauthorized);
            }
            t.dup()
        },
        None => {
            return Result::Err(StoreError::NotFound);
        },
    };
    let mut task = existing;
    task.title = title;
    task.description = description;
    task.completed = completed;
    task.due_date = due_date;
    task.priority = priority;
    task.updated_at = now;
    let r = task.dup();
    proof {
        assert(task@ =~= updated_task_v(
            old(store).tasks.m()[task_id@],
            title@,
            description@,
            completed,
            due_date,
            priority@,
            now,
        ));
    }
    store.tasks.insert(task_id.clone(), task);
    Result::Ok(r)
}

/// Lists every task owned by the caller.
pub fn get_tasks(store: &Store, caller: &Identity) -> (r: Vec<Task>)
    requires
        store.wf(),
    ensures
        tasks_v(r@) == owned_tasks(store.tasks.sv(), caller@),
{
    let ghost owner = caller@;
    let mut out: Vec<Task> = Vec::new();
    let n = store.tasks.entries.len();
    let mut i: usize = 0;
    while i < n
        invariant
            store.wf(),
            n == store.tasks.entries@.len(),
            i <= n,
            owner == caller@,
            tasks_v(out@) == owned_tasks(store.tasks.sv().subrange(0, i as int), owner),
        decreases n - i,
    {
        let ghost prefix = store.tasks.sv().subrange(0, i as int);
        let ghost cur = store.tasks.sv()[i as int];
        let e = &store.tasks.entries[i];
        let keep = same_identity(&e.1.owner, caller);
        let ghost before = out@;
        if keep {
            out.push(e.1.dup());
        }
        proof {
            let ext = prefix.push(cur);
            assert(store.tasks.sv().subrange(0, i + 1) =~= ext);
            assert(ext.drop_last() =~= prefix);
            assert(cur.1 == e.1@);
            if keep {
                assert(tasks_v(out@) =~= tasks_v(before).push(cur.1));
            }
            assert(tasks_v(out@) =~= owned_tasks(store.tasks.sv().subrange(0, i + 1), owner));
        }
        i += 1;
    }
    proof {
        assert(store.tasks.sv().subrange(0, n as int) =~= store.tasks.sv());
    }
    out
}

/// Deletes a task the caller owns. On any error the store is unchanged.
pub fn delete_task(store: &mut Store, caller: &Identity, task_id: &String) -> (r: Result<
    (),
    StoreError,
>)
    requires
        old(store).wf(),
    ensures
        final(store).wf(),
        final(store).files == old(store).files,
        final(store).chunks == old(store).chunks,
        final(store).notes == old(store).notes,
        r == Result::<(), StoreError>::Err(StoreError::NotFound) <==> !old(
            store,
        ).tasks.m().contains_key(task_id@),
        r == Result::<(), StoreError>::Err(StoreError::Unauthorized) <==> (old(
            store,
        ).tasks.m().contains_key(task_id@) && old(store).tasks.m()[task_id@].owner != caller@),
        match r {
            Result::Ok(()) => {
                &&& old(store).tasks.m().contains_key(task_id@)
                &&& old(store).tasks.m()[task_id@].owner == caller@
                &&& final(store).tasks.m() == old(store).tasks.m().remove(task_id@)
            },
            Result::Err(StoreError::NotFound) => {
                &&& !old(store).tasks.m().contains_key(task_id@)
                &&& *final(store) == *old(store)
            },
            Result::Err(StoreError::Unauthorized) => {
                &&& old(store).tasks.m().contains_key(task_id@)
                &&& old(store).tasks.m()[task_id@].owner != caller@
                &&& *final(store) == *old(store)
            },
        },
{
    match store.tasks.get(task_id) {
        Some(t) => {
            if !same_identity(&t.owner, caller) {
                return Result::Err(StoreError::Unauthorized);
            }
        },
        None => {
            return Result::Err(StoreError::NotFound);
        },
    }
    store.tasks.remove(task_id);
    Result::Ok(())
}

} // verus!
