use zero_os_backend::files::{create_folder, upload_file_chunk};
use zero_os_backend::identity::Identity;
use zero_os_backend::init;
use zero_os_backend::notes::{create_note, delete_note, get_notes, update_note};
use zero_os_backend::tasks::{create_task, delete_task, get_tasks, update_task};
use zero_os_backend::usage::get_user_storage_info;
use zero_os_backend::StoreError;

fn ident(b: u8) -> Identity {
    Identity::from_bytes(vec![b])
}

fn s(t: &str) -> String {
    t.to_string()
}

#[test]
fn note_create_then_list_round_trip() {
    let mut store = init();
    let o = ident(1);
    let n = create_note(
        &mut store,
        &o,
        s("n1"),
        10,
        s("title"),
        s("content"),
        vec![s("tag"), s("tag")],
    );
    assert_eq!(n.id, "n1");
    assert_eq!(n.created_at, 10);
    assert_eq!(n.updated_at, 10);
    // Tags keep the supplied order, duplicates permitted.
    assert_eq!(n.tags, vec![s("tag"), s("tag")]);
    let mine = get_notes(&store, &o);
    assert_eq!(mine.len(), 1);
    assert_eq!(mine[0].id, "n1");
    assert_eq!(mine[0].title, "title");
    assert_eq!(mine[0].content, "content");
    assert_eq!(mine[0].tags, vec![s("tag"), s("tag")]);
}

#[test]
fn note_update_replaces_mutable_fields_only() {
    let mut store = init();
    let o = ident(1);
    create_note(&mut store, &o, s("n1"), 10, s("t"), s("c"), vec![]);
    let n = update_note(&mut store, &o, 20, &s("n1"), s("t2"), s("c2"), vec![s("x")]).unwrap();
    assert_eq!(n.id, "n1");
    assert_eq!(n.title, "t2");
    assert_eq!(n.content, "c2");
    assert_eq!(n.tags, vec![s("x")]);
    assert_eq!(n.created_at, 10);
    assert_eq!(n.updated_at, 20);
    assert_eq!(n.owner.bytes, vec![1]);
}

#[test]
fn note_errors_and_cross_owner_isolation() {
    let mut store = init();
    let a = ident(1);
    let b = ident(2);
    assert_eq!(
        update_note(&mut store, &a, 1, &s("nope"), s(""), s(""), vec![]).unwrap_err(),
        StoreError::NotFound
    );
    assert_eq!(delete_note(&mut store, &a, &s("nope")), Err(StoreError::NotFound));
    create_note(&mut store, &a, s("n1"), 1, s("t"), s("c"), vec![]);
    assert_eq!(
        update_note(&mut store, &b, 2, &s("n1"), s("t2"), s("c2"), vec![]).unwrap_err(),
        StoreError::Unauthorized
    );
    assert_eq!(delete_note(&mut store, &b, &s("n1")), Err(StoreError::Unauthorized));
    assert_eq!(get_notes(&store, &b).len(), 0);
    // The failed attempts changed nothing.
    let mine = get_notes(&store, &a);
    assert_eq!(mine.len(), 1);
    assert_eq!(mine[0].title, "t");
    assert_eq!(delete_note(&mut store, &a, &s("n1")), Ok(()));
    assert_eq!(get_notes(&store, &a).len(), 0);
}

#[test]
fn task_completion_scenario() {
    let mut store = init();
    let o = ident(5);
    let t = create_task(&mut store, &o, s("t1"), 100, s("do it"), s("soon"), None, s("high"));
    assert!(!t.completed);
    assert_eq!(t.due_date, None);
    let u = update_task(
        &mut store,
        &o,
        150,
        &s("t1"),
        s("do it"),
        s("soon"),
        true,
        None,
        s("high"),
    )
    .unwrap();
    assert!(u.completed);
    let mine = get_tasks(&store, &o);
    assert_eq!(mine.len(), 1);
    assert!(mine[0].completed);
    assert!(mine[0].updated_at >= mine[0].created_at);
    assert_eq!(mine[0].created_at, 100);
    assert_eq!(mine[0].updated_at, 150);
}

#[test]
fn task_update_replaces_every_mutable_field() {
    let mut store = init();
    let o = ident(5);
    create_task(&mut store, &o, s("t1"), 1, s("a"), s("b"), Some(9), s("low"));
    let u = update_task(&mut store, &o, 2, &s("t1"), s("a2"), s("b2"), false, Some(77), s("high"))
        .unwrap();
    assert_eq!(u.title, "a2");
    assert_eq!(u.description, "b2");
    assert_eq!(u.due_date, Some(77));
    assert_eq!(u.priority, "high");
    assert_eq!(u.created_at, 1);
    assert_eq!(u.updated_at, 2);
}

#[test]
fn task_errors_and_cross_owner_isolation() {
    let mut store = init();
    let a = ident(1);
    let b = ident(2);
    assert_eq!(
        update_task(&mut store, &a, 1, &s("nope"), s(""), s(""), false, None, s("")).unwrap_err(),
        StoreError::NotFound
    );
    assert_eq!(delete_task(&mut store, &a, &s("nope")), Err(StoreError::NotFound));
    create_task(&mut store, &a, s("t1"), 1, s("t"), s("d"), None, s("low"));
    assert_eq!(
        update_task(&mut store, &b, 2, &s("t1"), s(""), s(""), true, None, s("")).unwrap_err(),
        StoreError::Unauthorized
    );
    assert_eq!(delete_task(&mut store, &b, &s("t1")), Err(StoreError::Unauthorized));
    assert_eq!(get_tasks(&store, &b).len(), 0);
    let mine = get_tasks(&store, &a);
    assert_eq!(mine.len(), 1);
    assert!(!mine[0].completed);
    assert_eq!(delete_task(&mut store, &a, &s("t1")), Ok(()));
}

#[test]
fn listing_is_idempotent() {
    let mut store = init();
    let o = ident(1);
    create_note(&mut store, &o, s("n1"), 1, s("t"), s("c"), vec![]);
    create_task(&mut store, &o, s("t1"), 1, s("t"), s("d"), None, s("low"));
    let n1 = get_notes(&store, &o);
    let n2 = get_notes(&store, &o);
    assert_eq!(n1.len(), n2.len());
    assert_eq!(n1[0].id, n2[0].id);
    let t1 = get_tasks(&store, &o);
    let t2 = get_tasks(&store, &o);
    assert_eq!(t1.len(), t2.len());
    assert_eq!(t1[0].id, t2[0].id);
}

#[test]
fn usage_counts_one_owner_only() {
    let mut store = init();
    let a = ident(1);
    let b = ident(2);
    create_folder(&mut store, &a, s("fa"), 1, s("docs"), None);
    upload_file_chunk(&mut store, &a, 1, s("f1"), 0, vec![1, 2], s("a"), s("t"), 40, None);
    create_note(&mut store, &a, s("n1"), 1, s("t"), s("c"), vec![]);
    create_task(&mut store, &a, s("t1"), 1, s("t"), s("d"), None, s("low"));
    create_task(&mut store, &a, s("t2"), 1, s("t"), s("d"), None, s("low"));
    create_note(&mut store, &b, s("nb"), 1, s("t"), s("c"), vec![]);
    let ua = get_user_storage_info(&store, &a);
    assert_eq!(ua.file_count, 2);
    assert_eq!(ua.total_file_size, 40);
    assert_eq!(ua.note_count, 1);
    assert_eq!(ua.task_count, 2);
    let ub = get_user_storage_info(&store, &b);
    assert_eq!(ub.file_count, 0);
    assert_eq!(ub.total_file_size, 0);
    assert_eq!(ub.note_count, 1);
    assert_eq!(ub.task_count, 0);
}

#[test]
fn usage_size_sum_saturates() {
    let mut store = init();
    let o = ident(1);
    upload_file_chunk(&mut store, &o, 1, s("f1"), 0, vec![], s("a"), s("t"), u64::MAX, None);
    upload_file_chunk(&mut store, &o, 1, s("f2"), 0, vec![], s("b"), s("t"), 5, None);
    let u = get_user_storage_info(&store, &o);
    assert_eq!(u.file_count, 2);
    assert_eq!(u.total_file_size, u64::MAX);
}

#[test]
fn empty_store_usage_is_zero() {
    let store = init();
    let o = ident(1);
    let u = get_user_storage_info(&store, &o);
    assert_eq!(u.file_count, 0);
    assert_eq!(u.total_file_size, 0);
    assert_eq!(u.note_count, 0);
    assert_eq!(u.task_count, 0);
}
