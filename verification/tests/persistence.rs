use zero_os_backend::files::{create_folder, get_file_chunk, get_file_info, upload_file_chunk};
use zero_os_backend::identity::Identity;
use zero_os_backend::init;
use zero_os_backend::notes::{create_note, get_notes};
use zero_os_backend::persist::{restore_store, save_store};
use zero_os_backend::tasks::{create_task, get_tasks};

fn ident(b: u8) -> Identity {
    Identity::from_bytes(vec![b])
}

fn s(t: &str) -> String {
    t.to_string()
}

#[test]
fn save_then_restore_reproduces_every_record() {
    let mut store = init();
    let o = ident(1);
    let p = ident(2);
    create_folder(&mut store, &o, s("fold"), 1, s("docs"), None);
    upload_file_chunk(&mut store, &o, 2, s("f1"), 0, vec![1, 2, 3], s("a.txt"), s("text"), 3, None);
    upload_file_chunk(&mut store, &o, 3, s("f1"), 1, vec![4], s("a.txt"), s("text"), 3, None);
    create_note(&mut store, &p, s("n1"), 4, s("title"), s("content"), vec![s("x"), s("y")]);
    create_task(&mut store, &p, s("t1"), 5, s("todo"), s("desc"), Some(9), s("high"));

    // Flush, discard the in-memory state, restore.
    let dump = save_store(&store);
    drop(store);
    let restored = restore_store(dump);

    let folder = get_file_info(&restored, &s("fold")).unwrap();
    assert_eq!(folder.name, "docs");
    assert!(folder.is_folder);
    assert_eq!(folder.owner.bytes, vec![1]);

    let f = get_file_info(&restored, &s("f1")).unwrap();
    assert_eq!(f.name, "a.txt");
    assert_eq!(f.file_type, "text");
    assert_eq!(f.size, 3);
    assert_eq!(f.created_at, 2);
    assert_eq!(f.updated_at, 3);
    assert_eq!(f.content_chunks, vec![s("f1_0"), s("f1_1")]);

    let c0 = get_file_chunk(&restored, &s("f1_0")).unwrap();
    assert_eq!(c0.data, vec![1, 2, 3]);
    let c1 = get_file_chunk(&restored, &s("f1_1")).unwrap();
    assert_eq!(c1.data, vec![4]);

    let ns = get_notes(&restored, &p);
    assert_eq!(ns.len(), 1);
    assert_eq!(ns[0].id, "n1");
    assert_eq!(ns[0].title, "title");
    assert_eq!(ns[0].content, "content");
    assert_eq!(ns[0].tags, vec![s("x"), s("y")]);
    assert_eq!(ns[0].created_at, 4);

    let ts = get_tasks(&restored, &p);
    assert_eq!(ts.len(), 1);
    assert_eq!(ts[0].id, "t1");
    assert_eq!(ts[0].due_date, Some(9));
    assert_eq!(ts[0].priority, "high");
    assert!(!ts[0].completed);
}

#[test]
fn restore_of_empty_dump_is_empty_store() {
    let store = init();
    let dump = save_store(&store);
    let restored = restore_store(dump);
    let o = ident(1);
    assert_eq!(get_notes(&restored, &o).len(), 0);
    assert_eq!(get_tasks(&restored, &o).len(), 0);
}
