use zero_os_backend::files::{
    create_folder, delete_file, get_file_chunk, get_file_info, list_files, make_chunk_id,
    u32_to_dec, upload_file_chunk,
};
use zero_os_backend::identity::Identity;
use zero_os_backend::init;
use zero_os_backend::StoreError;

fn ident(b: u8) -> Identity {
    Identity::from_bytes(vec![b])
}

fn s(t: &str) -> String {
    t.to_string()
}

#[test]
fn decimal_rendering() {
    assert_eq!(u32_to_dec(0), "0");
    assert_eq!(u32_to_dec(7), "7");
    assert_eq!(u32_to_dec(10), "10");
    assert_eq!(u32_to_dec(90210), "90210");
    assert_eq!(u32_to_dec(u32::MAX), "4294967295");
}

#[test]
fn chunk_identifier_derivation() {
    assert_eq!(make_chunk_id(&s("f1"), 0), "f1_0");
    assert_eq!(make_chunk_id(&s("file"), 12), "file_12");
}

#[test]
fn folder_create_then_fetch_round_trip() {
    let mut store = init();
    let o = ident(1);
    let f = create_folder(&mut store, &o, s("id1"), 5, s("docs"), None);
    assert_eq!(f.id, "id1");
    assert_eq!(f.name, "docs");
    assert_eq!(f.file_type, "folder");
    assert_eq!(f.size, 0);
    assert_eq!(f.created_at, 5);
    assert_eq!(f.updated_at, 5);
    assert_eq!(f.parent_folder, None);
    assert!(f.is_folder);
    assert!(f.content_chunks.is_empty());
    assert!(f.metadata.is_empty());
    let g = get_file_info(&store, &s("id1")).unwrap();
    assert_eq!(g.id, f.id);
    assert_eq!(g.name, f.name);
    assert_eq!(g.file_type, f.file_type);
    assert_eq!(g.size, f.size);
    assert_eq!(g.created_at, f.created_at);
    assert_eq!(g.updated_at, f.updated_at);
    assert_eq!(g.parent_folder, f.parent_folder);
    assert_eq!(g.owner.bytes, f.owner.bytes);
    assert_eq!(g.content_chunks, f.content_chunks);
    assert_eq!(g.is_folder, f.is_folder);
    assert_eq!(g.metadata, f.metadata);
}

#[test]
fn nested_folder_listing() {
    let mut store = init();
    let o = ident(1);
    let f = create_folder(&mut store, &o, s("idf"), 1, s("docs"), None);
    assert!(f.is_folder);
    assert_eq!(f.parent_folder, None);
    let g = create_folder(&mut store, &o, s("idg"), 2, s("reports"), Some(f.id.clone()));
    assert_eq!(g.parent_folder, Some(s("idf")));
    let inside = list_files(&store, &o, &Some(f.id.clone()));
    assert_eq!(inside.len(), 1);
    assert_eq!(inside[0].id, "idg");
    assert_eq!(inside[0].name, "reports");
    let top = list_files(&store, &o, &None);
    assert_eq!(top.len(), 1);
    assert_eq!(top[0].id, "idf");
}

#[test]
fn upload_then_fetch_then_cascade() {
    let mut store = init();
    let o = ident(7);
    let cid = upload_file_chunk(
        &mut store,
        &o,
        3,
        s("f1"),
        0,
        vec![1, 2, 3],
        s("a.txt"),
        s("text"),
        3,
        None,
    );
    assert_eq!(cid, "f1_0");
    let f = get_file_info(&store, &s("f1")).unwrap();
    assert_eq!(f.content_chunks, vec![s("f1_0")]);
    assert_eq!(f.size, 3);
    assert_eq!(f.name, "a.txt");
    assert_eq!(f.file_type, "text");
    assert!(!f.is_folder);
    let c = get_file_chunk(&store, &s("f1_0")).unwrap();
    assert_eq!(c.id, "f1_0");
    assert_eq!(c.file_id, "f1");
    assert_eq!(c.chunk_index, 0);
    assert_eq!(c.data, vec![1, 2, 3]);
    assert_eq!(delete_file(&mut store, &o, &s("f1")), Ok(()));
    assert_eq!(get_file_chunk(&store, &s("f1_0")).unwrap_err(), StoreError::NotFound);
    assert_eq!(get_file_info(&store, &s("f1")).unwrap_err(), StoreError::NotFound);
}

#[test]
fn reupload_overwrites_bytes_and_appends_reference() {
    let mut store = init();
    let o = ident(7);
    upload_file_chunk(&mut store, &o, 1, s("f1"), 0, vec![1], s("a"), s("t"), 1, None);
    upload_file_chunk(&mut store, &o, 2, s("f1"), 0, vec![9, 9], s("ignored"), s("ignored"), 99, None);
    let f = get_file_info(&store, &s("f1")).unwrap();
    // The stored metadata of an existing file is kept; only the chunk
    // list and update timestamp change, and the reference is duplicated.
    assert_eq!(f.name, "a");
    assert_eq!(f.file_type, "t");
    assert_eq!(f.size, 1);
    assert_eq!(f.created_at, 1);
    assert_eq!(f.updated_at, 2);
    assert_eq!(f.content_chunks, vec![s("f1_0"), s("f1_0")]);
    let c = get_file_chunk(&store, &s("f1_0")).unwrap();
    assert_eq!(c.data, vec![9, 9]);
}

#[test]
fn cascade_removes_every_listed_chunk() {
    let mut store = init();
    let o = ident(7);
    upload_file_chunk(&mut store, &o, 1, s("f1"), 0, vec![0], s("a"), s("t"), 3, None);
    upload_file_chunk(&mut store, &o, 1, s("f1"), 1, vec![1], s("a"), s("t"), 3, None);
    upload_file_chunk(&mut store, &o, 1, s("f1"), 2, vec![2], s("a"), s("t"), 3, None);
    let f = get_file_info(&store, &s("f1")).unwrap();
    assert_eq!(f.content_chunks, vec![s("f1_0"), s("f1_1"), s("f1_2")]);
    assert_eq!(delete_file(&mut store, &o, &s("f1")), Ok(()));
    for cid in ["f1_0", "f1_1", "f1_2"] {
        assert_eq!(
            get_file_chunk(&store, &cid.to_string()).unwrap_err(),
            StoreError::NotFound
        );
    }
}

#[test]
fn file_errors_and_cross_owner_isolation() {
    let mut store = init();
    let a = ident(1);
    let b = ident(2);
    assert_eq!(delete_file(&mut store, &a, &s("nope")), Err(StoreError::NotFound));
    create_folder(&mut store, &a, s("fa"), 1, s("mine"), None);
    // The other identity cannot delete it, and the failed attempt
    // changes nothing.
    assert_eq!(delete_file(&mut store, &b, &s("fa")), Err(StoreError::Unauthorized));
    assert!(get_file_info(&store, &s("fa")).is_ok());
    // The other identity's listing never includes it.
    assert_eq!(list_files(&store, &b, &None).len(), 0);
    assert_eq!(list_files(&store, &a, &None).len(), 1);
}

#[test]
fn lookups_are_idempotent() {
    let mut store = init();
    let o = ident(3);
    create_folder(&mut store, &o, s("x"), 1, s("docs"), None);
    let r1 = get_file_info(&store, &s("x")).unwrap();
    let r2 = get_file_info(&store, &s("x")).unwrap();
    assert_eq!(r1.id, r2.id);
    assert_eq!(r1.name, r2.name);
    assert_eq!(r1.updated_at, r2.updated_at);
    let l1 = list_files(&store, &o, &None);
    let l2 = list_files(&store, &o, &None);
    assert_eq!(l1.len(), l2.len());
    assert_eq!(l1[0].id, l2[0].id);
}

#[test]
fn same_identifier_overwrites() {
    let mut store = init();
    let o = ident(3);
    create_folder(&mut store, &o, s("x"), 1, s("first"), None);
    create_folder(&mut store, &o, s("x"), 2, s("second"), None);
    let all = list_files(&store, &o, &None);
    assert_eq!(all.len(), 1);
    assert_eq!(all[0].name, "second");
}

#[test]
fn chunk_upload_ignores_ownership_of_existing_file() {
    let mut store = init();
    let a = ident(1);
    let b = ident(2);
    upload_file_chunk(&mut store, &a, 1, s("f1"), 0, vec![1], s("a"), s("t"), 1, None);
    // Another identity may append a chunk to a file it does not own;
    // the record's owner is unchanged.
    upload_file_chunk(&mut store, &b, 2, s("f1"), 1, vec![2], s("x"), s("x"), 9, None);
    let f = get_file_info(&store, &s("f1")).unwrap();
    assert_eq!(f.owner.bytes, vec![1]);
    assert_eq!(f.content_chunks, vec![s("f1_0"), s("f1_1")]);
    // Deletion still answers to the owner alone.
    assert_eq!(delete_file(&mut store, &b, &s("f1")), Err(StoreError::Unauthorized));
    assert_eq!(delete_file(&mut store, &a, &s("f1")), Ok(()));
}
