//! The storage operator and the filesystem adapter over it: each verb's
//! semantics, and shared visibility across adapter duplicates.

use oss_gateway::adapter::FsAdapter;
use oss_gateway::error::{RejectKind, StorageError};
use oss_gateway::operator::Operator;

fn not_found() -> StorageError {
    StorageError::ProtocolTranslationFailed { kind: RejectKind::NotFound }
}

#[test]
fn read_after_write_returns_content() {
    let mut op = Operator::new();
    let a = FsAdapter::new();
    a.open_write(&mut op, &String::from("/f"), b"content".to_vec());
    assert_eq!(a.open_read(&op, &String::from("/f")), Ok(b"content".to_vec()));
}

#[test]
fn duplicates_share_one_operator() {
    let mut op = Operator::new();
    let a = FsAdapter::new();
    let b = a.duplicate();
    a.open_write(&mut op, &String::from("/shared"), b"from a".to_vec());
    assert_eq!(b.open_read(&op, &String::from("/shared")), Ok(b"from a".to_vec()));
    b.open_write(&mut op, &String::from("/shared"), b"from b".to_vec());
    assert_eq!(a.open_read(&op, &String::from("/shared")), Ok(b"from b".to_vec()));
}

#[test]
fn read_of_missing_path_is_not_found() {
    let op = Operator::new();
    let a = FsAdapter::new();
    assert_eq!(a.open_read(&op, &String::from("/nope")), Err(not_found()));
}

#[test]
fn read_of_directory_is_not_found() {
    let mut op = Operator::new();
    let a = FsAdapter::new();
    assert_eq!(a.create_dir(&mut op, &String::from("/d")), Ok(()));
    assert_eq!(a.open_read(&op, &String::from("/d")), Err(not_found()));
}

#[test]
fn overwrite_replaces_content() {
    let mut op = Operator::new();
    let a = FsAdapter::new();
    a.open_write(&mut op, &String::from("/f"), b"one".to_vec());
    a.open_write(&mut op, &String::from("/f"), b"two".to_vec());
    assert_eq!(a.open_read(&op, &String::from("/f")), Ok(b"two".to_vec()));
}

#[test]
fn write_of_empty_payload_is_kept() {
    let mut op = Operator::new();
    let a = FsAdapter::new();
    a.open_write(&mut op, &String::from("/empty"), Vec::new());
    assert_eq!(a.open_read(&op, &String::from("/empty")), Ok(Vec::new()));
}

#[test]
fn stat_reports_length_and_kind() {
    let mut op = Operator::new();
    let a = FsAdapter::new();
    a.open_write(&mut op, &String::from("/f"), b"12345".to_vec());
    let m = a.stat(&op, &String::from("/f")).unwrap();
    assert!(!m.is_dir);
    assert_eq!(m.content_length, 5);
    assert_eq!(a.create_dir(&mut op, &String::from("/d")), Ok(()));
    let d = a.stat(&op, &String::from("/d")).unwrap();
    assert!(d.is_dir);
    assert_eq!(d.content_length, 0);
    assert_eq!(a.stat(&op, &String::from("/missing")), Err(not_found()));
}

#[test]
fn remove_unbinds_exactly_the_path() {
    let mut op = Operator::new();
    let a = FsAdapter::new();
    a.open_write(&mut op, &String::from("/one"), b"1".to_vec());
    a.open_write(&mut op, &String::from("/two"), b"2".to_vec());
    assert_eq!(a.remove(&mut op, &String::from("/one")), Ok(()));
    assert_eq!(a.open_read(&op, &String::from("/one")), Err(not_found()));
    assert_eq!(a.open_read(&op, &String::from("/two")), Ok(b"2".to_vec()));
}

#[test]
fn remove_of_missing_path_is_not_found() {
    let mut op = Operator::new();
    let a = FsAdapter::new();
    assert_eq!(a.remove(&mut op, &String::from("/nope")), Err(not_found()));
}

#[test]
fn create_dir_over_file_already_exists() {
    let mut op = Operator::new();
    let a = FsAdapter::new();
    a.open_write(&mut op, &String::from("/f"), b"x".to_vec());
    assert_eq!(
        a.create_dir(&mut op, &String::from("/f")),
        Err(StorageError::ProtocolTranslationFailed { kind: RejectKind::AlreadyExists })
    );
}

#[test]
fn create_dir_twice_is_fine() {
    let mut op = Operator::new();
    let a = FsAdapter::new();
    assert_eq!(a.create_dir(&mut op, &String::from("/d")), Ok(()));
    assert_eq!(a.create_dir(&mut op, &String::from("/d")), Ok(()));
}

#[test]
fn list_returns_exactly_the_paths_under_the_prefix() {
    let mut op = Operator::new();
    let a = FsAdapter::new();
    a.open_write(&mut op, &String::from("/dir/a"), b"a".to_vec());
    a.open_write(&mut op, &String::from("/dir/b"), b"b".to_vec());
    a.open_write(&mut op, &String::from("/other"), b"o".to_vec());
    let mut listed = a.list(&op, &String::from("/dir/"));
    listed.sort();
    assert_eq!(listed, vec![String::from("/dir/a"), String::from("/dir/b")]);
    assert_eq!(a.list(&op, &String::from("/none/")), Vec::<String>::new());
}

#[test]
fn list_with_empty_prefix_lists_everything() {
    let mut op = Operator::new();
    let a = FsAdapter::new();
    a.open_write(&mut op, &String::from("/x"), Vec::new());
    assert_eq!(a.create_dir(&mut op, &String::from("/y")), Ok(()));
    let mut listed = a.list(&op, &String::from(""));
    listed.sort();
    assert_eq!(listed, vec![String::from("/x"), String::from("/y")]);
}
