use lariv_website::error::SeedError;
use lariv_website::vnode::{
    blob_path, bytes_equal, vnode_bytes_match, BlobRead, FileAction, FileEvent, FileStep, FileSync,
};

#[test]
fn bytes_compare_exactly() {
    assert!(bytes_equal(b"abc", b"abc"));
    assert!(!bytes_equal(b"abc", b"abd"));
    assert!(!bytes_equal(b"abc", b"ab"));
    assert!(bytes_equal(b"", b""));
}

#[test]
fn blob_match_outcomes() {
    assert_eq!(vnode_bytes_match(&BlobRead::Missing, b"x"), Ok(false));
    assert_eq!(vnode_bytes_match(&BlobRead::Unreadable, b"x"), Err(SeedError::StoreUnreadable));
    assert_eq!(vnode_bytes_match(&BlobRead::Contents(b"x".to_vec()), b"x"), Ok(true));
    assert_eq!(vnode_bytes_match(&BlobRead::Contents(b"y".to_vec()), b"x"), Ok(false));
}

#[test]
fn blob_path_defaults_to_empty() {
    assert_eq!(blob_path(&Some("a/b".to_string())), "a/b");
    assert_eq!(blob_path(&None), "");
}

#[test]
fn unchanged_file_is_kept_and_not_rewritten() {
    let (mut sync, first) = FileSync::new(b"body".to_vec());
    assert_eq!(first, FileAction::FindChild);
    assert_eq!(sync.step(FileEvent::Found(Some(7))), FileAction::OpenBlob { existing: 7 });
    let done = sync.step(FileEvent::Blob(BlobRead::Contents(b"body".to_vec())));
    assert_eq!(done, FileAction::Finished { vnode_id: 7, rewritten: false });
    assert_eq!(sync.step, FileStep::Done { vnode_id: 7, rewritten: false });
}

#[test]
fn changed_file_is_replaced() {
    let (mut sync, _) = FileSync::new(b"new".to_vec());
    sync.step(FileEvent::Found(Some(3)));
    let act = sync.step(FileEvent::Blob(BlobRead::Contents(b"old".to_vec())));
    assert_eq!(act, FileAction::ReplaceContent { existing: 3 });
    assert_eq!(sync.step(FileEvent::Written(3)), FileAction::Finished { vnode_id: 3, rewritten: true });
}

#[test]
fn missing_blob_is_replaced() {
    let (mut sync, _) = FileSync::new(b"new".to_vec());
    sync.step(FileEvent::Found(Some(3)));
    assert_eq!(sync.step(FileEvent::Blob(BlobRead::Missing)), FileAction::ReplaceContent { existing: 3 });
}

#[test]
fn unreadable_blob_stops() {
    let (mut sync, _) = FileSync::new(b"new".to_vec());
    sync.step(FileEvent::Found(Some(3)));
    assert_eq!(
        sync.step(FileEvent::Blob(BlobRead::Unreadable)),
        FileAction::Fail(SeedError::StoreUnreadable)
    );
    assert_eq!(sync.step, FileStep::Failed);
}

#[test]
fn absent_file_is_created() {
    let (mut sync, _) = FileSync::new(b"new".to_vec());
    assert_eq!(sync.step(FileEvent::Found(None)), FileAction::CreateNode);
    assert_eq!(sync.step(FileEvent::Written(11)), FileAction::Finished { vnode_id: 11, rewritten: true });
}

#[test]
fn unexpected_file_event_is_refused() {
    let (mut sync, _) = FileSync::new(b"new".to_vec());
    assert_eq!(sync.step(FileEvent::Written(1)), FileAction::Fail(SeedError::UnexpectedEvent));
    assert_eq!(sync.step, FileStep::LookingUp);
}
