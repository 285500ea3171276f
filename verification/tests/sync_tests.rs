use downloader::errors::InstallError;
use downloader::hashing::digest_matches;
use downloader::sync::{content_differs, sync_step, SyncEvent, SyncOutcome, SyncState, SyncTask};

// sha1("Hello World!") in lowercase hex.
const HELLO_SHA1: &str = "2ef7bde608ce5404e97d5f042f95f89f1c232871";

fn task_with_hash(hash: &str) -> SyncTask {
    SyncTask {
        url: String::from("https://example.com/file"),
        sha1: String::from(hash),
        dir: String::from("./dest"),
        name: String::from("file.bin"),
    }
}

#[test]
fn digest_matches_known_value() {
    let bytes: Vec<u8> = b"Hello World!".to_vec();
    assert!(digest_matches(&bytes, &String::from(HELLO_SHA1)));
    assert!(!digest_matches(&bytes, &String::from("0000000000000000000000000000000000000000")));
    let other: Vec<u8> = b"Hello World?".to_vec();
    assert!(!digest_matches(&other, &String::from(HELLO_SHA1)));
}

#[test]
fn sync_already_satisfied_without_fetch() {
    let task = task_with_hash(HELLO_SHA1);
    let local: Vec<u8> = b"Hello World!".to_vec();
    let next = sync_step(&task, SyncState::AwaitRead, SyncEvent::ReadResult(Some(local)));
    assert!(matches!(next, SyncState::Done(Ok(SyncOutcome::AlreadySatisfied))));
}

#[test]
fn sync_fetches_when_absent_then_writes() {
    let task = task_with_hash(HELLO_SHA1);
    let next = sync_step(&task, SyncState::AwaitRead, SyncEvent::ReadResult(None));
    assert!(matches!(next, SyncState::AwaitFetch));
    let body: Vec<u8> = b"Hello World!".to_vec();
    let next = sync_step(&task, next, SyncEvent::FetchResult(Some(body)));
    match &next {
        SyncState::AwaitWrite(bytes) => assert_eq!(bytes.as_slice(), b"Hello World!"),
        other => panic!("expected AwaitWrite, got {:?}", other),
    }
    let next = sync_step(&task, next, SyncEvent::WriteResult(true));
    assert!(matches!(next, SyncState::Done(Ok(SyncOutcome::Fetched))));
}

#[test]
fn sync_stale_content_is_refetched() {
    let task = task_with_hash(HELLO_SHA1);
    let corrupt: Vec<u8> = b"tampered bytes".to_vec();
    let next = sync_step(&task, SyncState::AwaitRead, SyncEvent::ReadResult(Some(corrupt)));
    assert!(matches!(next, SyncState::AwaitFetch));
}

#[test]
fn sync_rejects_corrupt_fetch_without_write() {
    let task = task_with_hash(HELLO_SHA1);
    let corrupt: Vec<u8> = b"not the promised content".to_vec();
    let next = sync_step(&task, SyncState::AwaitFetch, SyncEvent::FetchResult(Some(corrupt)));
    assert!(matches!(next, SyncState::Done(Err(InstallError::HashMismatchError))));
}

#[test]
fn sync_surfaces_network_failure() {
    let task = task_with_hash(HELLO_SHA1);
    let next = sync_step(&task, SyncState::AwaitFetch, SyncEvent::FetchResult(None));
    assert!(matches!(next, SyncState::Done(Err(InstallError::NetworkError))));
}

#[test]
fn sync_surfaces_write_failure() {
    let task = task_with_hash(HELLO_SHA1);
    let body: Vec<u8> = b"Hello World!".to_vec();
    let next = sync_step(&task, SyncState::AwaitWrite(body), SyncEvent::WriteResult(false));
    assert!(matches!(next, SyncState::Done(Err(InstallError::IOError))));
}

#[test]
fn sync_twice_fetches_only_once() {
    let task = task_with_hash(HELLO_SHA1);
    let mut fetches: usize = 0;

    // First run: nothing on disk, one fetch, verified write.
    let mut disk: Option<Vec<u8>> = None;
    let mut state = sync_step(&task, SyncState::AwaitRead, SyncEvent::ReadResult(disk.clone()));
    assert!(matches!(state, SyncState::AwaitFetch));
    fetches += 1;
    let body: Vec<u8> = b"Hello World!".to_vec();
    state = sync_step(&task, state, SyncEvent::FetchResult(Some(body)));
    if let SyncState::AwaitWrite(bytes) = &state {
        disk = Some(bytes.clone());
    } else {
        panic!("expected AwaitWrite");
    }
    state = sync_step(&task, state, SyncEvent::WriteResult(true));
    assert!(matches!(state, SyncState::Done(Ok(SyncOutcome::Fetched))));

    // Second run: the written bytes satisfy the digest at once.
    let second = sync_step(&task, SyncState::AwaitRead, SyncEvent::ReadResult(disk));
    assert!(matches!(second, SyncState::Done(Ok(SyncOutcome::AlreadySatisfied))));
    assert_eq!(fetches, 1);
}

#[test]
fn content_differs_decides_writes() {
    let desired = String::from("{\"id\":\"1.16.5\"}");
    assert!(content_differs(None, &desired));
    let same = String::from("{\"id\":\"1.16.5\"}");
    assert!(!content_differs(Some(&same), &desired));
    let other = String::from("{\"id\":\"1.17\"}");
    assert!(content_differs(Some(&other), &desired));
}

#[test]
fn describe_names_each_error() {
    assert_eq!(InstallError::NetworkError.describe(), "network error while fetching");
    assert_eq!(InstallError::ParseError.describe(), "malformed URL or coordinate");
    assert_eq!(InstallError::IOError.describe(), "filesystem error");
    assert_eq!(
        InstallError::HashMismatchError.describe(),
        "content digest does not match the expected hash"
    );
}
