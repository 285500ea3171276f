use vstd::prelude::*;

use crate::errors::InstallError;
use crate::hashing::{digest_matches, sha1_hex_of};

verus! {

/// One unit of work for the installer: fetch `url`, verify against `sha1`,
/// and place the bytes at `dir/name`.
#[derive(Debug)]
pub struct SyncTask {
    pub url: String,
    pub sha1: String,
    pub dir: String,
    pub name: String,
}

/// The mathematical content of a task: its four strings as char sequences.
pub struct TaskSpec {
    pub url: Seq<char>,
    pub sha1: Seq<char>,
    pub dir: Seq<char>,
    pub name: Seq<char>,
}

impl View for SyncTask {
    type V = TaskSpec;

    open spec fn view(&self) -> TaskSpec {
        TaskSpec { url: self.url@, sha1: self.sha1@, dir: self.dir@, name: self.name@ }
    }
}

impl Clone for SyncTask {
    fn clone(&self) -> (r: Self)
        ensures
            r == *self,
    {
        SyncTask {
            url: self.url.clone(),
            sha1: self.sha1.clone(),
            dir: self.dir.clone(),
            name: self.name.clone(),
        }
    }
}

/// Outcome of one idempotent sync of a single destination file.
#[derive(Debug, PartialEq, Eq, Structural, Clone, Copy)]
pub enum SyncOutcome {
    /// The destination already held bytes whose digest matched; nothing was fetched.
    AlreadySatisfied,
    /// The bytes were fetched, verified, and written.
    Fetched,
}

/// The control state of one sync in progress. The caller performs the I/O a
/// state asks for and feeds the result back as a `SyncEvent`.
#[derive(Debug)]
pub enum SyncState {
    /// Read the destination file; report its bytes, or `None` if absent.
    AwaitRead,
    /// Fetch the task's URL; report the body, or `None` on a transport failure.
    AwaitFetch,
    /// Write these digest-verified bytes to the destination.
    AwaitWrite(Vec<u8>),
    /// The sync is finished with this result.
    Done(Result<SyncOutcome, InstallError>),
}

/// What the caller's I/O produced, answering the current `SyncState`.
#[derive(Debug)]
pub enum SyncEvent {
    /// The destination file's bytes, or `None` if it is absent or unreadable.
    ReadResult(Option<Vec<u8>>),
    /// The fetched body, or `None` on a transport failure.
    FetchResult(Option<Vec<u8>>),
    /// Whether the write (with any needed directories) succeeded.
    WriteResult(bool),
}

/// The sync transition relation: from a state and the I/O result it waited
/// for, the next state. An event that does not answer the state leaves the
/// state unchanged.
pub open spec fn spec_sync_step(expected: Seq<char>, state: SyncState, event: SyncEvent) -> SyncState {
    match (state, event) {
        (SyncState::AwaitRead, SyncEvent::ReadResult(local)) => match local {
            Some(bytes) => if sha1_hex_of(bytes@) == expected {
                SyncState::Done(Ok(SyncOutcome::AlreadySatisfied))
            } else {
                SyncState::AwaitFetch
            },
            None => SyncState::AwaitFetch,
        },
        (SyncState::AwaitFetch, SyncEvent::FetchResult(body)) => match body {
            Some(bytes) => if sha1_hex_of(bytes@) == expected {
                SyncState::AwaitWrite(bytes)
            } else {
                SyncState::Done(Err(InstallError::HashMismatchError))
            },
            None => SyncState::Done(Err(InstallError::NetworkError)),
        },
        (SyncState::AwaitWrite(_), SyncEvent::WriteResult(ok)) => if ok {
            SyncState::Done(Ok(SyncOutcome::Fetched))
        } else {
            SyncState::Done(Err(InstallError::IOError))
        },
        (s, _) => s,
    }
}

/// Advance one sync by one step, exactly as `spec_sync_step` says.
pub fn sync_step(task: &SyncTask, state: SyncState, event: SyncEvent) -> (next: SyncState)
    ensures
        next == spec_sync_step(task.sha1@, state, event),
{
    match (state, event) {
        (SyncState::AwaitRead, SyncEvent::ReadResult(local)) => match local {
            Some(bytes) => {
                if digest_matches(bytes.as_slice(), &task.sha1) {
                    SyncState::Done(Ok(SyncOutcome::AlreadySatisfied))
                } else {
                    SyncState::AwaitFetch
                }
            },
            None => SyncState::AwaitFetch,
        },
        (SyncState::AwaitFetch, SyncEvent::FetchResult(body)) => match body {
            Some(bytes) => {
                if digest_matches(bytes.as_slice(), &task.sha1) {
                    SyncState::AwaitWrite(bytes)
                } else {
                    SyncState::Done(Err(InstallError::HashMismatchError))
                }
            },
            None => SyncState::Done(Err(InstallError::NetworkError)),
        },
        (SyncState::AwaitWrite(_), SyncEvent::WriteResult(ok)) => {
            if ok {
                SyncState::Done(Ok(SyncOutcome::Fetched))
            } else {
                SyncState::Done(Err(InstallError::IOError))
            }
        },
        (s, _) => s,
    }
}

/// The write decision for records kept by full-document equality rather than
/// by digest (the version-info and loader-metadata files): write only when
/// the stored serialization is absent or differs from the desired one.
pub fn content_differs(current: Option<&String>, desired: &String) -> (r: bool)
    ensures
        r == !(current matches Some(s) && s@ == desired@),
{
    match current {
        Some(s) => !(*s == *desired),
        None => true,
    }
}

/// Bytes held for writing always carry the expected digest: the invariant that
/// makes "verify then write" safe.
pub open spec fn state_digest_ok(expected: Seq<char>, state: SyncState) -> bool {
    match state {
        SyncState::AwaitWrite(bytes) => sha1_hex_of(bytes@) == expected,
        _ => true,
    }
}

/// Hash integrity: every reachable `AwaitWrite` state holds bytes whose digest
/// equals the expected hash, so only verified content is ever written.
pub proof fn lemma_write_only_verified(expected: Seq<char>, state: SyncState, event: SyncEvent)
    requires
        state_digest_ok(expected, state),
    ensures
        state_digest_ok(expected, spec_sync_step(expected, state, event)),
{
}

/// Idempotence: a sync whose destination already holds bytes with the expected
/// digest finishes at once as `AlreadySatisfied`, with no fetch and no write.
pub proof fn lemma_sync_idempotent(expected: Seq<char>, local: Vec<u8>)
    requires
        sha1_hex_of(local@) == expected,
    ensures
        spec_sync_step(expected, SyncState::AwaitRead, SyncEvent::ReadResult(Some(local)))
            == SyncState::Done(Ok(SyncOutcome::AlreadySatisfied)),
{
}

/// Idempotence across runs: bytes a first run accepted for writing satisfy the
/// digest, so a second run that reads them back is `AlreadySatisfied` and
/// performs no further fetch.
pub proof fn lemma_second_run_satisfied(expected: Seq<char>, fetched: Vec<u8>)
    requires
        spec_sync_step(expected, SyncState::AwaitFetch, SyncEvent::FetchResult(Some(fetched)))
            is AwaitWrite,
    ensures
        spec_sync_step(expected, SyncState::AwaitRead, SyncEvent::ReadResult(Some(fetched)))
            == SyncState::Done(Ok(SyncOutcome::AlreadySatisfied)),
{
}

/// Stale content is re-fetched: a destination whose bytes do not carry the
/// expected digest moves the sync on to a fetch.
pub proof fn lemma_stale_triggers_fetch(expected: Seq<char>, local: Vec<u8>)
    requires
        sha1_hex_of(local@) != expected,
    ensures
        spec_sync_step(expected, SyncState::AwaitRead, SyncEvent::ReadResult(Some(local)))
            == SyncState::AwaitFetch,
{
}

/// Corruption rejection: a fetch whose bytes do not carry the expected digest
/// ends the sync with `HashMismatchError`; no write state is ever entered.
pub proof fn lemma_corrupt_fetch_rejected(expected: Seq<char>, fetched: Vec<u8>)
    requires
        sha1_hex_of(fetched@) != expected,
    ensures
        spec_sync_step(expected, SyncState::AwaitFetch, SyncEvent::FetchResult(Some(fetched)))
            == SyncState::Done(Err(InstallError::HashMismatchError)),
{
}

} // verus!
