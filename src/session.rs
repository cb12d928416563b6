use vstd::prelude::*;
use crate::progress::{CHUNK_SIZE, TransferProgress, is_chunking};
use crate::remote_dir::ErrorCode;
use crate::transfer::TransferError;

verus! {

/// Where an upload to a remote filesystem stands.
#[derive(PartialEq, Eq, Structural, Clone, Copy, Debug)]
pub enum Stage {
    Connect,
    Handshake,
    Authenticate,
    OpenSftp,
    MakeDirs,
    CreateFile,
    Send,
    Flush,
    Done,
    Failed(TransferError),
}

/// The answer to the work that the last stage asked for.
#[derive(PartialEq, Eq, Structural, Clone, Copy, Debug)]
pub enum SessionEvent {
    /// The step succeeded.
    Completed,
    /// The step failed.
    Broken,
    /// Authentication ran; the session says whether it is authenticated.
    Authenticated(bool),
    /// The directories could not be made.
    DirsFailed(ErrorCode),
    /// A chunk of this many bytes was read and written.
    Sent(u64),
    /// Writing a chunk to the remote file failed.
    WriteFailed,
}

/// The length that the next chunk must have: the chunk size, or what is left
/// when that is less.
pub open spec fn chunk_for(sent: nat, total: nat) -> int {
    if CHUNK_SIZE < total - sent {
        CHUNK_SIZE as int
    } else {
        total - sent
    }
}

/// The stage after `ev`, for a file of `total` bytes of which `sent` are sent.
pub open spec fn next_stage(stage: Stage, sent: nat, total: nat, ev: SessionEvent) -> Stage {
    match (stage, ev) {
        (Stage::Connect, SessionEvent::Completed) => Stage::Handshake,
        (Stage::Connect, SessionEvent::Broken) => Stage::Failed(TransferError::ConnectFailed),
        (Stage::Handshake, SessionEvent::Completed) => Stage::Authenticate,
        (Stage::Handshake, SessionEvent::Broken) => Stage::Failed(TransferError::ConnectFailed),
        (Stage::Authenticate, SessionEvent::Authenticated(true)) => Stage::OpenSftp,
        (Stage::Authenticate, SessionEvent::Authenticated(false)) => Stage::Failed(
            TransferError::AuthFailed,
        ),
        (Stage::Authenticate, SessionEvent::Broken) => Stage::Failed(TransferError::AuthFailed),
        (Stage::OpenSftp, SessionEvent::Completed) => Stage::MakeDirs,
        (Stage::OpenSftp, SessionEvent::Broken) => Stage::Failed(TransferError::ConnectFailed),
        (Stage::MakeDirs, SessionEvent::Completed) => Stage::CreateFile,
        (Stage::MakeDirs, SessionEvent::DirsFailed(c)) => Stage::Failed(
            TransferError::DirectoryCreateFailed(c),
        ),
        (Stage::CreateFile, SessionEvent::Completed) => if total == 0 {
            Stage::Flush
        } else {
            Stage::Send
        },
        (Stage::CreateFile, SessionEvent::Broken) => Stage::Failed(TransferError::RemoteRejected),
        (Stage::Send, SessionEvent::Sent(n)) => if n != chunk_for(sent, total) {
            Stage::Failed(TransferError::LocalIoFailed)
        } else if sent + n == total {
            Stage::Flush
        } else {
            Stage::Send
        },
        (Stage::Send, SessionEvent::Broken) => Stage::Failed(TransferError::LocalIoFailed),
        (Stage::Send, SessionEvent::WriteFailed) => Stage::Failed(TransferError::RemoteRejected),
        (Stage::Flush, SessionEvent::Completed) => Stage::Done,
        (Stage::Flush, SessionEvent::Broken) => Stage::Failed(TransferError::RemoteRejected),
        _ => stage,
    }
}

/// The byte count after `ev`.
pub open spec fn next_sent(stage: Stage, sent: nat, total: nat, ev: SessionEvent) -> nat {
    match (stage, ev) {
        (Stage::Send, SessionEvent::Sent(n)) => if n == chunk_for(sent, total) {
            (sent + n) as nat
        } else {
            sent
        },
        _ => sent,
    }
}

/// The upload of one file to a remote filesystem: the decisions between the
/// steps that the caller performs.
pub struct SshUpload {
    stage: Stage,
    progress: TransferProgress,
}

impl SshUpload {
    pub closed spec fn stage(&self) -> Stage {
        self.stage
    }

    pub closed spec fn sent(&self) -> nat {
        self.progress.bytes_transferred as nat
    }

    pub closed spec fn total(&self) -> nat {
        self.progress.total_bytes as nat
    }

    /// The chunk lengths sent so far, in order.
    pub closed spec fn steps(&self) -> Seq<u64> {
        self.progress.steps@
    }

    pub closed spec fn wf(&self) -> bool {
        &&& self.progress.wf()
        &&& self.stage == Stage::Send ==> self.progress.bytes_transferred
            < self.progress.total_bytes
        &&& !(self.stage == Stage::Send || self.stage == Stage::Flush || self.stage == Stage::Done
            || self.stage is Failed) ==> self.progress.bytes_transferred == 0
        &&& (self.stage == Stage::Flush || self.stage == Stage::Done)
            ==> self.progress.bytes_transferred == self.progress.total_bytes
        &&& forall|i: int|
            0 <= i < self.progress.steps@.len() ==> #[trigger] self.progress.steps@[i]
                <= CHUNK_SIZE && (self.progress.steps@[i] == CHUNK_SIZE || (i
                == self.progress.steps@.len() - 1 && self.progress.bytes_transferred
                == self.progress.total_bytes))
    }

    /// An upload of a file of `total_bytes` bytes, about to connect.
    pub fn new(total_bytes: u64) -> (r: SshUpload)
        ensures
            r.wf(),
            r.stage() == Stage::Connect,
            r.sent() == 0,
            r.total() == total_bytes,
    {
        SshUpload { stage: Stage::Connect, progress: TransferProgress::new(total_bytes) }
    }

    pub fn stage_now(&self) -> (r: Stage)
        ensures
            r == self.stage(),
    {
        self.stage
    }

    pub fn bytes_sent(&self) -> (r: u64)
        ensures
            r == self.sent(),
    {
        self.progress.bytes_transferred
    }

    /// In the sending stage, the length of the next chunk to read and write:
    /// the chunk size, or what is left when that is less.
    pub fn chunk_len(&self) -> (r: u64)
        requires
            self.wf(),
        ensures
            r == chunk_for(self.sent(), self.total()),
            0 < self.total() - self.sent() ==> 0 < r,
            r <= CHUNK_SIZE,
            r <= self.total() - self.sent(),
            r == CHUNK_SIZE || r == self.total() - self.sent(),
    {
        self.progress.next_chunk(CHUNK_SIZE)
    }

    /// Takes in the answer to the last step.
    pub fn on_event(&mut self, ev: SessionEvent)
        requires
            old(self).wf(),
        ensures
            final(self).wf(),
            final(self).total() == old(self).total(),
            final(self).stage() == next_stage(
                old(self).stage(),
                old(self).sent(),
                old(self).total(),
                ev,
            ),
            final(self).sent() == next_sent(old(self).stage(), old(self).sent(), old(self).total(), ev),
    {
        let total = self.progress.total_bytes;
        let next = match (self.stage, ev) {
            (Stage::Connect, SessionEvent::Completed) => Stage::Handshake,
            (Stage::Connect, SessionEvent::Broken) => Stage::Failed(TransferError::ConnectFailed),
            (Stage::Handshake, SessionEvent::Completed) => Stage::Authenticate,
            (Stage::Handshake, SessionEvent::Broken) => Stage::Failed(
                TransferError::ConnectFailed,
            ),
            (Stage::Authenticate, SessionEvent::Authenticated(ok)) => if ok {
                Stage::OpenSftp
            } else {
                Stage::Failed(TransferError::AuthFailed)
            },
            (Stage::Authenticate, SessionEvent::Broken) => Stage::Failed(TransferError::AuthFailed),
            (Stage::OpenSftp, SessionEvent::Completed) => Stage::MakeDirs,
            (Stage::OpenSftp, SessionEvent::Broken) => Stage::Failed(TransferError::ConnectFailed),
            (Stage::MakeDirs, SessionEvent::Completed) => Stage::CreateFile,
            (Stage::MakeDirs, SessionEvent::DirsFailed(c)) => Stage::Failed(
                TransferError::DirectoryCreateFailed(c),
            ),
            (Stage::CreateFile, SessionEvent::Completed) => if total == 0 {
                Stage::Flush
            } else {
                Stage::Send
            },
            (Stage::CreateFile, SessionEvent::Broken) => Stage::Failed(
                TransferError::RemoteRejected,
            ),
            (Stage::Send, SessionEvent::Sent(n)) => {
                let rest = self.progress.remaining();
                if n != self.progress.next_chunk(CHUNK_SIZE) {
                    Stage::Failed(TransferError::LocalIoFailed)
                } else {
                    self.progress.advance(n);
                    if n == rest {
                        Stage::Flush
                    } else {
                        Stage::Send
                    }
                }
            },
            (Stage::Send, SessionEvent::Broken) => Stage::Failed(TransferError::LocalIoFailed),
            (Stage::Send, SessionEvent::WriteFailed) => Stage::Failed(
                TransferError::RemoteRejected,
            ),
            (Stage::Flush, SessionEvent::Completed) => Stage::Done,
            (Stage::Flush, SessionEvent::Broken) => Stage::Failed(TransferError::RemoteRejected),
            _ => self.stage,
        };
        self.stage = next;
    }

    /// The result of the upload once it has ended; `None` while it runs.
    pub fn result(&self) -> (r: Option<Result<(), TransferError>>)
        requires
            self.wf(),
        ensures
            r == Some(Ok::<(), TransferError>(())) ==> self.sent() == self.total() && is_chunking(
                self.steps(),
                self.total() as int,
                CHUNK_SIZE as int,
            ),
            self.stage() == Stage::Done ==> r == Some(Ok::<(), TransferError>(())),
            self.stage() matches Stage::Failed(e) ==> r == Some(Err::<(), TransferError>(e)),
            !(self.stage() == Stage::Done || self.stage() is Failed) ==> r.is_none(),
    {
        match self.stage {
            Stage::Done => Some(Ok(())),
            Stage::Failed(e) => Some(Err(e)),
            _ => None,
        }
    }
}

/// A refused authentication ends the upload with `AuthFailed`, and no later
/// answer moves it on: no remote file is ever created after it.
pub proof fn lemma_auth_refused_is_final(sent: nat, total: nat, ev: SessionEvent)
    ensures
        next_stage(Stage::Authenticate, sent, total, SessionEvent::Authenticated(false))
            == Stage::Failed(TransferError::AuthFailed),
        forall|e: TransferError| #[trigger]
            next_stage(Stage::Failed(e), sent, total, ev) == Stage::Failed(e),
{
}

} // verus!
