//! The transfer lifecycle as an explicit state machine.

use vstd::prelude::*;

use crate::error::LocalSendError;
use crate::protocol::{DeviceInfo, FileId, FileMap, SessionId};

verus! {

/// Whether `id` names one of the identifiers in `s`.
pub open spec fn id_in(s: Seq<FileId>, id: Seq<char>) -> bool {
    exists|i: int| 0 <= i < s.len() && s[i]@ == id
}

/// Whether the vector holds an identifier with the same characters.
fn vec_contains_id(v: &Vec<FileId>, id: &FileId) -> (r: bool)
    ensures
        r == id_in(v@, id@),
{
    let n = v.len();
    for i in 0..n
        invariant
            n == v@.len(),
            forall|k: int| 0 <= k < i ==> v@[k]@ != id@,
    {
        if v[i].same_as(id) {
            return true;
        }
    }
    false
}

/// Lifecycle of one inbound transfer, from the pending consent question
/// to completion or cancellation.
///
/// Times are a monotonic clock reading in whole seconds, supplied by the
/// caller.
#[derive(Clone, Debug)]
pub enum TransferState {
    /// No active transfer.
    Idle,
    /// Waiting for the user to accept or reject the transfer.
    WaitingForAcceptance { sender: DeviceInfo, files: FileMap, since: u64 },
    /// Transfer is actively in progress.
    Transferring { session_id: SessionId, sender: String, files: FileMap, completed: Vec<FileId> },
    /// Transfer completed successfully.
    Completed { session_id: SessionId, total_files: usize },
    /// Transfer was cancelled.
    Cancelled { reason: String },
}

impl TransferState {
    /// A new transfer awaiting acceptance, first seen at clock reading `now`.
    pub fn new_pending(sender: DeviceInfo, files: FileMap, now: u64) -> (r: Self)
        ensures
            r == (TransferState::WaitingForAcceptance { sender, files, since: now }),
    {
        TransferState::WaitingForAcceptance { sender, files, since: now }
    }

    /// Accept the transfer: only a pending one may move to `Transferring`,
    /// with no file completed yet.
    pub fn accept(self, session_id: SessionId) -> (r: Result<Self, LocalSendError>)
        ensures
            match self {
                TransferState::WaitingForAcceptance { sender, files, .. } => r matches Ok(next)
                    && next matches TransferState::Transferring {
                    session_id: sid,
                    sender: al,
                    files: fs,
                    completed,
                } && sid == session_id && al == sender.alias && fs == files && completed@.len()
                    == 0,
                _ => r matches Err(e) && e is InvalidState,
            },
    {
        match self {
            TransferState::WaitingForAcceptance { sender, files, .. } => Ok(
                TransferState::Transferring {
                    session_id,
                    sender: sender.alias,
                    files,
                    completed: Vec::new(),
                },
            ),
            _ => Err(
                LocalSendError::invalid_state(
                    String::from_str("Cannot accept transfer from current state"),
                ),
            ),
        }
    }

    /// Reject the transfer: only a pending one may be rejected.
    pub fn reject(self, reason: String) -> (r: Result<Self, LocalSendError>)
        ensures
            match self {
                TransferState::WaitingForAcceptance { .. } => r matches Ok(next) && next == (
                TransferState::Cancelled { reason }),
                _ => r matches Err(e) && e is InvalidState,
            },
    {
        match self {
            TransferState::WaitingForAcceptance { .. } => Ok(TransferState::Cancelled { reason }),
            _ => Err(
                LocalSendError::invalid_state(
                    String::from_str("Cannot reject transfer from current state"),
                ),
            ),
        }
    }

    /// Record that one file finished uploading. The identifier joins the
    /// completed set (once); when as many distinct files completed as were
    /// declared, the transfer is done.
    pub fn complete_file(self, file_id: FileId) -> (r: Result<Self, LocalSendError>)
        ensures
            match self {
                TransferState::Transferring { session_id, sender, files, completed } => {
                    let done = if id_in(completed@, file_id@) {
                        completed@
                    } else {
                        completed@.push(file_id)
                    };
                    r matches Ok(next) && (if done.len() == files.entries@.len() {
                        next == (TransferState::Completed {
                            session_id,
                            total_files: files.entries@.len() as usize,
                        })
                    } else {
                        next matches TransferState::Transferring {
                            session_id: sid,
                            sender: al,
                            files: fs,
                            completed: cs,
                        } && sid == session_id && al == sender && fs == files && cs@ == done
                    })
                },
                _ => r matches Err(e) && e is InvalidState,
            },
    {
        match self {
            TransferState::Transferring { session_id, sender, files, mut completed } => {
                if !vec_contains_id(&completed, &file_id) {
                    completed.push(file_id);
                }
                if completed.len() == files.len() {
                    let total_files = files.len();
                    Ok(TransferState::Completed { session_id, total_files })
                } else {
                    Ok(TransferState::Transferring { session_id, sender, files, completed })
                }
            },
            _ => Err(
                LocalSendError::invalid_state(
                    String::from_str("Cannot complete file from current state"),
                ),
            ),
        }
    }

    /// Cancel the transfer, whatever state it is in.
    pub fn cancel(self, reason: String) -> (r: Self)
        ensures
            r == (TransferState::Cancelled { reason }),
    {
        TransferState::Cancelled { reason }
    }

    /// Whether the transfer still occupies the node.
    pub fn is_active(&self) -> (r: bool)
        ensures
            r == (self is WaitingForAcceptance || self is Transferring),
    {
        match self {
            TransferState::WaitingForAcceptance { .. } | TransferState::Transferring { .. } => true,
            _ => false,
        }
    }

    /// Whether the transfer finished with every file delivered.
    pub fn is_completed(&self) -> (r: bool)
        ensures
            r == (self is Completed),
    {
        matches!(self, TransferState::Completed { .. })
    }

    /// The session identifier, available while transferring and afterwards.
    pub fn session_id(&self) -> (r: Option<&SessionId>)
        ensures
            match self {
                TransferState::Transferring { session_id, .. } => r == Some(session_id),
                TransferState::Completed { session_id, .. } => r == Some(session_id),
                _ => r is None,
            },
    {
        match self {
            TransferState::Transferring { session_id, .. } => Some(session_id),
            TransferState::Completed { session_id, .. } => Some(session_id),
            _ => None,
        }
    }

    /// Whether the given file already finished uploading.
    pub fn is_file_completed(&self, file_id: &FileId) -> (r: bool)
        ensures
            r == match self {
                TransferState::Transferring { completed, .. } => id_in(completed@, file_id@),
                TransferState::Completed { .. } => true,
                _ => false,
            },
    {
        match self {
            TransferState::Transferring { completed, .. } => vec_contains_id(completed, file_id),
            TransferState::Completed { .. } => true,
            _ => false,
        }
    }
}

} // verus!
