//! The receive-side engine: session lifecycle, consent, upload authorization.
//!
//! This is the state machine behind the five HTTP endpoints. The transport
//! calls in with plain values (the decoded request, a clock reading in
//! seconds, a calendar stamp) and carries the returned decision back out as
//! a status code, a body, or a disk write. A session ends exactly when every
//! declared file has been uploaded once; a single-file session therefore
//! ends with its first upload, larger ones when the last file lands.

use vstd::prelude::*;
use vstd::string::StringSliceAdditionalSpecFns;

use crate::crypto::generate_fingerprint;
use crate::protocol::{
    spec_token, DeviceInfo, DeviceType, FileId, FileMap, PrepareUploadRequest,
    PrepareUploadResponse, Protocol, ReceivedFile, SessionId, Token, PROTOCOL_VERSION,
};
use crate::session::Session;
use crate::text::spec_sanitize;
use crate::timefmt::Timestamp;

verus! {

/// Seconds of inactivity after which a session no longer blocks a new one.
pub const SESSION_IDLE_TIMEOUT_SECS: u64 = 300;

/// A prepare-upload whose files all carry an inline preview under this many
/// bytes is a text message and needs no upload step.
pub open spec fn spec_message_only(files: FileMap) -> bool {
    files.entries@.len() > 0 && forall|i: int|
        0 <= i < files.entries@.len() ==> (#[trigger] files.entries@[i].1).spec_is_text_message()
}

/// Whether every declared file travels as an inline text message.
pub fn message_only(files: &FileMap) -> (r: bool)
    ensures
        r == spec_message_only(*files),
{
    if files.is_empty() {
        return false;
    }
    let n = files.len();
    for i in 0..n
        invariant
            n == files.entries@.len(),
            forall|k: int|
                0 <= k < i ==> (#[trigger] files.entries@[k].1).spec_is_text_message(),
    {
        if !files.entries[i].1.is_text_message() {
            return false;
        }
    }
    true
}

/// The rendezvous between a prepare-upload handler and whoever answers the
/// consent question: the sender's identity and files, classified on arrival.
/// The reply channel itself lives with the transport.
#[derive(Clone, Debug)]
pub struct PendingTransfer {
    pub sender: DeviceInfo,
    pub files: FileMap,
    /// Whether all declared files are inline text messages.
    pub is_message: bool,
}

/// The name a delivered text message is stored under:
/// `message_{YYYYMMDD_HHMMSS}_{sanitized original name}.txt`.
pub open spec fn spec_message_file_name(stamp: Timestamp, original: Seq<char>) -> Seq<char> {
    "message_"@ + stamp.spec_compact() + "_"@ + spec_sanitize(original) + ".txt"@
}

/// Build the storage name for a delivered text message.
pub fn message_file_name(stamp: &Timestamp, original: &str) -> (r: String)
    requires
        stamp.wf(),
    ensures
        r@ == spec_message_file_name(*stamp, original@),
{
    proof {
        reveal_strlit("message_");
        reveal_strlit("_");
        reveal_strlit(".txt");
    }
    let mut out = String::from_str("message_");
    let compact = stamp.compact();
    out.append(compact.as_str());
    out.append("_");
    let sanitized = crate::text::sanitize_file_name(original);
    out.append(sanitized.as_str());
    out.append(".txt");
    proof {
        assert(out@ =~= spec_message_file_name(*stamp, original@));
    }
    out
}

/// One text message ready to be written to disk.
#[derive(Clone, Debug, PartialEq)]
pub struct MessageFile {
    pub file_name: String,
    pub content: String,
}

/// What a prepare-upload request decides before consent is asked.
#[derive(Clone, Debug)]
pub enum PrepareOutcome {
    /// Another session is still live: HTTP 409.
    Conflict,
    /// A session was minted and the consent question is now pending.
    Pending { session_id: SessionId },
}

/// What the handler answers once consent is settled.
#[derive(Clone, Debug)]
pub enum ConsentOutcome {
    /// Consent denied, timed out, or withdrawn: HTTP 403, no session left.
    Rejected,
    /// All files were inline texts: write these and answer HTTP 204.
    MessageSaved { files: Vec<MessageFile> },
    /// Binary uploads follow: answer HTTP 200 with this body.
    Accepted { response: PrepareUploadResponse },
}

/// What an upload request with the given credentials deserves.
#[derive(Clone, Debug)]
pub enum UploadCheck {
    /// No session, wrong session, or wrong token: HTTP 403.
    Forbidden,
    /// Right session and token, but the file is not declared: HTTP 404.
    NotFound,
    /// Authorized: write the body under this name inside the save directory.
    Accept { file_name: String },
}

/// The receive-side server state: the node's own identity, at most one live
/// session, the pending consent question, and the received-files log.
pub struct LocalSendServer {
    pub device: DeviceInfo,
    /// Directory uploads and messages are stored in.
    pub save_dir: String,
    pub session: Option<Session>,
    /// Distinct declared files already uploaded in the current session.
    pub uploaded: Vec<FileId>,
    pub pending: Option<PendingTransfer>,
    pub received_files: Vec<ReceivedFile>,
}

impl LocalSendServer {
    /// The session, when there is one, is internally consistent; the
    /// uploaded list names distinct declared files of that session; the
    /// pending question, when there is one, belongs to the session and is
    /// classified correctly.
    pub open spec fn wf(&self) -> bool {
        &&& match self.session {
            Some(s) => s.wf() && (forall|i: int, j: int|
                0 <= i < j < self.uploaded@.len() ==> self.uploaded@[i]@ != self.uploaded@[j]@)
                && (forall|i: int|
                0 <= i < self.uploaded@.len() ==> s.files.contains_id(#[trigger] self.uploaded@[i]@)),
            None => self.uploaded@.len() == 0,
        }
        &&& match self.pending {
            Some(p) => self.session is Some && p.is_message == spec_message_only(p.files),
            None => true,
        }
    }

    /// A server with the given identity; no session, nothing received yet.
    pub fn new_with_device(device: DeviceInfo, save_dir: String) -> (r: Self)
        ensures
            r.wf(),
            r.device == device,
            r.save_dir == save_dir,
            r.session is None,
            r.pending is None,
            r.received_files@.len() == 0,
    {
        LocalSendServer {
            device,
            save_dir,
            session: None,
            uploaded: Vec::new(),
            pending: None,
            received_files: Vec::new(),
        }
    }

    /// A plain-HTTP server with a random fingerprint for its identity.
    pub fn new(alias: String, port: u16, save_dir: String) -> (r: Self)
        ensures
            r.wf(),
            r.device.alias == alias,
            r.device.port == port,
            r.device.protocol is Http,
            r.device.version@ == PROTOCOL_VERSION@,
            r.device.fingerprint@.len() == 36,
            !r.device.download,
            r.session is None,
            r.pending is None,
            r.received_files@.len() == 0,
    {
        let device = DeviceInfo {
            alias,
            version: String::from_str(PROTOCOL_VERSION),
            device_model: None,
            device_type: Some(DeviceType::Desktop),
            fingerprint: generate_fingerprint(),
            port,
            protocol: Protocol::Http,
            download: false,
            ip: None,
        };
        Self::new_with_device(device, save_dir)
    }

    /// Answer `GET /info`: the node's own identity, always the same one.
    pub fn info(&self) -> (r: DeviceInfo)
        ensures
            r == self.device,
    {
        self.device.clone()
    }

    /// Answer `POST /register`: echo the node's own identity back, whoever
    /// asks.
    pub fn register(&self, _remote: &DeviceInfo) -> (r: DeviceInfo)
        ensures
            r == self.device,
    {
        self.device.clone()
    }

    /// Whether a session exists and saw activity within the idle timeout.
    pub open spec fn session_live(&self, now: u64) -> bool {
        match self.session {
            Some(s) => now <= s.last_activity + SESSION_IDLE_TIMEOUT_SECS,
            None => false,
        }
    }

    /// Begin `POST /prepare-upload`: refuse while another session is live;
    /// otherwise clear any stale one, mint a session with one derived token
    /// per file, and park the consent question.
    pub fn prepare_upload(&mut self, request: PrepareUploadRequest, now: u64) -> (r:
        PrepareOutcome)
        requires
            old(self).wf(),
            request.files.wf(),
        ensures
            final(self).wf(),
            final(self).device == old(self).device,
            final(self).save_dir == old(self).save_dir,
            final(self).received_files == old(self).received_files,
            old(self).session_live(now) ==> r is Conflict && *final(self) == *old(self),
            !old(self).session_live(now) ==> match (final(self).session, final(self).pending) {
                (Some(s), Some(p)) => {
                    &&& r matches PrepareOutcome::Pending { session_id } && s.id == session_id
                    &&& s.id@.len() == 36
                    &&& s.files.entries@ == request.files.entries@
                    &&& s.sender_alias == request.info.alias
                    &&& s.created_at == now
                    &&& s.last_activity == now
                    &&& p.sender == request.info
                    &&& p.files.entries@ == request.files.entries@
                    &&& p.is_message == spec_message_only(request.files)
                    &&& final(self).uploaded@.len() == 0
                },
                _ => false,
            },
    {
        match &self.session {
            Some(s) => {
                if !s.is_timed_out(SESSION_IDLE_TIMEOUT_SECS, now) {
                    return PrepareOutcome::Conflict;
                }
            },
            None => {},
        }
        self.session = None;
        self.uploaded = Vec::new();
        self.pending = None;
        let PrepareUploadRequest { info, files } = request;
        let is_message = message_only(&files);
        let files_copy = files.clone();
        proof {
            assert(files_copy.ids() =~= files.ids());
            assert(files_copy.wf());
        }
        let session = Session::new(info.alias.clone(), files_copy, now);
        let session_id = session.id.clone();
        proof {
            assert(spec_message_only(session.files) == spec_message_only(request.files));
        }
        self.pending = Some(PendingTransfer { sender: info, files, is_message });
        self.session = Some(session);
        PrepareOutcome::Pending { session_id }
    }

    /// Finish `POST /prepare-upload` once consent is settled; a timeout or
    /// a closed reply channel counts as `accepted == false`.
    ///
    /// Denial clears everything and answers 403. Acceptance of a pure text
    /// message hands back the files to write and answers 204, the session
    /// being complete. Acceptance of anything else refreshes the session
    /// and answers 200 with the token map.
    pub fn consent_reply(&mut self, accepted: bool, now: u64, stamp: &Timestamp) -> (r:
        ConsentOutcome)
        requires
            old(self).wf(),
            old(self).pending is Some,
            stamp.wf(),
        ensures
            final(self).wf(),
            final(self).device == old(self).device,
            final(self).save_dir == old(self).save_dir,
            final(self).pending is None,
            !accepted ==> r is Rejected && final(self).session is None && final(self).received_files
                == old(self).received_files,
            accepted ==> match (old(self).pending, old(self).session) {
                (Some(p), Some(s)) => {
                    if p.is_message {
                        &&& r matches ConsentOutcome::MessageSaved { files } && files@.len() > 0
                            && files@.len() == p.files.entries@.len() && (forall|i: int|
                            0 <= i < files@.len() ==> (#[trigger] files@[i]).file_name@
                                == spec_message_file_name(
                                *stamp,
                                p.files.entries@[i].1.file_name@,
                            ) && files@[i].content@ == p.files.entries@[i].1.preview->0@)
                        &&& final(self).session is None
                        &&& final(self).received_files@.len() == old(self).received_files@.len()
                            + p.files.entries@.len()
                        &&& forall|k: int|
                            0 <= k < old(self).received_files@.len() ==> final(self).received_files@[k] == old(self).received_files@[k]
                        &&& forall|k: int|
                            0 <= k < p.files.entries@.len() ==> {
                                let entry = #[trigger] final(self).received_files@[old(self).received_files@.len() + k];
                                entry.file_name@ == spec_message_file_name(
                                    *stamp,
                                    p.files.entries@[k].1.file_name@,
                                ) && entry.size == vstd::utf8::encode_utf8(
                                    p.files.entries@[k].1.preview->0@,
                                ).len() as usize as u64 && entry.sender@ == p.sender.alias@
                                    && entry.time@ == stamp.spec_display()
                            }
                    } else {
                        &&& r matches ConsentOutcome::Accepted { response }
                            && response.session_id@ == s.id@ && response.files@.len()
                            == s.files.entries@.len() && (forall|i: int|
                            0 <= i < response.files@.len() ==> (#[trigger] response.files@[i]).0@
                                == s.files.entries@[i].0@ && response.files@[i].1@ == spec_token(
                                s.id@,
                                s.files.entries@[i].0@,
                            ))
                        &&& final(self).session matches Some(s2) && s2 == (Session {
                            last_activity: now,
                            ..s
                        })
                        &&& final(self).received_files == old(self).received_files
                    }
                },
                _ => true,
            },
    {
        let pending = match self.pending.take() {
            Some(p) => p,
            None => {
                proof {
                    assert(false);
                }
                PendingTransfer {
                    sender: DeviceInfo::new(String::new(), 0, Protocol::Http),
                    files: FileMap::new(),
                    is_message: false,
                }
            },
        };
        if !accepted {
            self.session = None;
            self.uploaded = Vec::new();
            return ConsentOutcome::Rejected;
        }
        if pending.is_message {
            let n = pending.files.len();
            let mut files: Vec<MessageFile> = Vec::new();
            let mut i: usize = 0;
            while i < n
                invariant
                    n == pending.files.entries@.len(),
                    i <= n,
                    spec_message_only(pending.files),
                    stamp.wf(),
                    files@.len() == i,
                    forall|k: int|
                        0 <= k < i ==> (#[trigger] files@[k]).file_name@ == spec_message_file_name(
                            *stamp,
                            pending.files.entries@[k].1.file_name@,
                        ) && files@[k].content@ == pending.files.entries@[k].1.preview->0@,
                    self.received_files@.len() == old(self).received_files@.len() + i,
                    forall|k: int|
                        0 <= k < old(self).received_files@.len() ==> self.received_files@[k] == old(self).received_files@[k],
                    forall|k: int|
                        0 <= k < i ==> {
                            let entry = #[trigger] self.received_files@[old(self).received_files@.len() + k];
                            entry.file_name@ == spec_message_file_name(
                                *stamp,
                                pending.files.entries@[k].1.file_name@,
                            ) && entry.size == vstd::utf8::encode_utf8(
                                pending.files.entries@[k].1.preview->0@,
                            ).len() as usize as u64 && entry.sender@ == pending.sender.alias@
                                && entry.time@ == stamp.spec_display()
                        },
                    self.device == old(self).device,
                    self.save_dir == old(self).save_dir,
                    self.session == old(self).session,
                    self.uploaded == old(self).uploaded,
                    self.pending is None,
                decreases n - i,
            {
                let meta = &pending.files.entries[i].1;
                let content: String = match &meta.preview {
                    Some(c) => c.clone(),
                    None => {
                        proof {
                            assert(false);
                        }
                        String::new()
                    },
                };
                let file_name = message_file_name(stamp, meta.file_name.as_str());
                let content_ref = content.as_str();
                let size = content_ref.len() as u64;
                proof {
                    assert(content_ref.spec_bytes() == vstd::utf8::encode_utf8(
                        meta.preview->0@,
                    ));
                }
                let entry = ReceivedFile {
                    file_name: file_name.clone(),
                    size,
                    sender: pending.sender.alias.clone(),
                    time: stamp.display(),
                };
                self.received_files.push(entry);
                files.push(MessageFile { file_name, content });
                i = i + 1;
            }
            self.session = None;
            self.uploaded = Vec::new();
            return ConsentOutcome::MessageSaved { files };
        }
        // Binary uploads follow: refresh the session and hand out the tokens.
        let response = match &mut self.session {
            Some(s) => {
                s.touch(now);
                let m = s.tokens.len();
                let mut token_map: Vec<(FileId, Token)> = Vec::new();
                let mut j: usize = 0;
                while j < m
                    invariant
                        m == s.tokens@.len(),
                        j <= m,
                        token_map@.len() == j,
                        forall|k: int|
                            0 <= k < j ==> (#[trigger] token_map@[k]).0@ == s.tokens@[k].0@
                                && token_map@[k].1@ == s.tokens@[k].1@,
                    decreases m - j,
                {
                    let pair = &s.tokens[j];
                    token_map.push((pair.0.clone(), pair.1.clone()));
                    j = j + 1;
                }
                PrepareUploadResponse { session_id: s.id.clone(), files: token_map }
            },
            None => {
                proof {
                    assert(false);
                }
                PrepareUploadResponse { session_id: SessionId(String::new()), files: Vec::new() }
            },
        };
        ConsentOutcome::Accepted { response }
    }

    /// Check `POST /upload` credentials: the session, its identifier and
    /// the derived token must all match, or nothing is written.
    pub fn upload_check(&self, session_id: &SessionId, file_id: &FileId, token: &Token) -> (r:
        UploadCheck)
        requires
            self.wf(),
        ensures
            match self.session {
                None => r is Forbidden,
                Some(s) => {
                    if s.id@ != session_id@ {
                        r is Forbidden
                    } else if token@ != spec_token(s.id@, file_id@) {
                        r is Forbidden
                    } else if !s.files.contains_id(file_id@) {
                        r is NotFound
                    } else {
                        r matches UploadCheck::Accept { file_name } && exists|i: int|
                            0 <= i < s.files.entries@.len() && s.files.entries@[i].0@ == file_id@
                                && file_name@ == s.files.entries@[i].1.file_name@
                    }
                },
            },
    {
        let session = match &self.session {
            Some(s) => s,
            None => {
                return UploadCheck::Forbidden;
            },
        };
        if !session.id.same_as(session_id) {
            return UploadCheck::Forbidden;
        }
        let expected = Token::new(&session.id, file_id);
        if !token.same_as(&expected) {
            return UploadCheck::Forbidden;
        }
        match session.files.get(file_id) {
            Some(meta) => {
                proof {
                    let i = choose|i: int|
                        0 <= i < session.files.entries@.len() && session.files.entries@[i].0@
                            == file_id@ && session.files.entries@[i].1 == *meta;
                    assert(session.files.ids()[i] == file_id@);
                }
                UploadCheck::Accept { file_name: meta.file_name.clone() }
            },
            None => UploadCheck::NotFound,
        }
    }

    /// Record a successful upload of `file_id` whose body was `size` bytes:
    /// append to the received-files log, refresh the session, and end it
    /// once every declared file has been uploaded.
    pub fn upload_commit(&mut self, file_id: &FileId, size: u64, now: u64, stamp: &Timestamp)
        requires
            old(self).wf(),
            old(self).session matches Some(s) && s.files.contains_id(file_id@),
            stamp.wf(),
        ensures
            final(self).wf(),
            final(self).device == old(self).device,
            final(self).save_dir == old(self).save_dir,
            final(self).received_files@.len() == old(self).received_files@.len() + 1,
            forall|k: int|
                0 <= k < old(self).received_files@.len() ==> final(self).received_files@[k] == old(self).received_files@[k],
            old(self).session matches Some(s) ==> {
                let entry = final(self).received_files@.last();
                &&& exists|i: int|
                    0 <= i < s.files.entries@.len() && s.files.entries@[i].0@ == file_id@
                        && entry.file_name@ == s.files.entries@[i].1.file_name@
                &&& entry.size == size
                &&& entry.sender@ == s.sender_alias@
                &&& entry.time@ == stamp.spec_display()
            },
            old(self).session matches Some(s) ==> {
                let done = if crate::transfer::id_in(old(self).uploaded@, file_id@) {
                    old(self).uploaded@
                } else {
                    old(self).uploaded@.push(*file_id)
                };
                if done.len() == s.files.entries@.len() {
                    final(self).session is None && final(self).uploaded@.len() == 0
                } else {
                    final(self).session matches Some(s2) && s2 == (Session {
                        last_activity: now,
                        ..s
                    }) && final(self).uploaded@ == done
                }
            },
    {
        let (file_name, sender) = match &self.session {
            Some(s) => {
                let name = match s.files.get(file_id) {
                    Some(meta) => {
                        proof {
                            let i = choose|i: int|
                                0 <= i < s.files.entries@.len() && s.files.entries@[i].0@
                                    == file_id@ && s.files.entries@[i].1 == *meta;
                            assert(s.files.entries@[i].1.file_name@ == meta.file_name@);
                        }
                        meta.file_name.clone()
                    },
                    None => {
                        proof {
                            assert(false);
                        }
                        String::new()
                    },
                };
                (name, s.sender_alias.clone())
            },
            None => {
                proof {
                    assert(false);
                }
                (String::new(), String::new())
            },
        };
        self.received_files.push(
            ReceivedFile { file_name, size, sender, time: stamp.display() },
        );
        let mut already = false;
        let m = self.uploaded.len();
        for k in 0..m
            invariant
                m == self.uploaded@.len(),
                already == exists|t: int| 0 <= t < k && self.uploaded@[t]@ == file_id@,
        {
            if self.uploaded[k].same_as(file_id) {
                already = true;
            }
        }
        if !already {
            self.uploaded.push(file_id.clone());
        }
        let complete = match &self.session {
            Some(s) => self.uploaded.len() == s.files.len(),
            None => false,
        };
        if complete {
            self.session = None;
            self.uploaded = Vec::new();
            self.pending = None;
        } else {
            match &mut self.session {
                Some(s) => {
                    s.touch(now);
                },
                None => {},
            }
        }
    }

    /// Answer `POST /cancel`: tear the session down if the identifier
    /// matches the live one; answer 200 either way.
    pub fn cancel(&mut self, session_id: &SessionId)
        requires
            old(self).wf(),
        ensures
            final(self).wf(),
            final(self).device == old(self).device,
            final(self).save_dir == old(self).save_dir,
            final(self).received_files == old(self).received_files,
            old(self).session matches Some(s) && s.id@ == session_id@ ==> final(self).session
                is None,
            !(old(self).session matches Some(s) && s.id@ == session_id@) ==> *final(self) == *old(self),
    {
        let matches_live = match &self.session {
            Some(s) => s.id.same_as(session_id),
            None => false,
        };
        if matches_live {
            self.session = None;
            self.uploaded = Vec::new();
            self.pending = None;
        }
    }
}

/// Single-session exclusivity: while a session has seen activity within the
/// idle timeout, the server counts as occupied, so `prepare_upload` answers
/// any second request in that window with a conflict.
pub proof fn lemma_single_session_exclusivity(srv: LocalSendServer, now: u64)
    requires
        srv.session matches Some(s) && now <= s.last_activity + SESSION_IDLE_TIMEOUT_SECS,
    ensures
        srv.session_live(now),
{
}

/// Session idle collection: once more than the idle timeout has passed since
/// the last activity, the session no longer blocks, so a new prepare-upload
/// is not answered with a conflict.
pub proof fn lemma_session_idle_gc(srv: LocalSendServer, now: u64)
    requires
        srv.session matches Some(s) ==> now > s.last_activity + SESSION_IDLE_TIMEOUT_SECS,
    ensures
        !srv.session_live(now),
{
}

} // verus!
