//! The server-side record of one accepted transfer.

use vstd::prelude::*;

use crate::protocol::{spec_token, FileId, FileMap, SessionId, Token};

verus! {

/// An active file transfer session.
///
/// Times are a monotonic clock reading in whole seconds, supplied by the
/// caller; the library never reads a clock itself.
#[derive(Clone, Debug)]
pub struct Session {
    pub id: SessionId,
    /// The declared files, keyed by file identifier.
    pub files: FileMap,
    /// One upload token per declared file, in the same order.
    pub tokens: Vec<(FileId, Token)>,
    pub sender_alias: String,
    pub created_at: u64,
    pub last_activity: u64,
}

impl Session {
    /// Every token authorizes exactly its file: entry `i` of `tokens` is
    /// keyed like entry `i` of `files` and holds `"{sessionId}_{fileId}"`.
    pub open spec fn wf(&self) -> bool {
        &&& self.files.wf()
        &&& self.tokens@.len() == self.files.entries@.len()
        &&& forall|i: int|
            0 <= i < self.tokens@.len() ==> #[trigger] self.tokens@[i].0@
                == self.files.entries@[i].0@ && self.tokens@[i].1@ == spec_token(
                self.id@,
                self.files.entries@[i].0@,
            )
    }

    /// Open a session over the given files: mint a fresh identifier and
    /// derive one token per file.
    pub fn new(sender_alias: String, files: FileMap, now: u64) -> (r: Self)
        requires
            files.wf(),
        ensures
            r.wf(),
            r.files == files,
            r.sender_alias == sender_alias,
            r.created_at == now,
            r.last_activity == now,
            r.id@.len() == 36,
    {
        let id = SessionId::new();
        let n = files.len();
        let mut tokens: Vec<(FileId, Token)> = Vec::new();
        let mut i: usize = 0;
        while i < n
            invariant
                n == files.entries@.len(),
                tokens@.len() == i,
                i <= n,
                forall|k: int|
                    0 <= k < i ==> #[trigger] tokens@[k].0@ == files.entries@[k].0@
                        && tokens@[k].1@ == spec_token(id@, files.entries@[k].0@),
            decreases n - i,
        {
            let fid = &files.entries[i].0;
            let token = Token::new(&id, fid);
            tokens.push((fid.clone(), token));
            i = i + 1;
        }
        Session { id, files, tokens, sender_alias, created_at: now, last_activity: now }
    }

    /// Record activity at clock reading `now`.
    pub fn touch(&mut self, now: u64)
        ensures
            *final(self) == (Session { last_activity: now, ..*old(self) }),
    {
        self.last_activity = now;
    }

    /// Whether more than `timeout_secs` have passed since the last activity.
    pub fn is_timed_out(&self, timeout_secs: u64, now: u64) -> (r: bool)
        ensures
            r == (now > self.last_activity + timeout_secs),
    {
        now > self.last_activity && now - self.last_activity > timeout_secs
    }

    /// Whether `token` authorizes the upload of `file_id` in this session:
    /// exactly when the file is declared and the token is the derived one.
    pub fn verify_token(&self, file_id: &FileId, token: &Token) -> (r: bool)
        requires
            self.wf(),
        ensures
            r == (self.files.contains_id(file_id@) && token@ == spec_token(self.id@, file_id@)),
    {
        let n = self.tokens.len();
        for i in 0..n
            invariant
                self.wf(),
                n == self.tokens@.len(),
                forall|k: int| 0 <= k < i ==> self.files.ids()[k] != file_id@,
        {
            if self.tokens[i].0.same_as(file_id) {
                proof {
                    assert(self.files.ids()[i as int] == file_id@);
                }
                return token.same_as(&self.tokens[i].1);
            }
        }
        proof {
            assert(!self.files.contains_id(file_id@));
        }
        false
    }

    /// The derived token for `file_id`, if the session declares that file.
    pub fn get_token(&self, file_id: &FileId) -> (r: Option<&Token>)
        requires
            self.wf(),
        ensures
            match r {
                Some(t) => self.files.contains_id(file_id@) && t@ == spec_token(
                    self.id@,
                    file_id@,
                ),
                None => !self.files.contains_id(file_id@),
            },
    {
        let n = self.tokens.len();
        for i in 0..n
            invariant
                self.wf(),
                n == self.tokens@.len(),
                forall|k: int| 0 <= k < i ==> self.files.ids()[k] != file_id@,
        {
            if self.tokens[i].0.same_as(file_id) {
                proof {
                    assert(self.files.ids()[i as int] == file_id@);
                }
                return Some(&self.tokens[i].1);
            }
        }
        proof {
            assert(!self.files.contains_id(file_id@));
        }
        None
    }

    /// Token well-formedness: in any consistent session, the token stored
    /// for a declared file is exactly `"{sessionId}_{fileId}"`.
    pub proof fn lemma_token_wellformed(&self, i: int)
        requires
            self.wf(),
            0 <= i < self.tokens@.len(),
        ensures
            self.tokens@[i].0@ == self.files.entries@[i].0@,
            self.tokens@[i].1@ == spec_token(self.id@, self.files.entries@[i].0@),
    {
        assert(self.tokens@[i].0@ == self.files.entries@[i].0@);
    }

    /// Whether `uploaded_files` accounts for every declared file: the counts
    /// match and each listed identifier is declared.
    pub fn is_complete(&self, uploaded_files: &[FileId]) -> (r: bool)
        ensures
            r == (self.files.entries@.len() == uploaded_files@.len() && forall|i: int|
                0 <= i < uploaded_files@.len() ==> self.files.contains_id(
                    #[trigger] uploaded_files@[i]@,
                )),
    {
        if self.files.len() != uploaded_files.len() {
            return false;
        }
        let n = uploaded_files.len();
        for i in 0..n
            invariant
                n == uploaded_files@.len(),
                forall|k: int| 0 <= k < i ==> self.files.contains_id(#[trigger] uploaded_files@[k]@),
        {
            match self.files.index_of(&uploaded_files[i]) {
                None => {
                    return false;
                },
                Some(j) => {
                    proof {
                        assert(self.files.ids()[j as int] == uploaded_files@[i as int]@);
                    }
                },
            }
        }
        true
    }
}

} // verus!
