//! Wire-level entity types of the LocalSend v2 protocol.

use vstd::prelude::*;

use crate::crypto::new_uuid_string;
use crate::error::LocalSendError;

verus! {

/// Protocol version this node speaks, as `major.minor`.
pub const PROTOCOL_VERSION: &'static str = "2.1";

/// Port both the HTTP API and the multicast group use by default.
pub const DEFAULT_HTTP_PORT: u16 = 53317;

/// UDP port of the discovery multicast group.
pub const DEFAULT_MULTICAST_PORT: u16 = 53317;

/// IPv4 address of the discovery multicast group.
pub const DEFAULT_MULTICAST_ADDRESS: &'static str = "224.0.0.167";

/// Transport scheme a peer serves its API over.
#[derive(Clone, Copy, Debug, PartialEq, Eq, Structural)]
pub enum Protocol {
    Http,
    Https,
}

impl Protocol {
    /// The scheme as it appears on the wire.
    pub fn as_str(&self) -> (r: &'static str)
        ensures
            self is Http ==> r@ == "http"@,
            self is Https ==> r@ == "https"@,
    {
        match self {
            Protocol::Http => "http",
            Protocol::Https => "https",
        }
    }

    /// Parse a scheme name; anything but `https` is read as plain HTTP.
    pub fn from_str_name(s: &str) -> (r: Protocol)
        ensures
            r is Https <==> s@ == "https"@,
    {
        if crate::text::str_eq(s, "https") {
            Protocol::Https
        } else {
            Protocol::Http
        }
    }
}

/// Category a device advertises itself as.
#[derive(Clone, Copy, Debug, PartialEq, Eq, Structural)]
pub enum DeviceType {
    Mobile,
    Desktop,
    Web,
    Headless,
    Server,
}

impl Default for DeviceType {
    /// A device that says nothing else counts as a desktop.
    fn default() -> (r: Self)
        ensures
            r is Desktop,
    {
        DeviceType::Desktop
    }
}

/// Identifier of one transfer session, minted by the receiver.
#[derive(Debug, PartialEq, Eq, Hash)]
pub struct SessionId(pub String);

impl Clone for SessionId {
    fn clone(&self) -> (r: Self)
        ensures
            r == *self,
    {
        SessionId(self.0.clone())
    }
}

impl View for SessionId {
    type V = Seq<char>;

    open spec fn view(&self) -> Seq<char> {
        self.0@
    }
}

impl SessionId {
    /// Mint a fresh random identifier.
    pub fn new() -> (r: Self)
        ensures
            r@.len() == 36,
    {
        SessionId(new_uuid_string())
    }

    /// Wrap an identifier received over the wire.
    pub fn from_string(s: String) -> (r: Self)
        ensures
            r@ == s@,
    {
        SessionId(s)
    }

    /// The identifier as text.
    pub fn as_str(&self) -> (r: &str)
        ensures
            r@ == self@,
    {
        self.0.as_str()
    }

    /// An empty identifier marks a transfer that needed no upload step.
    pub fn is_empty(&self) -> (r: bool)
        ensures
            r == (self@.len() == 0),
    {
        self.0.as_str().unicode_len() == 0
    }

    /// Whether two identifiers are the same string.
    pub fn same_as(&self, other: &SessionId) -> (r: bool)
        ensures
            r == (self@ == other@),
    {
        self.0 == other.0
    }
}

/// Clone an optional string, keeping its value.
fn clone_opt_string(o: &Option<String>) -> (r: Option<String>)
    ensures
        r == *o,
{
    match o {
        Some(s) => Some(s.clone()),
        None => None,
    }
}

/// Identifier of one file within a transfer.
#[derive(Debug, PartialEq, Eq, Hash)]
pub struct FileId(pub String);

impl Clone for FileId {
    fn clone(&self) -> (r: Self)
        ensures
            r == *self,
    {
        FileId(self.0.clone())
    }
}

impl View for FileId {
    type V = Seq<char>;

    open spec fn view(&self) -> Seq<char> {
        self.0@
    }
}

impl FileId {
    /// Mint a fresh random identifier.
    pub fn new() -> (r: Self)
        ensures
            r@.len() == 36,
    {
        FileId(new_uuid_string())
    }

    /// Wrap an identifier received over the wire.
    pub fn from_string(s: String) -> (r: Self)
        ensures
            r@ == s@,
    {
        FileId(s)
    }

    /// The identifier as text.
    pub fn as_str(&self) -> (r: &str)
        ensures
            r@ == self@,
    {
        self.0.as_str()
    }

    /// Whether two identifiers are the same string.
    pub fn same_as(&self, other: &FileId) -> (r: bool)
        ensures
            r == (self@ == other@),
    {
        self.0 == other.0
    }
}

/// The string that authorizes the upload of file `fid` in session `sid`:
/// the session identifier, an underscore, the file identifier.
pub open spec fn spec_token(sid: Seq<char>, fid: Seq<char>) -> Seq<char> {
    sid + seq!['_'] + fid
}

/// Authorization for the upload of one file in one session.
#[derive(Debug, PartialEq, Eq)]
pub struct Token(pub String);

impl Clone for Token {
    fn clone(&self) -> (r: Self)
        ensures
            r == *self,
    {
        Token(self.0.clone())
    }
}

impl View for Token {
    type V = Seq<char>;

    open spec fn view(&self) -> Seq<char> {
        self.0@
    }
}

impl Token {
    /// Derive the token that authorizes `file_id` within `session_id`.
    pub fn new(session_id: &SessionId, file_id: &FileId) -> (r: Self)
        ensures
            r@ == spec_token(session_id@, file_id@),
    {
        proof {
            reveal_strlit("_");
        }
        let mut s = session_id.0.clone();
        s.append("_");
        s.append(file_id.0.as_str());
        proof {
            assert(s@ =~= spec_token(session_id@, file_id@));
        }
        Token(s)
    }

    /// Wrap a token received over the wire.
    pub fn from_string(s: String) -> (r: Self)
        ensures
            r@ == s@,
    {
        Token(s)
    }

    /// The token as text.
    pub fn as_str(&self) -> (r: &str)
        ensures
            r@ == self@,
    {
        self.0.as_str()
    }

    /// Whether two tokens are the same string.
    pub fn same_as(&self, other: &Token) -> (r: bool)
        ensures
            r == (self@ == other@),
    {
        self.0 == other.0
    }
}

/// A TCP/UDP port number, known to be non-zero.
#[derive(Clone, Copy, Debug, PartialEq, Eq, Structural)]
pub struct Port(pub u16);

impl Port {
    /// Accept any port but zero.
    pub fn new(port: u16) -> (r: Result<Self, LocalSendError>)
        ensures
            port == 0 <==> r is Err,
            r matches Ok(p) ==> p.0 == port,
    {
        if port == 0 {
            Err(LocalSendError::InvalidPort { message: String::from_str("Port cannot be 0") })
        } else {
            Ok(Port(port))
        }
    }

    /// Wrap a port the caller vouches for.
    pub fn new_unchecked(port: u16) -> (r: Self)
        ensures
            r.0 == port,
    {
        Port(port)
    }

    /// The raw number.
    pub fn get(&self) -> (r: u16)
        ensures
            r == self.0,
    {
        self.0
    }
}

impl Default for Port {
    /// The protocol's fixed default port.
    fn default() -> (r: Self)
        ensures
            r.0 == DEFAULT_HTTP_PORT,
    {
        Port(DEFAULT_HTTP_PORT)
    }
}

/// A peer's advertised identity.
#[derive(Debug, PartialEq)]
pub struct DeviceInfo {
    pub alias: String,
    pub version: String,
    pub device_model: Option<String>,
    pub device_type: Option<DeviceType>,
    /// Stable identity: two peers are the same device iff these match.
    pub fingerprint: String,
    pub port: u16,
    pub protocol: Protocol,
    /// Whether the peer offers the reverse-pull API; always false here.
    pub download: bool,
    /// Observed source address; set by whoever received the announcement,
    /// never serialized by the originator.
    pub ip: Option<String>,
}

impl Clone for DeviceInfo {
    fn clone(&self) -> (r: Self)
        ensures
            r == *self,
    {
        DeviceInfo {
            alias: self.alias.clone(),
            version: self.version.clone(),
            device_model: clone_opt_string(&self.device_model),
            device_type: self.device_type,
            fingerprint: self.fingerprint.clone(),
            port: self.port,
            protocol: self.protocol,
            download: self.download,
            ip: clone_opt_string(&self.ip),
        }
    }
}

impl DeviceInfo {
    /// A bare identity with the current protocol version and no fingerprint.
    pub fn new(alias: String, port: u16, protocol: Protocol) -> (r: Self)
        ensures
            r.alias == alias,
            r.version@ == PROTOCOL_VERSION@,
            r.device_model is None,
            r.device_type is None,
            r.fingerprint@.len() == 0,
            r.port == port,
            r.protocol == protocol,
            !r.download,
            r.ip is None,
    {
        DeviceInfo {
            alias,
            version: String::from_str(PROTOCOL_VERSION),
            device_model: None,
            device_type: None,
            fingerprint: String::new(),
            port,
            protocol,
            download: false,
            ip: None,
        }
    }

    /// The identity carried by a discovery packet, annotated with the
    /// datagram's source address.
    pub fn from_announcement(announcement: AnnouncementMessage, source_ip: Option<String>) -> (r: Self)
        ensures
            r.alias == announcement.alias,
            r.version == announcement.version,
            r.device_model == announcement.device_model,
            r.device_type == announcement.device_type,
            r.fingerprint == announcement.fingerprint,
            r.port == announcement.port,
            r.protocol == announcement.protocol,
            r.download == announcement.download,
            r.ip == source_ip,
    {
        DeviceInfo {
            alias: announcement.alias,
            version: announcement.version,
            device_model: announcement.device_model,
            device_type: announcement.device_type,
            fingerprint: announcement.fingerprint,
            port: announcement.port,
            protocol: announcement.protocol,
            download: announcement.download,
            ip: source_ip,
        }
    }
}

/// Optional file timestamps carried alongside the metadata.
#[derive(Debug, PartialEq)]
pub struct FileMetadataDetails {
    pub modified: Option<String>,
    pub accessed: Option<String>,
}

impl Clone for FileMetadataDetails {
    fn clone(&self) -> (r: Self)
        ensures
            r == *self,
    {
        FileMetadataDetails {
            modified: clone_opt_string(&self.modified),
            accessed: clone_opt_string(&self.accessed),
        }
    }
}

/// What the sender declares about one file.
#[derive(Debug, PartialEq)]
pub struct FileMetadata {
    pub id: FileId,
    pub file_name: String,
    pub size: u64,
    pub file_type: String,
    pub sha256: Option<String>,
    /// Inline body for short texts; its presence with a small size marks
    /// the item as a text message.
    pub preview: Option<String>,
    pub metadata: Option<FileMetadataDetails>,
}

impl Clone for FileMetadata {
    fn clone(&self) -> (r: Self)
        ensures
            r == *self,
    {
        FileMetadata {
            id: self.id.clone(),
            file_name: self.file_name.clone(),
            size: self.size,
            file_type: self.file_type.clone(),
            sha256: clone_opt_string(&self.sha256),
            preview: clone_opt_string(&self.preview),
            metadata: match &self.metadata {
                Some(d) => Some(d.clone()),
                None => None,
            },
        }
    }
}

impl FileMetadata {
    /// A file that travels as an inline text message: it has a preview
    /// and declares less than one mebibyte.
    pub open spec fn spec_is_text_message(&self) -> bool {
        self.preview is Some && self.size < 1048576
    }

    /// Whether this entry is a text message rather than a binary upload.
    pub fn is_text_message(&self) -> (r: bool)
        ensures
            r == self.spec_is_text_message(),
    {
        self.preview.is_some() && self.size < 1048576
    }
}

/// The files of a request, keyed by file identifier.
///
/// Keys are unique; order of insertion is kept.
#[derive(Debug, PartialEq)]
pub struct FileMap {
    pub entries: Vec<(FileId, FileMetadata)>,
}

impl Clone for FileMap {
    fn clone(&self) -> (r: Self)
        ensures
            r.entries@ == self.entries@,
    {
        let n = self.entries.len();
        let mut entries: Vec<(FileId, FileMetadata)> = Vec::new();
        for i in 0..n
            invariant
                n == self.entries@.len(),
                entries@.len() == i,
                forall|k: int| 0 <= k < i ==> entries@[k] == self.entries@[k],
        {
            let e = &self.entries[i];
            entries.push((e.0.clone(), e.1.clone()));
        }
        proof {
            assert(entries@ =~= self.entries@);
        }
        FileMap { entries }
    }
}

impl FileMap {
    /// The keys, in insertion order.
    pub open spec fn ids(&self) -> Seq<Seq<char>> {
        self.entries@.map_values(|e: (FileId, FileMetadata)| e.0@)
    }

    /// Keys are pairwise distinct.
    pub open spec fn wf(&self) -> bool {
        forall|i: int, j: int|
            0 <= i < j < self.entries@.len() ==> self.ids()[i] != self.ids()[j]
    }

    /// Whether some entry is keyed by `id`.
    pub open spec fn contains_id(&self, id: Seq<char>) -> bool {
        exists|i: int| 0 <= i < self.entries@.len() && self.ids()[i] == id
    }

    /// An empty map.
    pub fn new() -> (r: Self)
        ensures
            r.entries@.len() == 0,
            r.wf(),
    {
        FileMap { entries: Vec::new() }
    }

    /// How many files are declared.
    pub fn len(&self) -> (r: usize)
        ensures
            r == self.entries@.len(),
    {
        self.entries.len()
    }

    /// Whether no file is declared.
    pub fn is_empty(&self) -> (r: bool)
        ensures
            r == (self.entries@.len() == 0),
    {
        self.entries.len() == 0
    }

    /// Where `id` sits in the entry list, if anywhere.
    pub fn index_of(&self, id: &FileId) -> (r: Option<usize>)
        ensures
            match r {
                Some(i) => i < self.entries@.len() && self.entries@[i as int].0@ == id@,
                None => !self.contains_id(id@),
            },
    {
        let n = self.entries.len();
        for i in 0..n
            invariant
                n == self.entries@.len(),
                forall|k: int| 0 <= k < i ==> self.ids()[k] != id@,
        {
            if self.entries[i].0.same_as(id) {
                return Some(i);
            }
        }
        None
    }

    /// Look a file up by its identifier.
    pub fn get(&self, id: &FileId) -> (r: Option<&FileMetadata>)
        ensures
            match r {
                Some(m) => exists|i: int|
                    0 <= i < self.entries@.len() && self.entries@[i].0@ == id@
                        && self.entries@[i].1 == *m,
                None => !self.contains_id(id@),
            },
    {
        match self.index_of(id) {
            Some(i) => Some(&self.entries[i].1),
            None => None,
        }
    }

    /// Insert or replace the entry keyed by `id`.
    pub fn insert(&mut self, id: FileId, meta: FileMetadata)
        requires
            old(self).wf(),
        ensures
            final(self).wf(),
            final(self).contains_id(id@),
            forall|x: Seq<char>|
                final(self).contains_id(x) <==> old(self).contains_id(x) || x == id@,
            old(self).contains_id(id@) ==> final(self).entries@.len() == old(self).entries@.len(),
            !old(self).contains_id(id@) ==> final(self).entries@ == old(self).entries@.push(
                (id, meta),
            ),
    {
        let ghost pre = *self;
        match self.index_of(&id) {
            Some(i) => {
                self.entries[i] = (id, meta);
                proof {
                    assert(pre.ids()[i as int] == id@);
                    assert(self.ids() =~= pre.ids());
                }
            },
            None => {
                self.entries.push((id, meta));
                proof {
                    assert(self.ids() =~= pre.ids().push(id@));
                    assert(self.contains_id(id@)) by {
                        assert(self.ids()[self.ids().len() - 1] == id@);
                    }
                    assert forall|x: Seq<char>| pre.contains_id(x) implies self.contains_id(x) by {
                        let k = choose|k: int| 0 <= k < pre.ids().len() && pre.ids()[k] == x;
                        assert(self.ids()[k] == x);
                    }
                }
            },
        }
    }
}

/// One multicast discovery packet: an identity plus the announcement flags.
///
/// `announce` and the legacy `announcement` carry the same meaning; a packet
/// with either set asks peers to respond, one with both unset is a response.
#[derive(Clone, Debug, PartialEq)]
pub struct AnnouncementMessage {
    pub alias: String,
    pub version: String,
    pub device_model: Option<String>,
    pub device_type: Option<DeviceType>,
    pub fingerprint: String,
    pub port: u16,
    pub protocol: Protocol,
    pub download: bool,
    pub announce: bool,
    pub announcement: Option<bool>,
}

impl AnnouncementMessage {
    /// A packet is an announcement when either flag is set.
    pub open spec fn spec_is_announcement(&self) -> bool {
        self.announce || self.announcement == Some(true)
    }

    /// Whether this packet asks peers to respond.
    pub fn is_announcement(&self) -> (r: bool)
        ensures
            r == self.spec_is_announcement(),
    {
        self.announce || matches!(self.announcement, Some(true))
    }

    /// The packet a device sends about itself, with both announcement
    /// flags set to the same value for peer compatibility.
    pub fn for_device(device: &DeviceInfo, announce: bool) -> (r: Self)
        ensures
            r.alias == device.alias,
            r.version == device.version,
            r.device_model == device.device_model,
            r.device_type == device.device_type,
            r.fingerprint == device.fingerprint,
            r.port == device.port,
            r.protocol == device.protocol,
            r.download == device.download,
            r.announce == announce,
            r.announcement == Some(announce),
            r.spec_is_announcement() == announce,
    {
        AnnouncementMessage {
            alias: device.alias.clone(),
            version: device.version.clone(),
            device_model: clone_opt_string(&device.device_model),
            device_type: device.device_type,
            fingerprint: device.fingerprint.clone(),
            port: device.port,
            protocol: device.protocol,
            download: device.download,
            announce,
            announcement: Some(announce),
        }
    }
}

/// Body of a prepare-upload request.
#[derive(Clone, Debug, PartialEq)]
pub struct PrepareUploadRequest {
    pub info: DeviceInfo,
    pub files: FileMap,
}

/// Body of a successful prepare-upload reply: the minted session and one
/// token per declared file.
#[derive(Clone, Debug, PartialEq)]
pub struct PrepareUploadResponse {
    pub session_id: SessionId,
    pub files: Vec<(FileId, Token)>,
}

/// One line of the received-files log.
#[derive(Clone, Debug, PartialEq)]
pub struct ReceivedFile {
    pub file_name: String,
    pub size: u64,
    pub sender: String,
    pub time: String,
}

} // verus!
