//! A verified core for a LocalSend v2 peer-to-peer transfer node.
//!
//! The library holds the protocol engine: entity types and identifiers,
//! token derivation, the receive-side session state machine, the send-side
//! outcome mapping, discovery peer bookkeeping, and the framing of the
//! announcement packet. Transport (HTTP, UDP multicast) and the filesystem
//! live outside the library and hand it plain values.

pub mod builders;
pub mod client;
pub mod crypto;
pub mod discovery;
pub mod error;
pub mod file;
pub mod menu;
pub mod protocol;
pub mod receiver;
pub mod session;
pub mod text;
pub mod timefmt;
pub mod transfer;
pub mod validation;
pub mod wirejson;

pub use builders::DeviceInfoBuilder;
pub use client::{
    endpoint_url, matches_target, prepare_upload_outcome, register_outcome, upload_outcome,
    upload_plan, UploadStep,
};
pub use crypto::{
    generate_fingerprint, generate_tls_certificate, sha256_from_bytes, TlsCertificate,
};
pub use discovery::{MulticastDiscovery, PeerSet};
pub use error::{LocalSendError, LsResult};
pub use file::{
    build_file_metadata, build_file_metadata_from_bytes, generate_file_id, get_mime_type,
};
pub use protocol::{
    AnnouncementMessage, DeviceInfo, DeviceType, FileId, FileMap, FileMetadata, Port,
    PrepareUploadRequest, PrepareUploadResponse, Protocol, ReceivedFile, SessionId, Token,
    DEFAULT_HTTP_PORT, DEFAULT_MULTICAST_ADDRESS, DEFAULT_MULTICAST_PORT, PROTOCOL_VERSION,
};
pub use receiver::LocalSendServer;
pub use session::Session;
pub use transfer::TransferState;
pub use validation::{validate_device_info, validate_file_metadata, validate_protocol_version};
