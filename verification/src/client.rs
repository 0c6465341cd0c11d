//! The send-side engine: endpoint addresses and the reading of each reply.
//!
//! Each client operation is one HTTP round trip made by the transport; the
//! functions here build what goes out and decide what every status code
//! means, exactly as the protocol assigns them.

use vstd::prelude::*;

use crate::error::LocalSendError;
use crate::protocol::{
    DeviceInfo, FileId, FileMap, FileMetadata, PrepareUploadResponse, Protocol, SessionId, Token,
};
use crate::text::spec_dec;

verus! {

/// Whether a status code counts as success.
pub open spec fn spec_is_success(status: u16) -> bool {
    200 <= status < 300
}

/// The address of one API endpoint:
/// `{scheme}://{host}:{port}/api/localsend/v2/{endpoint}`.
pub open spec fn spec_endpoint_url(
    protocol: Protocol,
    host: Seq<char>,
    port: u16,
    endpoint: Seq<char>,
) -> Seq<char> {
    (if protocol is Https {
        "https"@
    } else {
        "http"@
    }) + "://"@ + host + ":"@ + spec_dec(port as int) + "/api/localsend/v2/"@ + endpoint
}

/// Build the address of one API endpoint on a peer.
pub fn endpoint_url(protocol: Protocol, host: &str, port: u16, endpoint: &str) -> (r: String)
    ensures
        r@ == spec_endpoint_url(protocol, host@, port, endpoint@),
{
    proof {
        reveal_strlit("http");
        reveal_strlit("https");
        reveal_strlit("://");
        reveal_strlit(":");
        reveal_strlit("/api/localsend/v2/");
    }
    let mut out = String::from_str(protocol.as_str());
    out.append("://");
    out.append(host);
    out.append(":");
    crate::text::push_u16_dec(&mut out, port);
    out.append("/api/localsend/v2/");
    out.append(endpoint);
    proof {
        assert(out@ =~= spec_endpoint_url(protocol, host@, port, endpoint@));
    }
    out
}

/// Read a `POST /register` reply: any success carries the peer's identity
/// back (or, if its body did not parse, the target we already knew — the
/// peer still received ours); 401 and 403 are a refusal; anything else is
/// a plain HTTP failure.
pub fn register_outcome(status: u16, parsed: Option<DeviceInfo>, target: &DeviceInfo) -> (r:
    Result<DeviceInfo, LocalSendError>)
    ensures
        spec_is_success(status) ==> match parsed {
            Some(d) => r == Ok::<DeviceInfo, LocalSendError>(d),
            None => r == Ok::<DeviceInfo, LocalSendError>(*target),
        },
        !spec_is_success(status) && (status == 401 || status == 403) ==> r == Err::<
            DeviceInfo,
            LocalSendError,
        >(LocalSendError::Rejected { status }),
        !spec_is_success(status) && status != 401 && status != 403 ==> (r matches Err(e)
            && e matches LocalSendError::HttpFailed { status: s, .. } && s == status),
{
    if 200 <= status && status < 300 {
        match parsed {
            Some(d) => Ok(d),
            None => Ok(target.clone()),
        }
    } else if status == 401 || status == 403 {
        Err(LocalSendError::Rejected { status })
    } else {
        Err(LocalSendError::http_failed(status, String::new()))
    }
}

/// Read a `POST /prepare-upload` reply. 200 carries the session and its
/// tokens; 204 means nothing is left to upload (a text message was taken),
/// rendered as an empty session; the named error codes map to their error
/// kinds; any other code is a plain HTTP failure.
pub fn prepare_upload_outcome(status: u16, parsed: Option<PrepareUploadResponse>) -> (r: Result<
    PrepareUploadResponse,
    LocalSendError,
>)
    ensures
        status == 200 ==> match parsed {
            Some(resp) => r == Ok::<PrepareUploadResponse, LocalSendError>(resp),
            None => r matches Err(e) && e is Network,
        },
        status == 204 ==> (r matches Ok(resp) && resp.session_id@.len() == 0 && resp.files@.len()
            == 0),
        status == 401 ==> r == Err::<PrepareUploadResponse, LocalSendError>(
            LocalSendError::InvalidPin,
        ),
        status == 403 ==> r == Err::<PrepareUploadResponse, LocalSendError>(
            LocalSendError::Rejected { status: 403 },
        ),
        status == 409 ==> r == Err::<PrepareUploadResponse, LocalSendError>(
            LocalSendError::SessionBlocked,
        ),
        status == 429 ==> r == Err::<PrepareUploadResponse, LocalSendError>(
            LocalSendError::RateLimited,
        ),
        status == 500 ==> (r matches Err(e) && e is Network),
        status != 200 && status != 204 && status != 401 && status != 403 && status != 409 && status
            != 429 && status != 500 ==> (r matches Err(e)
            && e matches LocalSendError::HttpFailed { status: s, .. } && s == status),
{
    if status == 200 {
        match parsed {
            Some(resp) => Ok(resp),
            None => Err(
                LocalSendError::network(String::from_str("Invalid prepare-upload response body")),
            ),
        }
    } else if status == 204 {
        Ok(PrepareUploadResponse { session_id: SessionId(String::new()), files: Vec::new() })
    } else if status == 401 {
        Err(LocalSendError::InvalidPin)
    } else if status == 403 {
        Err(LocalSendError::Rejected { status: 403 })
    } else if status == 409 {
        Err(LocalSendError::SessionBlocked)
    } else if status == 429 {
        Err(LocalSendError::RateLimited)
    } else if status == 500 {
        Err(LocalSendError::network(String::from_str("Server error")))
    } else {
        Err(LocalSendError::http_failed(status, String::new()))
    }
}

/// Read a `POST /upload` reply: 200 and 204 are success, anything else a
/// plain HTTP failure.
pub fn upload_outcome(status: u16) -> (r: Result<(), LocalSendError>)
    ensures
        (status == 200 || status == 204) <==> r is Ok,
        r matches Err(e) ==> e matches LocalSendError::HttpFailed { status: s, .. } && s == status,
{
    if status == 200 || status == 204 {
        Ok(())
    } else {
        Err(LocalSendError::http_failed(status, String::new()))
    }
}

/// Whether a discovered peer answers to the name or address a user asked
/// for: its alias matches, or its observed address does.
pub fn matches_target(device: &DeviceInfo, query: &str) -> (r: bool)
    ensures
        r == (device.alias@ == query@ || (device.ip matches Some(ip) && ip@ == query@)),
{
    if crate::text::str_eq(device.alias.as_str(), query) {
        return true;
    }
    match &device.ip {
        Some(ip) => crate::text::str_eq(ip.as_str(), query),
        None => false,
    }
}

/// The identity a direct probe of `ip` yields: what the peer reported,
/// annotated with the address and the scheme the probe used.
pub fn annotate_probed(device: DeviceInfo, ip: String, protocol: Protocol) -> (r: DeviceInfo)
    ensures
        r == (DeviceInfo { ip: Some(ip), protocol, ..device }),
{
    DeviceInfo { ip: Some(ip), protocol, ..device }
}

/// One body the sender still has to post: which file, under which token.
#[derive(Clone, Debug)]
pub struct UploadStep {
    pub file_id: FileId,
    pub token: Token,
    pub file: FileMetadata,
}

/// Pair the receiver's token map back with the declared files: one step per
/// response entry, in response order, each carrying the metadata declared
/// under that identifier. Fails when the response names a file that was
/// never declared.
pub fn upload_plan(files: &FileMap, response: &PrepareUploadResponse) -> (r: Result<
    Vec<UploadStep>,
    LocalSendError,
>)
    ensures
        r is Ok <==> (forall|i: int|
            0 <= i < response.files@.len() ==> files.contains_id(
                #[trigger] response.files@[i].0@,
            )),
        r matches Ok(steps) ==> steps@.len() == response.files@.len() && (forall|i: int|
            0 <= i < steps@.len() ==> (#[trigger] steps@[i]).file_id@ == response.files@[i].0@
                && steps@[i].token@ == response.files@[i].1@ && exists|j: int|
                0 <= j < files.entries@.len() && files.entries@[j].0@ == response.files@[i].0@
                    && steps@[i].file == files.entries@[j].1),
        r matches Err(e) ==> e is FileNotFound,
{
    let n = response.files.len();
    let mut steps: Vec<UploadStep> = Vec::new();
    for i in 0..n
        invariant
            n == response.files@.len(),
            steps@.len() == i,
            forall|k: int|
                0 <= k < i ==> (#[trigger] steps@[k]).file_id@ == response.files@[k].0@
                    && steps@[k].token@ == response.files@[k].1@ && exists|j: int|
                    0 <= j < files.entries@.len() && files.entries@[j].0@ == response.files@[k].0@
                        && steps@[k].file == files.entries@[j].1,
            forall|k: int| 0 <= k < i ==> files.contains_id(#[trigger] response.files@[k].0@),
    {
        let pair = &response.files[i];
        match files.get(&pair.0) {
            Some(meta) => {
                proof {
                    let j = choose|j: int|
                        0 <= j < files.entries@.len() && files.entries@[j].0@ == pair.0@
                            && files.entries@[j].1 == *meta;
                    assert(files.ids()[j] == pair.0@);
                }
                steps.push(
                    UploadStep { file_id: pair.0.clone(), token: pair.1.clone(), file: meta.clone() },
                );
            },
            None => {
                return Err(
                    LocalSendError::FileNotFound {
                        file_id: pair.0.as_str().to_owned(),
                        session_id: response.session_id.as_str().to_owned(),
                    },
                );
            },
        }
    }
    Ok(steps)
}

} // verus!
