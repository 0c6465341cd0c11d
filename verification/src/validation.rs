//! Schema checks on peers and files before any transfer starts.

use vstd::prelude::*;

use crate::error::LocalSendError;
use crate::protocol::{DeviceInfo, FileMetadata, PROTOCOL_VERSION};

verus! {

/// The major part of a `major.minor` version string: everything before the
/// first dot, or the whole string when there is none.
pub open spec fn major_of(v: Seq<char>) -> Seq<char>
    decreases v.len(),
{
    if v.len() == 0 {
        v
    } else if v[0] == '.' {
        Seq::empty()
    } else {
        seq![v[0]] + major_of(v.drop_first())
    }
}

proof fn lemma_major_of_prefix(v: Seq<char>, i: int)
    requires
        0 <= i <= v.len(),
        forall|k: int| 0 <= k < i ==> v[k] != '.',
        i < v.len() ==> v[i] == '.',
    ensures
        major_of(v) == v.subrange(0, i),
    decreases i,
{
    if i == 0 {
        assert(major_of(v) =~= v.subrange(0, 0));
    } else {
        lemma_major_of_prefix(v.drop_first(), i - 1);
        assert(major_of(v) =~= v.subrange(0, i));
    }
}

/// The characters Unicode calls white space; a name made only of these
/// renders as nothing.
pub open spec fn is_space_char(c: char) -> bool {
    c == ' ' || c == '\t' || c == '\n' || c == '\r' || c == '\u{000B}' || c == '\u{000C}' || c
        == '\u{0085}' || c == '\u{00A0}' || c == '\u{1680}' || ('\u{2000}' <= c && c <= '\u{200A}')
        || c == '\u{2028}' || c == '\u{2029}' || c == '\u{202F}' || c == '\u{205F}' || c
        == '\u{3000}'
}

/// Whether a string is empty or made only of white space.
pub open spec fn is_blank(s: Seq<char>) -> bool {
    forall|i: int| 0 <= i < s.len() ==> is_space_char(#[trigger] s[i])
}

/// Whether this character counts as white space.
fn space_char(c: char) -> (r: bool)
    ensures
        r == is_space_char(c),
{
    c == ' ' || c == '\t' || c == '\n' || c == '\r' || c == '\u{000B}' || c == '\u{000C}' || c
        == '\u{0085}' || c == '\u{00A0}' || c == '\u{1680}' || ('\u{2000}' <= c && c <= '\u{200A}')
        || c == '\u{2028}' || c == '\u{2029}' || c == '\u{202F}' || c == '\u{205F}' || c
        == '\u{3000}'
}

/// Whether the string trims down to nothing.
pub fn blank(s: &str) -> (r: bool)
    ensures
        r == is_blank(s@),
{
    let n = s.unicode_len();
    for i in 0..n
        invariant
            n == s@.len(),
            forall|k: int| 0 <= k < i ==> is_space_char(#[trigger] s@[k]),
    {
        if !space_char(s.get_char(i)) {
            return false;
        }
    }
    true
}

/// Accept a peer's protocol version exactly when its major part matches
/// this node's, whatever the minor says.
pub fn validate_protocol_version(version: &str) -> (r: Result<(), LocalSendError>)
    ensures
        r is Ok <==> major_of(version@) == major_of(PROTOCOL_VERSION@),
        r matches Err(e) ==> e matches LocalSendError::VersionMismatch { expected, actual }
            && expected@ == PROTOCOL_VERSION@ && actual@ == version@,
{
    proof {
        reveal_strlit("2.1");
        assert(PROTOCOL_VERSION@.len() == 3 && PROTOCOL_VERSION@[0] == '2' && PROTOCOL_VERSION@[1]
            == '.');
        lemma_major_of_prefix(PROTOCOL_VERSION@, 1);
        assert(major_of(PROTOCOL_VERSION@) =~= seq!['2']);
    }
    let n = version.unicode_len();
    let mut i: usize = 0;
    while i < n && version.get_char(i) != '.'
        invariant
            n == version@.len(),
            i <= n,
            forall|k: int| 0 <= k < i ==> version@[k] != '.',
        decreases n - i,
    {
        i = i + 1;
    }
    proof {
        lemma_major_of_prefix(version@, i as int);
    }
    let ok = i == 1 && version.get_char(0) == '2';
    proof {
        if ok {
            assert(major_of(version@) =~= seq!['2']);
        } else {
            assert(major_of(version@) != seq!['2']) by {
                if major_of(version@) == seq!['2'] {
                    assert(version@.subrange(0, i as int).len() == 1);
                    assert(version@.subrange(0, i as int)[0] == '2');
                    assert(version@[0] == '2');
                }
            }
        }
    }
    if ok {
        Ok(())
    } else {
        Err(
            LocalSendError::VersionMismatch {
                expected: String::from_str(PROTOCOL_VERSION),
                actual: version.to_owned(),
            },
        )
    }
}

/// Accept a device exactly when its alias and fingerprint are non-blank
/// and its protocol major version matches ours.
pub fn validate_device_info(device: &DeviceInfo) -> (r: Result<(), LocalSendError>)
    ensures
        r is Ok <==> !is_blank(device.alias@) && major_of(device.version@) == major_of(
            PROTOCOL_VERSION@,
        ) && !is_blank(device.fingerprint@),
        r matches Err(e) ==> (e is InvalidDevice || e is VersionMismatch),
        is_blank(device.alias@) ==> (r matches Err(e) && e is InvalidDevice),
        !is_blank(device.alias@) && major_of(device.version@) != major_of(PROTOCOL_VERSION@) ==> (
        r matches Err(e) && e is VersionMismatch),
{
    if blank(device.alias.as_str()) {
        return Err(
            LocalSendError::invalid_device(String::from_str("Device alias cannot be empty")),
        );
    }
    match validate_protocol_version(device.version.as_str()) {
        Err(e) => {
            return Err(e);
        },
        Ok(_) => {},
    }
    if blank(device.fingerprint.as_str()) {
        return Err(
            LocalSendError::invalid_device(String::from_str("Device fingerprint cannot be empty")),
        );
    }
    Ok(())
}

/// Accept file metadata exactly when its identifier and name are non-blank
/// and a zero size comes with an inline preview.
pub fn validate_file_metadata(metadata: &FileMetadata) -> (r: Result<(), LocalSendError>)
    ensures
        r is Ok <==> !is_blank(metadata.id@) && !is_blank(metadata.file_name@) && (metadata.size
            > 0 || metadata.preview is Some),
        r matches Err(e) ==> e is InvalidFile,
{
    if blank(metadata.id.as_str()) {
        return Err(LocalSendError::invalid_file(String::from_str("File ID cannot be empty")));
    }
    if blank(metadata.file_name.as_str()) {
        return Err(LocalSendError::invalid_file(String::from_str("File name cannot be empty")));
    }
    if metadata.size == 0 && metadata.preview.is_none() {
        return Err(
            LocalSendError::invalid_file(
                String::from_str("File size is 0 and no preview provided"),
            ),
        );
    }
    Ok(())
}

} // verus!
