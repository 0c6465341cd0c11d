//! Device identity: random fingerprints, certificate digests, TLS bootstrap.

use vstd::prelude::*;

use sha2::Digest;

use crate::error::LocalSendError;

verus! {

/// The SHA-256 digest of a byte string, as the `sha2` crate computes it.
pub uninterp spec fn sha256_of(data: Seq<u8>) -> Seq<u8>;

/// Relies on `sha2::Sha256::digest`: the digest is a function of the input
/// bytes alone and is always 32 bytes long.
#[verifier::external_body]
fn sha256_digest(data: &[u8]) -> (r: Vec<u8>)
    ensures
        r@ == sha256_of(data@),
        r@.len() == 32,
{
    sha2::Sha256::digest(data).to_vec()
}

/// The lower-case hex digit for a value below sixteen.
pub open spec fn hex_digit(n: int) -> char {
    if n == 0 {
        '0'
    } else if n == 1 {
        '1'
    } else if n == 2 {
        '2'
    } else if n == 3 {
        '3'
    } else if n == 4 {
        '4'
    } else if n == 5 {
        '5'
    } else if n == 6 {
        '6'
    } else if n == 7 {
        '7'
    } else if n == 8 {
        '8'
    } else if n == 9 {
        '9'
    } else if n == 10 {
        'a'
    } else if n == 11 {
        'b'
    } else if n == 12 {
        'c'
    } else if n == 13 {
        'd'
    } else if n == 14 {
        'e'
    } else {
        'f'
    }
}

/// The lower-case hex encoding of a byte string: two digits per byte,
/// high nibble first.
pub open spec fn hex_of(data: Seq<u8>) -> Seq<char> {
    Seq::new(
        data.len() * 2,
        |i: int|
            if i % 2 == 0 {
                hex_digit(data[i / 2] as int / 16)
            } else {
                hex_digit(data[i / 2] as int % 16)
            },
    )
}

/// One lower-case hex digit as text.
pub(crate) fn hex_char(n: u8) -> (r: &'static str)
    requires
        n < 16,
    ensures
        r@ =~= seq![hex_digit(n as int)],
{
    proof {
        reveal_strlit("0");
        reveal_strlit("1");
        reveal_strlit("2");
        reveal_strlit("3");
        reveal_strlit("4");
        reveal_strlit("5");
        reveal_strlit("6");
        reveal_strlit("7");
        reveal_strlit("8");
        reveal_strlit("9");
        reveal_strlit("a");
        reveal_strlit("b");
        reveal_strlit("c");
        reveal_strlit("d");
        reveal_strlit("e");
        reveal_strlit("f");
    }
    match n {
        0 => "0",
        1 => "1",
        2 => "2",
        3 => "3",
        4 => "4",
        5 => "5",
        6 => "6",
        7 => "7",
        8 => "8",
        9 => "9",
        10 => "a",
        11 => "b",
        12 => "c",
        13 => "d",
        14 => "e",
        _ => "f",
    }
}

/// Encode bytes as lower-case hex.
pub fn to_hex_lower(data: &[u8]) -> (r: String)
    ensures
        r@ == hex_of(data@),
{
    let n = data.len();
    let mut out = String::new();
    for i in 0..n
        invariant
            n == data@.len(),
            out@ =~= hex_of(data@).subrange(0, 2 * i as int),
    {
        let b = data[i];
        out.append(hex_char(b / 16));
        out.append(hex_char(b % 16));
        proof {
            assert(out@ =~= hex_of(data@).subrange(0, 2 * (i + 1) as int));
        }
    }
    proof {
        assert(out@ =~= hex_of(data@));
    }
    out
}

/// The lower-case hex SHA-256 digest of a byte string; for an HTTPS node
/// this of its certificate DER is the device fingerprint.
pub fn sha256_from_bytes(data: &[u8]) -> (r: String)
    ensures
        r@ == hex_of(sha256_of(data@)),
{
    let digest = sha256_digest(data);
    to_hex_lower(digest.as_slice())
}

/// Relies on `uuid::Uuid::new_v4` and its `Display`: a random version-4
/// UUID rendered in the hyphenated form, which is exactly 36 characters.
/// The value is random; nothing else is promised of it.
#[verifier::external_body]
pub fn new_uuid_string() -> (r: String)
    ensures
        r@.len() == 36,
{
    uuid::Uuid::new_v4().to_string()
}

/// A random identity for a node that serves plain HTTP and so has no
/// certificate to take a digest of.
pub fn generate_fingerprint() -> (r: String)
    ensures
        r@.len() == 36,
{
    new_uuid_string()
}

/// An ephemeral self-signed certificate and the fingerprint derived from it.
pub struct TlsCertificate {
    pub cert_pem: String,
    pub key_pem: String,
    /// The DER encoding of the certificate, the input of the fingerprint.
    pub cert_der: Vec<u8>,
    /// Lower-case hex SHA-256 of `cert_der`: the node's stable identity.
    pub fingerprint: String,
}

/// Relies on `rcgen::generate_simple_self_signed`: a fresh key pair and a
/// self-signed certificate for the subject `localhost`, returned as
/// (certificate PEM, private key PEM, certificate DER). The key is random;
/// nothing is promised of the contents.
#[verifier::external_body]
fn self_signed_localhost_cert() -> (r: Result<(String, String, Vec<u8>), String>)
    ensures
        r is Ok || r is Err,
{
    match rcgen::generate_simple_self_signed(vec!["localhost".to_string()]) {
        Ok(ck) => {
            let der = ck.cert.der().to_vec();
            Ok((ck.cert.pem(), ck.signing_key.serialize_pem(), der))
        },
        Err(e) => Err(format!("{}", e)),
    }
}

/// Generate the TLS bootstrap material: a self-signed certificate whose
/// SHA-256 digest, in lower-case hex, becomes the device fingerprint.
pub fn generate_tls_certificate() -> (r: Result<TlsCertificate, LocalSendError>)
    ensures
        r matches Ok(c) ==> c.fingerprint@ == hex_of(sha256_of(c.cert_der@)),
{
    match self_signed_localhost_cert() {
        Ok((cert_pem, key_pem, cert_der)) => {
            let fingerprint = sha256_from_bytes(cert_der.as_slice());
            Ok(TlsCertificate { cert_pem, key_pem, cert_der, fingerprint })
        },
        Err(message) => Err(LocalSendError::Network { message }),
    }
}

} // verus!
