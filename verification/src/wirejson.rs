//! The JSON framing of a discovery announcement, byte for byte.
//!
//! The multicast wire format is part of the protocol, so the encoder lives
//! here with an exact contract; peers decode it with any JSON parser.

use vstd::prelude::*;

use crate::crypto::hex_digit;
use crate::protocol::{AnnouncementMessage, DeviceType, Protocol};
use crate::text::spec_dec;

verus! {

/// How one character appears inside a JSON string literal: quote and
/// backslash are escaped, the common control characters by letter, any
/// other control character as `\u00XX`, everything else as itself.
pub open spec fn json_escaped_char(c: char) -> Seq<char> {
    if c == '"' {
        seq!['\\', '"']
    } else if c == '\\' {
        seq!['\\', '\\']
    } else if c == '\n' {
        seq!['\\', 'n']
    } else if c == '\r' {
        seq!['\\', 'r']
    } else if c == '\t' {
        seq!['\\', 't']
    } else if c <= '\u{001F}' {
        seq!['\\', 'u', '0', '0', hex_digit(c as int / 16), hex_digit(c as int % 16)]
    } else {
        seq![c]
    }
}

/// A string's characters, each escaped for JSON.
pub open spec fn json_escaped(s: Seq<char>) -> Seq<char>
    decreases s.len(),
{
    if s.len() == 0 {
        Seq::empty()
    } else {
        json_escaped_char(s[0]) + json_escaped(s.drop_first())
    }
}

proof fn lemma_json_escaped_append(a: Seq<char>, b: Seq<char>)
    ensures
        json_escaped(a + b) == json_escaped(a) + json_escaped(b),
    decreases a.len(),
{
    if a.len() == 0 {
        assert(a + b =~= b);
        assert(json_escaped(a) + json_escaped(b) =~= json_escaped(b));
    } else {
        lemma_json_escaped_append(a.drop_first(), b);
        assert((a + b).drop_first() =~= a.drop_first() + b);
        assert(json_escaped(a + b) =~= json_escaped(a) + json_escaped(b));
    }
}

/// A JSON string literal: the escaped characters between quotes.
pub open spec fn json_string(s: Seq<char>) -> Seq<char> {
    seq!['"'] + json_escaped(s) + seq!['"']
}

/// Append character `i` of `s`, escaped.
fn push_escaped_char(out: &mut String, s: &str, i: usize)
    requires
        i < s@.len(),
        i < usize::MAX,
    ensures
        final(out)@ == old(out)@ + json_escaped_char(s@[i as int]),
{
    proof {
        reveal_strlit("\\\"");
        reveal_strlit("\\\\");
        reveal_strlit("\\n");
        reveal_strlit("\\r");
        reveal_strlit("\\t");
        reveal_strlit("\\u00");
    }
    let c = s.get_char(i);
    if c == '"' {
        out.append("\\\"");
    } else if c == '\\' {
        out.append("\\\\");
    } else if c == '\n' {
        out.append("\\n");
    } else if c == '\r' {
        out.append("\\r");
    } else if c == '\t' {
        out.append("\\t");
    } else if c <= '\u{001F}' {
        let code = c as u8;
        proof {
            assert(code == c as int);
        }
        out.append("\\u00");
        out.append(crate::crypto::hex_char(code / 16));
        out.append(crate::crypto::hex_char(code % 16));
    } else {
        out.append(s.substring_char(i, i + 1));
        proof {
            assert(s@.subrange(i as int, i + 1 as int) =~= seq![s@[i as int]]);
        }
    }
    proof {
        assert(out@ =~= old(out)@ + json_escaped_char(s@[i as int]));
    }
}

/// Append a JSON string literal holding `s`.
fn push_json_string(out: &mut String, s: &str)
    ensures
        final(out)@ == old(out)@ + json_string(s@),
{
    proof {
        reveal_strlit("\"");
    }
    out.append("\"");
    let n = s.unicode_len();
    let mut i: usize = 0;
    while i < n
        invariant
            n == s@.len(),
            i <= n,
            out@ =~= old(out)@ + seq!['"'] + json_escaped(s@.take(i as int)),
        decreases n - i,
    {
        push_escaped_char(out, s, i);
        proof {
            assert(s@.take(i + 1 as int) =~= s@.take(i as int) + seq![s@[i as int]]);
            lemma_json_escaped_append(s@.take(i as int), seq![s@[i as int]]);
            assert(json_escaped(seq![s@[i as int]]) =~= json_escaped_char(s@[i as int])) by {
                assert(seq![s@[i as int]].drop_first() =~= Seq::<char>::empty());
                assert(json_escaped(seq![s@[i as int]]) =~= json_escaped_char(s@[i as int])
                    + json_escaped(Seq::<char>::empty()));
            }
            assert(out@ =~= old(out)@ + seq!['"'] + json_escaped(s@.take(i + 1 as int)));
        }
        i = i + 1;
    }
    out.append("\"");
    proof {
        assert(s@.take(n as int) =~= s@);
        assert(out@ =~= old(out)@ + json_string(s@));
    }
}

/// The name a device category takes on the wire.
pub open spec fn spec_device_type_json(t: Option<DeviceType>) -> Seq<char> {
    match t {
        Some(DeviceType::Mobile) => "\"mobile\""@,
        Some(DeviceType::Desktop) => "\"desktop\""@,
        Some(DeviceType::Web) => "\"web\""@,
        Some(DeviceType::Headless) => "\"headless\""@,
        Some(DeviceType::Server) => "\"server\""@,
        None => "null"@,
    }
}

/// `true` or `false`.
pub open spec fn spec_bool_json(b: bool) -> Seq<char> {
    if b {
        "true"@
    } else {
        "false"@
    }
}

/// The JSON object a discovery announcement travels as. Field order is
/// fixed; `deviceModel` and `deviceType` may be `null`; both announcement
/// flags are always present.
pub open spec fn spec_announcement_json(m: AnnouncementMessage) -> Seq<char> {
    "{\"alias\":"@ + json_string(m.alias@) + ",\"version\":"@ + json_string(m.version@)
        + ",\"deviceModel\":"@ + (match m.device_model {
        Some(s) => json_string(s@),
        None => "null"@,
    }) + ",\"deviceType\":"@ + spec_device_type_json(m.device_type) + ",\"fingerprint\":"@
        + json_string(m.fingerprint@) + ",\"port\":"@ + spec_dec(m.port as int) + ",\"protocol\":"@
        + (if m.protocol is Https {
        "\"https\""@
    } else {
        "\"http\""@
    }) + ",\"download\":"@ + spec_bool_json(m.download) + ",\"announce\":"@ + spec_bool_json(
        m.announce,
    ) + ",\"announcement\":"@ + spec_bool_json(m.announcement == Some(true)) + "}"@
}

/// Append `true` or `false`.
fn push_bool(out: &mut String, b: bool)
    ensures
        final(out)@ == old(out)@ + spec_bool_json(b),
{
    if b {
        out.append("true");
    } else {
        out.append("false");
    }
}

/// Encode a discovery announcement as one JSON object.
pub fn announcement_json(m: &AnnouncementMessage) -> (r: String)
    ensures
        r@ == spec_announcement_json(*m),
{
    let mut out = String::from_str("{\"alias\":");
    push_json_string(&mut out, m.alias.as_str());
    out.append(",\"version\":");
    push_json_string(&mut out, m.version.as_str());
    out.append(",\"deviceModel\":");
    match &m.device_model {
        Some(s) => push_json_string(&mut out, s.as_str()),
        None => out.append("null"),
    }
    out.append(",\"deviceType\":");
    match m.device_type {
        Some(DeviceType::Mobile) => out.append("\"mobile\""),
        Some(DeviceType::Desktop) => out.append("\"desktop\""),
        Some(DeviceType::Web) => out.append("\"web\""),
        Some(DeviceType::Headless) => out.append("\"headless\""),
        Some(DeviceType::Server) => out.append("\"server\""),
        None => out.append("null"),
    }
    out.append(",\"fingerprint\":");
    push_json_string(&mut out, m.fingerprint.as_str());
    out.append(",\"port\":");
    crate::text::push_u16_dec(&mut out, m.port);
    out.append(",\"protocol\":");
    match m.protocol {
        Protocol::Https => out.append("\"https\""),
        Protocol::Http => out.append("\"http\""),
    }
    out.append(",\"download\":");
    push_bool(&mut out, m.download);
    out.append(",\"announce\":");
    push_bool(&mut out, m.announce);
    out.append(",\"announcement\":");
    let legacy = match m.announcement {
        Some(true) => true,
        _ => false,
    };
    push_bool(&mut out, legacy);
    out.append("}");
    proof {
        assert(out@ =~= spec_announcement_json(*m));
    }
    out
}

} // verus!
