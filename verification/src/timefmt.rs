//! Calendar timestamps as plain numbers, and their two fixed renderings.
//!
//! The library never reads a clock; whoever runs it converts the wall time
//! to a [`Timestamp`] and passes it in.

use vstd::prelude::*;

use crate::text::{digit_char, digit_str};

verus! {

/// Two decimal digits, zero-padded.
pub open spec fn dec2(n: int) -> Seq<char> {
    seq![digit_char(n / 10), digit_char(n % 10)]
}

/// Four decimal digits, zero-padded.
pub open spec fn dec4(n: int) -> Seq<char> {
    seq![
        digit_char(n / 1000),
        digit_char(n / 100 % 10),
        digit_char(n / 10 % 10),
        digit_char(n % 10),
    ]
}

/// One wall-clock reading, split into calendar fields.
#[derive(Clone, Copy, Debug, PartialEq, Eq, Structural)]
pub struct Timestamp {
    pub year: u16,
    pub month: u8,
    pub day: u8,
    pub hour: u8,
    pub minute: u8,
    pub second: u8,
}

impl Timestamp {
    /// Fields stay within the calendar.
    pub open spec fn wf(&self) -> bool {
        &&& self.year < 10000
        &&& 1 <= self.month <= 12
        &&& 1 <= self.day <= 31
        &&& self.hour < 24
        &&& self.minute < 60
        &&& self.second < 60
    }

    /// The compact rendering used in message file names:
    /// `YYYYMMDD_HHMMSS`.
    pub open spec fn spec_compact(&self) -> Seq<char> {
        dec4(self.year as int) + dec2(self.month as int) + dec2(self.day as int) + seq!['_'] + dec2(
            self.hour as int,
        ) + dec2(self.minute as int) + dec2(self.second as int)
    }

    /// The human rendering used in the received-files log:
    /// `YYYY-MM-DD HH:MM:SS`.
    pub open spec fn spec_display(&self) -> Seq<char> {
        dec4(self.year as int) + seq!['-'] + dec2(self.month as int) + seq!['-'] + dec2(
            self.day as int,
        ) + seq![' '] + dec2(self.hour as int) + seq![':'] + dec2(self.minute as int) + seq![':']
            + dec2(self.second as int)
    }

    /// Render as `YYYYMMDD_HHMMSS`.
    pub fn compact(&self) -> (r: String)
        requires
            self.wf(),
        ensures
            r@ == self.spec_compact(),
    {
        proof {
            reveal_strlit("_");
        }
        let mut out = String::new();
        push_dec4(&mut out, self.year);
        push_dec2(&mut out, self.month);
        push_dec2(&mut out, self.day);
        out.append("_");
        push_dec2(&mut out, self.hour);
        push_dec2(&mut out, self.minute);
        push_dec2(&mut out, self.second);
        proof {
            assert(out@ =~= self.spec_compact());
        }
        out
    }

    /// Render as `YYYY-MM-DD HH:MM:SS`.
    pub fn display(&self) -> (r: String)
        requires
            self.wf(),
        ensures
            r@ == self.spec_display(),
    {
        proof {
            reveal_strlit("-");
            reveal_strlit(" ");
            reveal_strlit(":");
        }
        let mut out = String::new();
        push_dec4(&mut out, self.year);
        out.append("-");
        push_dec2(&mut out, self.month);
        out.append("-");
        push_dec2(&mut out, self.day);
        out.append(" ");
        push_dec2(&mut out, self.hour);
        out.append(":");
        push_dec2(&mut out, self.minute);
        out.append(":");
        push_dec2(&mut out, self.second);
        proof {
            assert(out@ =~= self.spec_display());
        }
        out
    }
}

/// Append a value below one hundred as two digits.
fn push_dec2(out: &mut String, n: u8)
    requires
        n < 100,
    ensures
        final(out)@ == old(out)@ + dec2(n as int),
{
    out.append(digit_str(n / 10));
    out.append(digit_str(n % 10));
    proof {
        assert(out@ =~= old(out)@ + dec2(n as int));
    }
}

/// Append a value below ten thousand as four digits.
fn push_dec4(out: &mut String, n: u16)
    requires
        n < 10000,
    ensures
        final(out)@ == old(out)@ + dec4(n as int),
{
    out.append(digit_str((n / 1000) as u8));
    out.append(digit_str((n / 100 % 10) as u8));
    out.append(digit_str((n / 10 % 10) as u8));
    out.append(digit_str((n % 10) as u8));
    proof {
        assert(out@ =~= old(out)@ + dec4(n as int));
    }
}

} // verus!
