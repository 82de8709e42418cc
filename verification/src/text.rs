//! Decimal text for operator-facing output and telemetry payloads.
//!
//! The sensor's temperatures are carried as hundredths of a °C; the
//! telemetry bus and the status lines want them as decimal text with two
//! decimal places. The digits are produced here, with the exact text
//! stated, rather than going through floating point.

use vstd::prelude::*;
use vstd::string::StringExecFns;

use crate::mac::{nibble_char, nibble_str};

verus! {

/// The decimal digits of a number, most significant first, without sign:
/// `0` is `"0"`, `2564` is `"2564"`.
pub open spec fn spec_decimal_digits(n: nat) -> Seq<char>
    decreases n,
{
    if n < 10 {
        seq![nibble_char(n as u8)]
    } else {
        spec_decimal_digits(n / 10).push(nibble_char((n % 10) as u8))
    }
}

/// Appends the decimal digits of a number.
pub fn push_decimal(s: &mut String, n: u32)
    ensures
        final(s)@ == old(s)@ + spec_decimal_digits(n as nat),
    decreases n,
{
    if n >= 10 {
        push_decimal(s, n / 10);
        s.append(nibble_str((n % 10) as u8));
        proof {
            assert(s@ =~= old(s)@ + spec_decimal_digits(n as nat));
        }
    } else {
        s.append(nibble_str(n as u8));
        proof {
            assert(s@ =~= old(s)@ + spec_decimal_digits(n as nat));
        }
    }
}

pub(crate) fn push_minus(s: &mut String)
    ensures
        final(s)@ == old(s)@ + seq!['-'],
{
    proof {
        reveal_strlit("-");
        assert("-"@ =~= seq!['-']);
    }
    s.append("-");
}

pub(crate) fn push_dot(s: &mut String)
    ensures
        final(s)@ == old(s)@ + seq!['.'],
{
    proof {
        reveal_strlit(".");
        assert("."@ =~= seq!['.']);
    }
    s.append(".");
}

/// The magnitude of a temperature in hundredths of a °C, as a mathematical
/// number.
pub open spec fn spec_centi_magnitude(centi: i16) -> nat {
    if centi < 0 {
        (-(centi as int)) as nat
    } else {
        centi as nat
    }
}

/// A temperature in hundredths of a °C as decimal text with two decimal
/// places: `513` is `"5.13"`, `-105` is `"-1.05"`.
pub open spec fn spec_centi_text(centi: i16) -> Seq<char> {
    let m = spec_centi_magnitude(centi);
    (if centi < 0 {
        seq!['-']
    } else {
        Seq::<char>::empty()
    }) + spec_decimal_digits(m / 100) + seq!['.'] + seq![
        nibble_char(((m / 10) % 10) as u8),
        nibble_char((m % 10) as u8),
    ]
}

/// Format a temperature given in hundredths of a °C with two decimal
/// places.
pub fn centi_text(centi: i16) -> (r: String)
    ensures
        r@ == spec_centi_text(centi),
{
    let m: u32 = if centi < 0 {
        (-(centi as i32)) as u32
    } else {
        centi as u32
    };
    let mut s = String::new();
    if centi < 0 {
        push_minus(&mut s);
    }
    push_decimal(&mut s, m / 100);
    push_dot(&mut s);
    s.append(nibble_str(((m / 10) % 10) as u8));
    s.append(nibble_str((m % 10) as u8));
    proof {
        assert(s@ =~= spec_centi_text(centi));
    }
    s
}

} // verus!
