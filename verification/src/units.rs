//! Token amounts.
//!
//! On the wire every amount is an integer in the chain's smallest unit
//! (*base units*); the reporting unit is *tokens*, where one token is
//! `10^10` base units.  An amount is rendered exactly, as the whole-token
//! part, a dot, and ten fractional digits — the conversion is a pure
//! rational and never rounds.

use vstd::prelude::*;

verus! {

/// Base units per token.
pub const BASE_UNITS_PER_TOKEN: u128 = 10_000_000_000;

/// Fractional digits of a rendered token amount.
pub const FRACTION_DIGITS: usize = 10;

/// The decimal digit character for `d`.
pub open spec fn digit_char(d: int) -> char
    recommends
        0 <= d < 10,
{
    if d == 0 {
        '0'
    } else if d == 1 {
        '1'
    } else if d == 2 {
        '2'
    } else if d == 3 {
        '3'
    } else if d == 4 {
        '4'
    } else if d == 5 {
        '5'
    } else if d == 6 {
        '6'
    } else if d == 7 {
        '7'
    } else if d == 8 {
        '8'
    } else {
        '9'
    }
}

/// The shortest decimal rendering of `n` (a single `0` for zero).
pub open spec fn spec_decimal_digits(n: nat) -> Seq<char>
    decreases n,
{
    if n < 10 {
        seq![digit_char(n as int)]
    } else {
        spec_decimal_digits(n / 10) + seq![digit_char((n % 10) as int)]
    }
}

/// The decimal rendering of `n mod 10^width`, zero-padded to exactly
/// `width` digits.
pub open spec fn spec_padded_digits(n: nat, width: nat) -> Seq<char>
    decreases width,
{
    if width == 0 {
        Seq::empty()
    } else {
        spec_padded_digits(n / 10, (width - 1) as nat) + seq![digit_char((n % 10) as int)]
    }
}

/// The exact token rendering of an amount of base units: whole tokens,
/// a dot, and ten fractional digits.
pub open spec fn spec_token_text(base_units: nat) -> Seq<char> {
    spec_decimal_digits(base_units / (BASE_UNITS_PER_TOKEN as nat)) + seq!['.']
        + spec_padded_digits(base_units % (BASE_UNITS_PER_TOKEN as nat), FRACTION_DIGITS as nat)
}

/// The one-character string for a decimal digit.
fn digit_str(d: u8) -> (s: &'static str)
    requires
        d < 10,
    ensures
        s@ =~= seq![digit_char(d as int)],
{
    proof {
        reveal_strlit("0");
        reveal_strlit("1");
        reveal_strlit("2");
        reveal_strlit("3");
        reveal_strlit("4");
        reveal_strlit("5");
        reveal_strlit("6");
        reveal_strlit("7");
        reveal_strlit("8");
        reveal_strlit("9");
    }
    if d == 0 {
        "0"
    } else if d == 1 {
        "1"
    } else if d == 2 {
        "2"
    } else if d == 3 {
        "3"
    } else if d == 4 {
        "4"
    } else if d == 5 {
        "5"
    } else if d == 6 {
        "6"
    } else if d == 7 {
        "7"
    } else if d == 8 {
        "8"
    } else {
        "9"
    }
}

/// Renders `n` in decimal with no padding.
pub fn decimal_digits(n: u128) -> (s: String)
    ensures
        s@ == spec_decimal_digits(n as nat),
    decreases n,
{
    if n < 10 {
        String::from_str(digit_str(n as u8))
    } else {
        let mut s = decimal_digits(n / 10);
        s.append(digit_str((n % 10) as u8));
        s
    }
}

/// Renders the low `width` decimal digits of `n`, zero-padded.
pub fn padded_digits(n: u128, width: usize) -> (s: String)
    ensures
        s@ == spec_padded_digits(n as nat, width as nat),
    decreases width,
{
    if width == 0 {
        String::new()
    } else {
        let mut s = padded_digits(n / 10, width - 1);
        s.append(digit_str((n % 10) as u8));
        s
    }
}

/// Renders an amount of base units as an exact token quantity with ten
/// fractional digits.
pub fn token_amount_text(base_units: u128) -> (s: String)
    ensures
        s@ == spec_token_text(base_units as nat),
{
    proof {
        reveal_strlit(".");
    }
    let mut s = decimal_digits(base_units / BASE_UNITS_PER_TOKEN);
    s.append(".");
    let frac = padded_digits(base_units % BASE_UNITS_PER_TOKEN, FRACTION_DIGITS);
    s.append(frac.as_str());
    proof {
        assert(s@ =~= spec_token_text(base_units as nat));
    }
    s
}

} // verus!
