//! Byte counts paired with their binary-unit text.
use vstd::prelude::*;
use crate::text::{dec_digits, push_decimal};

verus! {

broadcast use vstd::string::group_string_axioms;

/// Counts below this many bytes are shown in plain bytes.
pub const KIBI: u64 = 1024;

/// What `byte_unit` writes for a count of at least one KiB: the count in the
/// largest binary unit not above it, with two decimals, a space and the unit.
pub uninterp spec fn binary_text_of(bytes: u64) -> Seq<char>;

/// The binary unit a count is shown in: the largest unit not above it, or
/// plain bytes.
pub open spec fn binary_unit(bytes: u64) -> Seq<char> {
    if bytes >= 0x1000_0000_0000_0000 {
        seq!['E', 'i', 'B']
    } else if bytes >= 0x4_0000_0000_0000 {
        seq!['P', 'i', 'B']
    } else if bytes >= 0x100_0000_0000 {
        seq!['T', 'i', 'B']
    } else if bytes >= 0x4000_0000 {
        seq!['G', 'i', 'B']
    } else if bytes >= 0x10_0000 {
        seq!['M', 'i', 'B']
    } else if bytes >= KIBI {
        seq!['K', 'i', 'B']
    } else {
        seq!['B']
    }
}

/// `s` is a number with two decimals, a space and `unit`.
pub open spec fn two_decimals_then_unit(s: Seq<char>, unit: Seq<char>) -> bool {
    s.len() >= unit.len() + 5 && s.subrange(s.len() - unit.len() - 1, s.len() as int) == seq![' '] + unit
        && s[s.len() - unit.len() - 4] == '.'
}

/// The text shown for a byte count: plain bytes with two zero decimals below
/// one KiB, otherwise the binary-unit text of `byte_unit`.
pub open spec fn pretty_text(bytes: u64) -> Seq<char> {
    if bytes < KIBI {
        dec_digits(bytes as nat) + seq!['.', '0', '0', ' ', 'B']
    } else {
        binary_text_of(bytes)
    }
}

/// Relies on `byte_unit::Byte::from_u64` and
/// `AdjustedByte::get_appropriate_unit(UnitType::Binary)`, displayed with a
/// precision of two: the text depends on the count alone, and is the value
/// in the largest binary unit not above the count, written with two
/// decimals, then a space and the unit's name.
#[verifier::external_body]
fn binary_text(bytes: u64) -> (r: String)
    requires
        bytes >= KIBI,
    ensures
        r@ == binary_text_of(bytes),
        two_decimals_then_unit(r@, binary_unit(bytes)),
{
    let adjusted = byte_unit::Byte::from_u64(bytes).get_appropriate_unit(byte_unit::UnitType::Binary);
    format!("{adjusted:.2}")
}

/// Pairs `bytes` with its binary-unit text, rounded to two decimals.
pub fn get_prettybytes(bytes: u64) -> (r: (u64, String))
    ensures
        r.0 == bytes,
        r.1@ == pretty_text(bytes),
        two_decimals_then_unit(r.1@, binary_unit(bytes)),
{
    proof {
        lemma_pretty_deterministic(bytes, bytes);
    }
    if bytes < KIBI {
        let mut s = String::new();
        push_decimal(&mut s, bytes as u128);
        proof {
            reveal_strlit(".00 B");
        }
        s.append(".00 B");
        assert(s@ =~= pretty_text(bytes));
        (bytes, s)
    } else {
        (bytes, binary_text(bytes))
    }
}

proof fn lemma_dec_digits_nonempty(n: nat)
    ensures
        dec_digits(n).len() >= 1,
    decreases n,
{
    if n >= 10 {
        lemma_dec_digits_nonempty(n / 10);
    }
}

/// Formatting is a function of the count: equal counts give equal text; a
/// zero count is shown in plain bytes; and a count below one KiB is shown
/// with two decimals in plain bytes.
pub proof fn lemma_pretty_deterministic(a: u64, b: u64)
    requires
        a == b,
    ensures
        pretty_text(a) == pretty_text(b),
        pretty_text(0) == seq!['0', '.', '0', '0', ' ', 'B'],
        a < KIBI ==> two_decimals_then_unit(pretty_text(a), seq!['B']),
{
    assert(pretty_text(0) =~= seq!['0', '.', '0', '0', ' ', 'B']);
    if a < KIBI {
        lemma_dec_digits_nonempty(a as nat);
        let s = pretty_text(a);
        assert(s.subrange(s.len() - 2, s.len() as int) =~= seq![' ', 'B']);
        assert(s[s.len() - 5] == '.');
        assert(seq![' '] + seq!['B'] =~= seq![' ', 'B']);
    }
}

} // verus!
