//! Percentages: rounding an IEEE-754 single-precision sample to a whole
//! number, its text, and the colour tier that the rounded value falls in.
use vstd::prelude::*;
use crate::text::{dec_digits, push_decimal};

verus! {

broadcast use vstd::string::group_string_axioms;

/// How a piece of text is styled on the terminal.
#[derive(Clone, Copy, Debug, PartialEq, Eq, Structural)]
pub enum Tone {
    Plain,
    Bold,
    Banner,
    Nominal,
    Caution,
    Alert,
}

/// The three-tier policy on a rounded percentage: above 50 is an alert,
/// 26 to 50 a caution, 25 and below nominal.
pub open spec fn percent_tone(p: int) -> Tone {
    if p > 50 {
        Tone::Alert
    } else if p > 25 {
        Tone::Caution
    } else {
        Tone::Nominal
    }
}

/// A sample rounded to the nearest whole number, ties away from zero.
#[derive(Clone, Copy, Debug, PartialEq, Eq, Structural)]
pub enum Rounded {
    Finite { negative: bool, magnitude: u128 },
    Infinite { negative: bool },
    NotANumber,
}

pub open spec fn two_pow(n: nat) -> nat
    decreases n,
{
    if n == 0 {
        1
    } else {
        2 * two_pow((n - 1) as nat)
    }
}

/// Bits of the fraction field.
pub open spec fn mantissa(bits: u32) -> nat {
    bits as nat % 8388608
}

/// The biased exponent field.
pub open spec fn exponent(bits: u32) -> nat {
    (bits as nat / 8388608) % 256
}

pub open spec fn sign_bit(bits: u32) -> bool {
    bits >= 0x8000_0000
}

/// The magnitude of a finite sample is `magnitude_num / magnitude_den`.
pub open spec fn magnitude_num(bits: u32) -> nat {
    if exponent(bits) == 0 {
        mantissa(bits)
    } else if exponent(bits) >= 150 {
        (mantissa(bits) + 8388608) * two_pow((exponent(bits) - 150) as nat)
    } else {
        mantissa(bits) + 8388608
    }
}

pub open spec fn magnitude_den(bits: u32) -> nat {
    if exponent(bits) == 0 {
        two_pow(149)
    } else if exponent(bits) >= 150 {
        1
    } else {
        two_pow((150 - exponent(bits)) as nat)
    }
}

/// `num / den` rounded to the nearest whole number, halves upwards.
pub open spec fn round_half_up(num: nat, den: nat) -> nat {
    (2 * num + den) / (2 * den)
}

/// The sample with bit pattern `bits`, rounded as `f32::round` does.
pub open spec fn rounded_of(bits: u32) -> Rounded {
    if exponent(bits) == 255 {
        if mantissa(bits) == 0 {
            Rounded::Infinite { negative: sign_bit(bits) }
        } else {
            Rounded::NotANumber
        }
    } else {
        Rounded::Finite {
            negative: sign_bit(bits),
            magnitude: round_half_up(magnitude_num(bits), magnitude_den(bits)) as u128,
        }
    }
}

/// The tier of a rounded value; comparisons with not-a-number all fail.
pub open spec fn rounded_tone(r: Rounded) -> Tone {
    match r {
        Rounded::Finite { negative, magnitude } => if negative {
            percent_tone(-(magnitude as int))
        } else {
            percent_tone(magnitude as int)
        },
        Rounded::Infinite { negative } => if negative {
            Tone::Nominal
        } else {
            Tone::Alert
        },
        Rounded::NotANumber => Tone::Nominal,
    }
}

/// The text of a rounded value: its digits, signed, or `inf` / `NaN`.
pub open spec fn rounded_text(r: Rounded) -> Seq<char> {
    match r {
        Rounded::Finite { negative, magnitude } => if negative {
            seq!['-'] + dec_digits(magnitude as nat)
        } else {
            dec_digits(magnitude as nat)
        },
        Rounded::Infinite { negative } => if negative {
            seq!['-', 'i', 'n', 'f']
        } else {
            seq!['i', 'n', 'f']
        },
        Rounded::NotANumber => seq!['N', 'a', 'N'],
    }
}

proof fn lemma_two_pow_mono(a: nat, b: nat)
    requires
        a <= b,
    ensures
        two_pow(a) <= two_pow(b),
    decreases b,
{
    if a < b {
        lemma_two_pow_mono(a, (b - 1) as nat);
    }
}

proof fn lemma_two_pow_add(a: nat, b: nat)
    ensures
        two_pow(a + b) == two_pow(a) * two_pow(b),
    decreases a,
{
    if a == 0 {
        assert(two_pow(0) == 1);
    } else {
        lemma_two_pow_add((a - 1) as nat, b);
        assert(two_pow(a + b) == 2 * two_pow((a - 1 + b) as nat));
        assert(two_pow(a) == 2 * two_pow((a - 1) as nat));
        vstd::arithmetic::mul::lemma_mul_is_associative(2, two_pow((a - 1) as nat) as int, two_pow(b) as int);
    }
}

proof fn lemma_two_pow_values()
    ensures
        two_pow(24) == 16777216,
        two_pow(26) == 67108864,
        two_pow(103) == 0x80_0000_0000_0000_0000_0000_0000u128,
        two_pow(104) == 0x100_0000_0000_0000_0000_0000_0000u128,
{
    reveal_with_fuel(two_pow, 9);
    assert(two_pow(8) == 256);
    assert(two_pow(2) == 4);
    assert(two_pow(7) == 128);
    lemma_two_pow_add(8, 8);
    assert(two_pow(16) == 65536);
    lemma_two_pow_add(16, 8);
    assert(two_pow(24) == 16777216);
    lemma_two_pow_add(24, 2);
    lemma_two_pow_add(24, 24);
    assert(two_pow(48) == 281474976710656);
    lemma_two_pow_add(48, 48);
    assert(two_pow(96) == 79228162514264337593543950336);
    lemma_two_pow_add(96, 8);
    lemma_two_pow_add(96, 7);
}

proof fn lemma_two_pow_pos(n: nat)
    ensures
        two_pow(n) >= 1,
    decreases n,
{
    if n > 0 {
        lemma_two_pow_pos((n - 1) as nat);
    }
}

fn two_pow_exec(n: u32) -> (r: u128)
    requires
        n <= 104,
    ensures
        r == two_pow(n as nat),
{
    let mut r: u128 = 1;
    let mut i: u32 = 0;
    while i < n
        invariant
            i <= n <= 104,
            r == two_pow(i as nat),
        decreases n - i,
    {
        proof {
            lemma_two_pow_mono(i as nat, 103);
            lemma_two_pow_values();
        }
        r = r * 2;
        i = i + 1;
    }
    r
}

/// Rounds the single-precision sample with bit pattern `bits` to the nearest
/// whole number, halves away from zero.
pub fn round_bits(bits: u32) -> (r: Rounded)
    ensures
        r == rounded_of(bits),
{
    let negative = bits >= 0x8000_0000;
    let e: u32 = (bits / 8388608) % 256;
    let m: u32 = bits % 8388608;
    if e == 255 {
        if m == 0 {
            Rounded::Infinite { negative }
        } else {
            Rounded::NotANumber
        }
    } else if e == 0 {
        proof {
            lemma_two_pow_mono(24, 149);
            lemma_two_pow_values();
            let d = two_pow(149);
            assert(2 * (m as nat) + d < 2 * d);
            assert((2 * (m as nat) + d) / (2 * d) == 0) by (nonlinear_arith)
                requires 2 * (m as nat) + d < 2 * d;
        }
        Rounded::Finite { negative, magnitude: 0 }
    } else if e >= 150 {
        let big: u128 = (m as u128) + 8388608;
        let p = two_pow_exec(e - 150);
        proof {
            lemma_two_pow_mono((e - 150) as nat, 104);
            lemma_two_pow_values();
            vstd::arithmetic::mul::lemma_mul_upper_bound(
                big as int,
                16777215,
                p as int,
                0x100_0000_0000_0000_0000_0000_0000u128 as int,
            );
        }
        let v = big * p;
        assert((2 * (v as nat) + 1) / 2 == v as nat);
        assert(round_half_up(v as nat, 1) == v);
        Rounded::Finite { negative, magnitude: v }
    } else if e <= 124 {
        proof {
            let k = (150 - e) as nat;
            lemma_two_pow_mono(26, k);
            lemma_two_pow_values();
            let d = two_pow(k);
            let num = m as nat + 8388608;
            assert(2 * num + d < 2 * d);
            assert((2 * num + d) / (2 * d) == 0) by (nonlinear_arith)
                requires 2 * num + d < 2 * d;
        }
        Rounded::Finite { negative, magnitude: 0 }
    } else {
        let big: u128 = (m as u128) + 8388608;
        let d = two_pow_exec(150 - e);
        proof {
            lemma_two_pow_mono((150 - e) as nat, 26);
            lemma_two_pow_values();
            lemma_two_pow_pos((150 - e) as nat);
        }
        Rounded::Finite { negative, magnitude: (2 * big + d) / (2 * d) }
    }
}

/// The tier of a rounded value.
pub fn tone_of(r: Rounded) -> (t: Tone)
    ensures
        t == rounded_tone(r),
{
    match r {
        Rounded::Finite { negative, magnitude } => {
            if negative || magnitude <= 25 {
                Tone::Nominal
            } else if magnitude <= 50 {
                Tone::Caution
            } else {
                Tone::Alert
            }
        },
        Rounded::Infinite { negative } => if negative {
            Tone::Nominal
        } else {
            Tone::Alert
        },
        Rounded::NotANumber => Tone::Nominal,
    }
}

/// The text of a rounded value.
pub fn rounded_string(r: Rounded) -> (s: String)
    ensures
        s@ == rounded_text(r),
{
    proof {
        reveal_strlit("-");
        reveal_strlit("-inf");
        reveal_strlit("inf");
        reveal_strlit("NaN");
    }
    match r {
        Rounded::Finite { negative, magnitude } => {
            let mut s = if negative {
                String::from_str("-")
            } else {
                String::new()
            };
            push_decimal(&mut s, magnitude);
            assert(s@ =~= rounded_text(r));
            s
        },
        Rounded::Infinite { negative } => {
            let s = if negative {
                String::from_str("-inf")
            } else {
                String::from_str("inf")
            };
            assert(s@ =~= rounded_text(r));
            s
        },
        Rounded::NotANumber => {
            let s = String::from_str("NaN");
            assert(s@ =~= rounded_text(r));
            s
        },
    }
}

/// `used / total` as a percentage, rounded to the nearest whole number, halves
/// upwards; with a zero total it is infinite, or undefined when nothing is used.
pub open spec fn ratio_rounded(used: u64, total: u64) -> Rounded {
    if total == 0 {
        if used == 0 {
            Rounded::NotANumber
        } else {
            Rounded::Infinite { negative: false }
        }
    } else {
        Rounded::Finite {
            negative: false,
            magnitude: round_half_up(100 * used as nat, total as nat) as u128,
        }
    }
}

/// The rounded percentage that `used` makes of `total`.
pub fn ratio_percent(used: u64, total: u64) -> (r: Rounded)
    ensures
        r == ratio_rounded(used, total),
{
    if total == 0 {
        if used == 0 {
            Rounded::NotANumber
        } else {
            Rounded::Infinite { negative: false }
        }
    } else {
        let n: u128 = 200 * (used as u128) + (total as u128);
        let d: u128 = 2 * (total as u128);
        Rounded::Finite { negative: false, magnitude: n / d }
    }
}

} // verus!
