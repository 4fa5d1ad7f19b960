//! The check-digit computation of ISO 3779: each character is transliterated
//! to a numeric value, the values are weighted by position and summed, and
//! the sum modulo 11 names the expected character at position 8 (a decimal
//! digit, or 'X' for a remainder of ten).

use vstd::prelude::*;

verus! {

use crate::chars::{all_allowed, canon_seq, upper_char};
use crate::dicts::{spec_translit, spec_weight, translit_value, weight_at};

/// The weighted transliteration sum of the first `n` characters.
pub open spec fn spec_prefix_sum(t: Seq<char>, n: int) -> int
    decreases n,
{
    if n <= 0 {
        0
    } else {
        spec_prefix_sum(t, n - 1) + spec_translit(t[n - 1]) * spec_weight(n - 1)
    }
}

/// The weighted transliteration sum of a whole seventeen-character VIN.
pub open spec fn spec_checksum_sum(t: Seq<char>) -> int {
    spec_prefix_sum(t, 17)
}

/// The character that names a checksum remainder: a remainder of ten is
/// written 'X', every other remainder as its decimal digit.
pub open spec fn spec_remainder_char(d: int) -> char {
    if d == 10 {
        'X'
    } else {
        (48 + d) as char
    }
}

/// The check character a valid VIN must carry at position 8.
pub open spec fn spec_check_char(t: Seq<char>) -> char {
    spec_remainder_char(spec_checksum_sum(t) % 11)
}

proof fn lemma_prefix_sum_ignores_position_8(t1: Seq<char>, t2: Seq<char>, n: int)
    requires
        forall|i: int| 0 <= i < n && i != 8 ==> t1[i] == t2[i],
    ensures
        spec_prefix_sum(t1, n) == spec_prefix_sum(t2, n),
    decreases n,
{
    if n > 0 {
        lemma_prefix_sum_ignores_position_8(t1, t2, n - 1);
        if n - 1 == 8 {
            assert(spec_weight(8) == 0);
        }
    }
}

/// The check digit does not feed its own computation: position 8 carries
/// weight zero, so two VINs that differ only there share one checksum sum,
/// and with it one expected check character.
pub proof fn lemma_check_digit_weightless(t1: Seq<char>, t2: Seq<char>)
    requires
        forall|i: int| 0 <= i < 17 && i != 8 ==> t1[i] == t2[i],
    ensures
        spec_checksum_sum(t1) == spec_checksum_sum(t2),
        spec_check_char(t1) == spec_check_char(t2),
{
    lemma_prefix_sum_ignores_position_8(t1, t2, 17);
}

/// Computes the expected check character of a structurally valid input from
/// its canonical form.
pub fn computed_check_char(vin: &str) -> (c: char)
    requires
        vin@.len() == 17,
        all_allowed(canon_seq(vin@)),
    ensures
        c == spec_check_char(canon_seq(vin@)),
{
    let ghost t = canon_seq(vin@);
    let mut sum: u32 = 0;
    let mut i: usize = 0;
    while i < 17
        invariant
            i <= 17,
            vin@.len() == 17,
            all_allowed(t),
            t == canon_seq(vin@),
            sum as int == spec_prefix_sum(t, i as int),
            sum <= 90 * i,
        decreases 17 - i,
    {
        let c = upper_char(vin.get_char(i));
        assert(c == t[i as int]);
        let v = translit_value(c);
        let w = weight_at(i);
        assert(v * w <= 90) by (nonlinear_arith)
            requires v <= 9 && w <= 10,
        ;
        assert(v * w >= 0) by (nonlinear_arith)
            requires v >= 0 && w >= 0,
        ;
        sum = sum + (v as u32) * (w as u32);
        i = i + 1;
    }
    let m = sum % 11;
    if m == 10 {
        'X'
    } else {
        (48 + m as u8) as char
    }
}

} // verus!
