//! Characters of a VIN: canonicalization to uppercase and the allowed
//! alphabet (decimal digits and the uppercase letters other than 'I', 'O'
//! and 'Q').

use vstd::prelude::*;

verus! {

/// The canonical (uppercase) form of a single character: ASCII lowercase
/// letters are mapped to their uppercase counterparts, every other character
/// is left unchanged.
pub open spec fn spec_upper_char(c: char) -> char {
    if 'a' <= c && c <= 'z' {
        ((c as u8) - 32) as char
    } else {
        c
    }
}

/// The canonical form of a string: every character uppercased.
pub open spec fn canon_seq(s: Seq<char>) -> Seq<char> {
    s.map_values(|c: char| spec_upper_char(c))
}

/// A character the VIN alphabet admits: a decimal digit or an uppercase
/// letter other than 'I', 'O' and 'Q'.
pub open spec fn is_allowed_char(c: char) -> bool {
    ('0' <= c && c <= '9') || ('A' <= c && c <= 'Z' && c != 'I' && c != 'O' && c != 'Q')
}

/// Every character of the string is drawn from the VIN alphabet.
pub open spec fn all_allowed(s: Seq<char>) -> bool {
    forall|i: int| 0 <= i < s.len() ==> is_allowed_char(#[trigger] s[i])
}

pub fn upper_char(c: char) -> (r: char)
    ensures
        r == spec_upper_char(c),
{
    if 'a' <= c && c <= 'z' {
        ((c as u8) - 32) as char
    } else {
        c
    }
}

pub fn allowed_char(c: char) -> (r: bool)
    ensures
        r == is_allowed_char(c),
{
    ('0' <= c && c <= '9') || ('A' <= c && c <= 'Z' && c != 'I' && c != 'O' && c != 'Q')
}

/// The one-character string slice that holds an allowed character; the
/// canonical VIN string is assembled from these.
pub fn char_str(c: char) -> (r: &'static str)
    requires
        is_allowed_char(c),
    ensures
        r@.len() == 1,
        r@[0] == c,
{
    match c {
        '0' => { proof { reveal_strlit("0"); } "0" },
        '1' => { proof { reveal_strlit("1"); } "1" },
        '2' => { proof { reveal_strlit("2"); } "2" },
        '3' => { proof { reveal_strlit("3"); } "3" },
        '4' => { proof { reveal_strlit("4"); } "4" },
        '5' => { proof { reveal_strlit("5"); } "5" },
        '6' => { proof { reveal_strlit("6"); } "6" },
        '7' => { proof { reveal_strlit("7"); } "7" },
        '8' => { proof { reveal_strlit("8"); } "8" },
        '9' => { proof { reveal_strlit("9"); } "9" },
        'A' => { proof { reveal_strlit("A"); } "A" },
        'B' => { proof { reveal_strlit("B"); } "B" },
        'C' => { proof { reveal_strlit("C"); } "C" },
        'D' => { proof { reveal_strlit("D"); } "D" },
        'E' => { proof { reveal_strlit("E"); } "E" },
        'F' => { proof { reveal_strlit("F"); } "F" },
        'G' => { proof { reveal_strlit("G"); } "G" },
        'H' => { proof { reveal_strlit("H"); } "H" },
        'J' => { proof { reveal_strlit("J"); } "J" },
        'K' => { proof { reveal_strlit("K"); } "K" },
        'L' => { proof { reveal_strlit("L"); } "L" },
        'M' => { proof { reveal_strlit("M"); } "M" },
        'N' => { proof { reveal_strlit("N"); } "N" },
        'P' => { proof { reveal_strlit("P"); } "P" },
        'R' => { proof { reveal_strlit("R"); } "R" },
        'S' => { proof { reveal_strlit("S"); } "S" },
        'T' => { proof { reveal_strlit("T"); } "T" },
        'U' => { proof { reveal_strlit("U"); } "U" },
        'V' => { proof { reveal_strlit("V"); } "V" },
        'W' => { proof { reveal_strlit("W"); } "W" },
        'X' => { proof { reveal_strlit("X"); } "X" },
        'Y' => { proof { reveal_strlit("Y"); } "Y" },
        'Z' => { proof { reveal_strlit("Z"); } "Z" },
        _ => unreached(),
    }
}

/// Uppercasing leaves a character of the VIN alphabet unchanged.
pub proof fn lemma_upper_fixes_allowed(c: char)
    requires
        is_allowed_char(c),
    ensures
        spec_upper_char(c) == c,
{
}

/// Uppercasing a single character is idempotent.
pub proof fn lemma_upper_char_idempotent(c: char)
    ensures
        spec_upper_char(spec_upper_char(c)) == spec_upper_char(c),
{
}

/// Canonicalization is stable: uppercasing an already uppercased string
/// changes nothing, and it never changes the length.  Validation judges its
/// input only through `canon_seq` and the length, so an input and its
/// uppercased form receive the same verdict.
pub proof fn lemma_canonicalization_stable(s: Seq<char>)
    ensures
        canon_seq(canon_seq(s)) == canon_seq(s),
        canon_seq(s).len() == s.len(),
{
    assert forall|i: int| 0 <= i < s.len() implies canon_seq(canon_seq(s))[i] == canon_seq(s)[i]
    by {
        lemma_upper_char_idempotent(s[i]);
    }
    assert(canon_seq(canon_seq(s)) =~= canon_seq(s));
}

/// A string whose characters are all allowed is its own canonical form.
pub proof fn lemma_canon_of_allowed(s: Seq<char>)
    requires
        all_allowed(s),
    ensures
        canon_seq(s) == s,
{
    assert forall|i: int| 0 <= i < s.len() implies canon_seq(s)[i] == s[i] by {
        lemma_upper_fixes_allowed(s[i]);
    }
    assert(canon_seq(s) =~= s);
}

} // verus!
