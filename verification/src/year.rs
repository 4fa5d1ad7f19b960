//! Model-year decoding: the character at position 9 of a VIN encodes the
//! model year in a repeating 30-year cycle of letters and digits that starts
//! at 1980.  A single character therefore names every year of the bounded
//! range whose cycle position carries it.

use std::time::SystemTime;

use vstd::prelude::*;

verus! {

/// The character of the model-year cycle at offset `k`: the seventeen
/// letters 'A'..'Y' (skipping 'I', 'O', 'Q' and 'U'), then the digits
/// '1'..'9'.
pub open spec fn spec_cycle_char(k: int) -> char {
    if k == 0 { 'A' }
    else if k == 1 { 'B' }
    else if k == 2 { 'C' }
    else if k == 3 { 'D' }
    else if k == 4 { 'E' }
    else if k == 5 { 'F' }
    else if k == 6 { 'G' }
    else if k == 7 { 'H' }
    else if k == 8 { 'J' }
    else if k == 9 { 'K' }
    else if k == 10 { 'L' }
    else if k == 11 { 'M' }
    else if k == 12 { 'N' }
    else if k == 13 { 'P' }
    else if k == 14 { 'R' }
    else if k == 15 { 'S' }
    else if k == 16 { 'T' }
    else if k == 17 { 'V' }
    else if k == 18 { 'W' }
    else if k == 19 { 'X' }
    else if k == 20 { 'Y' }
    else if k == 21 { '1' }
    else if k == 22 { '2' }
    else if k == 23 { '3' }
    else if k == 24 { '4' }
    else if k == 25 { '5' }
    else if k == 26 { '6' }
    else if k == 27 { '7' }
    else if k == 28 { '8' }
    else if k == 29 { '9' }
    else { 'A' }
}

/// The cycle character that encodes a given model year.
pub open spec fn spec_year_char(y: int) -> char {
    spec_cycle_char((y - 1980) % 30)
}

/// A character appears somewhere in the model-year cycle.  'U', 'Z' and '0'
/// are allowed in a VIN but encode no year.
pub open spec fn in_year_cycle(c: char) -> bool {
    exists|k: int| 0 <= k < 30 && spec_cycle_char(k) == c
}

/// All model years from 1980 up to `ceil` that the character `c` encodes,
/// in ascending order.
pub open spec fn spec_model_years(c: char, ceil: int) -> Seq<u32>
    decreases ceil - 1979,
{
    if ceil <= 1979 {
        Seq::empty()
    } else if spec_year_char(ceil) == c {
        spec_model_years(c, ceil - 1).push(ceil as u32)
    } else {
        spec_model_years(c, ceil - 1)
    }
}

/// The calendar year two years past the one the clock reads, the bound of
/// the model-year walk: seconds are turned into years of 365.25 days,
/// rounded to the nearest whole year.
pub open spec fn spec_year_ceiling(secs: int) -> int {
    (secs + 15778800) / 31557600 + 1972
}

/// The model-year sequence is sound: every element lies between 1980 and
/// the ceiling, its cycle position maps back to the year character that
/// produced it, and the sequence is strictly ascending.
pub proof fn lemma_model_years_sound(c: char, ceil: int)
    requires
        ceil <= u32::MAX,
    ensures
        forall|i: int| 0 <= i < spec_model_years(c, ceil).len() ==> {
            let y = #[trigger] spec_model_years(c, ceil)[i];
            1980 <= y && y <= ceil && spec_year_char(y as int) == c
        },
        forall|i: int, j: int|
            0 <= i < j < spec_model_years(c, ceil).len() ==> spec_model_years(c, ceil)[i]
                < spec_model_years(c, ceil)[j],
    decreases ceil - 1979,
{
    if ceil > 1979 {
        lemma_model_years_sound(c, ceil - 1);
        let prev = spec_model_years(c, ceil - 1);
        let cur = spec_model_years(c, ceil);
        assert forall|i: int| 0 <= i < cur.len() implies {
            let y = #[trigger] cur[i];
            1980 <= y && y <= ceil && spec_year_char(y as int) == c
        } by {
            if i < prev.len() {
                assert(cur[i] == prev[i]);
            } else {
                assert(cur[i] == ceil as u32);
            }
        }
        assert forall|i: int, j: int| 0 <= i < j < cur.len() implies cur[i] < cur[j] by {
            assert(cur[i] == prev[i]);
            if j < prev.len() {
                assert(cur[j] == prev[j]);
            } else {
                assert(cur[j] == ceil as u32);
                assert(prev[i] <= ceil - 1);
            }
        }
    }
}

/// The model-year sequence is complete: every year of the bounded range
/// whose cycle character is the year character appears in it.
pub proof fn lemma_model_years_complete(c: char, ceil: int)
    requires
        ceil <= u32::MAX,
    ensures
        forall|y: int|
            1980 <= y <= ceil && #[trigger] spec_year_char(y) == c ==> spec_model_years(
                c,
                ceil,
            ).contains(y as u32),
    decreases ceil - 1979,
{
    if ceil > 1979 {
        lemma_model_years_complete(c, ceil - 1);
        let prev = spec_model_years(c, ceil - 1);
        let cur = spec_model_years(c, ceil);
        assert forall|y: int| 1980 <= y <= ceil && #[trigger] spec_year_char(y) == c implies
            cur.contains(y as u32) by {
            if y < ceil {
                let i = choose|i: int| 0 <= i < prev.len() && prev[i] == y as u32;
                assert(cur[i] == y as u32);
            } else {
                assert(cur[cur.len() - 1] == y as u32);
            }
        }
    }
}

/// A year character that stands in the cycle names at least one model year
/// once the ceiling has passed a whole 30-year cycle.
pub proof fn lemma_model_years_nonempty(c: char, ceil: int)
    requires
        in_year_cycle(c),
        1979 + 30 <= ceil <= u32::MAX,
    ensures
        spec_model_years(c, ceil).len() > 0,
{
    let k = choose|k: int| 0 <= k < 30 && spec_cycle_char(k) == c;
    let y = 1980 + k;
    assert((y - 1980) % 30 == k);
    assert(spec_year_char(y) == c);
    lemma_model_years_complete(c, ceil);
    assert(spec_model_years(c, ceil).contains(y as u32));
}

pub fn cycle_letter(k: usize) -> (c: char)
    requires
        k < 30,
    ensures
        c == spec_cycle_char(k as int),
{
    if k == 0 { 'A' }
    else if k == 1 { 'B' }
    else if k == 2 { 'C' }
    else if k == 3 { 'D' }
    else if k == 4 { 'E' }
    else if k == 5 { 'F' }
    else if k == 6 { 'G' }
    else if k == 7 { 'H' }
    else if k == 8 { 'J' }
    else if k == 9 { 'K' }
    else if k == 10 { 'L' }
    else if k == 11 { 'M' }
    else if k == 12 { 'N' }
    else if k == 13 { 'P' }
    else if k == 14 { 'R' }
    else if k == 15 { 'S' }
    else if k == 16 { 'T' }
    else if k == 17 { 'V' }
    else if k == 18 { 'W' }
    else if k == 19 { 'X' }
    else if k == 20 { 'Y' }
    else if k == 21 { '1' }
    else if k == 22 { '2' }
    else if k == 23 { '3' }
    else if k == 24 { '4' }
    else if k == 25 { '5' }
    else if k == 26 { '6' }
    else if k == 27 { '7' }
    else if k == 28 { '8' }
    else { '9' }
}

/// All model years from 1980 up to `ceiling` that `year_code` encodes, in
/// ascending order.
pub fn model_years_up_to(year_code: char, ceiling: u32) -> (r: Vec<u32>)
    ensures
        r@ == spec_model_years(year_code, ceiling as int),
{
    let mut r: Vec<u32> = Vec::new();
    let mut y: u64 = 1980;
    let mut k: usize = 0;
    while y <= ceiling as u64
        invariant
            1980 <= y <= ceiling as u64 + 1 || y == 1980,
            k < 30,
            k as int == (y - 1980) % 30,
            r@ == spec_model_years(year_code, y - 1),
        decreases ceiling as u64 + 1 - y,
    {
        if cycle_letter(k) == year_code {
            r.push(y as u32);
        }
        k = if k == 29 { 0 } else { k + 1 };
        y = y + 1;
    }
    r
}

/// Relies on `std::time::SystemTime::now` and `duration_since`: the seconds
/// the system clock reads since the Unix epoch, or zero where the clock
/// reads earlier than the epoch.
#[verifier::external_body]
pub(crate) fn unix_seconds_now() -> u64 {
    match SystemTime::now().duration_since(SystemTime::UNIX_EPOCH) {
        Ok(d) => d.as_secs(),
        Err(_) => 0,
    }
}

/// Turns a clock reading in seconds into the model-year ceiling: the
/// calendar year it falls in, advanced by two years.
pub fn year_ceiling(secs: u64) -> (y: u64)
    ensures
        y as int == spec_year_ceiling(secs as int),
        y >= 1972,
{
    let base = secs / 31557600;
    let rem = secs % 31557600;
    let half: u64 = if rem >= 15778800 { 1 } else { 0 };
    proof {
        vstd::arithmetic::div_mod::lemma_fundamental_div_mod(secs as int, 31557600);
        vstd::arithmetic::div_mod::lemma_fundamental_div_mod_converse(
            secs as int + 15778800,
            31557600,
            base as int + half as int,
            rem as int + 15778800 - half as int * 31557600,
        );
    }
    base + half + 1972
}

} // verus!
