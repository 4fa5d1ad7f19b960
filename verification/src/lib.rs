//! Parser and checksum verifier for Vehicle Identification Numbers (VINs).
//!
//! A VIN is a 17-character identifier drawn from the decimal digits and the
//! uppercase letters other than 'I', 'O' and 'Q'.  The crate validates the
//! structure of a candidate VIN, verifies its check digit, and decodes the
//! region, country and manufacturer encoded in its first characters, along
//! with the possible model years encoded at the tenth position.
//!
//! Input is accepted case-insensitively: every operation first
//! canonicalizes its argument by uppercasing ASCII letters.

use vstd::prelude::*;

pub mod chars;
pub mod checksum;
pub mod dicts;
pub mod year;

verus! {

use crate::chars::{all_allowed, allowed_char, canon_seq, char_str, is_allowed_char, upper_char};
use crate::checksum::spec_check_char;

/// Describes a failed checksum comparison: the character the computation
/// called for at position 8, and the character the input carried there.
#[derive(Debug, Copy, Clone)]
pub struct ChecksumErrorInfo {
    /// Expected symbol at the 9-th place
    pub expected: char,
    /// Received symbol at the 9-th place
    pub received: char,
}

/// The ways validation of a candidate VIN can fail.
#[derive(Debug)]
pub enum VINError {
    /// The canonicalized input does not hold exactly 17 characters.
    IncorrectLength,
    /// The canonicalized input holds characters outside the allowed
    /// alphabet; the distinct offenders are carried along (their order is
    /// not significant).
    InvalidCharacters(Vec<char>),
    /// The character at position 8 is not the computed check character.
    /// Only North American VINs are bound to pass this check; elsewhere a
    /// mismatch carries no defect implication.
    ChecksumError(ChecksumErrorInfo),
}

/// The distinct characters of a string that fall outside the allowed
/// alphabet.
pub open spec fn spec_disallowed_set(t: Seq<char>) -> Set<char> {
    Set::new(|c: char| t.contains(c) && !is_allowed_char(c))
}

/// The input is structurally a VIN: seventeen characters, each drawn from
/// the allowed alphabet once uppercased.
pub open spec fn spec_structurally_valid(s: Seq<char>) -> bool {
    s.len() == 17 && all_allowed(canon_seq(s))
}

impl VINError {
    /// A short description of the error, in place of a `Display`
    /// implementation.
    pub fn message(&self) -> (r: String)
        ensures
            match self {
                VINError::IncorrectLength => r@ == "Incorrect length of given string, 17 chars expected."@,
                VINError::InvalidCharacters(_) => r@ == "Invalid characters received in given string."@,
                VINError::ChecksumError(_) => r@ == "Invalid checksum symbol on 9th place."@,
            },
    {
        match self {
            VINError::IncorrectLength => String::from_str(
                "Incorrect length of given string, 17 chars expected.",
            ),
            VINError::InvalidCharacters(_) => String::from_str(
                "Invalid characters received in given string.",
            ),
            VINError::ChecksumError(_) => String::from_str(
                "Invalid checksum symbol on 9th place.",
            ),
        }
    }
}

fn vec_contains_char(v: &Vec<char>, c: char) -> (r: bool)
    ensures
        r == v@.contains(c),
{
    let mut i: usize = 0;
    while i < v.len()
        invariant
            i <= v@.len(),
            forall|j: int| 0 <= j < i ==> v@[j] != c,
        decreases v@.len() - i,
    {
        if v[i] == c {
            return true;
        }
        i = i + 1;
    }
    false
}

/// Validates a candidate VIN without computing the checksum: the
/// canonicalized input must hold exactly 17 characters, each from the
/// allowed alphabet.  Succeeds exactly on structurally valid input; a
/// wrong length is reported before the alphabet is looked at, and an
/// alphabet failure carries exactly the distinct offending characters.
pub fn check_validity(vin: &str) -> (r: Result<(), VINError>)
    ensures
        r matches Ok(()) <==> spec_structurally_valid(vin@),
        r matches Err(VINError::IncorrectLength) <==> vin@.len() != 17,
        (match r {
            Err(VINError::InvalidCharacters(cs)) => {
                &&& vin@.len() == 17
                &&& !all_allowed(canon_seq(vin@))
                &&& cs@.no_duplicates()
                &&& cs@.len() > 0
                &&& cs@.to_set() == spec_disallowed_set(canon_seq(vin@))
            },
            _ => true,
        }),
        vin@.len() == 17 && !all_allowed(canon_seq(vin@)) ==> r matches Err(
            VINError::InvalidCharacters(_),
        ),
        vin@.len() == 17 && all_allowed(vin@) ==> r matches Ok(()),
        !(r matches Err(VINError::ChecksumError(_))),
{
    proof {
        chars::lemma_canonicalization_stable(vin@);
    }
    let n = vin.unicode_len();
    if n != 17 {
        return Err(VINError::IncorrectLength);
    }
    let ghost t = canon_seq(vin@);
    let mut bad: Vec<char> = Vec::new();
    let mut i: usize = 0;
    while i < 17
        invariant
            i <= 17,
            vin@.len() == 17,
            t == canon_seq(vin@),
            bad@.no_duplicates(),
            forall|k: int| 0 <= k < bad@.len() ==> !is_allowed_char(#[trigger] bad@[k])
                && t.contains(bad@[k]),
            forall|j: int| 0 <= j < i ==> is_allowed_char(#[trigger] t[j]) || bad@.contains(t[j]),
        decreases 17 - i,
    {
        let c = upper_char(vin.get_char(i));
        assert(c == t[i as int]);
        if !allowed_char(c) && !vec_contains_char(&bad, c) {
            let ghost prev = bad@;
            bad.push(c);
            proof {
                assert forall|j: int| 0 <= j < i + 1 implies is_allowed_char(#[trigger] t[j])
                    || bad@.contains(t[j]) by {
                    if j < i && !is_allowed_char(t[j]) {
                        let m = choose|m: int| 0 <= m < prev.len() && prev[m] == t[j];
                        assert(bad@[m] == t[j]);
                    } else if j == i {
                        assert(bad@[bad@.len() - 1] == c);
                    }
                }
                assert forall|p: int, q: int|
                    0 <= p < bad@.len() && 0 <= q < bad@.len() && p != q implies bad@[p]
                    != bad@[q] by {
                    if p < prev.len() && q < prev.len() {
                        assert(bad@[p] == prev[p] && bad@[q] == prev[q]);
                    } else if q == prev.len() {
                        assert(bad@[p] == prev[p] && bad@[q] == c);
                        if prev[p] == c {
                            assert(prev.contains(c));
                        }
                    } else {
                        assert(bad@[q] == prev[q] && bad@[p] == c);
                        if prev[q] == c {
                            assert(prev.contains(c));
                        }
                    }
                }
            }
        } else {
            proof {
                if !is_allowed_char(c) {
                    assert(bad@.contains(t[i as int]));
                }
            }
        }
        i = i + 1;
    }
    if bad.len() > 0 {
        proof {
            let c0 = bad@[0];
            let j0 = choose|j: int| 0 <= j < t.len() && t[j] == c0;
            assert(!is_allowed_char(t[j0]));
            assert(bad@.to_set() =~= spec_disallowed_set(t)) by {
                assert forall|c: char| spec_disallowed_set(t).contains(c) implies bad@.to_set()
                    .contains(c) by {
                    let j = choose|j: int| 0 <= j < t.len() && t[j] == c;
                    assert(bad@.contains(t[j]));
                }
                assert forall|c: char| bad@.to_set().contains(c) implies spec_disallowed_set(
                    t,
                ).contains(c) by {
                    let m = choose|m: int| 0 <= m < bad@.len() && bad@[m] == c;
                    assert(!is_allowed_char(bad@[m]) && t.contains(bad@[m]));
                }
            }
        }
        return Err(VINError::InvalidCharacters(bad));
    }
    proof {
        if all_allowed(vin@) {
            chars::lemma_canon_of_allowed(vin@);
        }
    }
    Ok(())
}

/// Validates a candidate VIN and verifies its check digit: the weighted
/// transliteration sum of the canonicalized input, reduced modulo 11, must
/// name the character at position 8.  A structural failure is propagated
/// unchanged; a mismatch reports the computed and the received character.
pub fn verify_checksum(vin: &str) -> (r: Result<(), VINError>)
    ensures
        r matches Ok(()) <==> (spec_structurally_valid(vin@) && canon_seq(vin@)[8]
            == spec_check_char(canon_seq(vin@))),
        r matches Err(VINError::IncorrectLength) <==> vin@.len() != 17,
        (match r {
            Err(VINError::InvalidCharacters(cs)) => {
                &&& vin@.len() == 17
                &&& !all_allowed(canon_seq(vin@))
                &&& cs@.no_duplicates()
                &&& cs@.len() > 0
                &&& cs@.to_set() == spec_disallowed_set(canon_seq(vin@))
            },
            _ => true,
        }),
        vin@.len() == 17 && !all_allowed(canon_seq(vin@)) ==> r matches Err(
            VINError::InvalidCharacters(_),
        ),
        (match r {
            Err(VINError::ChecksumError(info)) => {
                &&& spec_structurally_valid(vin@)
                &&& info.expected == spec_check_char(canon_seq(vin@))
                &&& info.received == canon_seq(vin@)[8]
                &&& info.expected != info.received
            },
            _ => true,
        }),
        spec_structurally_valid(vin@) && canon_seq(vin@)[8] != spec_check_char(canon_seq(vin@))
            ==> r matches Err(VINError::ChecksumError(_)),
{
    match check_validity(vin) {
        Err(e) => Err(e),
        Ok(()) => {
            let expected = checksum::computed_check_char(vin);
            let received = upper_char(vin.get_char(8));
            assert(received == canon_seq(vin@)[8]);
            if received == expected {
                Ok(())
            } else {
                Err(VINError::ChecksumError(ChecksumErrorInfo { expected, received }))
            }
        },
    }
}

/// Holds the decoded information about a vehicle.  Built by [`get_info`];
/// the `vin` field then always carries the canonical (uppercased) form of
/// the accepted input.
#[derive(Debug)]
pub struct VIN {
    /// Canonical copy of the provided VIN number
    pub vin: String,
    /// Country of the manufacturer
    pub country: String,
    /// Name of the manufacturer
    pub manufacturer: String,
    /// Region of the manufacturer
    pub region: String,
    /// Whether the checksum of the VIN is valid
    pub valid_checksum: Result<(), ChecksumErrorInfo>,
}

impl Clone for VIN {
    /// A clone carries the same decoded information, field for field.
    fn clone(&self) -> (r: Self)
        ensures
            r.vin@ == self.vin@,
            r.country@ == self.country@,
            r.manufacturer@ == self.manufacturer@,
            r.region@ == self.region@,
            r.valid_checksum == self.valid_checksum,
    {
        VIN {
            vin: self.vin.clone(),
            country: self.country.clone(),
            manufacturer: self.manufacturer.clone(),
            region: self.region.clone(),
            valid_checksum: self.valid_checksum,
        }
    }
}

impl VIN {
    /// The stored number is a well-formed canonical VIN: seventeen
    /// characters, each from the allowed alphabet.
    pub open spec fn wf(&self) -> bool {
        self.vin@.len() == 17 && all_allowed(self.vin@)
    }

    /// Returns the WMI (world manufacturer identifier) part of the VIN,
    /// its first three characters.
    pub fn wmi(&self) -> (r: &str)
        requires
            self.wf(),
        ensures
            r@ == self.vin@.subrange(0, 3),
    {
        self.vin.as_str().substring_char(0, 3)
    }

    /// Returns the VDS (vehicle descriptor section) part of the VIN,
    /// characters 3 to 8.
    pub fn vds(&self) -> (r: &str)
        requires
            self.wf(),
        ensures
            r@ == self.vin@.subrange(3, 9),
    {
        self.vin.as_str().substring_char(3, 9)
    }

    /// Returns the VIS (vehicle identifier section) part of the VIN,
    /// characters 9 to 16.
    pub fn vis(&self) -> (r: &str)
        requires
            self.wf(),
        ensures
            r@ == self.vin@.subrange(9, 17),
    {
        self.vin.as_str().substring_char(9, 17)
    }

    /// Returns whether the manufacturer is small and carries no registered
    /// identifier of its own, signalled by '9' as the third character.
    pub fn small_manufacturer(&self) -> (r: bool)
        requires
            self.wf(),
        ensures
            r == (self.vin@[2] == '9'),
    {
        self.vin.as_str().get_char(2) == '9'
    }

    /// Returns the one-character region code of the VIN.
    pub fn region_code(&self) -> (r: &str)
        requires
            self.wf(),
        ensures
            r@ == self.vin@.subrange(0, 1),
    {
        self.vin.as_str().substring_char(0, 1)
    }

    /// Returns the two-character country code of the VIN.
    pub fn country_code(&self) -> (r: &str)
        requires
            self.wf(),
        ensures
            r@ == self.vin@.subrange(1, 3),
    {
        self.vin.as_str().substring_char(1, 3)
    }

    /// Returns the possible years of assembly: every year the character at
    /// position 9 encodes, from 1980 up to the current calendar year
    /// advanced by two.  The sequence is strictly ascending; it is the
    /// full bounded range of some ceiling the clock named.
    pub fn years(&self) -> (r: Vec<u32>)
        requires
            self.wf(),
        ensures
            exists|ceil: int|
                1972 <= ceil <= u32::MAX && r@ == year::spec_model_years(self.vin@[9], ceil),
            forall|i: int, j: int| 0 <= i < j < r@.len() ==> r@[i] < r@[j],
            forall|i: int| 0 <= i < r@.len() ==> 1980 <= #[trigger] r@[i]
                && year::spec_year_char(r@[i] as int) == self.vin@[9],
    {
        let secs = year::unix_seconds_now();
        let ceil64 = year::year_ceiling(secs);
        let ceiling: u32 = if ceil64 > u32::MAX as u64 {
            u32::MAX
        } else {
            ceil64 as u32
        };
        let year_code = self.vin.as_str().get_char(9);
        let r = year::model_years_up_to(year_code, ceiling);
        proof {
            year::lemma_model_years_sound(self.vin@[9], ceiling as int);
        }
        r
    }
}

/// Decodes a candidate VIN: validates its structure, resolves country,
/// manufacturer and region from its leading characters (an unregistered
/// code resolves to the empty string), and records the outcome of the
/// checksum comparison as data rather than a failure.
pub fn get_info(vin: &str) -> (r: Result<VIN, VINError>)
    ensures
        r matches Ok(_) <==> spec_structurally_valid(vin@),
        (match r {
            Ok(rec) => {
                &&& rec.wf()
                &&& rec.vin@ == canon_seq(vin@)
                &&& rec.country@ == dicts::spec_country_name(
                    canon_seq(vin@)[0],
                    canon_seq(vin@)[1],
                )
                &&& rec.manufacturer@ == dicts::spec_manufacturer_name(
                    canon_seq(vin@)[0],
                    canon_seq(vin@)[1],
                    canon_seq(vin@)[2],
                )
                &&& rec.region@ == dicts::spec_region_name(canon_seq(vin@)[0])
                &&& (rec.valid_checksum matches Ok(()) <==> canon_seq(vin@)[8] == spec_check_char(
                    canon_seq(vin@),
                ))
                &&& (match rec.valid_checksum {
                    Err(info) => {
                        &&& info.expected == spec_check_char(canon_seq(vin@))
                        &&& info.received == canon_seq(vin@)[8]
                        &&& info.expected != info.received
                    },
                    Ok(()) => true,
                })
            },
            Err(VINError::IncorrectLength) => vin@.len() != 17,
            Err(VINError::InvalidCharacters(cs)) => {
                &&& vin@.len() == 17
                &&& !all_allowed(canon_seq(vin@))
                &&& cs@.no_duplicates()
                &&& cs@.len() > 0
                &&& cs@.to_set() == spec_disallowed_set(canon_seq(vin@))
            },
            Err(VINError::ChecksumError(_)) => false,
        }),
{
    match check_validity(vin) {
        Err(e) => return Err(e),
        Ok(()) => (),
    }
    let ghost t = canon_seq(vin@);
    let mut canon: String = String::new();
    let mut i: usize = 0;
    while i < 17
        invariant
            i <= 17,
            vin@.len() == 17,
            all_allowed(t),
            t == canon_seq(vin@),
            canon@ == t.subrange(0, i as int),
        decreases 17 - i,
    {
        let c = upper_char(vin.get_char(i));
        assert(c == t[i as int]);
        canon.append(char_str(c));
        proof {
            assert(canon@ =~= t.subrange(0, i + 1));
        }
        i = i + 1;
    }
    proof {
        assert(canon@ =~= t);
    }
    let c0 = canon.as_str().get_char(0);
    let c1 = canon.as_str().get_char(1);
    let c2 = canon.as_str().get_char(2);
    let valid_checksum = match verify_checksum(vin) {
        Ok(()) => Ok(()),
        Err(VINError::ChecksumError(info)) => Err(info),
        Err(_) => unreached(),
    };
    Ok(
        VIN {
            vin: canon,
            country: String::from_str(dicts::country_name(c0, c1)),
            manufacturer: String::from_str(dicts::manufacturer_name(c0, c1, c2)),
            region: String::from_str(dicts::region_name(c0)),
            valid_checksum,
        },
    )
}

} // verus!
