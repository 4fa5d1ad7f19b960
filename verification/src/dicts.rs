//! Static lookup data of the VIN standard: the transliteration values and
//! positional weights of the check-digit computation, and the tables that
//! resolve region, country and manufacturer names from the first characters
//! of a VIN.  A lookup that misses resolves to the empty string rather than
//! failing.

use vstd::prelude::*;

verus! {

use crate::chars::is_allowed_char;

/// The ISO 3779 transliteration value of an allowed character: digits map to
/// themselves, letters repeat the values 1-9 (with no letter valued 6 in the
/// second run and none valued 1 or 6 in the third).
pub open spec fn spec_translit(c: char) -> int {
    if '0' <= c && c <= '9' {
        c as int - 48
    } else {
        match c {
            'A' | 'J' => 1,
            'B' | 'K' | 'S' => 2,
            'C' | 'L' | 'T' => 3,
            'D' | 'M' | 'U' => 4,
            'E' | 'N' | 'V' => 5,
            'F' | 'W' => 6,
            'G' | 'P' | 'X' => 7,
            'H' | 'Y' => 8,
            'R' | 'Z' => 9,
            _ => 0,
        }
    }
}

/// The positional weight of each of the seventeen characters in the
/// check-digit sum.  Position 8 is the check digit itself and carries
/// weight zero, so it never contributes to its own computation.
pub open spec fn spec_weight(i: int) -> int {
    if i == 0 { 8 }
    else if i == 1 { 7 }
    else if i == 2 { 6 }
    else if i == 3 { 5 }
    else if i == 4 { 4 }
    else if i == 5 { 3 }
    else if i == 6 { 2 }
    else if i == 7 { 10 }
    else if i == 8 { 0 }
    else if i == 9 { 9 }
    else if i == 10 { 8 }
    else if i == 11 { 7 }
    else if i == 12 { 6 }
    else if i == 13 { 5 }
    else if i == 14 { 4 }
    else if i == 15 { 3 }
    else if i == 16 { 2 }
    else { 0 }
}

pub fn translit_value(c: char) -> (r: u8)
    requires
        is_allowed_char(c),
    ensures
        r as int == spec_translit(c),
        r <= 9,
{
    if '0' <= c && c <= '9' {
        (c as u8) - 48
    } else {
        match c {
            'A' | 'J' => 1,
            'B' | 'K' | 'S' => 2,
            'C' | 'L' | 'T' => 3,
            'D' | 'M' | 'U' => 4,
            'E' | 'N' | 'V' => 5,
            'F' | 'W' => 6,
            'G' | 'P' | 'X' => 7,
            'H' | 'Y' => 8,
            'R' | 'Z' => 9,
            _ => 0,
        }
    }
}

pub fn weight_at(i: usize) -> (r: u8)
    requires
        i < 17,
    ensures
        r as int == spec_weight(i as int),
        r <= 10,
{
    if i == 0 { 8 }
    else if i == 1 { 7 }
    else if i == 2 { 6 }
    else if i == 3 { 5 }
    else if i == 4 { 4 }
    else if i == 5 { 3 }
    else if i == 6 { 2 }
    else if i == 7 { 10 }
    else if i == 8 { 0 }
    else if i == 9 { 9 }
    else if i == 10 { 8 }
    else if i == 11 { 7 }
    else if i == 12 { 6 }
    else if i == 13 { 5 }
    else if i == 14 { 4 }
    else if i == 15 { 3 }
    else { 2 }
}

/// The region encoded by the first VIN character.  Characters outside the
/// registered ranges resolve to the empty string.
pub open spec fn spec_region_name(c: char) -> Seq<char> {
    if 'A' <= c && c <= 'H' { "Africa"@ }
    else if 'J' <= c && c <= 'R' { "Asia"@ }
    else if 'S' <= c && c <= 'Z' { "Europe"@ }
    else if '1' <= c && c <= '5' { "North America"@ }
    else if c == '6' || c == '7' { "Oceania"@ }
    else if c == '8' || c == '9' { "South America"@ }
    else { ""@ }
}

/// The country encoded by the first two VIN characters.  Codes outside the
/// registered ranges resolve to the empty string.
pub open spec fn spec_country_name(c0: char, c1: char) -> Seq<char> {
    match c0 {
        'A' => if 'A' <= c1 && c1 <= 'H' { "South Africa"@ } else { ""@ },
        'J' => "Japan"@,
        'K' => if 'L' <= c1 && c1 <= 'R' { "South Korea"@ } else { ""@ },
        'L' => "China"@,
        'M' => if 'A' <= c1 && c1 <= 'E' { "India"@ } else { ""@ },
        'N' => if 'L' <= c1 && c1 <= 'R' { "Turkey"@ } else { ""@ },
        'S' => if 'A' <= c1 && c1 <= 'M' { "United Kingdom"@ }
               else if 'U' <= c1 && c1 <= 'Z' { "Poland"@ }
               else { ""@ },
        'T' => if 'A' <= c1 && c1 <= 'H' { "Switzerland"@ }
               else if 'J' <= c1 && c1 <= 'P' { "Czech Republic"@ }
               else if 'R' <= c1 && c1 <= 'V' { "Hungary"@ }
               else if c1 == 'W' { "Portugal"@ }
               else { ""@ },
        'V' => if 'A' <= c1 && c1 <= 'E' { "Austria"@ }
               else if 'F' <= c1 && c1 <= 'R' { "France"@ }
               else if 'S' <= c1 && c1 <= 'W' { "Spain"@ }
               else { ""@ },
        'W' => "Germany/West Germany"@,
        'X' => if 'S' <= c1 && c1 <= 'W' { "Russia"@ } else { ""@ },
        'Y' => if 'A' <= c1 && c1 <= 'E' { "Belgium"@ }
               else if 'F' <= c1 && c1 <= 'K' { "Finland"@ }
               else if 'S' <= c1 && c1 <= 'W' { "Sweden"@ }
               else { ""@ },
        'Z' => if 'A' <= c1 && c1 <= 'R' { "Italy"@ } else { ""@ },
        '1' | '4' | '5' => "United States"@,
        '2' => "Canada"@,
        '3' => "Mexico"@,
        '6' => "Australia"@,
        '7' => "New Zealand"@,
        '8' => if 'A' <= c1 && c1 <= 'E' { "Argentina"@ } else { ""@ },
        '9' => if 'A' <= c1 && c1 <= 'E' { "Brazil"@ } else { ""@ },
        _ => ""@,
    }
}

/// The manufacturer registered under the three-character world manufacturer
/// identifier.  Identifiers not in the table resolve to the empty string.
pub open spec fn spec_manufacturer_name(c0: char, c1: char, c2: char) -> Seq<char> {
    match (c0, c1, c2) {
        ('W', 'P', '0') => "Porsche car"@,
        ('W', 'P', '1') => "Porsche SUV"@,
        ('W', 'V', 'W') => "Volkswagen cars"@,
        ('W', 'V', '1') => "Volkswagen commercial vehicles"@,
        ('W', 'V', '2') => "Volkswagen bus/van"@,
        ('W', 'A', 'U') => "Audi"@,
        ('W', 'B', 'A') => "BMW"@,
        ('W', 'D', 'B') => "Mercedes-Benz"@,
        ('W', 'M', 'E') => "Smart"@,
        ('W', '0', 'L') => "Opel"@,
        ('1', 'H', 'G') => "Honda USA"@,
        ('2', 'H', 'G') => "Honda Canada"@,
        ('J', 'H', 'M') => "Honda"@,
        ('J', 'N', '1') => "Nissan"@,
        ('J', 'M', 'Z') => "Mazda"@,
        ('J', 'F', '1') => "Subaru"@,
        ('1', 'F', 'A') => "Ford Motor Company"@,
        ('5', 'Y', 'J') => "Tesla"@,
        ('K', 'M', 'H') => "Hyundai"@,
        ('K', 'N', 'A') => "Kia"@,
        ('V', 'F', '1') => "Renault"@,
        ('V', 'F', '3') => "Peugeot"@,
        ('V', 'F', '7') => "Citroen"@,
        ('V', 'S', 'S') => "SEAT"@,
        ('Z', 'F', 'A') => "Fiat"@,
        ('Z', 'A', 'R') => "Alfa Romeo"@,
        ('Y', 'V', '1') => "Volvo cars"@,
        ('X', 'T', 'A') => "Lada/AvtoVAZ"@,
        ('S', 'A', 'J') => "Jaguar"@,
        ('S', 'A', 'L') => "Land Rover"@,
        ('T', 'M', 'B') => "Skoda"@,
        ('T', 'R', 'U') => "Audi Hungary"@,
        ('9', 'B', 'W') => "Volkswagen Brazil"@,
        ('3', 'V', 'W') => "Volkswagen Mexico"@,
        _ => ""@,
    }
}

pub fn region_name(c: char) -> (r: &'static str)
    ensures
        r@ == spec_region_name(c),
{
    if 'A' <= c && c <= 'H' { "Africa" }
    else if 'J' <= c && c <= 'R' { "Asia" }
    else if 'S' <= c && c <= 'Z' { "Europe" }
    else if '1' <= c && c <= '5' { "North America" }
    else if c == '6' || c == '7' { "Oceania" }
    else if c == '8' || c == '9' { "South America" }
    else { "" }
}

pub fn country_name(c0: char, c1: char) -> (r: &'static str)
    ensures
        r@ == spec_country_name(c0, c1),
{
    match c0 {
        'A' => if 'A' <= c1 && c1 <= 'H' { "South Africa" } else { "" },
        'J' => "Japan",
        'K' => if 'L' <= c1 && c1 <= 'R' { "South Korea" } else { "" },
        'L' => "China",
        'M' => if 'A' <= c1 && c1 <= 'E' { "India" } else { "" },
        'N' => if 'L' <= c1 && c1 <= 'R' { "Turkey" } else { "" },
        'S' => if 'A' <= c1 && c1 <= 'M' { "United Kingdom" }
               else if 'U' <= c1 && c1 <= 'Z' { "Poland" }
               else { "" },
        'T' => if 'A' <= c1 && c1 <= 'H' { "Switzerland" }
               else if 'J' <= c1 && c1 <= 'P' { "Czech Republic" }
               else if 'R' <= c1 && c1 <= 'V' { "Hungary" }
               else if c1 == 'W' { "Portugal" }
               else { "" },
        'V' => if 'A' <= c1 && c1 <= 'E' { "Austria" }
               else if 'F' <= c1 && c1 <= 'R' { "France" }
               else if 'S' <= c1 && c1 <= 'W' { "Spain" }
               else { "" },
        'W' => "Germany/West Germany",
        'X' => if 'S' <= c1 && c1 <= 'W' { "Russia" } else { "" },
        'Y' => if 'A' <= c1 && c1 <= 'E' { "Belgium" }
               else if 'F' <= c1 && c1 <= 'K' { "Finland" }
               else if 'S' <= c1 && c1 <= 'W' { "Sweden" }
               else { "" },
        'Z' => if 'A' <= c1 && c1 <= 'R' { "Italy" } else { "" },
        '1' | '4' | '5' => "United States",
        '2' => "Canada",
        '3' => "Mexico",
        '6' => "Australia",
        '7' => "New Zealand",
        '8' => if 'A' <= c1 && c1 <= 'E' { "Argentina" } else { "" },
        '9' => if 'A' <= c1 && c1 <= 'E' { "Brazil" } else { "" },
        _ => "",
    }
}

pub fn manufacturer_name(c0: char, c1: char, c2: char) -> (r: &'static str)
    ensures
        r@ == spec_manufacturer_name(c0, c1, c2),
{
    match (c0, c1, c2) {
        ('W', 'P', '0') => "Porsche car",
        ('W', 'P', '1') => "Porsche SUV",
        ('W', 'V', 'W') => "Volkswagen cars",
        ('W', 'V', '1') => "Volkswagen commercial vehicles",
        ('W', 'V', '2') => "Volkswagen bus/van",
        ('W', 'A', 'U') => "Audi",
        ('W', 'B', 'A') => "BMW",
        ('W', 'D', 'B') => "Mercedes-Benz",
        ('W', 'M', 'E') => "Smart",
        ('W', '0', 'L') => "Opel",
        ('1', 'H', 'G') => "Honda USA",
        ('2', 'H', 'G') => "Honda Canada",
        ('J', 'H', 'M') => "Honda",
        ('J', 'N', '1') => "Nissan",
        ('J', 'M', 'Z') => "Mazda",
        ('J', 'F', '1') => "Subaru",
        ('1', 'F', 'A') => "Ford Motor Company",
        ('5', 'Y', 'J') => "Tesla",
        ('K', 'M', 'H') => "Hyundai",
        ('K', 'N', 'A') => "Kia",
        ('V', 'F', '1') => "Renault",
        ('V', 'F', '3') => "Peugeot",
        ('V', 'F', '7') => "Citroen",
        ('V', 'S', 'S') => "SEAT",
        ('Z', 'F', 'A') => "Fiat",
        ('Z', 'A', 'R') => "Alfa Romeo",
        ('Y', 'V', '1') => "Volvo cars",
        ('X', 'T', 'A') => "Lada/AvtoVAZ",
        ('S', 'A', 'J') => "Jaguar",
        ('S', 'A', 'L') => "Land Rover",
        ('T', 'M', 'B') => "Skoda",
        ('T', 'R', 'U') => "Audi Hungary",
        ('9', 'B', 'W') => "Volkswagen Brazil",
        ('3', 'V', 'W') => "Volkswagen Mexico",
        _ => "",
    }
}

} // verus!
