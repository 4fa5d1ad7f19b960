use vin::year::model_years_up_to;
use vin::{check_validity, get_info, verify_checksum, VINError};

#[test]
fn canonicalization_stable() {
    let lower = check_validity("wp0zzz99zts392124");
    let upper = check_validity("WP0ZZZ99ZTS392124");
    assert!(lower.is_ok() && upper.is_ok());

    let lower_bad = check_validity("abcdefghioq_958.!");
    let upper_bad = check_validity("ABCDEFGHIOQ_958.!");
    let mut l = match lower_bad {
        Err(VINError::InvalidCharacters(cs)) => cs,
        _ => panic!("expected an alphabet failure"),
    };
    let mut u = match upper_bad {
        Err(VINError::InvalidCharacters(cs)) => cs,
        _ => panic!("expected an alphabet failure"),
    };
    l.sort();
    u.sort();
    assert_eq!(l, u);
}

#[test]
fn wrong_lengths_rejected() {
    for s in ["", "1", "WP0ZZZ99ZTS39212", "WP0ZZZ99ZTS3921244"] {
        assert!(match check_validity(s) {
            Err(VINError::IncorrectLength) => true,
            _ => false,
        });
    }
}

#[test]
fn offending_characters_are_distinct() {
    let result = check_validity("!!000000000000000");
    let offenders = match result {
        Err(VINError::InvalidCharacters(cs)) => cs,
        _ => panic!("expected an alphabet failure"),
    };
    assert_eq!(offenders, vec!['!']);

    let result = check_validity("a?a?a?a?a?a?a?a?.");
    let mut offenders = match result {
        Err(VINError::InvalidCharacters(cs)) => cs,
        _ => panic!("expected an alphabet failure"),
    };
    offenders.sort();
    assert_eq!(offenders, vec!['.', '?']);
}

#[test]
fn checksum_of_all_ones() {
    assert!(verify_checksum("11111111111111111").is_ok());
}

#[test]
fn decode_lowercase_porsche() {
    let result = get_info("wp0zzz998ts392124").unwrap();
    assert_eq!(result.vin, "WP0ZZZ998TS392124");
    assert_eq!(result.country, "Germany/West Germany");
    assert_eq!(result.manufacturer, "Porsche car");
    assert_eq!(result.region, "Europe");
    assert!(result.valid_checksum.is_ok());
}

#[test]
fn decode_of_empty_input_fails() {
    assert!(match get_info("") {
        Err(VINError::IncorrectLength) => true,
        _ => false,
    });
}

#[test]
fn decode_sections() {
    let rec = get_info("WP0ZZZ99ZTS392124").unwrap();
    assert_eq!(rec.wmi(), "WP0");
    assert_eq!(rec.vds(), "ZZZ99Z");
    assert_eq!(rec.vis(), "TS392124");
    assert_eq!(rec.region_code(), "W");
    assert_eq!(rec.country_code(), "P0");
    assert!(!rec.small_manufacturer());

    let small = get_info("WP9ZZZ99ZTS392124").unwrap();
    assert!(small.small_manufacturer());
}

#[test]
fn decode_north_american() {
    let rec = get_info("1M8GDM9AXKP042788").unwrap();
    assert_eq!(rec.region, "North America");
    assert_eq!(rec.country, "United States");
    // an unregistered manufacturer identifier resolves to the fallback
    assert_eq!(rec.manufacturer, "");
    assert!(rec.valid_checksum.is_ok());
}

#[test]
fn check_digit_not_self_referential() {
    // the two inputs differ only at the check-digit position, and the
    // computed character is the same '8' for both
    match verify_checksum("WP0ZZZ99ZTS392124") {
        Err(VINError::ChecksumError(info)) => {
            assert_eq!(info.expected, '8');
            assert_eq!(info.received, 'Z');
        }
        _ => panic!("expected a checksum failure"),
    }
    assert!(verify_checksum("WP0ZZZ998TS392124").is_ok());
}

#[test]
fn model_year_cycle() {
    // 'T' sits at offset 16 of the cycle: 1996, then again 30 years later
    assert_eq!(model_years_up_to('T', 2028), vec![1996, 2026]);
    // 'A' opens the cycle in 1980
    assert_eq!(model_years_up_to('A', 2010), vec![1980, 2010]);
    assert_eq!(model_years_up_to('A', 2009), vec![1980]);
    // 'Z' is allowed in a VIN but encodes no model year
    assert_eq!(model_years_up_to('Z', 2050), Vec::<u32>::new());
    // nothing is encoded before the cycle starts
    assert_eq!(model_years_up_to('T', 1979), Vec::<u32>::new());
}

#[test]
fn live_years_follow_the_cycle() {
    let rec = get_info("WP0ZZZ99ZTS392124").unwrap();
    let years = rec.years();
    assert!(!years.is_empty());
    for w in years.windows(2) {
        assert!(w[0] < w[1]);
    }
    for &y in years.iter() {
        assert!(y >= 1980);
        // 'T' sits at offset 16 of the 30-year cycle
        assert_eq!((y - 1980) % 30, 16);
    }
}

#[test]
fn error_messages() {
    assert_eq!(
        check_validity("").unwrap_err().message(),
        "Incorrect length of given string, 17 chars expected."
    );
    assert_eq!(
        check_validity("abcdefghioq_958.!").unwrap_err().message(),
        "Invalid characters received in given string."
    );
    assert_eq!(
        verify_checksum("WP0ZZZ99ZTS392124").unwrap_err().message(),
        "Invalid checksum symbol on 9th place."
    );
}
