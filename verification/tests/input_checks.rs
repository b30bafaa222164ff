use notify_scheduler::error::Error;
use notify_scheduler::utils::{check_station_code, check_zip_code};

fn invalid(message: &str) -> Error {
    Error::Invalid(message.to_string())
}

#[test]
fn five_digits_are_a_zip_code() {
    assert_eq!(check_zip_code("94105"), Ok(94105));
    assert_eq!(check_zip_code("10001"), Ok(10001));
    assert_eq!(check_zip_code("99999"), Ok(99999));
    assert_eq!(check_zip_code("00000"), Ok(0));
}

#[test]
fn leading_zeros_do_not_count() {
    assert_eq!(check_zip_code("02134"), Ok(2134));
    assert_eq!(check_zip_code("00501"), Ok(501));
}

#[test]
fn sign_takes_the_place_of_a_digit() {
    assert_eq!(check_zip_code("+1234"), Ok(1234));
    assert_eq!(check_zip_code("-1234"), Ok(-1234));
    assert_eq!(check_zip_code("-0000"), Ok(0));
}

#[test]
fn other_lengths_are_not_five_digits() {
    for arg in ["", "1", "9410", "941050", "94105 ", " 94105", "abc", "ninety"] {
        assert_eq!(check_zip_code(arg), Err(invalid("The zip code provided is not five digits")));
    }
}

#[test]
fn five_bytes_that_are_no_number_are_invalid() {
    for arg in ["abcde", "9410x", "x4105", "94 05", "12.45", "1e100", "+-123", "--123", "1234+", "12_45"]
    {
        assert_eq!(check_zip_code(arg), Err(invalid("The zip code provided is invalid")));
    }
}

#[test]
fn length_is_counted_in_bytes() {
    // Two letters of two bytes each and one digit make five bytes.
    assert_eq!(check_zip_code("éé1"), Err(invalid("The zip code provided is invalid")));
    // Five letters of two bytes each make ten.
    assert_eq!(
        check_zip_code("ééééé"),
        Err(invalid("The zip code provided is not five digits"))
    );
}

#[test]
fn zip_code_check_agrees_with_the_standard_parser() {
    let bytes = [b'0', b'1', b'9', b'+', b'-', b' ', b'a'];
    for a in bytes {
        for b in bytes {
            for c in bytes {
                for d in bytes {
                    for e in bytes {
                        let arg = String::from_utf8(vec![a, b, c, d, e]).unwrap();
                        assert_eq!(check_zip_code(&arg).ok(), arg.parse::<i32>().ok());
                    }
                }
            }
        }
    }
}

#[test]
fn four_letters_from_k_are_a_station_code() {
    assert_eq!(check_station_code("KSFO"), Ok(()));
    assert_eq!(check_station_code("KJFK"), Ok(()));
    assert_eq!(check_station_code("K123"), Ok(()));
}

#[test]
fn station_codes_of_other_countries_are_refused() {
    for station in ["EGLL", "CYYZ", "ksfo", "1234", " KSF"] {
        assert_eq!(
            check_station_code(station),
            Err(invalid("U.S. station codes only (e.g., KSFO, KJFK)"))
        );
    }
}

#[test]
fn station_codes_of_other_lengths_are_invalid() {
    for station in ["", "K", "KSF", "KSFOX", "KSFO ", "ÉÉÉ"] {
        assert_eq!(
            check_station_code(station),
            Err(invalid("The station code provided is invalid"))
        );
    }
}

#[test]
fn message_is_the_text_of_either_variant() {
    assert_eq!(Error::Invalid("bad input".into()).message(), "bad input");
    assert_eq!(Error::NotFound("no such place".into()).message(), "no such place");
}
