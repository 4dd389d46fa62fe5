use wifi_select::errors::WifiError;
use wifi_select::parse::get_ssids;

#[test]
fn listing_yields_identifiers_in_order() {
    let out = get_ssids("HEADER\nAA:BB SSID_ONE more cols\nCC:DD SSID_TWO\n").unwrap();
    assert_eq!(out, vec!["SSID_ONE".to_string(), "SSID_TWO".to_string()]);
}

#[test]
fn empty_listing_yields_no_identifiers() {
    assert_eq!(get_ssids("").unwrap(), Vec::<String>::new());
}

#[test]
fn header_alone_yields_no_identifiers() {
    assert_eq!(get_ssids("HEADER\n").unwrap(), Vec::<String>::new());
    assert_eq!(get_ssids("HEADER").unwrap(), Vec::<String>::new());
}

#[test]
fn identifier_runs_to_end_of_line_without_a_space() {
    let out = get_ssids("HEADER\nAA:BB LAST").unwrap();
    assert_eq!(out, vec!["LAST".to_string()]);
}

#[test]
fn carriage_returns_are_stripped() {
    let out = get_ssids("HEADER\r\nAA:BB ONE\r\nCC:DD TWO\r\n").unwrap();
    assert_eq!(out, vec!["ONE".to_string(), "TWO".to_string()]);
}

#[test]
fn line_at_exactly_the_column_gives_an_empty_identifier() {
    let out = get_ssids("HEADER\nAA:BB \n").unwrap();
    assert_eq!(out, vec!["".to_string()]);
}

#[test]
fn short_line_is_a_parse_failure_naming_the_line() {
    let err = get_ssids("HEADER\nAA:BB OK\nBAD\nCC:DD NEXT\n").unwrap_err();
    assert_eq!(err, WifiError::Parse("BAD".to_string()));
}

#[test]
fn short_header_is_no_failure() {
    let out = get_ssids("H\nAA:BB NET\n").unwrap();
    assert_eq!(out, vec!["NET".to_string()]);
}
