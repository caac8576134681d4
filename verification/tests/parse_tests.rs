use bell_server::decimal::{parse_port, u64_to_string};
use bell_server::parse::{parse_challenge, parse_response};
use bell_server::SipError;

#[test]
fn challenge_is_extracted_exactly() {
    let text = "SIP/2.0 401 Unauthorized\nWWW-Authenticate: Digest realm=\"example.com\", nonce=\"ABC123\"\n\n";
    let c = parse_challenge(text).unwrap();
    assert_eq!(c.realm, "example.com");
    assert_eq!(c.nonce, "ABC123");
}

#[test]
fn challenge_is_extracted_from_bytes() {
    let bytes = b"SIP/2.0 401 Unauthorized\nWWW-Authenticate: Digest realm=\"example.com\", nonce=\"ABC123\"\n\n";
    let c = parse_response(bytes).unwrap();
    assert_eq!(c.realm, "example.com");
    assert_eq!(c.nonce, "ABC123");
}

#[test]
fn first_challenge_wins() {
    let text = "realm=\"one\", nonce=\"AA\" and then realm=\"two\", nonce=\"BB\"";
    let c = parse_challenge(text).unwrap();
    assert_eq!(c.realm, "one");
    assert_eq!(c.nonce, "AA");
}

#[test]
fn nonce_stops_at_the_first_non_hex_character() {
    let text = "realm=\"r\", nonce=\"0123ABCDEF\"";
    let c = parse_challenge(text).unwrap();
    assert_eq!(c.nonce, "0123ABCDEF");
}

#[test]
fn missing_pattern_is_challenge_not_found() {
    let text = "SIP/2.0 200 OK\n\n";
    assert_eq!(parse_challenge(text).unwrap_err(), SipError::ChallengeNotFound);
}

#[test]
fn realm_spanning_a_line_break_is_no_match() {
    let text = "realm=\"one\ntwo\", nonce=\"AA\"";
    assert_eq!(parse_challenge(text).unwrap_err(), SipError::ChallengeNotFound);
}

#[test]
fn empty_realm_is_realm_missing() {
    let text = "Digest realm=\"\", nonce=\"ABC123\"";
    assert_eq!(parse_challenge(text).unwrap_err(), SipError::RealmMissing);
}

#[test]
fn empty_nonce_is_nonce_missing() {
    let text = "Digest realm=\"example.com\", nonce=\"\"";
    assert_eq!(parse_challenge(text).unwrap_err(), SipError::NonceMissing);
}

#[test]
fn invalid_bytes_are_invalid_encoding() {
    let bytes: Vec<u8> = vec![0x72, 0x65, 0xff, 0xfe, 0x00];
    assert_eq!(parse_response(&bytes).unwrap_err(), SipError::InvalidEncoding);
}

#[test]
fn port_in_range_parses() {
    assert_eq!(parse_port("5060").unwrap(), 5060);
    assert_eq!(parse_port("0").unwrap(), 0);
    assert_eq!(parse_port("65535").unwrap(), 65535);
    assert_eq!(parse_port("+80").unwrap(), 80);
}

#[test]
fn port_out_of_range_is_reported_with_its_value() {
    assert_eq!(parse_port("70000").unwrap_err(), "Port 70000 not in range 0-65535");
    assert_eq!(parse_port("-1").unwrap_err(), "Port -1 not in range 0-65535");
}

#[test]
fn text_that_is_no_number_is_rejected() {
    assert_eq!(parse_port("abc").unwrap_err(), "`abc` isn't a port number");
    assert_eq!(parse_port("").unwrap_err(), "`` isn't a port number");
    assert_eq!(parse_port("-").unwrap_err(), "`-` isn't a port number");
    assert_eq!(parse_port("12x").unwrap_err(), "`12x` isn't a port number");
    assert_eq!(
        parse_port("99999999999").unwrap_err(),
        "`99999999999` isn't a port number"
    );
}

#[test]
fn u64_renders_as_decimal() {
    assert_eq!(u64_to_string(0), "0");
    assert_eq!(u64_to_string(7), "7");
    assert_eq!(u64_to_string(5060), "5060");
    assert_eq!(u64_to_string(1731500000), "1731500000");
    assert_eq!(u64_to_string(u64::MAX), "18446744073709551615");
}
