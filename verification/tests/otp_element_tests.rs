use otpauth::OTPElement;
use otpauth::QrEncodeError;

fn element(
    secret: &str,
    issuer: &str,
    label: &str,
    digits: u64,
    type_: &str,
    algorithm: &str,
    period: u64,
    counter: Option<u64>,
    yandex_pin: Option<String>,
) -> OTPElement {
    OTPElement::new(
        String::from(secret),
        String::from(issuer),
        String::from(label),
        digits,
        String::from(type_),
        String::from(algorithm),
        period,
        counter,
        yandex_pin,
    )
}

#[test]
fn test_otpauth_uri() {
    let otp_element = OTPElement::new(
        String::from("xr5gh44x7bprcqgrdtulafeevt5rxqlbh5wvked22re43dh2d4mapv5g"),
        String::from("IssuerText"),
        String::from("LabelText"),
        6,
        String::from("TOTP"),
        String::from("SHA1"),
        30,
        None,
        None,
    );
    assert_eq!(otp_element.get_otpauth_uri().as_str(), "otpauth://totp/IssuerText:LabelText?secret=xr5gh44x7bprcqgrdtulafeevt5rxqlbh5wvked22re43dh2d4mapv5g&algorithm=SHA1&digits=6&period=30&lock=false");
}

#[test]
fn secret_accessor_strips_padding() {
    let e = element(
        "mfrggzdf===",
        "Issuer",
        "Label",
        6,
        "TOTP",
        "SHA1",
        30,
        None,
        None,
    );
    assert_eq!(e.secret(), "mfrggzdf");
    assert!(!e.secret().contains('='));
    // the stored value is not mutated by the stripping accessor
    assert_eq!(e.secret(), "mfrggzdf");
    let uri = e.get_otpauth_uri();
    assert!(uri.contains("?secret=mfrggzdf&"));
}

#[test]
fn secret_with_inner_padding_loses_every_equals_sign() {
    let e = element(
        "ab=cd==ef=",
        "Issuer",
        "Label",
        6,
        "TOTP",
        "SHA1",
        30,
        None,
        None,
    );
    assert_eq!(e.secret(), "abcdef");
}

#[test]
fn totp_uri_has_no_counter() {
    let e = element(
        "abcd",
        "Issuer",
        "Label",
        8,
        "TOTP",
        "SHA256",
        60,
        Some(7),
        None,
    );
    let uri = e.get_otpauth_uri();
    assert!(!uri.contains("counter="));
    assert!(uri.starts_with("otpauth://totp/"));
}

#[test]
fn hotp_uri_has_stored_counter() {
    let e = element(
        "abcd",
        "Issuer",
        "Label",
        6,
        "HOTP",
        "SHA1",
        30,
        Some(42),
        None,
    );
    let uri = e.get_otpauth_uri();
    assert!(uri.starts_with("otpauth://hotp/"));
    assert!(uri.ends_with("&counter=42"));
}

#[test]
fn hotp_uri_defaults_absent_counter_to_zero() {
    let e = element("abcd", "Issuer", "Label", 6, "HOTP", "SHA1", 30, None, None);
    assert!(e.get_otpauth_uri().ends_with("&counter=0"));
}

#[test]
fn hotp_type_is_read_case_insensitively() {
    let e = element("abcd", "Issuer", "Label", 6, "HoTp", "SHA1", 30, Some(3), None);
    let uri = e.get_otpauth_uri();
    assert!(uri.starts_with("otpauth://hotp/"));
    assert!(uri.ends_with("&counter=3"));
}

#[test]
fn issuer_and_label_are_percent_encoded() {
    let e = element(
        "abcd",
        "Issuer Text:",
        "user name@example.com",
        6,
        "TOTP",
        "SHA1",
        30,
        None,
        None,
    );
    let uri = e.get_otpauth_uri();
    assert!(uri.starts_with("otpauth://totp/Issuer%20Text%3A:user%20name%40example.com?"));
}

#[test]
fn percent_encoding_round_trips_issuer_and_label() {
    let issuer = "My Issuer: A&B?";
    let label = "la bel/with?reserved&chars=";
    let e = element("abcd", issuer, label, 6, "TOTP", "SHA1", 30, None, None);
    let uri = e.get_otpauth_uri();
    let rest = uri.strip_prefix("otpauth://totp/").unwrap();
    let path = &rest[..rest.find('?').unwrap()];
    let colon = path.find(':').unwrap();
    let encoded_issuer = &path[..colon];
    let encoded_label = &path[colon + 1..];
    assert_eq!(urlencoding::decode(encoded_issuer).unwrap(), issuer);
    assert_eq!(urlencoding::decode(encoded_label).unwrap(), label);
}

#[test]
fn algorithm_is_emitted_upper_cased() {
    let e = element("abcd", "Issuer", "Label", 6, "TOTP", "sha1", 30, None, None);
    assert!(e.get_otpauth_uri().contains("&algorithm=SHA1&"));
    let e = element("abcd", "Issuer", "Label", 6, "TOTP", "Sha256", 30, None, None);
    assert!(e.get_otpauth_uri().contains("&algorithm=SHA256&"));
}

#[test]
fn empty_issuer_emits_no_issuer_segment() {
    let e = element("abcd", "", "LabelText", 6, "TOTP", "SHA1", 30, None, None);
    let uri = e.get_otpauth_uri();
    assert!(uri.starts_with("otpauth://totp/LabelText?"));
    let path = &uri["otpauth://".len()..uri.find('?').unwrap()];
    assert!(!path.contains(':'));
}

#[test]
fn degenerate_empty_fields_still_derive_a_uri() {
    let e = element("", "", "", 6, "", "", 30, None, None);
    assert_eq!(
        e.get_otpauth_uri(),
        "otpauth:///?secret=&algorithm=&digits=6&period=30&lock=false"
    );
}

#[test]
fn steam_and_yandex_only_change_the_scheme_segment() {
    let steam = element("abcd", "Valve", "me", 5, "STEAM", "SHA1", 30, None, None);
    let uri = steam.get_otpauth_uri();
    assert!(uri.starts_with("otpauth://steam/"));
    assert!(!uri.contains("counter="));

    let yandex = element(
        "abcd",
        "Yandex",
        "me",
        8,
        "YANDEX",
        "SHA256",
        30,
        None,
        Some(String::from("1234")),
    );
    let uri = yandex.get_otpauth_uri();
    assert!(uri.starts_with("otpauth://yandex/"));
    assert!(!uri.contains("counter="));
    assert!(!uri.contains("1234"));
}

#[test]
fn digits_and_period_are_rendered_in_decimal() {
    let e = element("abcd", "Issuer", "Label", 0, "TOTP", "SHA1", 0, None, None);
    assert!(e.get_otpauth_uri().contains("&digits=0&period=0&"));
    let e = element(
        "abcd",
        "Issuer",
        "Label",
        10,
        "TOTP",
        "SHA1",
        18446744073709551615,
        None,
        None,
    );
    assert!(e
        .get_otpauth_uri()
        .contains("&digits=10&period=18446744073709551615&"));
}

#[test]
fn getters_return_stored_values() {
    let e = element(
        "secret==",
        "Issuer",
        "Label",
        7,
        "HOTP",
        "sha512",
        45,
        Some(9),
        Some(String::from("0000")),
    );
    assert_eq!(e.issuer(), "Issuer");
    assert_eq!(e.label(), "Label");
    assert_eq!(e.digits(), 7);
    assert_eq!(e.type_(), "HOTP");
    assert_eq!(e.algorithm(), "sha512");
    assert_eq!(e.period(), 45);
    assert_eq!(e.counter(), Some(9));
    assert_eq!(e.yandex_pin(), Some(String::from("0000")));
}

#[test]
fn setters_replace_stored_values() {
    let mut e = element("old", "OldIssuer", "OldLabel", 6, "HOTP", "sha1", 30, None, None);
    e.set_secret(String::from("newsecret=="));
    e.set_label(String::from("NewLabel"));
    e.set_issuer(String::from("NewIssuer"));
    e.set_algorithm(String::from("sha256"));
    e.set_digits(8);
    e.set_counter(Some(11));
    assert_eq!(e.secret(), "newsecret");
    assert_eq!(e.label(), "NewLabel");
    assert_eq!(e.issuer(), "NewIssuer");
    assert_eq!(e.algorithm(), "sha256");
    assert_eq!(e.digits(), 8);
    assert_eq!(e.counter(), Some(11));
    assert_eq!(
        e.get_otpauth_uri(),
        "otpauth://hotp/NewIssuer:NewLabel?secret=newsecret&algorithm=SHA256&digits=8&period=30&lock=false&counter=11"
    );
}

#[test]
fn raw_secret_keeps_padding_verbatim() {
    let e = element(
        "mfrggzdf===",
        "Issuer",
        "Label",
        6,
        "TOTP",
        "SHA1",
        30,
        None,
        None,
    );
    assert_eq!(e.raw_secret(), "mfrggzdf===");
    assert_eq!(e.secret(), "mfrggzdf");
    // reading the stripped form does not touch the stored value
    assert_eq!(e.raw_secret(), "mfrggzdf===");
}

#[test]
fn metadata_fields_default_empty_and_round_trip_through_setters() {
    let mut e = element("abcd", "Issuer", "Label", 6, "TOTP", "SHA1", 30, None, None);
    assert_eq!(e.thumbnail(), "");
    assert_eq!(e.last_used(), 0);
    assert_eq!(e.used_frequency(), 0);
    assert_eq!(e.tags(), Vec::<String>::new());

    e.set_thumbnail(String::from("Default"));
    e.set_last_used(1700000000);
    e.set_used_frequency(3);
    e.set_tags(vec![String::from("work"), String::from("mail")]);
    assert_eq!(e.thumbnail(), "Default");
    assert_eq!(e.last_used(), 1700000000);
    assert_eq!(e.used_frequency(), 3);
    assert_eq!(e.tags(), vec![String::from("work"), String::from("mail")]);
    // metadata has no effect on the derived URI
    assert_eq!(
        e.get_otpauth_uri(),
        "otpauth://totp/Issuer:Label?secret=abcd&algorithm=SHA1&digits=6&period=30&lock=false"
    );
}

#[test]
fn qrcode_renders_ordinary_payloads() {
    let e = element(
        "xr5gh44x7bprcqgrdtulafeevt5rxqlbh5wvked22re43dh2d4mapv5g",
        "IssuerText",
        "LabelText",
        6,
        "TOTP",
        "SHA1",
        30,
        None,
        None,
    );
    let text = e.get_qrcode().unwrap();
    assert!(!text.is_empty());
    assert_ne!(text, e.get_otpauth_uri());
}

#[test]
fn qrcode_reports_an_oversized_payload_as_an_error() {
    let e = element(
        "a".repeat(8000).as_str(),
        "Issuer",
        "Label",
        6,
        "TOTP",
        "SHA1",
        30,
        None,
        None,
    );
    assert_eq!(e.get_qrcode(), Err(QrEncodeError::PayloadRejected));
}
