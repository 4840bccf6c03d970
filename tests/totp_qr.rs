use totp_qr::batch::{file_name, process_entry, process_export, EntryError};
use totp_qr::descriptor::{
    build_totp, build_totp_from, decode_secret, parse_algorithm, strip_padding, Algorithm,
    ValidationError,
};
use totp_qr::entry::{Entry, Export};
use totp_qr::qr::render;
use totp_qr::text::{keep_in_name, push_decimal, sanitize};
use totp_qr::uri::{canonical_secret, encode, secret_base32};

fn entry(user: &str, label: &str, secret: &str, alg: &str, digits: u32, period: u64) -> Entry {
    Entry::new(
        user.to_string(),
        label.to_string(),
        secret.to_string(),
        alg.to_string(),
        digits,
        period,
    )
}

fn github() -> Entry {
    entry("alice@example.com", "GitHub", "JBSWY3DPEHPK3PXP", "SHA1", 6, 30)
}

const PNG_MAGIC: [u8; 8] = [0x89, b'P', b'N', b'G', 0x0d, 0x0a, 0x1a, 0x0a];

#[test]
fn sanitize_examples() {
    assert_eq!(sanitize("My App!"), "MyApp");
    assert_eq!(sanitize("a/b c"), "abc");
}

#[test]
fn sanitize_edges() {
    assert_eq!(sanitize(""), "");
    assert_eq!(sanitize("!@#"), "");
    assert_eq!(sanitize("a-b_C9"), "a-b_C9");
    assert_eq!(sanitize("héllo.txt"), "hllotxt");
    assert!(keep_in_name('_'));
    assert!(!keep_in_name('.'));
}

#[test]
fn decimal_rendering() {
    let mut s = String::from("x=");
    push_decimal(&mut s, 0);
    assert_eq!(s, "x=0");
    let mut s = String::new();
    push_decimal(&mut s, 1234567890);
    assert_eq!(s, "1234567890");
    let mut s = String::new();
    push_decimal(&mut s, u64::MAX);
    assert_eq!(s, u64::MAX.to_string());
}

#[test]
fn algorithm_names() {
    assert_eq!(parse_algorithm("SHA1"), Some(Algorithm::SHA1));
    assert_eq!(parse_algorithm("SHA256"), Some(Algorithm::SHA256));
    assert_eq!(parse_algorithm("SHA512"), Some(Algorithm::SHA512));
    assert_eq!(parse_algorithm("sha1"), None);
    assert_eq!(parse_algorithm("MD5"), None);
    assert_eq!(Algorithm::SHA512.name(), "SHA512");
}

#[test]
fn valid_entries_build_in_any_casing() {
    for (alg, expected, name) in [
        ("SHA1", Algorithm::SHA1, "SHA1"),
        ("sha1", Algorithm::SHA1, "SHA1"),
        ("Sha256", Algorithm::SHA256, "SHA256"),
        ("sha512", Algorithm::SHA512, "SHA512"),
    ] {
        for digits in [6u32, 7, 8] {
            let e = entry("bob", "Acme", "JBSWY3DPEHPK3PXP", alg, digits, 45);
            let d = build_totp(&e).expect("valid entry");
            assert_eq!(d.algorithm, expected);
            assert_eq!(d.digits, digits);
            assert_eq!(d.period, 45);
            let uri = encode(&d);
            assert!(uri.contains(&format!("algorithm={}", name)));
            assert!(uri.contains(&format!("digits={}", digits)));
            assert!(uri.contains("period=45"));
        }
    }
}

#[test]
fn invalid_digits_rejected() {
    for digits in [0u32, 4, 5, 9, 10] {
        let e = entry("bob", "Acme", "JBSWY3DPEHPK3PXP", "SHA1", digits, 30);
        match build_totp(&e) {
            Err(ValidationError::InvalidDigits(d)) => assert_eq!(d, digits),
            other => panic!("unexpected: {:?}", other.err()),
        }
    }
}

#[test]
fn zero_period_rejected() {
    let e = entry("bob", "Acme", "JBSWY3DPEHPK3PXP", "SHA256", 6, 0);
    assert!(matches!(build_totp(&e), Err(ValidationError::InvalidPeriod)));
}

#[test]
fn unknown_algorithm_rejected() {
    let e = entry("bob", "Acme", "JBSWY3DPEHPK3PXP", "MD5", 6, 30);
    match build_totp(&e) {
        Err(ValidationError::UnsupportedAlgorithm(name)) => assert_eq!(name, "MD5"),
        other => panic!("unexpected: {:?}", other.err()),
    }
    // The algorithm is checked before the digit count.
    let e = entry("bob", "Acme", "JBSWY3DPEHPK3PXP", "md5", 4, 0);
    assert!(matches!(build_totp(&e), Err(ValidationError::UnsupportedAlgorithm(_))));
}

#[test]
fn bad_secret_rejected() {
    let e = entry("bob", "Acme", "JBSW!3DP", "SHA1", 6, 30);
    match build_totp(&e) {
        Err(ValidationError::InvalidSecretEncoding(s)) => assert_eq!(s, "JBSW!3DP"),
        other => panic!("unexpected: {:?}", other.err()),
    }
}

#[test]
fn short_secret_accepted() {
    let e = entry("bob", "Acme", "MZXW6===", "SHA1", 6, 30);
    let d = build_totp(&e).expect("short secrets are allowed");
    assert_eq!(d.secret_bytes, b"foo".to_vec());
}

#[test]
fn build_from_decoded_parts() {
    let e = entry("bob", "Acme", "anything", "whatever", 8, 60);
    let d = build_totp_from(&e, "SHA512", Some(vec![1, 2, 3])).expect("valid parts");
    assert_eq!(d.algorithm, Algorithm::SHA512);
    assert_eq!(d.secret_bytes, vec![1, 2, 3]);
    assert_eq!(d.issuer, "Acme");
    assert_eq!(d.account_name, "bob");
    assert!(matches!(
        build_totp_from(&e, "SHA512", None),
        Err(ValidationError::InvalidSecretEncoding(_))
    ));
    assert!(matches!(
        build_totp_from(&e, "SHA3", Some(vec![1])),
        Err(ValidationError::UnsupportedAlgorithm(_))
    ));
}

#[test]
fn secret_round_trip() {
    assert_eq!(canonical_secret("JBSWY3DPEHPK3PXP"), Some("JBSWY3DPEHPK3PXP".to_string()));
    assert_eq!(canonical_secret("MZXW6==="), Some("MZXW6".to_string()));
    assert_eq!(canonical_secret("not base32!"), None);
    let d = build_totp(&entry("a", "b", "MZXW6===", "SHA1", 6, 30)).unwrap();
    let again = secret_base32(&d);
    assert_eq!(again, "MZXW6");
    let d2 = build_totp(&entry("a", "b", &again, "SHA1", 6, 30)).unwrap();
    assert_eq!(d2.secret_bytes, d.secret_bytes);
}

#[test]
fn uri_exact() {
    let d = build_totp(&github()).unwrap();
    assert_eq!(
        encode(&d),
        "otpauth://totp/GitHub:alice%40example.com?secret=JBSWY3DPEHPK3PXP&issuer=GitHub&algorithm=SHA1&digits=6&period=30"
    );
    let d = build_totp(&entry("a b", "My App", "MZXW6", "sha256", 8, 60)).unwrap();
    assert_eq!(
        encode(&d),
        "otpauth://totp/My%20App:a%20b?secret=MZXW6&issuer=My%20App&algorithm=SHA256&digits=8&period=60"
    );
}

#[test]
fn file_names() {
    assert_eq!(file_name(&github()), "GitHub-aliceexamplecom.png");
    assert_eq!(file_name(&entry("", "", "A", "SHA1", 6, 30)), "-.png");
}

#[test]
fn render_png() {
    let png = render("otpauth://totp/x").expect("short text fits");
    assert_eq!(png[..8], PNG_MAGIC);
    let long = "A".repeat(8000);
    assert!(render(&long).is_err());
}

#[test]
fn single_entry_export() {
    let export = Export {
        export_time: "2024-01-01T00:00:00Z".to_string(),
        total_entries: 1,
        entries: vec![github()],
    };
    let files = process_export(&export).expect("valid export");
    assert_eq!(files.len(), 1);
    assert_eq!(files[0].file_name, "GitHub-aliceexamplecom.png");
    assert!(files[0].uri.contains("secret=JBSWY3DPEHPK3PXP"));
    assert!(files[0].uri.contains("digits=6"));
    assert!(files[0].uri.contains("period=30"));
    assert!(files[0].uri.contains("algorithm=SHA1"));
    assert_eq!(files[0].png[..8], PNG_MAGIC);
}

#[test]
fn empty_export() {
    let export = Export { export_time: "t".to_string(), total_entries: 3, entries: vec![] };
    let files = process_export(&export).expect("empty export succeeds");
    assert!(files.is_empty());
}

#[test]
fn colliding_names_both_kept_in_order() {
    let export = Export {
        export_time: "t".to_string(),
        total_entries: 2,
        entries: vec![
            entry("bob", "My App!", "JBSWY3DPEHPK3PXP", "SHA1", 6, 30),
            entry("b.o.b", "MyApp", "MZXW6", "SHA256", 8, 60),
        ],
    };
    let files = process_export(&export).unwrap();
    assert_eq!(files.len(), 2);
    assert_eq!(files[0].file_name, "MyApp-bob.png");
    assert_eq!(files[1].file_name, "MyApp-bob.png");
    assert!(files[1].uri.contains("algorithm=SHA256"));
}

#[test]
fn batch_stops_at_first_failure() {
    let export = Export {
        export_time: "t".to_string(),
        total_entries: 3,
        entries: vec![
            github(),
            entry("bob", "Acme", "JBSWY3DPEHPK3PXP", "SHA1", 9, 30),
            entry("bob", "Acme", "JBSWY3DPEHPK3PXP", "MD5", 6, 30),
        ],
    };
    let err = process_export(&export).err().expect("second entry fails");
    assert_eq!(err.index, 1);
    assert!(matches!(err.error, EntryError::Validation(ValidationError::InvalidDigits(9))));
}

#[test]
fn oversized_label_fails_qr() {
    let e = entry("bob", &"L".repeat(6000), "JBSWY3DPEHPK3PXP", "SHA1", 6, 30);
    assert!(matches!(process_entry(&e), Err(EntryError::QrEncoding(_))));
}

#[test]
fn padding_is_optional() {
    assert_eq!(strip_padding("MZXW6==="), "MZXW6");
    assert_eq!(strip_padding("MZ=XW6"), "MZ=XW6");
    assert_eq!(strip_padding("===="), "");
    assert_eq!(decode_secret("MZXW6==="), Some(b"foo".to_vec()));
    assert_eq!(decode_secret("MZXW6"), Some(b"foo".to_vec()));
    assert_eq!(decode_secret("JBSW!3DP"), None);
}
