use b2_client::error::B2FileHeaderError;
use b2_client::models::file_headers::is_info_header;
use b2_client::models::file_headers::legal_hold;
use b2_client::models::file_headers::retention_mode;
use b2_client::models::file_headers::RawFileHeaders;
use b2_client::models::B2FileEncryptionHeaders;
use b2_client::models::B2FileHeaders;
use b2_client::models::B2FileRetentionMode;
use headers::ContentLength;
use headers::ContentType;
use reqwest::header::HeaderMap;
use reqwest::header::HeaderValue;
use reqwest::header::ToStrError;

fn not_text() -> Result<&'static str, ToStrError> {
    match HeaderValue::from_bytes(&[0xff]).unwrap().to_str() {
        Err(e) => Err(e),
        Ok(_) => panic!("a byte above 127 is no text"),
    }
}

fn raw() -> RawFileHeaders<'static> {
    RawFileHeaders {
        content_length: Some(ContentLength(42)),
        content_type: Some(ContentType::octet_stream()),
        file_id: Some(Ok("file-1")),
        file_name: Some(Ok("name.bin")),
        file_sha1: Some(Ok("a9993e364706816aba3e25717850c26c9cd0d89d")),
        info: HeaderMap::new(),
        upload_timestamp: Some(Ok("1700000000000")),
        content_disposition: None,
        content_language: None,
        expires: None,
        cache_control: None,
        server_side_encryption: None,
        customer_algorithm: None,
        customer_key_md5: None,
        retention_mode: None,
        retain_until: None,
        legal_hold: None,
        unauthorized_to_read: None,
    }
}

fn missing(result: Result<B2FileHeaders, B2FileHeaderError>) -> &'static str {
    match result {
        Err(B2FileHeaderError::MissingHeader(name)) => name,
        _ => panic!("a header that has to be there is missing"),
    }
}

#[test]
fn headers_with_only_what_has_to_be_there() {
    let mut given = raw();
    given.info.insert("x-bz-info-color", HeaderValue::from_static("blue"));
    let parsed = B2FileHeaders::parse(given).unwrap();
    assert_eq!(parsed.content_length.0, 42);
    assert_eq!(parsed.content_type, ContentType::octet_stream());
    assert_eq!(parsed.file_id, "file-1");
    assert_eq!(parsed.file_name, "name.bin");
    assert_eq!(parsed.file_sha1, "a9993e364706816aba3e25717850c26c9cd0d89d");
    assert_eq!(parsed.upload_timestamp, 1700000000000);
    assert_eq!(parsed.info.get("x-bz-info-color").unwrap(), "blue");
    assert!(parsed.content_disposition.is_none());
    assert!(parsed.content_language.is_none());
    assert!(parsed.expires.is_none());
    assert!(parsed.cache_control.is_none());
    assert!(parsed.encryption.is_none());
    assert!(parsed.retention_mode.is_none());
    assert!(parsed.retain_until.is_none());
    assert!(parsed.legal_hold.is_none());
    assert!(parsed.unauthorized_to_read.is_none());
}

#[test]
fn headers_with_everything() {
    let given = RawFileHeaders {
        content_language: Some(Ok("en")),
        server_side_encryption: Some(Ok("AES256")),
        customer_algorithm: Some(Ok("ignored")),
        retention_mode: Some(Ok("GOVERNANCE")),
        retain_until: Some(Ok("+18446744073709551615")),
        legal_hold: Some(Ok("yes")),
        unauthorized_to_read: Some(Ok("x-bz-file-legal-hold")),
        ..raw()
    };
    let parsed = B2FileHeaders::parse(given).unwrap();
    assert_eq!(parsed.content_language.as_deref(), Some("en"));
    match parsed.encryption {
        Some(B2FileEncryptionHeaders::B2 { algorithm }) => assert_eq!(algorithm, "AES256"),
        _ => panic!("the SSE-B2 header decides"),
    }
    assert_eq!(parsed.retention_mode, Some(B2FileRetentionMode::Governance));
    assert_eq!(parsed.retain_until, Some(u64::MAX));
    assert_eq!(parsed.legal_hold, Some(true));
    assert_eq!(parsed.unauthorized_to_read.as_deref(), Some("x-bz-file-legal-hold"));
}

#[test]
fn customer_encryption_needs_the_key_digest() {
    let given = RawFileHeaders {
        customer_algorithm: Some(Ok("AES256")),
        customer_key_md5: Some(Ok("XUFAKrxLKna5cZ2REBfFkg==")),
        ..raw()
    };
    match B2FileHeaders::parse(given).unwrap().encryption {
        Some(B2FileEncryptionHeaders::Customer { algorithm, key_md5 }) => {
            assert_eq!(algorithm, "AES256");
            assert_eq!(key_md5, "XUFAKrxLKna5cZ2REBfFkg==");
        }
        _ => panic!("the customer's algorithm makes it SSE-C"),
    }
    let given = RawFileHeaders { customer_algorithm: Some(Ok("AES256")), ..raw() };
    assert_eq!(
        missing(B2FileHeaders::parse(given)),
        "x-bz-server-side-encryption-customer-key-md5"
    );
    let given = RawFileHeaders { customer_key_md5: Some(Ok("digest")), ..raw() };
    assert!(B2FileHeaders::parse(given).unwrap().encryption.is_none());
}

#[test]
fn missing_headers_are_named_in_reading_order() {
    assert_eq!(
        missing(B2FileHeaders::parse(RawFileHeaders {
            content_length: None,
            content_type: None,
            file_id: None,
            ..raw()
        })),
        "content-length"
    );
    assert_eq!(
        missing(B2FileHeaders::parse(RawFileHeaders {
            content_type: None,
            file_id: None,
            ..raw()
        })),
        "content-type"
    );
    assert_eq!(
        missing(B2FileHeaders::parse(RawFileHeaders { file_id: None, file_name: None, ..raw() })),
        "x-bz-file-id"
    );
    assert_eq!(
        missing(B2FileHeaders::parse(RawFileHeaders { file_name: None, ..raw() })),
        "x-bz-file-name"
    );
    assert_eq!(
        missing(B2FileHeaders::parse(RawFileHeaders { file_sha1: None, ..raw() })),
        "x-bz-content-sha1"
    );
    assert_eq!(
        missing(B2FileHeaders::parse(RawFileHeaders {
            upload_timestamp: None,
            legal_hold: Some(Ok("maybe")),
            ..raw()
        })),
        "x-bz-upload-timestamp"
    );
}

#[test]
fn values_that_are_no_text_are_refused() {
    assert!(matches!(
        B2FileHeaders::parse(RawFileHeaders { file_id: Some(not_text()), ..raw() }),
        Err(B2FileHeaderError::ToStrError(_))
    ));
    assert!(matches!(
        B2FileHeaders::parse(RawFileHeaders { content_language: Some(not_text()), ..raw() }),
        Err(B2FileHeaderError::ToStrError(_))
    ));
    assert!(matches!(
        B2FileHeaders::parse(RawFileHeaders { server_side_encryption: Some(not_text()), ..raw() }),
        Err(B2FileHeaderError::ToStrError(_))
    ));
    assert!(matches!(
        B2FileHeaders::parse(RawFileHeaders { retention_mode: Some(not_text()), ..raw() }),
        Err(B2FileHeaderError::ToStrError(_))
    ));
    assert!(matches!(
        B2FileHeaders::parse(RawFileHeaders { unauthorized_to_read: Some(not_text()), ..raw() }),
        Err(B2FileHeaderError::ToStrError(_))
    ));
    assert!(matches!(
        B2FileHeaders::parse(RawFileHeaders {
            file_name: Some(not_text()),
            upload_timestamp: Some(Ok("soon")),
            ..raw()
        }),
        Err(B2FileHeaderError::ToStrError(_))
    ));
}

#[test]
fn timestamps_are_decimal_numbers_of_64_bits() {
    for text in ["0", "007", "+5", "18446744073709551615"] {
        let given = RawFileHeaders { upload_timestamp: Some(Ok(text)), ..raw() };
        let expected: u64 = text.trim_start_matches('+').parse().unwrap();
        assert_eq!(B2FileHeaders::parse(given).unwrap().upload_timestamp, expected);
    }
    for text in ["", "+", "-1", " 1", "1 ", "1.0", "0x10", "12a", "18446744073709551616", "++1"] {
        let given = RawFileHeaders { upload_timestamp: Some(Ok(text)), ..raw() };
        assert!(matches!(
            B2FileHeaders::parse(given),
            Err(B2FileHeaderError::IntegerParseError(_))
        ));
        let given = RawFileHeaders { retain_until: Some(Ok(text)), ..raw() };
        assert!(matches!(
            B2FileHeaders::parse(given),
            Err(B2FileHeaderError::IntegerParseError(_))
        ));
    }
}

#[test]
fn retention_mode_is_one_of_two_words() {
    assert!(matches!(retention_mode("governance"), Ok(B2FileRetentionMode::Governance)));
    assert!(matches!(retention_mode("Compliance"), Ok(B2FileRetentionMode::Compliance)));
    assert!(matches!(retention_mode("COMPLIANCE"), Ok(B2FileRetentionMode::Compliance)));
    for text in ["", "none", "governance ", "complianc"] {
        assert!(matches!(retention_mode(text), Err(B2FileHeaderError::InvalidRetentionMode)));
    }
    let given = RawFileHeaders { retention_mode: Some(Ok("forever")), ..raw() };
    assert!(matches!(B2FileHeaders::parse(given), Err(B2FileHeaderError::InvalidRetentionMode)));
}

#[test]
fn legal_hold_is_one_of_four_words() {
    assert!(matches!(legal_hold("true"), Ok(true)));
    assert!(matches!(legal_hold("yes"), Ok(true)));
    assert!(matches!(legal_hold("false"), Ok(false)));
    assert!(matches!(legal_hold("no"), Ok(false)));
    for text in ["", "on", "off", "True", "YES", "1", "no "] {
        assert!(matches!(legal_hold(text), Err(B2FileHeaderError::BoolParseError)));
    }
    let given = RawFileHeaders { legal_hold: Some(Ok("on")), ..raw() };
    assert!(matches!(B2FileHeaders::parse(given), Err(B2FileHeaderError::BoolParseError)));
    let given = RawFileHeaders { legal_hold: Some(Ok("no")), ..raw() };
    assert_eq!(B2FileHeaders::parse(given).unwrap().legal_hold, Some(false));
}

#[test]
fn info_headers_are_known_by_their_prefix() {
    assert!(is_info_header("x-bz-info-color"));
    assert!(is_info_header("x-bz-info-"));
    assert!(!is_info_header("x-bz-info"));
    assert!(!is_info_header("x-bz-file-id"));
    assert!(!is_info_header("X-Bz-Info-color"));
    assert!(!is_info_header(""));
}
