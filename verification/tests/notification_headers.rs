use autoendpoint::error::{ApiErrorKind, ApiResult, ValidationError};
use autoendpoint::notification_headers::{NotificationHeaders, MAX_TTL};
use autoendpoint::request::RawHeaders;

/// Assert that a result is a validation error and check the errors it holds.
fn assert_validation_error(
    result: ApiResult<NotificationHeaders>,
    expected: Vec<ValidationError>,
) -> Vec<ValidationError> {
    assert!(result.is_err());
    let errors = match result.unwrap_err().kind {
        ApiErrorKind::Validation(errors) => errors,
        _ => panic!("Expected a validation error"),
    };

    assert_eq!(errors.errors, expected);
    errors.errors
}

/// Assert that a result is a specific encryption error
fn assert_encryption_error(result: ApiResult<NotificationHeaders>, expected_error: &str) {
    assert!(result.is_err());
    let error = match result.unwrap_err().kind {
        ApiErrorKind::InvalidEncryption(error) => error,
        _ => panic!("Expected an encryption error"),
    };

    assert_eq!(error, expected_error);
}

/// A valid TTL results in no errors or adjustment
#[test]
fn valid_ttl() {
    let req = RawHeaders::new().header("TTL", "10");
    let result = NotificationHeaders::from_request(&req, false);

    assert!(result.is_ok());
    assert_eq!(result.unwrap().ttl, Some(10));
}

/// Negative TTL values are not allowed
#[test]
fn negative_ttl() {
    let req = RawHeaders::new().header("TTL", "-1");
    let result = NotificationHeaders::from_request(&req, false);

    let errors = assert_validation_error(
        result,
        vec![ValidationError::TtlRange { min: 0, ttl: -1 }],
    );
    assert_eq!(errors[0].field(), "ttl");
    assert_eq!(errors[0].code(), "114");
    assert_eq!(errors[0].message(), "TTL must be greater than 0");
}

/// TTL values above the max are silently reduced to the max
#[test]
fn maximum_ttl() {
    let req = RawHeaders::new().header("TTL", &(MAX_TTL + 1).to_string());
    let result = NotificationHeaders::from_request(&req, false);

    assert!(result.is_ok());
    assert_eq!(result.unwrap().ttl, Some(MAX_TTL));
}

/// A valid topic results in no errors
#[test]
fn valid_topic() {
    let req = RawHeaders::new().header("TOPIC", "test-topic");
    let result = NotificationHeaders::from_request(&req, false);

    assert!(result.is_ok());
    assert_eq!(result.unwrap().topic, Some("test-topic".to_string()));
}

/// Topic names which are too long return an error
#[test]
fn too_long_topic() {
    let req = RawHeaders::new().header("TOPIC", "test-topic-which-is-too-long-1234");
    let result = NotificationHeaders::from_request(&req, false);

    let errors = assert_validation_error(
        result,
        vec![ValidationError::TopicLength {
            max: 32,
            topic: "test-topic-which-is-too-long-1234".to_string(),
        }],
    );
    assert_eq!(errors[0].field(), "topic");
    assert_eq!(errors[0].code(), "113");
    assert_eq!(
        errors[0].message(),
        "Topic must be no greater than 32 characters"
    );
}

/// If there is a payload, there must be a content encoding header
#[test]
fn payload_without_content_encoding() {
    let req = RawHeaders::new();
    let result = NotificationHeaders::from_request(&req, true);

    assert_encryption_error(result, "Missing Content-Encoding header");
}

/// Valid 01 draft encryption passes validation
#[test]
fn valid_01_encryption() {
    let req = RawHeaders::new()
        .header("Content-Encoding", "aesgcm128")
        .header("Encryption", "salt=foo")
        .header("Encryption-Key", "dh=bar");
    let result = NotificationHeaders::from_request(&req, true);

    assert!(result.is_ok());
    assert_eq!(
        result.unwrap(),
        NotificationHeaders {
            ttl: None,
            topic: None,
            content_encoding: Some("aesgcm128".to_string()),
            encryption: Some("salt=foo".to_string()),
            encryption_key: Some("dh=bar".to_string()),
            crypto_key: None
        }
    );
}

/// Valid 04 draft encryption passes validation
#[test]
fn valid_04_encryption() {
    let req = RawHeaders::new()
        .header("Content-Encoding", "aesgcm")
        .header("Encryption", "salt=foo")
        .header("Crypto-Key", "dh=bar");
    let result = NotificationHeaders::from_request(&req, true);

    assert!(result.is_ok());
    assert_eq!(
        result.unwrap(),
        NotificationHeaders {
            ttl: None,
            topic: None,
            content_encoding: Some("aesgcm".to_string()),
            encryption: Some("salt=foo".to_string()),
            encryption_key: None,
            crypto_key: Some("dh=bar".to_string())
        }
    );
}

/// Valid 06 draft encryption passes validation
#[test]
fn valid_06_encryption() {
    let req = RawHeaders::new()
        .header("Content-Encoding", "aes128gcm")
        .header("Encryption", "notsalt=foo")
        .header("Crypto-Key", "notdh=bar");
    let result = NotificationHeaders::from_request(&req, true);

    assert!(result.is_ok());
    assert_eq!(
        result.unwrap(),
        NotificationHeaders {
            ttl: None,
            topic: None,
            content_encoding: Some("aes128gcm".to_string()),
            encryption: Some("notsalt=foo".to_string()),
            encryption_key: None,
            crypto_key: Some("notdh=bar".to_string())
        }
    );
}

/// Every TTL from 0 to the maximum is kept as it is
#[test]
fn ttl_bounds_are_kept() {
    for ttl in [0, 1, 59, 86400, MAX_TTL - 1, MAX_TTL] {
        let req = RawHeaders::new().header("ttl", &ttl.to_string());
        let headers = NotificationHeaders::from_request(&req, false).unwrap();
        assert_eq!(headers.ttl, Some(ttl));
    }
}

/// The maximum is 60 days in seconds
#[test]
fn maximum_ttl_is_sixty_days() {
    assert_eq!(MAX_TTL, 5_184_000);
    let req = RawHeaders::new().header("TTL", "9223372036854775807");
    let headers = NotificationHeaders::from_request(&req, false).unwrap();
    assert_eq!(headers.ttl, Some(5_184_000));
}

/// Every negative TTL is refused with the code 114
#[test]
fn every_negative_ttl_is_refused() {
    for ttl in [-1, -2, -5_184_001, i64::MIN] {
        let req = RawHeaders::new().header("TTL", &ttl.to_string());
        let result = NotificationHeaders::from_request(&req, false);
        let errors =
            assert_validation_error(result, vec![ValidationError::TtlRange { min: 0, ttl }]);
        assert_eq!(errors[0].code(), "114");
    }
}

/// A TTL that is no number, or too large for 64 bits, counts as absent
#[test]
fn unparsable_ttl_is_absent() {
    for text in ["", "abc", "1.5", " 10", "10 ", "-", "+", "9223372036854775808", "0x10"] {
        let req = RawHeaders::new().header("TTL", text);
        let headers = NotificationHeaders::from_request(&req, false).unwrap();
        assert_eq!(headers.ttl, None, "{:?}", text);
    }
}

/// Only the first header line of a name counts, and the case of the name
/// does not
#[test]
fn header_names_ignore_case() {
    let req = RawHeaders::new()
        .header("tTl", "7")
        .header("TTL", "8")
        .header("Topic", "abc")
        .header("CONTENT-ENCODING", "aes128gcm");
    let headers = NotificationHeaders::from_request(&req, true).unwrap();
    assert_eq!(headers.ttl, Some(7));
    assert_eq!(headers.topic, Some("abc".to_string()));
    assert_eq!(headers.content_encoding, Some("aes128gcm".to_string()));
}

/// A topic of exactly 32 characters passes, with padding too
#[test]
fn longest_topic() {
    let topic = "abcdefghijklmnopqrstuvwxyz0123-_";
    assert_eq!(topic.len(), 32);
    let req = RawHeaders::new().header("Topic", topic);
    assert_eq!(
        NotificationHeaders::from_request(&req, false).unwrap().topic,
        Some(topic.to_string())
    );
    let padded = "abcdefghijklmnopqrstuvwxyz0123==";
    let req = RawHeaders::new().header("Topic", padded);
    assert!(NotificationHeaders::from_request(&req, false).is_ok());
}

/// The length of a topic is counted in characters, not in bytes
#[test]
fn topic_length_counts_characters() {
    let topic = "é".repeat(32);
    let req = RawHeaders::new().header("Topic", &topic);
    assert_validation_error(
        NotificationHeaders::from_request(&req, false),
        vec![ValidationError::TopicAlphabet { topic }],
    );
}

/// Topics outside the alphabet are refused with the code 113
#[test]
fn topic_outside_alphabet() {
    for topic in ["", "=", "=abc", "ab=c", "a b", "a+b", "a/b", "abc=\n", "ab.c", "a=b="] {
        let req = RawHeaders::new().header("Topic", topic);
        let errors = assert_validation_error(
            NotificationHeaders::from_request(&req, false),
            vec![ValidationError::TopicAlphabet {
                topic: topic.to_string(),
            }],
        );
        assert_eq!(errors[0].field(), "topic");
        assert_eq!(errors[0].code(), "113");
        assert_eq!(
            errors[0].message(),
            "Topic must be URL and Filename safe Base64 alphabet"
        );
    }
}

/// A topic that is too long and outside the alphabet gives both errors, and
/// a negative TTL comes before them
#[test]
fn all_violations_are_reported() {
    let topic = "this topic is too long and has spaces";
    let req = RawHeaders::new().header("Topic", topic).header("TTL", "-3");
    assert_validation_error(
        NotificationHeaders::from_request(&req, false),
        vec![
            ValidationError::TtlRange { min: 0, ttl: -3 },
            ValidationError::TopicLength {
                max: 32,
                topic: topic.to_string(),
            },
            ValidationError::TopicAlphabet {
                topic: topic.to_string(),
            },
        ],
    );
}

/// Without a payload the encryption headers are not looked at
#[test]
fn no_payload_no_encryption_check() {
    let req = RawHeaders::new()
        .header("Content-Encoding", "rot13")
        .header("Encryption", "nonsense");
    let headers = NotificationHeaders::from_request(&req, false).unwrap();
    assert_eq!(headers.content_encoding, Some("rot13".to_string()));
    assert_eq!(headers.encryption, Some("nonsense".to_string()));
}

/// The encryption headers are checked before the bounds
#[test]
fn encryption_is_checked_first() {
    let req = RawHeaders::new().header("TTL", "-1");
    assert_encryption_error(
        NotificationHeaders::from_request(&req, true),
        "Missing Content-Encoding header",
    );
}

#[test]
fn unknown_content_encoding() {
    for encoding in ["", "gzip", "AESGCM", "aesgcm ", "aes128gcm1"] {
        let req = RawHeaders::new()
            .header("Content-Encoding", encoding)
            .header("Encryption", "salt=foo")
            .header("Crypto-Key", "dh=bar");
        assert_encryption_error(
            NotificationHeaders::from_request(&req, true),
            "Unknown Content-Encoding header",
        );
    }
}

fn request(encoding: &str, lines: &[(&str, &str)]) -> ApiResult<NotificationHeaders> {
    let mut req = RawHeaders::new().header("Content-Encoding", encoding);
    for (name, value) in lines {
        req = req.header(name, value);
    }
    NotificationHeaders::from_request(&req, true)
}

/// The violations of the 01 draft, each with its message
#[test]
fn invalid_01_encryption() {
    assert_encryption_error(
        request("aesgcm128", &[("Encryption-Key", "dh=bar")]),
        "Missing Encryption header",
    );
    assert_encryption_error(
        request("aesgcm128", &[("Encryption", "salt"), ("Encryption-Key", "dh=bar")]),
        "Invalid Encryption header",
    );
    assert_encryption_error(
        request("aesgcm128", &[("Encryption", "keyid=a"), ("Encryption-Key", "dh=bar")]),
        "Missing salt value in Encryption header",
    );
    assert_encryption_error(
        request("aesgcm128", &[("Encryption", "salt=f+o"), ("Encryption-Key", "dh=bar")]),
        "Invalid salt value in Encryption header",
    );
    assert_encryption_error(
        request("aesgcm128", &[("Encryption", "salt=foo")]),
        "Missing Encryption-Key header",
    );
    assert_encryption_error(
        request("aesgcm128", &[("Encryption", "salt=foo"), ("Encryption-Key", "")]),
        "Invalid Encryption-Key header",
    );
    assert_encryption_error(
        request("aesgcm128", &[("Encryption", "salt=foo"), ("Encryption-Key", "keyid=a")]),
        "Missing dh value in Encryption-Key header",
    );
    assert_encryption_error(
        request("aesgcm128", &[("Encryption", "salt=foo"), ("Encryption-Key", "dh=")]),
        "Invalid dh value in Encryption-Key header",
    );
    assert_encryption_error(
        request(
            "aesgcm128",
            &[
                ("Encryption", "salt=foo"),
                ("Encryption-Key", "dh=bar"),
                ("Crypto-Key", "dh=bar"),
            ],
        ),
        "Do not include 'dh' header in aesgcm128 Crypto-Key header",
    );
    assert_encryption_error(
        request(
            "aesgcm128",
            &[
                ("Encryption", "salt=foo"),
                ("Encryption-Key", "dh=bar"),
                ("Crypto-Key", "dh"),
            ],
        ),
        "Invalid aesgcm128 Crypto-Key header",
    );
    assert!(request(
        "aesgcm128",
        &[
            ("Encryption", "salt=foo"),
            ("Encryption-Key", "dh=bar"),
            ("Crypto-Key", "p256ecdsa=abc"),
        ],
    )
    .is_ok());
}

/// The violations of the 04 draft, each with its message
#[test]
fn invalid_04_encryption() {
    assert_encryption_error(
        request("aesgcm", &[("Crypto-Key", "dh=bar")]),
        "Missing Encryption header",
    );
    assert_encryption_error(
        request("aesgcm", &[("Encryption", "keyid=a"), ("Crypto-Key", "dh=bar")]),
        "Missing salt value in Encryption header",
    );
    assert_encryption_error(
        request("aesgcm", &[("Encryption", "salt=foo"), ("Encryption-Key", "dh=bar")]),
        "Encryption-Key header is not valid for webpush draft 02 or later",
    );
    assert_encryption_error(
        request("aesgcm", &[("Encryption", "salt=foo"), ("Encryption-Key", "")]),
        "Encryption-Key header is not valid for webpush draft 02 or later",
    );
    assert_encryption_error(
        request("aesgcm", &[("Encryption", "salt=foo"), ("Crypto-Key", "p256ecdsa=abc")]),
        "Missing dh value in Crypto-Key header",
    );
    assert_encryption_error(
        request("aesgcm", &[("Encryption", "salt=foo"), ("Crypto-Key", "dh=b@r")]),
        "Invalid dh value in Crypto-Key header",
    );
    assert_encryption_error(
        request("aesgcm", &[("Encryption", "salt=foo"), ("Crypto-Key", "dh")]),
        "Invalid Crypto-Key header",
    );
    // The Crypto-Key header may be left out
    assert!(request("aesgcm", &[("Encryption", "salt=foo")]).is_ok());
}

/// The violations of the 06 draft, each with its message
#[test]
fn invalid_06_encryption() {
    assert_encryption_error(
        request("aes128gcm", &[("Encryption", "salt=foo")]),
        "Do not include 'salt' header in aes128gcm Encryption header",
    );
    assert_encryption_error(
        request("aes128gcm", &[("Crypto-Key", "dh=bar")]),
        "Do not include 'dh' header in aes128gcm Crypto-Key header",
    );
    assert_encryption_error(
        request("aes128gcm", &[("Encryption", "nonsense")]),
        "Invalid aes128gcm Encryption header",
    );
    assert_encryption_error(
        request("aes128gcm", &[("Crypto-Key", "nonsense")]),
        "Invalid aes128gcm Crypto-Key header",
    );
    // No encryption header at all is fine
    assert!(request("aes128gcm", &[]).is_ok());
    // An Encryption-Key header is not looked at
    assert!(request("aes128gcm", &[("Encryption-Key", "nonsense")]).is_ok());
}

/// The checks can be called one by one
#[test]
fn single_checks() {
    assert!(NotificationHeaders::assert_base64_item_exists(
        "Encryption",
        Some("keyid=\"p256dh\"; salt=\"abc_-09AZ==\""),
        "salt"
    )
    .is_ok());
    let error = NotificationHeaders::assert_base64_item_exists("X", None, "k").unwrap_err();
    assert_eq!(
        error.kind,
        ApiErrorKind::InvalidEncryption("Missing X header".to_string())
    );
    assert!(NotificationHeaders::assert_not_exists("X", None, "k").is_ok());
    assert!(NotificationHeaders::assert_not_exists("X", Some("a=b"), "k").is_ok());
    let error = NotificationHeaders::assert_not_exists("X", Some("a=b;k=1"), "k").unwrap_err();
    assert_eq!(
        error.kind,
        ApiErrorKind::InvalidEncryption("Do not include 'k' header in X header".to_string())
    );
    let headers = NotificationHeaders {
        ttl: None,
        topic: None,
        content_encoding: None,
        encryption: Some("salt=foo".to_string()),
        encryption_key: Some("dh=bar".to_string()),
        crypto_key: None,
    };
    assert!(headers.validate_encryption_01_rules().is_ok());
    assert!(headers.validate_encryption_04_rules().is_err());
    assert!(headers.validate_encryption_06_rules().is_err());
    assert!(headers.validate_encryption().is_err());
    assert!(headers.validate().is_ok());
}
