//! The headers that accompany a notification, and their validation.

use crate::base64url::{chars_are_base64_url, is_base64_url, is_valid_base64_url};
use crate::crypto_key::{lookup, parse_header, CryptoKeyHeader};
use crate::decimal::{parse_i64, parsed_i64};
use crate::error::{
    result_view, ApiError, ApiErrorKind, ApiErrorView, ApiResult, ValidationError,
    ValidationErrorView, ValidationErrors,
};
use crate::request::{get_header, get_owned_header, header_value, RawHeaders};
use crate::text::{chars_of, same_text, text_of};
use vstd::prelude::*;

verus! {

/// The longest time to live that is kept, in seconds: 60 days.
pub const MAX_TTL: i64 = 60 * 60 * 24 * 60;

/// The most characters that a topic may have.
pub const MAX_TOPIC_LEN: u64 = 32;

/// The validated headers of a notification.
#[derive(Debug, Clone, PartialEq, Eq)]
pub struct NotificationHeaders {
    // The TTL is signed so that validation can catch negative inputs
    pub ttl: Option<i64>,
    pub topic: Option<String>,
    // These fields are validated against the content encoding
    pub content_encoding: Option<String>,
    pub encryption: Option<String>,
    pub encryption_key: Option<String>,
    pub crypto_key: Option<String>,
}

/// A [`NotificationHeaders`] as plain values.
pub struct NotificationHeadersView {
    pub ttl: Option<i64>,
    pub topic: Option<Seq<char>>,
    pub content_encoding: Option<Seq<char>>,
    pub encryption: Option<Seq<char>>,
    pub encryption_key: Option<Seq<char>>,
    pub crypto_key: Option<Seq<char>>,
}

impl View for NotificationHeaders {
    type V = NotificationHeadersView;

    open spec fn view(&self) -> NotificationHeadersView {
        NotificationHeadersView {
            ttl: self.ttl,
            topic: self.topic.deep_view(),
            content_encoding: self.content_encoding.deep_view(),
            encryption: self.encryption.deep_view(),
            encryption_key: self.encryption_key.deep_view(),
            crypto_key: self.crypto_key.deep_view(),
        }
    }
}

/// The first of two findings: `first` where there is one, else `second`.
pub open spec fn or_else(first: Option<Seq<char>>, second: Option<Seq<char>>) -> Option<Seq<char>> {
    if first is Some {
        first
    } else {
        second
    }
}

/// What is wrong with a header that has to give `key` a value in the
/// URL-safe Base64 alphabet: the header is missing, it is not in the list
/// syntax, it does not hold the key, or the key's value is not in the
/// alphabet. `None` where nothing is wrong.
pub open spec fn base64_item_error(
    header_name: Seq<char>,
    header: Option<Seq<char>>,
    key: Seq<char>,
) -> Option<Seq<char>> {
    match header {
        None => Some("Missing "@ + header_name + " header"@),
        Some(text) => match parse_header(text) {
            None => Some("Invalid "@ + header_name + " header"@),
            Some(sections) => match lookup(sections, key) {
                None => Some("Missing "@ + key + " value in "@ + header_name + " header"@),
                Some(value) => if is_base64_url(value) {
                    None
                } else {
                    Some("Invalid "@ + key + " value in "@ + header_name + " header"@)
                },
            },
        },
    }
}

/// What is wrong with a header that must not hold `key`: it is there and
/// not in the list syntax, or it holds the key. `None` where nothing is
/// wrong, as when the header is missing.
pub open spec fn forbidden_item_error(
    header_name: Seq<char>,
    header: Option<Seq<char>>,
    key: Seq<char>,
) -> Option<Seq<char>> {
    match header {
        None => None,
        Some(text) => match parse_header(text) {
            None => Some("Invalid "@ + header_name + " header"@),
            Some(sections) => if lookup(sections, key) is Some {
                Some("Do not include '"@ + key + "' header in "@ + header_name + " header"@)
            } else {
                None
            },
        },
    }
}

/// The first violated rule of the encoding `aesgcm128`: `Encryption` has to
/// give a `salt`, `Encryption-Key` has to give a `dh`, and `Crypto-Key`
/// must hold no `dh`.
pub open spec fn rules_01_error(h: NotificationHeadersView) -> Option<Seq<char>> {
    or_else(
        base64_item_error("Encryption"@, h.encryption, "salt"@),
        or_else(
            base64_item_error("Encryption-Key"@, h.encryption_key, "dh"@),
            forbidden_item_error("aesgcm128 Crypto-Key"@, h.crypto_key, "dh"@),
        ),
    )
}

/// The first violated rule of the encoding `aesgcm`: `Encryption` has to
/// give a `salt`, there must be no `Encryption-Key`, and `Crypto-Key`, where
/// it is there, has to give a `dh`.
pub open spec fn rules_04_error(h: NotificationHeadersView) -> Option<Seq<char>> {
    or_else(
        base64_item_error("Encryption"@, h.encryption, "salt"@),
        if h.encryption_key is Some {
            Some("Encryption-Key header is not valid for webpush draft 02 or later"@)
        } else if h.crypto_key is Some {
            base64_item_error("Crypto-Key"@, h.crypto_key, "dh"@)
        } else {
            None
        },
    )
}

/// The first violated rule of the encoding `aes128gcm`, which keeps its
/// parameters in the payload: `Encryption` must hold no `salt` and
/// `Crypto-Key` no `dh`.
pub open spec fn rules_06_error(h: NotificationHeadersView) -> Option<Seq<char>> {
    or_else(
        forbidden_item_error("aes128gcm Encryption"@, h.encryption, "salt"@),
        forbidden_item_error("aes128gcm Crypto-Key"@, h.crypto_key, "dh"@),
    )
}

/// What is wrong with the encryption headers of a notification that has a
/// payload: the content encoding is missing or unknown, or a rule of the
/// encoding is violated. `None` where nothing is wrong.
pub open spec fn encryption_error(h: NotificationHeadersView) -> Option<Seq<char>> {
    match h.content_encoding {
        None => Some("Missing Content-Encoding header"@),
        Some(encoding) => if encoding == "aesgcm128"@ {
            rules_01_error(h)
        } else if encoding == "aesgcm"@ {
            rules_04_error(h)
        } else if encoding == "aes128gcm"@ {
            rules_06_error(h)
        } else {
            Some("Unknown Content-Encoding header"@)
        },
    }
}

/// The result of a check of the encryption headers reports `error`: it is
/// `Ok` where there is none, and else an invalid-encryption error with this
/// message.
pub open spec fn reports(r: ApiResult<()>, error: Option<Seq<char>>) -> bool {
    match error {
        None => r is Ok,
        Some(message) => r is Err && r->Err_0@ == ApiErrorView::InvalidEncryption(message),
    }
}

/// The violated bounds of the TTL: it must not be negative.
pub open spec fn ttl_errors(ttl: Option<i64>) -> Seq<ValidationErrorView> {
    match ttl {
        Some(t) if t < 0 => seq![ValidationErrorView::TtlRange { min: 0, ttl: t }],
        _ => Seq::empty(),
    }
}

/// The violated bounds of the topic: it must have 32 characters at most,
/// and be URL-safe Base64 text.
pub open spec fn topic_errors(topic: Option<Seq<char>>) -> Seq<ValidationErrorView> {
    match topic {
        None => Seq::empty(),
        Some(t) => (if t.len() > MAX_TOPIC_LEN {
            seq![ValidationErrorView::TopicLength { max: MAX_TOPIC_LEN, topic: t }]
        } else {
            Seq::empty()
        }) + (if is_base64_url(t) {
            Seq::empty()
        } else {
            seq![ValidationErrorView::TopicAlphabet { topic: t }]
        }),
    }
}

/// The violated bounds of the TTL and of the topic, in this order.
pub open spec fn validation_errors(h: NotificationHeadersView) -> Seq<ValidationErrorView> {
    ttl_errors(h.ttl) + topic_errors(h.topic)
}

/// The TTL that a request asks for: the `TTL` header read as a number and
/// cut down to [`MAX_TTL`], and none where the header is missing or no
/// number.
pub open spec fn requested_ttl(req: Seq<(Seq<char>, Seq<char>)>) -> Option<i64> {
    match header_value(req, "ttl"@) {
        Some(text) => match parsed_i64(text) {
            Some(t) => Some(
                if t < MAX_TTL {
                    t
                } else {
                    MAX_TTL
                },
            ),
            None => None,
        },
        None => None,
    }
}

/// The headers of a request as they were sent, before any validation.
pub open spec fn collected(req: Seq<(Seq<char>, Seq<char>)>) -> NotificationHeadersView {
    NotificationHeadersView {
        ttl: requested_ttl(req),
        topic: header_value(req, "topic"@),
        content_encoding: header_value(req, "content-encoding"@),
        encryption: header_value(req, "encryption"@),
        encryption_key: header_value(req, "encryption-key"@),
        crypto_key: header_value(req, "crypto-key"@),
    }
}

/// What extracting the headers of a request gives. The encryption headers
/// are checked first, and only where the request has a payload; then the
/// bounds of TTL and topic.
pub open spec fn extracted(req: Seq<(Seq<char>, Seq<char>)>, has_data: bool) -> Result<
    NotificationHeadersView,
    ApiErrorView,
> {
    let h = collected(req);
    if has_data && encryption_error(h) is Some {
        Err(ApiErrorView::InvalidEncryption(encryption_error(h)->0))
    } else if validation_errors(h).len() > 0 {
        Err(ApiErrorView::Validation(validation_errors(h)))
    } else {
        Ok(h)
    }
}

fn join3(a: &str, b: &str, c: &str) -> (r: String)
    ensures
        r@ == a@ + b@ + c@,
{
    let mut r = String::from_str(a);
    r.append(b);
    r.append(c);
    r
}

fn join5(a: &str, b: &str, c: &str, d: &str, e: &str) -> (r: String)
    ensures
        r@ == a@ + b@ + c@ + d@ + e@,
{
    let mut r = join3(a, b, c);
    r.append(d);
    r.append(e);
    r
}

fn as_text<'a>(value: &'a Option<String>) -> (r: Option<&'a str>)
    ensures
        text_of(r) == value.deep_view(),
{
    match value {
        Some(v) => Some(v.as_str()),
        None => None,
    }
}

impl NotificationHeaders {
    /// Extracts the headers of a notification from a request and validates
    /// them. `has_data` tells whether the request has a payload.
    pub fn from_request(req: &RawHeaders, has_data: bool) -> (r: ApiResult<NotificationHeaders>)
        ensures
            result_view(r) == extracted(req@, has_data),
    {
        let ttl = match get_header(req, "ttl") {
            Some(text) => match parse_i64(text) {
                // Enforce a maximum TTL, but don't error
                Some(t) => Some(
                    if t < MAX_TTL {
                        t
                    } else {
                        MAX_TTL
                    },
                ),
                None => None,
            },
            None => None,
        };
        let headers = NotificationHeaders {
            ttl,
            topic: get_owned_header(req, "topic"),
            content_encoding: get_owned_header(req, "content-encoding"),
            encryption: get_owned_header(req, "encryption"),
            encryption_key: get_owned_header(req, "encryption-key"),
            crypto_key: get_owned_header(req, "crypto-key"),
        };
        assert(headers@ == collected(req@));

        // Validate encryption if there is a message body
        if has_data {
            match headers.validate_encryption() {
                Err(e) => {
                    return Err(e);
                },
                Ok(_) => {},
            }
        }
        // Validate the other headers

        match headers.validate() {
            Ok(_) => Ok(headers),
            Err(e) => Err(ApiError { kind: ApiErrorKind::Validation(e) }),
        }
    }

    /// Checks the bounds of the TTL and of the topic, and reports every one
    /// that is violated.
    pub fn validate(&self) -> (r: Result<(), ValidationErrors>)
        ensures
            r is Ok <==> validation_errors(self@).len() == 0,
            r matches Err(e) ==> e@ == validation_errors(self@),
    {
        let mut errors: Vec<ValidationError> = Vec::new();
        assert(errors.deep_view() =~= Seq::empty());
        match self.ttl {
            Some(t) => {
                if t < 0 {
                    errors.push(ValidationError::TtlRange { min: 0, ttl: t });
                    assert(errors.deep_view() =~= ttl_errors(self@.ttl));
                }
            },
            None => {},
        }
        assert(errors.deep_view() =~= ttl_errors(self@.ttl));
        match &self.topic {
            Some(topic) => {
                let chars = chars_of(topic.as_str());
                if chars.len() > 32 {
                    let ghost before = errors.deep_view();
                    let e = ValidationError::TopicLength { max: MAX_TOPIC_LEN, topic: topic.clone() };
                    errors.push(e);
                    assert(errors.deep_view() =~= before.push(e@));
                }
                if !chars_are_base64_url(chars.as_slice()) {
                    let ghost before = errors.deep_view();
                    let e = ValidationError::TopicAlphabet { topic: topic.clone() };
                    errors.push(e);
                    assert(errors.deep_view() =~= before.push(e@));
                }
            },
            None => {},
        }
        assert(errors.deep_view() =~= validation_errors(self@));
        if errors.len() == 0 {
            Ok(())
        } else {
            Err(ValidationErrors { errors })
        }
    }

    /// Validates the encryption headers by the rules of the content
    /// encoding that the headers name.
    pub fn validate_encryption(&self) -> (r: ApiResult<()>)
        ensures
            reports(r, encryption_error(self@)),
    {
        let content_encoding = match &self.content_encoding {
            Some(encoding) => encoding.as_str(),
            None => {
                return Err(
                    ApiError::invalid_encryption(
                        String::from_str("Missing Content-Encoding header"),
                    ),
                );
            },
        };
        if same_text(content_encoding, "aesgcm128") {
            self.validate_encryption_01_rules()
        } else if same_text(content_encoding, "aesgcm") {
            self.validate_encryption_04_rules()
        } else if same_text(content_encoding, "aes128gcm") {
            self.validate_encryption_06_rules()
        } else {
            Err(ApiError::invalid_encryption(String::from_str("Unknown Content-Encoding header")))
        }
    }

    /// Validates the encryption headers by the rules of `aesgcm128`, the
    /// first draft of the encryption of web push messages.
    pub fn validate_encryption_01_rules(&self) -> (r: ApiResult<()>)
        ensures
            reports(r, rules_01_error(self@)),
    {
        match Self::assert_base64_item_exists("Encryption", as_text(&self.encryption), "salt") {
            Err(e) => {
                return Err(e);
            },
            Ok(_) => {},
        }
        match Self::assert_base64_item_exists(
            "Encryption-Key",
            as_text(&self.encryption_key),
            "dh",
        ) {
            Err(e) => {
                return Err(e);
            },
            Ok(_) => {},
        }
        Self::assert_not_exists("aesgcm128 Crypto-Key", as_text(&self.crypto_key), "dh")
    }

    /// Validates the encryption headers by the rules of `aesgcm`, the
    /// fourth draft of the encryption of web push messages.
    pub fn validate_encryption_04_rules(&self) -> (r: ApiResult<()>)
        ensures
            reports(r, rules_04_error(self@)),
    {
        match Self::assert_base64_item_exists("Encryption", as_text(&self.encryption), "salt") {
            Err(e) => {
                return Err(e);
            },
            Ok(_) => {},
        }
        if self.encryption_key.is_some() {
            return Err(
                ApiError::invalid_encryption(
                    String::from_str(
                        "Encryption-Key header is not valid for webpush draft 02 or later",
                    ),
                ),
            );
        }
        if self.crypto_key.is_some() {
            return Self::assert_base64_item_exists("Crypto-Key", as_text(&self.crypto_key), "dh");
        }
        Ok(())
    }

    /// Validates the encryption headers by the rules of `aes128gcm`, the
    /// sixth draft of the encrypted content encoding. The encryption values
    /// are in the payload, so there should not be any in the headers.
    pub fn validate_encryption_06_rules(&self) -> (r: ApiResult<()>)
        ensures
            reports(r, rules_06_error(self@)),
    {
        match Self::assert_not_exists("aes128gcm Encryption", as_text(&self.encryption), "salt") {
            Err(e) => {
                return Err(e);
            },
            Ok(_) => {},
        }
        Self::assert_not_exists("aes128gcm Crypto-Key", as_text(&self.crypto_key), "dh")
    }

    /// Asserts that the given key exists in the header and that its value
    /// is in the URL-safe Base64 alphabet.
    pub fn assert_base64_item_exists(header_name: &str, header: Option<&str>, key: &str) -> (r:
        ApiResult<()>)
        ensures
            reports(r, base64_item_error(header_name@, text_of(header), key@)),
    {
        let header = match header {
            Some(header) => header,
            None => {
                return Err(ApiError::invalid_encryption(join3("Missing ", header_name, " header")));
            },
        };
        let header_data = match CryptoKeyHeader::parse(header) {
            Some(data) => data,
            None => {
                return Err(ApiError::invalid_encryption(join3("Invalid ", header_name, " header")));
            },
        };
        let salt = match header_data.get_by_key(key) {
            Some(value) => value,
            None => {
                return Err(
                    ApiError::invalid_encryption(
                        join5("Missing ", key, " value in ", header_name, " header"),
                    ),
                );
            },
        };
        if !is_valid_base64_url(salt) {
            return Err(
                ApiError::invalid_encryption(
                    join5("Invalid ", key, " value in ", header_name, " header"),
                ),
            );
        }
        Ok(())
    }

    /// Asserts that the given key does not exist in the header.
    pub fn assert_not_exists(header_name: &str, header: Option<&str>, key: &str) -> (r: ApiResult<
        (),
    >)
        ensures
            reports(r, forbidden_item_error(header_name@, text_of(header), key@)),
    {
        let header = match header {
            Some(header) => header,
            None => {
                return Ok(());
            },
        };
        let header_data = match CryptoKeyHeader::parse(header) {
            Some(data) => data,
            None => {
                return Err(ApiError::invalid_encryption(join3("Invalid ", header_name, " header")));
            },
        };
        if header_data.get_by_key(key).is_some() {
            return Err(
                ApiError::invalid_encryption(
                    join5("Do not include '", key, "' header in ", header_name, " header"),
                ),
            );
        }
        Ok(())
    }
}

} // verus!
