//! What holds of the extraction of headers for every request.

use crate::base64url::{
    is_base64_url, lemma_base64_url_by_characters, only_allowed_chars, padding_is_trailing,
};
use crate::decimal::parsed_i64;
use crate::error::{ApiErrorView, ValidationErrorView};
use crate::notification_headers::{
    collected, encryption_error, extracted, topic_errors, ttl_errors, NotificationHeadersView,
    MAX_TOPIC_LEN, MAX_TTL,
};
use crate::request::header_value;
use vstd::prelude::*;

verus! {

/// Whether the encryption headers of a request are left alone or found in
/// order, so that the bounds of TTL and topic decide.
pub open spec fn encryption_passes(req: Seq<(Seq<char>, Seq<char>)>, has_data: bool) -> bool {
    !has_data || encryption_error(collected(req)) is None
}

/// Whether headers need no further validation: the TTL is within its
/// bounds, the topic is short enough and in the alphabet, and, where there
/// is a payload, the encryption headers fit the content encoding.
pub open spec fn consistent(h: NotificationHeadersView, has_data: bool) -> bool {
    &&& h.ttl matches Some(t) ==> 0 <= t <= MAX_TTL
    &&& h.topic matches Some(t) ==> t.len() <= MAX_TOPIC_LEN && is_base64_url(t)
    &&& has_data ==> encryption_error(h) is None
}

/// Headers that were extracted are the headers that were sent, and need no
/// further validation.
pub proof fn extracted_headers_are_consistent(req: Seq<(Seq<char>, Seq<char>)>, has_data: bool)
    ensures
        extracted(req, has_data) matches Ok(h) ==> h == collected(req) && consistent(h, has_data),
{
    let h = collected(req);
    if extracted(req, has_data) is Ok {
        assert(ttl_errors(h.ttl).len() == 0);
        assert(topic_errors(h.topic).len() == 0);
    }
}

/// Whether a topic breaks a rule: it has more than 32 characters, it is
/// empty, it starts with `=`, it holds a character that is neither in the
/// alphabet nor `=`, or an `=` is followed by something else.
pub open spec fn topic_is_bad(topic: Seq<char>) -> bool {
    ||| topic.len() > 32
    ||| topic.len() == 0
    ||| topic[0] == '='
    ||| !only_allowed_chars(topic)
    ||| !padding_is_trailing(topic)
}

/// A TTL below 0 is refused with the code `114`, whatever else the request
/// holds; a TTL from 0 to the maximum is kept; a TTL above the maximum is
/// cut down to it and is no error.
pub proof fn ttl_is_bounded(req: Seq<(Seq<char>, Seq<char>)>, has_data: bool, text: Seq<char>, t: i64)
    requires
        header_value(req, "ttl"@) == Some(text),
        parsed_i64(text) == Some(t),
        encryption_passes(req, has_data),
    ensures
        t < 0 ==> extracted(req, has_data) is Err && extracted(req, has_data)->Err_0 is Validation
            && extracted(req, has_data)->Err_0->Validation_0[0] == (ValidationErrorView::TtlRange {
            min: 0,
            ttl: t,
        }) && extracted(req, has_data)->Err_0->Validation_0[0].code() == "114"@,
        t >= 0 ==> ttl_errors(collected(req).ttl).len() == 0,
        0 <= t <= MAX_TTL ==> collected(req).ttl == Some(t),
        t > MAX_TTL ==> collected(req).ttl == Some(MAX_TTL),
        t >= 0 && topic_errors(collected(req).topic).len() == 0 ==> extracted(req, has_data) == Ok::<
            _,
            ApiErrorView,
        >(collected(req)),
{
}

/// A topic is refused exactly when it breaks a rule, and every error about
/// it has the code `113`. Where neither the topic nor the TTL is refused,
/// the headers are returned with the topic as it came.
pub proof fn topic_is_checked(req: Seq<(Seq<char>, Seq<char>)>, has_data: bool, topic: Seq<char>)
    requires
        header_value(req, "topic"@) == Some(topic),
        encryption_passes(req, has_data),
    ensures
        topic_is_bad(topic) <==> topic_errors(Some(topic)).len() > 0,
        topic_is_bad(topic) ==> extracted(req, has_data) is Err && extracted(req, has_data)->Err_0
            == ApiErrorView::Validation(
            ttl_errors(collected(req).ttl) + topic_errors(Some(topic)),
        ),
        forall|i: int|
            0 <= i < topic_errors(Some(topic)).len() ==> (#[trigger] topic_errors(
                Some(topic),
            )[i]).code() == "113"@,
        forall|i: int|
            0 <= i < ttl_errors(collected(req).ttl).len() ==> !((#[trigger] ttl_errors(
                collected(req).ttl,
            )[i]).code() == "113"@),
        !topic_is_bad(topic) && ttl_errors(collected(req).ttl).len() == 0 ==> extracted(
            req,
            has_data,
        ) == Ok::<_, ApiErrorView>(collected(req)) && collected(req).topic == Some(topic),
{
    lemma_base64_url_by_characters(topic);
    reveal_strlit("113");
    reveal_strlit("114");
    assert("114"@[2] != "113"@[2]);
}

} // verus!
