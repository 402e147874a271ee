//! The URLs that the router builds: the endpoints of a connection node, and
//! the location under which a routed message can be looked up.

use vstd::arithmetic::power::pow;
use vstd::prelude::*;

verus! {

/// `url::Url`, carried through as it is: nothing is known of its parts.
#[verifier::external_type_specification]
#[verifier::external_body]
pub struct ExUrl(url::Url);

/// What `url::Url::join` makes of a base URL and a reference: the text of
/// the resulting URL, or `None` where the reference cannot be resolved
/// against the base.
pub uninterp spec fn url_join(base: url::Url, reference: Seq<char>) -> Option<Seq<char>>;

/// Calls `url::Url::join` and hands back the text of the URL it returns.
/// Nothing is proved of the outcome: it is whatever [`url_join`] stands for.
#[verifier::external_body]
pub(crate) fn join_url(base: &url::Url, reference: &str) -> (joined: Option<String>)
    ensures
        joined.deep_view() == url_join(*base, reference@),
{
    match base.join(reference) {
        Ok(url) => Some(String::from(url)),
        Err(_) => None,
    }
}

/// The character that writes the hexadecimal digit `d` in lower case.
pub open spec fn hex_digit(d: int) -> char {
    seq!['0', '1', '2', '3', '4', '5', '6', '7', '8', '9', 'a', 'b', 'c', 'd', 'e', 'f'][d]
}

/// The `k`-th of the 32 hexadecimal digits of `v`, the most significant
/// being the first.
pub open spec fn hex_digit_at(v: u128, k: int) -> int {
    (v as int / pow(16, (31 - k) as nat)) % 16
}

/// The hyphenated form of a 128-bit identifier: its 32 hexadecimal digits
/// in lower case, in groups of 8, 4, 4, 4 and 12 with `-` between them.
pub open spec fn hyphenated(v: u128) -> Seq<char> {
    Seq::new(
        36,
        |i: int|
            if i == 8 || i == 13 || i == 18 || i == 23 {
                '-'
            } else if i < 8 {
                hex_digit(hex_digit_at(v, i))
            } else if i < 13 {
                hex_digit(hex_digit_at(v, i - 1))
            } else if i < 18 {
                hex_digit(hex_digit_at(v, i - 2))
            } else if i < 23 {
                hex_digit(hex_digit_at(v, i - 3))
            } else {
                hex_digit(hex_digit_at(v, i - 4))
            },
    )
}

/// Writes a 128-bit identifier as `uuid::Uuid` displays it. The contract
/// claims that this is the hyphenated lower-case form of the value read as a
/// big-endian number, which is not proved here.
#[verifier::external_body]
pub(crate) fn uuid_text(v: u128) -> (text: String)
    ensures
        text@ == hyphenated(v),
{
    uuid::Uuid::from_u128(v).to_string()
}

/// The URL under which the node at `node_id` takes a notification for the
/// user `uaid`.
pub open spec fn push_url(node_id: Seq<char>, uaid: u128) -> Seq<char> {
    node_id + "/push/"@ + hyphenated(uaid)
}

/// The URL under which the node at `node_id` is told to look for the stored
/// notifications of the user `uaid`.
pub open spec fn notif_url(node_id: Seq<char>, uaid: u128) -> Seq<char> {
    node_id + "/notif/"@ + hyphenated(uaid)
}

/// The reference that locates the message `message_id` below the endpoint's
/// base URL.
pub open spec fn message_path(message_id: Seq<char>) -> Seq<char> {
    "/m/"@ + message_id
}

/// Builds [`push_url`].
pub fn make_push_url(node_id: &str, uaid: u128) -> (url: String)
    ensures
        url@ == push_url(node_id@, uaid),
{
    let mut url = String::from_str(node_id);
    url.append("/push/");
    let id = uuid_text(uaid);
    url.append(id.as_str());
    url
}

/// Builds [`notif_url`].
pub fn make_notif_url(node_id: &str, uaid: u128) -> (url: String)
    ensures
        url@ == notif_url(node_id@, uaid),
{
    let mut url = String::from_str(node_id);
    url.append("/notif/");
    let id = uuid_text(uaid);
    url.append(id.as_str());
    url
}

/// Builds [`message_path`].
pub fn make_message_path(message_id: &str) -> (path: String)
    ensures
        path@ == message_path(message_id@),
{
    let mut path = String::from_str("/m/");
    path.append(message_id);
    path
}

} // verus!
