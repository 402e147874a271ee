//! The headers of an inbound request, as the names and values that were
//! sent.

use crate::text::{eq_ignore_ascii_case, same_text_ignore_ascii_case, text_of};
use vstd::prelude::*;

verus! {

/// The header lines of a request, in the order in which they came.
#[derive(Debug, Clone, PartialEq, Eq)]
pub struct RawHeaders {
    pub entries: Vec<(String, String)>,
}

impl View for RawHeaders {
    type V = Seq<(Seq<char>, Seq<char>)>;

    open spec fn view(&self) -> Seq<(Seq<char>, Seq<char>)> {
        self.entries.deep_view()
    }
}

/// The value of the first header line whose name is `name`, whatever the
/// case of its ASCII letters.
pub open spec fn header_value(entries: Seq<(Seq<char>, Seq<char>)>, name: Seq<char>) -> Option<
    Seq<char>,
>
    decreases entries.len(),
{
    if entries.len() == 0 {
        None
    } else if eq_ignore_ascii_case(entries[0].0, name) {
        Some(entries[0].1)
    } else {
        header_value(entries.skip(1), name)
    }
}

impl RawHeaders {
    /// No header lines.
    pub fn new() -> (r: RawHeaders)
        ensures
            r@ == Seq::<(Seq<char>, Seq<char>)>::empty(),
    {
        let r = RawHeaders { entries: Vec::new() };
        assert(r@ =~= Seq::empty());
        r
    }

    /// These header lines and one more after them.
    pub fn header(self, name: &str, value: &str) -> (r: RawHeaders)
        ensures
            r@ == self@.push((name@, value@)),
    {
        let mut entries = self.entries;
        entries.push((String::from_str(name), String::from_str(value)));
        let r = RawHeaders { entries };
        assert(r@ =~= self@.push((name@, value@)));
        r
    }
}

/// Looks a header up by its name.
pub fn get_header<'a>(req: &'a RawHeaders, name: &str) -> (r: Option<&'a str>)
    ensures
        text_of(r) == header_value(req@, name@),
{
    let mut i: usize = 0;
    assert(req@.skip(0) =~= req@);
    while i < req.entries.len()
        invariant
            i <= req.entries.len(),
            header_value(req@, name@) == header_value(req@.skip(i as int), name@),
        decreases req.entries.len() - i,
    {
        let ghost rest = req@.skip(i as int);
        assert(rest[0] == req@[i as int]);
        assert(req@[i as int] == (req.entries@[i as int].0@, req.entries@[i as int].1@));
        assert(rest.skip(1) =~= req@.skip(i + 1));
        if same_text_ignore_ascii_case(req.entries[i].0.as_str(), name) {
            return Some(req.entries[i].1.as_str());
        }
        i += 1;
    }
    assert(req@.skip(i as int).len() == 0);
    None
}

/// Looks a header up by its name and copies its value.
pub fn get_owned_header(req: &RawHeaders, name: &str) -> (r: Option<String>)
    ensures
        r.deep_view() == header_value(req@, name@),
{
    match get_header(req, name) {
        Some(value) => Some(String::from_str(value)),
        None => None,
    }
}

} // verus!
