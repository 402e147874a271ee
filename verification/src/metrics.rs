//! The counts that routing reports.

use vstd::prelude::*;
use vstd::utf8::encode_utf8;

verus! {

/// A count to report, with its tags.
#[derive(Debug, Clone, PartialEq, Eq)]
pub struct Metric {
    pub name: String,
    pub count: i64,
    pub tags: Vec<(String, String)>,
}

/// A [`Metric`] as plain values.
pub struct MetricView {
    pub name: Seq<char>,
    pub count: i64,
    pub tags: Seq<(Seq<char>, Seq<char>)>,
}

impl View for Metric {
    type V = MetricView;

    open spec fn view(&self) -> MetricView {
        MetricView { name: self.name@, count: self.count, tags: self.tags.deep_view() }
    }
}

/// The number of bytes of a payload: that of its UTF-8 encoding, and 0 where
/// there is none.
pub open spec fn payload_size(data: Option<Seq<char>>) -> nat {
    match data {
        Some(d) => encode_utf8(d).len(),
        None => 0,
    }
}

/// One more user whose node could not be reached.
pub open spec fn host_gone() -> MetricView {
    MetricView { name: "updates.client.host_gone"@, count: 1, tags: Seq::empty() }
}

/// The size of a routed payload, tagged with where the notification went.
/// A size beyond `i64::MAX` is counted as `i64::MAX`.
pub open spec fn message_data(size: nat, destination: Seq<char>) -> MetricView {
    MetricView {
        name: "notification.message_data"@,
        count: if size > i64::MAX {
            i64::MAX
        } else {
            size as i64
        },
        tags: seq![("destination"@, destination)],
    }
}

impl Metric {
    /// Builds [`host_gone`].
    pub fn host_gone() -> (m: Metric)
        ensures
            m@ == host_gone(),
    {
        let m = Metric {
            name: String::from_str("updates.client.host_gone"),
            count: 1,
            tags: Vec::new(),
        };
        assert(m.tags.deep_view() =~= Seq::empty());
        m
    }

    /// Builds [`message_data`] for the payload `data`.
    pub fn message_data(data: &Option<String>, destination: &str) -> (m: Metric)
        ensures
            m@ == message_data(payload_size(data.deep_view()), destination@),
    {
        let size: usize = match data {
            Some(d) => d.as_str().as_bytes().len(),
            None => 0,
        };
        let count: i64 = if size as u64 > 0x7fff_ffff_ffff_ffff {
            i64::MAX
        } else {
            size as i64
        };
        let mut tags: Vec<(String, String)> = Vec::new();
        tags.push((String::from_str("destination"), String::from_str(destination)));
        let m = Metric { name: String::from_str("notification.message_data"), count, tags };
        assert(m.tags.deep_view() =~= seq![("destination"@, destination@)]);
        m
    }
}

} // verus!
