//! The list syntax that the `Crypto-Key`, `Encryption` and `Encryption-Key`
//! headers share: sections separated by `,`, each a list of `key=value`
//! items separated by `;`.

use crate::text::{chars_of, is_white_space, same_text, text_of, white_space};
use vstd::prelude::*;

verus! {

/// The place of the first `c` in `s`, and the length of `s` where it holds
/// none.
pub open spec fn index_of(s: Seq<char>, c: char) -> int
    decreases s.len(),
{
    if s.len() == 0 || s[0] == c {
        0
    } else {
        1 + index_of(s.skip(1), c)
    }
}

/// The pieces of `s` between the separators `sep`: one more than there are
/// separators, empty pieces included.
pub open spec fn split(s: Seq<char>, sep: char) -> Seq<Seq<char>>
    decreases s.len(),
{
    let i = index_of(s, sep);
    if i < 0 || i >= s.len() {
        seq![s]
    } else {
        seq![s.take(i)] + split(s.skip(i + 1), sep)
    }
}

/// What is taken off the ends of a text.
#[derive(Debug, Clone, Copy, PartialEq, Eq)]
pub enum Strip {
    /// White space.
    WhiteSpace,
    /// Double quotes.
    Quotes,
}

/// Whether `c` is among the characters that `kind` takes off.
pub open spec fn is_stripped(kind: Strip, c: char) -> bool {
    match kind {
        Strip::WhiteSpace => is_white_space(c),
        Strip::Quotes => c == '"',
    }
}

/// `s` without the stripped characters at its start.
pub open spec fn strip_start(s: Seq<char>, kind: Strip) -> Seq<char>
    decreases s.len(),
{
    if s.len() > 0 && is_stripped(kind, s[0]) {
        strip_start(s.skip(1), kind)
    } else {
        s
    }
}

/// `s` without the stripped characters at its end.
pub open spec fn strip_end(s: Seq<char>, kind: Strip) -> Seq<char>
    decreases s.len(),
{
    if s.len() > 0 && is_stripped(kind, s.last()) {
        strip_end(s.drop_last(), kind)
    } else {
        s
    }
}

/// `s` without the stripped characters at either end.
pub open spec fn strip(s: Seq<char>, kind: Strip) -> Seq<char> {
    strip_end(strip_start(s, kind), kind)
}

/// The key and the value of an item: what stands before its first `=`,
/// without the white space around it, and what stands after, without the
/// white space and then the double quotes around it. `None` where the item
/// holds no `=`.
pub open spec fn parse_item(item: Seq<char>) -> Option<(Seq<char>, Seq<char>)> {
    let i = index_of(item, '=');
    if i < 0 || i >= item.len() {
        None
    } else {
        Some(
            (
                strip(item.take(i), Strip::WhiteSpace),
                strip(strip(item.skip(i + 1), Strip::WhiteSpace), Strip::Quotes),
            ),
        )
    }
}

/// The items of a section, in order. `None` where one of them is no item.
pub open spec fn parse_section(section: Seq<char>) -> Option<Seq<(Seq<char>, Seq<char>)>> {
    let items = split(section, ';');
    if forall|i: int| 0 <= i < items.len() ==> parse_item(#[trigger] items[i]) is Some {
        Some(items.map_values(|item: Seq<char>| parse_item(item).unwrap()))
    } else {
        None
    }
}

/// The sections of a header, in order. `None` where one of them holds
/// something that is no item.
pub open spec fn parse_header(header: Seq<char>) -> Option<Seq<Seq<(Seq<char>, Seq<char>)>>> {
    let sections = split(header, ',');
    if forall|i: int| 0 <= i < sections.len() ==> parse_section(#[trigger] sections[i]) is Some {
        Some(sections.map_values(|section: Seq<char>| parse_section(section).unwrap()))
    } else {
        None
    }
}

/// The value that a section gives `key`: that of the last item with this
/// key.
pub open spec fn section_value(section: Seq<(Seq<char>, Seq<char>)>, key: Seq<char>) -> Option<
    Seq<char>,
>
    decreases section.len(),
{
    if section.len() == 0 {
        None
    } else if section.last().0 == key {
        Some(section.last().1)
    } else {
        section_value(section.drop_last(), key)
    }
}

/// The value that a header gives `key`: that of the first section which
/// holds the key.
pub open spec fn lookup(sections: Seq<Seq<(Seq<char>, Seq<char>)>>, key: Seq<char>) -> Option<
    Seq<char>,
>
    decreases sections.len(),
{
    if sections.len() == 0 {
        None
    } else if section_value(sections[0], key) is Some {
        section_value(sections[0], key)
    } else {
        lookup(sections.skip(1), key)
    }
}

/// `index_of` finds the first occurrence.
proof fn lemma_index_of(s: Seq<char>, c: char, k: int)
    requires
        0 <= k <= s.len(),
        forall|i: int| 0 <= i < k ==> s[i] != c,
        k < s.len() ==> s[k] == c,
    ensures
        index_of(s, c) == k,
    decreases s.len(),
{
    if s.len() > 0 && s[0] != c {
        let t = s.skip(1);
        assert forall|i: int| 0 <= i < k - 1 implies t[i] != c by {
            assert(t[i] == s[i + 1]);
        }
        lemma_index_of(t, c, k - 1);
    }
}

/// The place of the first `c` in `chars[from..to]`, and `to` where there is
/// none.
fn find(chars: &Vec<char>, from: usize, to: usize, c: char) -> (at: usize)
    requires
        from <= to <= chars.len(),
    ensures
        from <= at <= to,
        at == from + index_of(chars@.subrange(from as int, to as int), c),
{
    let mut at: usize = from;
    while at < to && chars[at] != c
        invariant
            from <= at <= to <= chars.len(),
            forall|i: int| from <= i < at ==> chars@[i] != c,
        decreases to - at,
    {
        at += 1;
    }
    proof {
        lemma_index_of(chars@.subrange(from as int, to as int), c, at - from);
    }
    at
}

/// The ranges of the pieces of `chars[from..to]` between the separators
/// `sep`.
fn split_ranges(chars: &Vec<char>, from: usize, to: usize, sep: char) -> (ranges: Vec<
    (usize, usize),
>)
    requires
        from <= to <= chars.len(),
    ensures
        ranges@.len() == split(chars@.subrange(from as int, to as int), sep).len(),
        forall|i: int|
            0 <= i < ranges@.len() ==> {
                &&& from <= (#[trigger] ranges@[i]).0 <= ranges@[i].1 <= to
                &&& chars@.subrange(ranges@[i].0 as int, ranges@[i].1 as int) == split(
                    chars@.subrange(from as int, to as int),
                    sep,
                )[i]
            },
{
    let ghost whole = chars@.subrange(from as int, to as int);
    let mut ranges: Vec<(usize, usize)> = Vec::new();
    let mut start: usize = from;
    assert(chars@.subrange(start as int, to as int) =~= whole);
    loop
        invariant_except_break
            from <= start <= to <= chars.len(),
            whole == chars@.subrange(from as int, to as int),
            split(whole, sep) =~= Seq::new(
                ranges@.len(),
                |i: int| chars@.subrange(ranges@[i].0 as int, ranges@[i].1 as int),
            ) + split(chars@.subrange(start as int, to as int), sep),
            forall|i: int|
                0 <= i < ranges@.len() ==> from <= (#[trigger] ranges@[i]).0 <= ranges@[i].1
                    <= to,
        ensures
            from <= to <= chars.len(),
            whole == chars@.subrange(from as int, to as int),
            split(whole, sep) =~= Seq::new(
                ranges@.len(),
                |i: int| chars@.subrange(ranges@[i].0 as int, ranges@[i].1 as int),
            ),
            forall|i: int|
                0 <= i < ranges@.len() ==> from <= (#[trigger] ranges@[i]).0 <= ranges@[i].1
                    <= to,
        decreases to - start,
    {
        let ghost rest = chars@.subrange(start as int, to as int);
        let ghost done = Seq::new(
            ranges@.len(),
            |i: int| chars@.subrange(ranges@[i].0 as int, ranges@[i].1 as int),
        );
        let at = find(chars, start, to, sep);
        ranges.push((start, at));
        let ghost done_now = Seq::new(
            ranges@.len(),
            |i: int| chars@.subrange(ranges@[i].0 as int, ranges@[i].1 as int),
        );
        if at == to {
            proof {
                assert(split(rest, sep) =~= seq![rest]);
                assert(done_now =~= done + seq![rest]);
            }
            break ;
        }
        proof {
            assert(rest.take(at - start) =~= chars@.subrange(start as int, at as int));
            assert(rest.skip(at - start + 1) =~= chars@.subrange(at + 1, to as int));
            assert(split(rest, sep) =~= seq![rest.take(at - start)] + split(
                rest.skip(at - start + 1),
                sep,
            ));
            assert(done_now =~= done + seq![rest.take(at - start)]);
        }
        start = at + 1;
    }
    ranges
}

fn stripped(kind: Strip, c: char) -> (r: bool)
    ensures
        r == is_stripped(kind, c),
{
    match kind {
        Strip::WhiteSpace => white_space(c),
        Strip::Quotes => c == '"',
    }
}

/// The range of `chars[from..to]` that is left when the stripped characters
/// are taken off both ends.
fn strip_range(chars: &Vec<char>, from: usize, to: usize, kind: Strip) -> (r: (usize, usize))
    requires
        from <= to <= chars.len(),
    ensures
        from <= r.0 <= r.1 <= to,
        chars@.subrange(r.0 as int, r.1 as int) == strip(
            chars@.subrange(from as int, to as int),
            kind,
        ),
{
    let mut a: usize = from;
    while a < to && stripped(kind, chars[a])
        invariant
            from <= a <= to <= chars.len(),
            strip_start(chars@.subrange(from as int, to as int), kind) == strip_start(
                chars@.subrange(a as int, to as int),
                kind,
            ),
        decreases to - a,
    {
        proof {
            let s = chars@.subrange(a as int, to as int);
            assert(s[0] == chars@[a as int]);
            assert(s.skip(1) =~= chars@.subrange(a + 1, to as int));
        }
        a += 1;
    }
    proof {
        let s = chars@.subrange(a as int, to as int);
        if a < to {
            assert(s[0] == chars@[a as int]);
        }
        assert(strip_start(s, kind) == s);
    }
    let mut b: usize = to;
    while b > a && stripped(kind, chars[b - 1])
        invariant
            a <= b <= to <= chars.len(),
            strip_end(chars@.subrange(a as int, to as int), kind) == strip_end(
                chars@.subrange(a as int, b as int),
                kind,
            ),
        decreases b - a,
    {
        proof {
            let s = chars@.subrange(a as int, b as int);
            assert(s.last() == chars@[b - 1]);
            assert(s.drop_last() =~= chars@.subrange(a as int, b - 1));
        }
        b -= 1;
    }
    proof {
        let s = chars@.subrange(a as int, b as int);
        if b > a {
            assert(s.last() == chars@[b - 1]);
        }
        assert(strip_end(s, kind) == s);
    }
    (a, b)
}

/// The parsed form of a header in the list syntax.
#[derive(Debug, Clone, PartialEq, Eq)]
pub struct CryptoKeyHeader {
    /// The sections, each with its items as pairs of key and value.
    pub sections: Vec<Vec<(String, String)>>,
}

impl View for CryptoKeyHeader {
    type V = Seq<Seq<(Seq<char>, Seq<char>)>>;

    open spec fn view(&self) -> Seq<Seq<(Seq<char>, Seq<char>)>> {
        self.sections.deep_view()
    }
}

/// Reads the item `chars[from..to]` of `header`.
fn parse_item_range(header: &str, chars: &Vec<char>, from: usize, to: usize) -> (r: Option<
    (String, String),
>)
    requires
        chars@ == header@,
        from <= to <= chars.len(),
    ensures
        r.deep_view() == parse_item(chars@.subrange(from as int, to as int)),
{
    let ghost item = chars@.subrange(from as int, to as int);
    let eq = find(chars, from, to, '=');
    if eq == to {
        return None;
    }
    proof {
        assert(item.take(eq - from) =~= chars@.subrange(from as int, eq as int));
        assert(item.skip(eq - from + 1) =~= chars@.subrange(eq + 1, to as int));
    }
    let (key_from, key_to) = strip_range(chars, from, eq, Strip::WhiteSpace);
    let (bare_from, bare_to) = strip_range(chars, eq + 1, to, Strip::WhiteSpace);
    let (value_from, value_to) = strip_range(chars, bare_from, bare_to, Strip::Quotes);
    let key = String::from_str(header.substring_char(key_from, key_to));
    let value = String::from_str(header.substring_char(value_from, value_to));
    Some((key, value))
}

/// Reads the section `chars[from..to]` of `header`.
fn parse_section_range(header: &str, chars: &Vec<char>, from: usize, to: usize) -> (r: Option<
    Vec<(String, String)>,
>)
    requires
        chars@ == header@,
        from <= to <= chars.len(),
    ensures
        r.deep_view() == parse_section(chars@.subrange(from as int, to as int)),
{
    let ghost items = split(chars@.subrange(from as int, to as int), ';');
    let ranges = split_ranges(chars, from, to, ';');
    let mut section: Vec<(String, String)> = Vec::new();
    let mut i: usize = 0;
    while i < ranges.len()
        invariant
            i <= ranges.len(),
            chars@ == header@,
            items == split(chars@.subrange(from as int, to as int), ';'),
            ranges@.len() == items.len(),
            forall|k: int|
                0 <= k < ranges@.len() ==> {
                    &&& from <= (#[trigger] ranges@[k]).0 <= ranges@[k].1 <= to <= chars.len()
                    &&& chars@.subrange(ranges@[k].0 as int, ranges@[k].1 as int) == items[k]
                },
            section@.len() == i,
            forall|k: int|
                0 <= k < i ==> parse_item(#[trigger] items[k]) == Some(section.deep_view()[k]),
        decreases ranges.len() - i,
    {
        let (a, b) = ranges[i];
        assert(chars@.subrange(ranges@[i as int].0 as int, ranges@[i as int].1 as int)
            == items[i as int]);
        match parse_item_range(header, chars, a, b) {
            None => {
                assert(parse_item(items[i as int]) is None);
                return None;
            },
            Some(item) => {
                let ghost before = section.deep_view();
                section.push(item);
                assert(section.deep_view() =~= before.push(item.deep_view()));
            },
        }
        i += 1;
    }
    proof {
        assert(section.deep_view() =~= items.map_values(
            |item: Seq<char>| parse_item(item).unwrap(),
        ));
    }
    Some(section)
}

/// The value that `section` gives `key`.
fn section_get<'a>(section: &'a Vec<(String, String)>, key: &str) -> (r: Option<&'a str>)
    ensures
        text_of(r) == section_value(section.deep_view(), key@),
{
    let mut j: usize = section.len();
    assert(section.deep_view().take(j as int) =~= section.deep_view());
    while j > 0
        invariant
            j <= section.len(),
            section_value(section.deep_view(), key@) == section_value(
                section.deep_view().take(j as int),
                key@,
            ),
        decreases j,
    {
        proof {
            let upto = section.deep_view().take(j as int);
            assert(upto.last() == section.deep_view()[j - 1]);
            assert(section.deep_view()[j - 1] == (section@[j - 1].0@, section@[j - 1].1@));
            assert(upto.drop_last() =~= section.deep_view().take(j - 1));
        }
        if same_text(section[j - 1].0.as_str(), key) {
            return Some(section[j - 1].1.as_str());
        }
        j -= 1;
    }
    assert(section.deep_view().take(0).len() == 0);
    None
}

impl CryptoKeyHeader {
    /// Reads a header in the list syntax.
    pub fn parse(header: &str) -> (r: Option<CryptoKeyHeader>)
        ensures
            r is Some <==> parse_header(header@) is Some,
            r matches Some(parsed) ==> parse_header(header@) == Some(parsed@),
    {
        let chars = chars_of(header);
        let ghost pieces = split(header@, ',');
        assert(chars@.subrange(0, chars.len() as int) =~= header@);
        let ranges = split_ranges(&chars, 0, chars.len(), ',');
        let mut sections: Vec<Vec<(String, String)>> = Vec::new();
        let mut i: usize = 0;
        while i < ranges.len()
            invariant
                i <= ranges.len(),
                chars@ == header@,
                pieces == split(header@, ','),
                ranges@.len() == pieces.len(),
                forall|k: int|
                    0 <= k < ranges@.len() ==> {
                        &&& (#[trigger] ranges@[k]).0 <= ranges@[k].1 <= chars.len()
                        &&& chars@.subrange(ranges@[k].0 as int, ranges@[k].1 as int)
                            == pieces[k]
                    },
                sections@.len() == i,
                forall|k: int|
                    0 <= k < i ==> parse_section(#[trigger] pieces[k]) == Some(
                        sections.deep_view()[k],
                    ),
            decreases ranges.len() - i,
        {
            let (a, b) = ranges[i];
            assert(chars@.subrange(ranges@[i as int].0 as int, ranges@[i as int].1 as int)
                == pieces[i as int]);
            match parse_section_range(header, &chars, a, b) {
                None => {
                    assert(parse_section(pieces[i as int]) is None);
                    return None;
                },
                Some(section) => {
                    let ghost before = sections.deep_view();
                    sections.push(section);
                    assert(sections.deep_view() =~= before.push(section.deep_view()));
                },
            }
            i += 1;
        }
        proof {
            assert(sections.deep_view() =~= pieces.map_values(
                |section: Seq<char>| parse_section(section).unwrap(),
            ));
        }
        Some(CryptoKeyHeader { sections })
    }

    /// The value of `key` in the first section that holds the key.
    pub fn get_by_key<'a>(&'a self, key: &str) -> (r: Option<&'a str>)
        ensures
            text_of(r) == lookup(self@, key@),
    {
        let mut i: usize = 0;
        assert(self@.skip(0) =~= self@);
        while i < self.sections.len()
            invariant
                i <= self.sections.len(),
                lookup(self@, key@) == lookup(self@.skip(i as int), key@),
            decreases self.sections.len() - i,
        {
            let section = &self.sections[i];
            proof {
                let rest = self@.skip(i as int);
                assert(rest[0] == self@[i as int]);
                assert(self@[i as int] == section.deep_view());
                assert(rest.skip(1) =~= self@.skip(i + 1));
            }
            let found = section_get(section, key);
            if found.is_some() {
                return found;
            }
            i += 1;
        }
        assert(self@.skip(i as int).len() == 0);
        None
    }
}

} // verus!
