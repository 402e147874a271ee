//! The URL- and filename-safe Base64 alphabet with optional padding.

use crate::text::chars_of;
use vstd::prelude::*;

verus! {

/// A digit, an ASCII letter, `-` or `_`.
pub open spec fn is_alphabet_char(c: char) -> bool {
    ||| '0' <= c && c <= '9'
    ||| 'A' <= c && c <= 'Z'
    ||| 'a' <= c && c <= 'z'
    ||| c == '-'
    ||| c == '_'
}

/// `s` consists of `n` alphabet characters followed by `=` signs only.
pub open spec fn splits_at(s: Seq<char>, n: int) -> bool {
    &&& 0 < n <= s.len()
    &&& forall|i: int| 0 <= i < n ==> is_alphabet_char(#[trigger] s[i])
    &&& forall|i: int| n <= i < s.len() ==> #[trigger] s[i] == '='
}

/// One or more alphabet characters, then any number of `=` signs, and
/// nothing else.
pub open spec fn is_base64_url(s: Seq<char>) -> bool {
    exists|n: int| splits_at(s, n)
}

/// Every character is an alphabet character or `=`.
pub open spec fn only_allowed_chars(s: Seq<char>) -> bool {
    forall|i: int| 0 <= i < s.len() ==> is_alphabet_char(#[trigger] s[i]) || s[i] == '='
}

/// Whatever follows an `=` is an `=` too.
pub open spec fn padding_is_trailing(s: Seq<char>) -> bool {
    forall|i: int, j: int| 0 <= i <= j < s.len() && #[trigger] s[i] == '=' ==> #[trigger] s[j] == '='
}

/// The number of alphabet characters at the start of `s`.
pub open spec fn alphabet_prefix_len(s: Seq<char>) -> nat
    decreases s.len(),
{
    if s.len() > 0 && is_alphabet_char(s[0]) {
        1 + alphabet_prefix_len(s.skip(1))
    } else {
        0
    }
}

proof fn lemma_alphabet_prefix(s: Seq<char>)
    ensures
        alphabet_prefix_len(s) <= s.len(),
        forall|i: int| 0 <= i < alphabet_prefix_len(s) ==> is_alphabet_char(#[trigger] s[i]),
        alphabet_prefix_len(s) < s.len() ==> !is_alphabet_char(s[alphabet_prefix_len(s) as int]),
    decreases s.len(),
{
    if s.len() > 0 && is_alphabet_char(s[0]) {
        let t = s.skip(1);
        lemma_alphabet_prefix(t);
        assert forall|i: int| 0 <= i < alphabet_prefix_len(s) implies is_alphabet_char(
            #[trigger] s[i],
        ) by {
            if i > 0 {
                assert(s[i] == t[i - 1]);
            }
        }
        if alphabet_prefix_len(s) < s.len() {
            assert(s[alphabet_prefix_len(s) as int] == t[alphabet_prefix_len(t) as int]);
        }
    }
}

/// A text is in the grammar exactly when it is not empty, does not start
/// with `=`, holds no character outside the alphabet and `=`, and has its
/// `=` signs at the end only.
pub proof fn lemma_base64_url_by_characters(s: Seq<char>)
    ensures
        is_base64_url(s) <==> {
            &&& s.len() > 0
            &&& s[0] != '='
            &&& only_allowed_chars(s)
            &&& padding_is_trailing(s)
        },
{
    if is_base64_url(s) {
        let n = choose|n: int| splits_at(s, n);
        assert(is_alphabet_char(s[0]));
        assert forall|i: int| 0 <= i < s.len() implies is_alphabet_char(#[trigger] s[i]) || s[i]
            == '=' by {
            if i < n {
                assert(is_alphabet_char(s[i]));
            }
        }
        assert forall|i: int, j: int| 0 <= i <= j < s.len() && #[trigger] s[i] == '=' implies #[trigger] s[j]
            == '=' by {
            if i < n {
                assert(is_alphabet_char(s[i]));
            }
        }
    }
    if s.len() > 0 && s[0] != '=' && only_allowed_chars(s) && padding_is_trailing(s) {
        lemma_alphabet_prefix(s);
        let n = alphabet_prefix_len(s) as int;
        assert(is_alphabet_char(s[0]) || s[0] == '=');
        assert(n > 0);
        assert forall|i: int| n <= i < s.len() implies #[trigger] s[i] == '=' by {
            assert(is_alphabet_char(s[n]) || s[n] == '=');
            assert(s[n] == '=');
        }
        assert(splits_at(s, n));
    }
}

fn alphabet_char(c: char) -> (r: bool)
    ensures
        r == is_alphabet_char(c),
{
    ('0' <= c && c <= '9') || ('A' <= c && c <= 'Z') || ('a' <= c && c <= 'z') || c == '-' || c
        == '_'
}

/// Decides whether `chars` is URL-safe Base64 text with optional padding.
pub fn chars_are_base64_url(chars: &[char]) -> (r: bool)
    ensures
        r == is_base64_url(chars@),
{
    let ghost s = chars@;
    let mut n: usize = 0;
    while n < chars.len() && alphabet_char(chars[n])
        invariant
            n <= chars.len(),
            s == chars@,
            forall|i: int| 0 <= i < n ==> is_alphabet_char(#[trigger] s[i]),
        decreases chars.len() - n,
    {
        n += 1;
    }
    if n == 0 {
        proof {
            if is_base64_url(s) {
                let k = choose|k: int| splits_at(s, k);
                assert(is_alphabet_char(s[0]));
            }
        }
        return false;
    }
    let mut j: usize = n;
    while j < chars.len()
        invariant
            0 < n <= j <= chars.len(),
            s == chars@,
            forall|i: int| 0 <= i < n ==> is_alphabet_char(#[trigger] s[i]),
            n < chars.len() ==> !is_alphabet_char(s[n as int]),
            forall|i: int| n <= i < j ==> #[trigger] s[i] == '=',
        decreases chars.len() - j,
    {
        if chars[j] != '=' {
            proof {
                if is_base64_url(s) {
                    let k = choose|k: int| splits_at(s, k);
                    if k <= n {
                        assert(s[j as int] == '=');
                    } else {
                        assert(is_alphabet_char(s[n as int]));
                    }
                }
            }
            return false;
        }
        j += 1;
    }
    assert(splits_at(s, n as int));
    true
}

/// Decides whether `s` is URL-safe Base64 text with optional padding.
pub fn is_valid_base64_url(s: &str) -> (r: bool)
    ensures
        r == is_base64_url(s@),
{
    let chars = chars_of(s);
    chars_are_base64_url(chars.as_slice())
}

} // verus!
