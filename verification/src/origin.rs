//! The origin of a URL: what a browser names in `Origin` when a page of
//! that URL sends a request.
use crate::text::{chars_of, find_char, first_index, string_from};
use vstd::prelude::*;

verus! {

/// Whether `://` stands at position `i` of `s`.
pub open spec fn separator_at(s: Seq<char>, i: int) -> bool {
    &&& 0 <= i
    &&& i + 3 <= s.len()
    &&& s[i] == ':'
    &&& s[i + 1] == '/'
    &&& s[i + 2] == '/'
}

/// Position of the first `://` in `s`, or `s.len()` when there is none.
pub open spec fn scheme_end(s: Seq<char>) -> int
    decreases s.len(),
{
    if s.len() < 3 {
        s.len() as int
    } else if separator_at(s, 0) {
        0
    } else {
        1 + scheme_end(s.drop_first())
    }
}

/// Scheme, host and port of `url`: everything up to the first `/` after
/// the first `://`. A text without `://`, or without a `/` after it, is
/// its own origin.
pub open spec fn origin_of(url: Seq<char>) -> Seq<char> {
    let k = scheme_end(url);
    if k + 3 <= url.len() {
        url.take(k + 3 + first_index(url.skip(k + 3), '/'))
    } else {
        url
    }
}

/// A position with `://` and none before it is `scheme_end`; without any
/// `://` that is the length.
proof fn lemma_scheme_end_is(s: Seq<char>, k: int)
    requires
        0 <= k,
        forall|j: int| 0 <= j < k ==> !separator_at(s, j),
        separator_at(s, k) || k + 3 > s.len(),
    ensures
        scheme_end(s) == if separator_at(s, k) {
            k
        } else {
            s.len() as int
        },
    decreases s.len(),
{
    if s.len() >= 3 && !separator_at(s, 0) {
        let t = s.drop_first();
        assert forall|j: int| 0 <= j < k - 1 implies !separator_at(t, j) by {
            assert(!separator_at(s, j + 1));
        }
        if separator_at(s, k) {
            assert(separator_at(t, k - 1));
        }
        lemma_scheme_end_is(t, if k > 0 { k - 1 } else { 0 });
    }
}

/// The origin of `url`.
pub fn origin_of_url(url: &str) -> (origin: String)
    ensures
        origin@ == origin_of(url@),
{
    let chars = chars_of(url);
    let n = chars.len();
    let mut i: usize = 0;
    while n >= 3 && i <= n - 3 && !(chars[i] == ':' && chars[i + 1] == '/' && chars[i + 2] == '/')
        invariant
            n == chars.len(),
            i <= n,
            forall|j: int| 0 <= j < i ==> !separator_at(chars@, j),
        decreases n - i,
    {
        i += 1;
    }
    proof {
        lemma_scheme_end_is(chars@, i as int);
    }
    if n >= 3 && i <= n - 3 {
        let slash = find_char(&chars, i + 3, n, '/');
        proof {
            assert(chars@.subrange(i as int + 3, n as int) =~= chars@.skip(i as int + 3));
            assert(chars@.subrange(0, slash as int) =~= chars@.take(slash as int));
        }
        string_from(&chars, 0, slash)
    } else {
        proof {
            assert(chars@.subrange(0, n as int) =~= chars@);
        }
        string_from(&chars, 0, n)
    }
}

} // verus!
