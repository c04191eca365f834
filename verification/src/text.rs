//! Character-level building blocks: whitespace, trimming, searching,
//! ASCII case folding and decimal numbers, each with the mathematical
//! definition that the parsers and builders of this crate are proved against.
use vstd::prelude::*;
use vstd::string::*;
use vstd::utf8::*;

verus! {

/// `String::push` appends one character.
pub assume_specification[ String::push ](s: &mut String, c: char)
    ensures
        final(s)@ == old(s)@.push(c),
;

/// Replacement-decoding of a byte string as UTF-8: what
/// `String::from_utf8_lossy` yields for `bytes`.
pub uninterp spec fn utf8_lossy(bytes: Seq<u8>) -> Seq<char>;

/// Decodes `bytes` as UTF-8 with `String::from_utf8_lossy`, which replaces
/// each ill-formed part by U+FFFD. The contract names the outcome and says
/// that well-formed UTF-8 is decoded as it stands.
#[verifier::external_body]
pub(crate) fn decode_utf8_lossy(bytes: &[u8]) -> (text: String)
    ensures
        text@ == utf8_lossy(bytes@),
        valid_utf8(bytes@) ==> text@ == decode_utf8(bytes@),
{
    String::from_utf8_lossy(bytes).into_owned()
}

/// The characters with the Unicode property `White_Space`.
pub open spec fn is_whitespace(c: char) -> bool {
    let n = c as u32;
    ||| 0x09 <= n <= 0x0D
    ||| n == 0x20
    ||| n == 0x85
    ||| n == 0xA0
    ||| n == 0x1680
    ||| 0x2000 <= n <= 0x200A
    ||| n == 0x2028
    ||| n == 0x2029
    ||| n == 0x202F
    ||| n == 0x205F
    ||| n == 0x3000
}

/// Decides `is_whitespace`.
pub fn char_is_whitespace(c: char) -> (b: bool)
    ensures
        b == is_whitespace(c),
{
    let n: u32 = c as u32;
    (0x09 <= n && n <= 0x0D) || n == 0x20 || n == 0x85 || n == 0xA0 || n == 0x1680 || (0x2000 <= n
        && n <= 0x200A) || n == 0x2028 || n == 0x2029 || n == 0x202F || n == 0x205F || n == 0x3000
}

/// Position of the first `c` in `s`, or `s.len()` when there is none.
pub open spec fn first_index(s: Seq<char>, c: char) -> int
    decreases s.len(),
{
    if s.len() == 0 {
        0
    } else if s[0] == c {
        0
    } else {
        1 + first_index(s.drop_first(), c)
    }
}

/// Position of the first whitespace character in `s`, or `s.len()`.
pub open spec fn first_whitespace(s: Seq<char>) -> int
    decreases s.len(),
{
    if s.len() == 0 {
        0
    } else if is_whitespace(s[0]) {
        0
    } else {
        1 + first_whitespace(s.drop_first())
    }
}

/// `s` without its leading whitespace.
pub open spec fn trim_start(s: Seq<char>) -> Seq<char>
    decreases s.len(),
{
    if s.len() > 0 && is_whitespace(s[0]) {
        trim_start(s.drop_first())
    } else {
        s
    }
}

/// `s` without its trailing whitespace.
pub open spec fn trim_end(s: Seq<char>) -> Seq<char>
    decreases s.len(),
{
    if s.len() > 0 && is_whitespace(s.last()) {
        trim_end(s.drop_last())
    } else {
        s
    }
}

/// `s` without leading and trailing whitespace.
pub open spec fn trim(s: Seq<char>) -> Seq<char> {
    trim_end(trim_start(s))
}

/// `first_index` lies within the string, at a `c` if any, and past no `c`.
pub proof fn lemma_first_index_bounds(s: Seq<char>, c: char)
    ensures
        0 <= first_index(s, c) <= s.len(),
        first_index(s, c) < s.len() ==> s[first_index(s, c)] == c,
        forall|i: int| 0 <= i < first_index(s, c) ==> s[i] != c,
    decreases s.len(),
{
    if s.len() > 0 && s[0] != c {
        let t = s.drop_first();
        lemma_first_index_bounds(t, c);
        assert forall|i: int| 0 <= i < first_index(s, c) implies s[i] != c by {
            if i > 0 {
                assert(s[i] == t[i - 1]);
            }
        }
    }
}

/// The first position at which `c` stands is `first_index`.
pub proof fn lemma_first_index_is(s: Seq<char>, c: char, k: int)
    requires
        0 <= k <= s.len(),
        forall|i: int| 0 <= i < k ==> s[i] != c,
        k < s.len() ==> s[k] == c,
    ensures
        first_index(s, c) == k,
    decreases s.len(),
{
    if s.len() > 0 && k > 0 {
        let t = s.drop_first();
        assert forall|i: int| 0 <= i < k - 1 implies t[i] != c by {
            assert(t[i] == s[i + 1]);
        }
        lemma_first_index_is(t, c, k - 1);
    }
}

/// The first position at which whitespace stands is `first_whitespace`.
pub proof fn lemma_first_whitespace_is(s: Seq<char>, k: int)
    requires
        0 <= k <= s.len(),
        forall|i: int| 0 <= i < k ==> !is_whitespace(s[i]),
        k < s.len() ==> is_whitespace(s[k]),
    ensures
        first_whitespace(s) == k,
    decreases s.len(),
{
    if s.len() > 0 && k > 0 {
        let t = s.drop_first();
        assert forall|i: int| 0 <= i < k - 1 implies !is_whitespace(t[i]) by {
            assert(t[i] == s[i + 1]);
        }
        lemma_first_whitespace_is(t, k - 1);
    }
}

/// Dropping a run of `k` leading whitespace characters that ends at a
/// non-whitespace character (or at the end) is `trim_start`.
pub proof fn lemma_trim_start_is(s: Seq<char>, k: int)
    requires
        0 <= k <= s.len(),
        forall|i: int| 0 <= i < k ==> is_whitespace(s[i]),
        k < s.len() ==> !is_whitespace(s[k]),
    ensures
        trim_start(s) == s.skip(k),
    decreases s.len(),
{
    if k == 0 {
        assert(s.skip(0) =~= s);
    } else {
        let t = s.drop_first();
        assert forall|i: int| 0 <= i < k - 1 implies is_whitespace(t[i]) by {
            assert(t[i] == s[i + 1]);
        }
        lemma_trim_start_is(t, k - 1);
        assert(t.skip(k - 1) =~= s.skip(k));
    }
}

/// Keeping the first `k` characters, where everything after them is
/// whitespace and the `k`-th is not, is `trim_end`.
pub proof fn lemma_trim_end_is(s: Seq<char>, k: int)
    requires
        0 <= k <= s.len(),
        forall|i: int| k <= i < s.len() ==> is_whitespace(s[i]),
        k > 0 ==> !is_whitespace(s[k - 1]),
    ensures
        trim_end(s) == s.take(k),
    decreases s.len(),
{
    if k == s.len() {
        assert(s.take(k) =~= s);
    } else {
        let t = s.drop_last();
        lemma_trim_end_is(t, k);
        assert(t.take(k) =~= s.take(k));
    }
}

/// The characters of `s`, in order.
pub fn chars_of(s: &str) -> (v: Vec<char>)
    ensures
        v@ == s@,
{
    let mut v: Vec<char> = Vec::new();
    for c in it: s.chars()
        invariant
            v@ == it.seq().take(it.index() as int),
            it.seq() == s@,
    {
        v.push(c);
    }
    v
}

/// The string made of `chars[start..end]`.
pub fn string_from(chars: &Vec<char>, start: usize, end: usize) -> (s: String)
    requires
        start <= end <= chars.len(),
    ensures
        s@ == chars@.subrange(start as int, end as int),
{
    let mut s = String::new();
    let mut i: usize = start;
    while i < end
        invariant
            start <= i <= end <= chars.len(),
            s@ == chars@.subrange(start as int, i as int),
        decreases end - i,
    {
        s.push(chars[i]);
        i += 1;
        assert(chars@.subrange(start as int, i as int) == chars@.subrange(
            start as int,
            i as int - 1,
        ).push(chars@[i as int - 1]));
    }
    s
}

/// Whether two strings hold the same characters.
pub fn str_eq(a: &str, b: &str) -> (same: bool)
    ensures
        same == (a@ == b@),
{
    let x = a.to_owned();
    let y = b.to_owned();
    x == y
}

/// First position of `c` in `chars[start..end]`, or `end`.
pub fn find_char(chars: &Vec<char>, start: usize, end: usize, c: char) -> (k: usize)
    requires
        start <= end <= chars.len(),
    ensures
        start <= k <= end,
        k - start == first_index(chars@.subrange(start as int, end as int), c),
{
    let mut i: usize = start;
    while i < end && chars[i] != c
        invariant
            start <= i <= end <= chars.len(),
            forall|j: int| start <= j < i ==> chars@[j] != c,
        decreases end - i,
    {
        i += 1;
    }
    proof {
        lemma_first_index_is(chars@.subrange(start as int, end as int), c, i - start);
    }
    i
}

/// First position of a whitespace character in `chars[start..end]`, or `end`.
pub fn find_whitespace(chars: &Vec<char>, start: usize, end: usize) -> (k: usize)
    requires
        start <= end <= chars.len(),
    ensures
        start <= k <= end,
        k - start == first_whitespace(chars@.subrange(start as int, end as int)),
{
    let mut i: usize = start;
    while i < end && !char_is_whitespace(chars[i])
        invariant
            start <= i <= end <= chars.len(),
            forall|j: int| start <= j < i ==> !is_whitespace(chars@[j]),
        decreases end - i,
    {
        i += 1;
    }
    proof {
        lemma_first_whitespace_is(chars@.subrange(start as int, end as int), i - start);
    }
    i
}

/// Where `chars[start..end]` begins once its leading whitespace is dropped.
pub fn skip_whitespace(chars: &Vec<char>, start: usize, end: usize) -> (k: usize)
    requires
        start <= end <= chars.len(),
    ensures
        start <= k <= end,
        chars@.subrange(k as int, end as int) == trim_start(
            chars@.subrange(start as int, end as int),
        ),
{
    let mut i: usize = start;
    while i < end && char_is_whitespace(chars[i])
        invariant
            start <= i <= end <= chars.len(),
            forall|j: int| start <= j < i ==> is_whitespace(chars@[j]),
        decreases end - i,
    {
        i += 1;
    }
    proof {
        let s = chars@.subrange(start as int, end as int);
        lemma_trim_start_is(s, i - start);
        assert(s.skip(i - start) =~= chars@.subrange(i as int, end as int));
    }
    i
}

/// Where `chars[start..end]` ends once its trailing whitespace is dropped.
pub fn skip_whitespace_back(chars: &Vec<char>, start: usize, end: usize) -> (k: usize)
    requires
        start <= end <= chars.len(),
    ensures
        start <= k <= end,
        chars@.subrange(start as int, k as int) == trim_end(
            chars@.subrange(start as int, end as int),
        ),
{
    let mut i: usize = end;
    while i > start && char_is_whitespace(chars[i - 1])
        invariant
            start <= i <= end <= chars.len(),
            forall|j: int| i <= j < end ==> is_whitespace(chars@[j]),
        decreases i - start,
    {
        i -= 1;
    }
    proof {
        let s = chars@.subrange(start as int, end as int);
        lemma_trim_end_is(s, i - start);
        assert(s.take(i - start) =~= chars@.subrange(start as int, i as int));
    }
    i
}

/// The string made of `chars[start..end]` without the whitespace around it.
pub fn trimmed_string(chars: &Vec<char>, start: usize, end: usize) -> (s: String)
    requires
        start <= end <= chars.len(),
    ensures
        s@ == trim(chars@.subrange(start as int, end as int)),
{
    let a = skip_whitespace(chars, start, end);
    let b = skip_whitespace_back(chars, a, end);
    string_from(chars, a, b)
}

/// A character with `A`..`Z` folded onto `a`..`z`, as its code point.
pub open spec fn ascii_fold(c: char) -> int {
    let n = c as u32;
    if 0x41 <= n <= 0x5A {
        n + 0x20
    } else {
        n as int
    }
}

/// Equality of two character strings up to the case of ASCII letters.
pub open spec fn eq_ignore_ascii_case(a: Seq<char>, b: Seq<char>) -> bool {
    &&& a.len() == b.len()
    &&& forall|i: int| 0 <= i < a.len() ==> ascii_fold(a[i]) == ascii_fold(b[i])
}

fn fold_char(c: char) -> (n: u32)
    ensures
        n == ascii_fold(c),
{
    let n: u32 = c as u32;
    if 0x41 <= n && n <= 0x5A {
        n + 0x20
    } else {
        n
    }
}

/// Compares two strings without regard to the case of ASCII letters.
pub fn str_eq_ignore_ascii_case(a: &str, b: &str) -> (same: bool)
    ensures
        same == eq_ignore_ascii_case(a@, b@),
{
    let x = chars_of(a);
    let y = chars_of(b);
    if x.len() != y.len() {
        return false;
    }
    let mut i: usize = 0;
    while i < x.len()
        invariant
            i <= x.len(),
            x.len() == y.len(),
            x@ == a@,
            y@ == b@,
            forall|j: int| 0 <= j < i ==> ascii_fold(x@[j]) == ascii_fold(y@[j]),
        decreases x.len() - i,
    {
        if fold_char(x[i]) != fold_char(y[i]) {
            return false;
        }
        i += 1;
    }
    true
}

/// The character that writes the decimal digit `d`.
pub open spec fn digit_char(d: int) -> char {
    if d == 0 {
        '0'
    } else if d == 1 {
        '1'
    } else if d == 2 {
        '2'
    } else if d == 3 {
        '3'
    } else if d == 4 {
        '4'
    } else if d == 5 {
        '5'
    } else if d == 6 {
        '6'
    } else if d == 7 {
        '7'
    } else if d == 8 {
        '8'
    } else {
        '9'
    }
}

/// The digit that `c` writes, if it is one of `0`..`9`.
pub open spec fn digit_value(c: char) -> Option<int> {
    let n = c as u32;
    if 0x30 <= n <= 0x39 {
        Some(n - 0x30)
    } else {
        None
    }
}

/// `n` written in decimal without leading zeros.
pub open spec fn decimal(n: nat) -> Seq<char>
    decreases n,
{
    if n < 10 {
        seq![digit_char(n as int)]
    } else {
        decimal(n / 10).push(digit_char((n % 10) as int))
    }
}

/// The number that a non-empty string of decimal digits writes.
pub open spec fn decimal_value(s: Seq<char>) -> Option<nat>
    decreases s.len(),
{
    if s.len() == 0 {
        None
    } else {
        match digit_value(s.last()) {
            None => None,
            Some(d) => if s.len() == 1 {
                Some(d as nat)
            } else {
                match decimal_value(s.drop_last()) {
                    None => None,
                    Some(high) => Some((high * 10 + d) as nat),
                }
            },
        }
    }
}

/// What a string means as a `usize`: an optional `+`, then decimal digits
/// whose value fits the type.
pub open spec fn parse_usize(s: Seq<char>) -> Option<usize> {
    let digits = if s.len() > 0 && s[0] == '+' {
        s.drop_first()
    } else {
        s
    };
    fits_usize(decimal_value(digits))
}

/// A number as a `usize`, if it is one.
pub open spec fn fits_usize(n: Option<nat>) -> Option<usize> {
    match n {
        Some(n) if n <= usize::MAX => Some(n as usize),
        _ => None,
    }
}

fn digit_of(d: usize) -> (c: char)
    requires
        d < 10,
    ensures
        c == digit_char(d as int),
{
    if d == 0 {
        '0'
    } else if d == 1 {
        '1'
    } else if d == 2 {
        '2'
    } else if d == 3 {
        '3'
    } else if d == 4 {
        '4'
    } else if d == 5 {
        '5'
    } else if d == 6 {
        '6'
    } else if d == 7 {
        '7'
    } else if d == 8 {
        '8'
    } else {
        '9'
    }
}

/// Appends `n` in decimal to `out`.
pub fn push_decimal(out: &mut String, n: usize)
    ensures
        final(out)@ == old(out)@ + decimal(n as nat),
    decreases n,
{
    if n >= 10 {
        push_decimal(out, n / 10);
    }
    out.push(digit_of(n % 10));
    assert(final(out)@ =~= old(out)@ + decimal(n as nat));
}

/// A prefix that fails to be a number, or exceeds a bound, makes the whole
/// string do so.
proof fn lemma_decimal_value_prefix(s: Seq<char>, k: int)
    requires
        0 < k <= s.len(),
    ensures
        decimal_value(s.take(k)) is None ==> decimal_value(s) is None,
        decimal_value(s) matches Some(n) ==> decimal_value(s.take(k)).unwrap() <= n,
    decreases s.len() - k,
{
    if k == s.len() {
        assert(s.take(k) =~= s);
    } else {
        let t = s.drop_last();
        assert(t.take(k) =~= s.take(k));
        lemma_decimal_value_prefix(t, k);
    }
}

/// Reads `chars[start..end]` as a `usize`.
pub fn parse_usize_in(chars: &Vec<char>, start: usize, end: usize) -> (r: Option<usize>)
    requires
        start <= end <= chars.len(),
    ensures
        r == parse_usize(chars@.subrange(start as int, end as int)),
{
    let ghost whole = chars@.subrange(start as int, end as int);
    let mut i: usize = start;
    if i < end && chars[i] == '+' {
        i += 1;
    }
    let first: usize = i;
    let ghost digits = chars@.subrange(first as int, end as int);
    proof {
        if first > start {
            assert(whole.drop_first() =~= digits);
        } else {
            assert(whole =~= digits);
        }
    }
    if i == end {
        return None;
    }
    let mut acc: usize = 0;
    while i < end
        invariant
            start <= first <= i <= end <= chars.len(),
            first < end,
            digits == chars@.subrange(first as int, end as int),
            parse_usize(chars@.subrange(start as int, end as int)) == fits_usize(
                decimal_value(digits),
            ),
            i > first ==> decimal_value(digits.take(i - first)) == Some(acc as nat),
            i == first ==> acc == 0,
        decreases end - i,
    {
        let n: u32 = chars[i] as u32;
        let ghost prefix = digits.take(i + 1 - first);
        proof {
            assert(prefix.last() == chars@[i as int]);
            assert(prefix.drop_last() =~= digits.take(i - first));
            lemma_decimal_value_prefix(digits, i + 1 - first);
            if digit_value(chars@[i as int]) is Some {
                assert(decimal_value(prefix) == Some(
                    (acc * 10 + digit_value(chars@[i as int]).unwrap()) as nat,
                ));
            }
        }
        if !(0x30 <= n && n <= 0x39) {
            return None;
        }
        let d: usize = (n - 0x30) as usize;
        let scaled = match acc.checked_mul(10) {
            Some(v) => v,
            None => {
                return None;
            },
        };
        let next = match scaled.checked_add(d) {
            Some(v) => v,
            None => {
                return None;
            },
        };
        acc = next;
        i += 1;
    }
    proof {
        assert(digits.take(end - first) =~= digits);
    }
    Some(acc)
}

} // verus!
