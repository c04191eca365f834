//! Framing of one HTTP/1.1 request: where the header block ends, what the
//! request line and the header fields say, and how many body bytes are
//! still owed. Nothing here knows about login.
use crate::text::{
    chars_of, decode_utf8_lossy, eq_ignore_ascii_case, find_char, find_whitespace, first_index,
    first_whitespace, lemma_first_index_bounds, parse_usize, parse_usize_in, skip_whitespace,
    str_eq_ignore_ascii_case, string_from, trim, trim_start, trimmed_string, utf8_lossy,
};
use vstd::prelude::*;
use vstd::slice::*;
use vstd::utf8::*;

verus! {

/// The most header bytes that are buffered while no blank line has been seen.
pub const MAX_HEADER_BYTES: usize = 65536;

/// Why a connection did not yield a request.
#[derive(Debug, Clone, Copy, PartialEq, Eq)]
pub enum RequestError {
    /// The peer closed the connection before the header block was complete.
    Closed,
    /// More than `MAX_HEADER_BYTES` arrived without a blank line.
    HeaderTooLarge,
    /// The header block is empty.
    MissingRequestLine,
    /// The request line holds no method.
    MissingMethod,
    /// The request line holds no path.
    MissingPath,
}

impl RequestError {
    /// The text of the error.
    pub fn message(&self) -> (text: &'static str)
        ensures
            text@ == match *self {
                RequestError::Closed => "Invalid request"@,
                RequestError::HeaderTooLarge => "Request header too large"@,
                RequestError::MissingRequestLine => "Missing request line"@,
                RequestError::MissingMethod => "Missing method"@,
                RequestError::MissingPath => "Missing path"@,
            },
    {
        match self {
            RequestError::Closed => "Invalid request",
            RequestError::HeaderTooLarge => "Request header too large",
            RequestError::MissingRequestLine => "Missing request line",
            RequestError::MissingMethod => "Missing method",
            RequestError::MissingPath => "Missing path",
        }
    }
}

/// One request as read from a connection.
#[derive(Debug, Clone, PartialEq, Eq)]
pub struct HttpRequest {
    pub method: String,
    pub path: String,
    pub headers: Vec<(String, String)>,
    pub body: Vec<u8>,
}

/// The mathematical content of an `HttpRequest`.
pub ghost struct RequestView {
    pub method: Seq<char>,
    pub path: Seq<char>,
    pub headers: Seq<(Seq<char>, Seq<char>)>,
    pub body: Seq<u8>,
}

impl View for HttpRequest {
    type V = RequestView;

    open spec fn view(&self) -> RequestView {
        RequestView {
            method: self.method@,
            path: self.path@,
            headers: self.headers.deep_view(),
            body: self.body@,
        }
    }
}

/// Whether `\r\n\r\n` stands at `pos` in `buffer`.
pub open spec fn is_header_end(buffer: Seq<u8>, pos: int) -> bool {
    &&& 0 <= pos
    &&& pos + 4 <= buffer.len()
    &&& buffer[pos] == 13
    &&& buffer[pos + 1] == 10
    &&& buffer[pos + 2] == 13
    &&& buffer[pos + 3] == 10
}

/// The first position from `start` on at which `\r\n\r\n` stands.
pub open spec fn header_end_from(buffer: Seq<u8>, start: int) -> Option<int>
    decreases buffer.len() - start,
{
    if start < 0 || start + 4 > buffer.len() {
        None
    } else if is_header_end(buffer, start) {
        Some(start)
    } else {
        header_end_from(buffer, start + 1)
    }
}

/// Where the header block of `buffer` ends: the first `\r\n\r\n`.
pub open spec fn header_end(buffer: Seq<u8>) -> Option<int> {
    header_end_from(buffer, 0)
}

/// `header_end_from` is the least position that qualifies.
pub proof fn lemma_header_end_from(buffer: Seq<u8>, start: int)
    requires
        0 <= start,
    ensures
        match header_end_from(buffer, start) {
            Some(pos) => start <= pos && is_header_end(buffer, pos) && forall|q: int|
                start <= q < pos ==> !is_header_end(buffer, q),
            None => forall|q: int| start <= q ==> !is_header_end(buffer, q),
        },
    decreases buffer.len() - start,
{
    if start + 4 <= buffer.len() && !is_header_end(buffer, start) {
        lemma_header_end_from(buffer, start + 1);
    }
}

/// A position with no earlier match is the header end.
pub proof fn lemma_header_end_is(buffer: Seq<u8>, start: int, pos: int)
    requires
        0 <= start <= pos,
        forall|q: int| start <= q < pos ==> !is_header_end(buffer, q),
        is_header_end(buffer, pos) || pos + 4 > buffer.len(),
    ensures
        header_end_from(buffer, start) == if is_header_end(buffer, pos) {
            Some(pos)
        } else {
            None
        },
    decreases pos - start,
{
    if start < pos {
        lemma_header_end_is(buffer, start + 1, pos);
    } else if !is_header_end(buffer, pos) {
        lemma_header_end_from(buffer, start);
    }
}

/// Position of the first blank line (`\r\n\r\n`) in `buffer`.
pub fn find_header_end(buffer: &[u8]) -> (pos: Option<usize>)
    ensures
        match pos {
            Some(p) => header_end(buffer@) == Some(p as int) && is_header_end(buffer@, p as int)
                && forall|q: int| 0 <= q < p ==> !is_header_end(buffer@, q),
            None => header_end(buffer@) is None && forall|q: int| !is_header_end(buffer@, q),
        },
{
    let n = buffer.len();
    let mut i: usize = 0;
    while n >= 4 && i <= n - 4
        invariant
            n == buffer@.len(),
            i <= n,
            forall|q: int| 0 <= q < i ==> !is_header_end(buffer@, q),
        decreases n - i,
    {
        if buffer[i] == 13 && buffer[i + 1] == 10 && buffer[i + 2] == 13 && buffer[i + 3] == 10 {
            proof {
                lemma_header_end_is(buffer@, 0, i as int);
            }
            return Some(i);
        }
        i += 1;
    }
    proof {
        lemma_header_end_is(buffer@, 0, i as int);
        lemma_header_end_from(buffer@, 0);
    }
    None
}

/// The first line of `s`, without its line ending (`\n` or `\r\n`).
pub open spec fn first_line(s: Seq<char>) -> Seq<char> {
    let k = first_index(s, '\n');
    if 0 < k < s.len() && s[k - 1] == '\r' {
        s.take(k - 1)
    } else {
        s.take(k)
    }
}

/// What follows the first line of `s`.
pub open spec fn after_first_line(s: Seq<char>) -> Seq<char> {
    let k = first_index(s, '\n');
    if k < s.len() {
        s.skip(k + 1)
    } else {
        Seq::empty()
    }
}

/// The first whitespace-delimited word of `s`; empty when there is none.
pub open spec fn first_word(s: Seq<char>) -> Seq<char> {
    let t = trim_start(s);
    t.take(first_whitespace(t))
}

/// What follows the first word of `s`.
pub open spec fn after_first_word(s: Seq<char>) -> Seq<char> {
    let t = trim_start(s);
    t.skip(first_whitespace(t))
}

/// The header field on one line: the name before the first `:` and the
/// value after it, both trimmed. A line without `:` holds none.
pub open spec fn header_field(line: Seq<char>) -> Option<(Seq<char>, Seq<char>)> {
    let k = first_index(line, ':');
    if k < line.len() {
        Some((trim(line.take(k)), trim(line.skip(k + 1))))
    } else {
        None
    }
}

/// The header fields on the lines of `s`, in order.
pub open spec fn header_fields(s: Seq<char>) -> Seq<(Seq<char>, Seq<char>)>
    decreases s.len(),
{
    if s.len() == 0 {
        Seq::empty()
    } else {
        proof {
            lemma_first_index_bounds(s, '\n');
        }
        let rest = header_fields(after_first_line(s));
        match header_field(first_line(s)) {
            Some(field) => seq![field] + rest,
            None => rest,
        }
    }
}

/// Request line and header fields.
pub ghost struct HeadView {
    pub method: Seq<char>,
    pub path: Seq<char>,
    pub headers: Seq<(Seq<char>, Seq<char>)>,
}

/// What a header block says: the first two words of its first line are
/// method and path, every later line with a `:` is a header field.
pub open spec fn parse_head(text: Seq<char>) -> Result<HeadView, RequestError> {
    if text.len() == 0 {
        Err(RequestError::MissingRequestLine)
    } else {
        let line = first_line(text);
        let method = first_word(line);
        let path = first_word(after_first_word(line));
        if method.len() == 0 {
            Err(RequestError::MissingMethod)
        } else if path.len() == 0 {
            Err(RequestError::MissingPath)
        } else {
            Ok(HeadView { method, path, headers: header_fields(after_first_line(text)) })
        }
    }
}

/// The value of the first header called `name`, ASCII case ignored.
pub open spec fn header_value(headers: Seq<(Seq<char>, Seq<char>)>, name: Seq<char>) -> Option<
    Seq<char>,
>
    decreases headers.len(),
{
    if headers.len() == 0 {
        None
    } else if eq_ignore_ascii_case(headers[0].0, name) {
        Some(headers[0].1)
    } else {
        header_value(headers.drop_first(), name)
    }
}

/// The declared body length: the value of the first `Content-Length`
/// header that reads as a `usize`, and 0 when there is none.
pub open spec fn content_length(headers: Seq<(Seq<char>, Seq<char>)>) -> usize
    decreases headers.len(),
{
    if headers.len() == 0 {
        0
    } else if eq_ignore_ascii_case(headers[0].0, "content-length"@) && parse_usize(
        headers[0].1,
    ) is Some {
        parse_usize(headers[0].1).unwrap()
    } else {
        content_length(headers.drop_first())
    }
}

/// How many body bytes a request still lacks.
pub open spec fn missing_body(request: RequestView) -> int {
    let declared = content_length(request.headers);
    if request.body.len() < declared {
        declared - request.body.len()
    } else {
        0
    }
}

/// The text of a header block: its bytes decoded as UTF-8 where they are
/// well-formed, and otherwise with each ill-formed part replaced.
pub open spec fn header_text(bytes: Seq<u8>) -> Seq<char> {
    if valid_utf8(bytes) {
        decode_utf8(bytes)
    } else {
        utf8_lossy(bytes)
    }
}

/// The request that `buffer` holds: its header block ends at the first
/// blank line, is decoded leniently as UTF-8, and everything after the
/// blank line is body.
pub open spec fn request_in(buffer: Seq<u8>) -> Result<RequestView, RequestError> {
    match header_end(buffer) {
        None => Err(RequestError::Closed),
        Some(end) => match parse_head(header_text(buffer.take(end))) {
            Err(e) => Err(e),
            Ok(head) => Ok(
                RequestView {
                    method: head.method,
                    path: head.path,
                    headers: head.headers,
                    body: buffer.skip(end + 4),
                },
            ),
        },
    }
}

/// What a reader that has buffered `buffer` without being closed knows.
pub open spec fn read_progress(buffer: Seq<u8>) -> Result<Option<RequestView>, RequestError> {
    if header_end(buffer) is Some {
        match request_in(buffer) {
            Ok(request) => Ok(Some(request)),
            Err(e) => Err(e),
        }
    } else if buffer.len() > MAX_HEADER_BYTES {
        Err(RequestError::HeaderTooLarge)
    } else {
        Ok(None)
    }
}

/// What a reader that has buffered `buffer` makes of the reads that
/// follow, each given by its bytes: it stops at the first read that closes
/// the connection, completes the header block or breaks the limit.
pub open spec fn read_all(buffer: Seq<u8>, reads: Seq<Seq<u8>>) -> Result<
    Option<RequestView>,
    RequestError,
>
    decreases reads.len(),
{
    if reads.len() == 0 {
        Ok(None)
    } else if reads[0].len() == 0 {
        Err(RequestError::Closed)
    } else {
        match read_progress(buffer + reads[0]) {
            Ok(None) => read_all(buffer + reads[0], reads.drop_first()),
            done => done,
        }
    }
}

/// The bytes of a run of reads, one after the other.
pub open spec fn all_bytes(reads: Seq<Seq<u8>>) -> Seq<u8>
    decreases reads.len(),
{
    if reads.len() == 0 {
        Seq::empty()
    } else {
        reads[0] + all_bytes(reads.drop_first())
    }
}

/// A blank line in a prefix is a blank line in the whole.
proof fn lemma_header_end_in_prefix(prefix: Seq<u8>, rest: Seq<u8>)
    requires
        header_end(prefix + rest) is None,
    ensures
        header_end(prefix) is None,
{
    lemma_header_end_from(prefix + rest, 0);
    lemma_header_end_from(prefix, 0);
    if header_end(prefix) is Some {
        let q = header_end(prefix).unwrap();
        assert(is_header_end(prefix + rest, q));
    }
}

/// A connection that sends more than `MAX_HEADER_BYTES` without a blank
/// line, and does not close before, is refused as too large; and the
/// reader never holds more than the limit when it asks for more.
pub proof fn law_large_header_is_refused(buffer: Seq<u8>, reads: Seq<Seq<u8>>)
    requires
        buffer.len() <= MAX_HEADER_BYTES,
        forall|i: int| 0 <= i < reads.len() ==> (#[trigger] reads[i]).len() > 0,
        header_end(buffer + all_bytes(reads)) is None,
    ensures
        (buffer + all_bytes(reads)).len() > MAX_HEADER_BYTES ==> read_all(buffer, reads) == Err::<
            Option<RequestView>,
            RequestError,
        >(RequestError::HeaderTooLarge),
        (buffer + all_bytes(reads)).len() <= MAX_HEADER_BYTES ==> read_all(buffer, reads) == Ok::<
            Option<RequestView>,
            RequestError,
        >(None),
    decreases reads.len(),
{
    if reads.len() == 0 {
        assert(buffer + all_bytes(reads) =~= buffer);
    } else {
        let next = buffer + reads[0];
        let rest = reads.drop_first();
        assert(next + all_bytes(rest) =~= buffer + all_bytes(reads));
        lemma_header_end_in_prefix(next, all_bytes(rest));
        if next.len() <= MAX_HEADER_BYTES {
            assert forall|i: int| 0 <= i < rest.len() implies (#[trigger] rest[i]).len() > 0 by {
                assert(rest[i] == reads[i + 1]);
            }
            law_large_header_is_refused(next, rest);
        }
    }
}

/// End of the line that starts at `pos`: where its text stops, and where
/// the next line starts.
fn line_bounds(chars: &Vec<char>, pos: usize) -> (r: (usize, usize))
    requires
        pos < chars.len(),
    ensures
        pos <= r.0 <= r.1 <= chars.len(),
        pos < r.1,
        chars@.subrange(pos as int, r.0 as int) == first_line(chars@.skip(pos as int)),
        chars@.skip(r.1 as int) == after_first_line(chars@.skip(pos as int)),
{
    let n = chars.len();
    let nl = find_char(chars, pos, n, '\n');
    let ghost s = chars@.skip(pos as int);
    proof {
        assert(chars@.subrange(pos as int, n as int) =~= s);
    }
    let stop = if pos < nl && nl < n && chars[nl - 1] == '\r' {
        nl - 1
    } else {
        nl
    };
    let next = if nl < n {
        nl + 1
    } else {
        n
    };
    proof {
        assert(s.take(stop - pos) =~= chars@.subrange(pos as int, stop as int));
        if nl < n {
            assert(s.skip(nl - pos + 1) =~= chars@.skip(next as int));
        } else {
            assert(chars@.skip(n as int) =~= Seq::<char>::empty());
        }
    }
    (stop, next)
}

/// The next word in `chars[start..end]`: where it starts and where it stops.
fn word_bounds(chars: &Vec<char>, start: usize, end: usize) -> (r: (usize, usize))
    requires
        start <= end <= chars.len(),
    ensures
        start <= r.0 <= r.1 <= end,
        chars@.subrange(r.0 as int, r.1 as int) == first_word(
            chars@.subrange(start as int, end as int),
        ),
        chars@.subrange(r.1 as int, end as int) == after_first_word(
            chars@.subrange(start as int, end as int),
        ),
{
    let a = skip_whitespace(chars, start, end);
    let b = find_whitespace(chars, a, end);
    proof {
        let t = chars@.subrange(a as int, end as int);
        assert(t.take(b - a) =~= chars@.subrange(a as int, b as int));
        assert(t.skip(b - a) =~= chars@.subrange(b as int, end as int));
    }
    (a, b)
}

/// The header fields on the lines of `chars[start..]`.
fn parse_header_fields(chars: &Vec<char>, start: usize) -> (headers: Vec<(String, String)>)
    requires
        start <= chars.len(),
    ensures
        headers.deep_view() == header_fields(chars@.skip(start as int)),
{
    let n = chars.len();
    let mut headers: Vec<(String, String)> = Vec::new();
    let mut pos: usize = start;
    proof {
        assert(headers.deep_view() =~= Seq::empty());
        assert(Seq::<(Seq<char>, Seq<char>)>::empty() + header_fields(chars@.skip(start as int))
            =~= header_fields(chars@.skip(start as int)));
    }
    while pos < n
        invariant
            start <= pos <= n,
            n == chars.len(),
            header_fields(chars@.skip(start as int)) == headers.deep_view() + header_fields(
                chars@.skip(pos as int),
            ),
        decreases n - pos,
    {
        let (stop, next) = line_bounds(chars, pos);
        let colon = find_char(chars, pos, stop, ':');
        let ghost line = chars@.subrange(pos as int, stop as int);
        let ghost before = headers.deep_view();
        let ghost rest = header_fields(chars@.skip(next as int));
        if colon < stop {
            proof {
                assert(line.take(colon - pos) =~= chars@.subrange(pos as int, colon as int));
                assert(line.skip(colon - pos + 1) =~= chars@.subrange(
                    colon as int + 1,
                    stop as int,
                ));
            }
            let name = trimmed_string(chars, pos, colon);
            let value = trimmed_string(chars, colon + 1, stop);
            let ghost field = (name@, value@);
            headers.push((name, value));
            proof {
                assert(headers.deep_view() =~= before.push(field));
                assert(before + (seq![field] + rest) =~= before.push(field) + rest);
            }
        }
        pos = next;
    }
    proof {
        assert(chars@.skip(n as int) =~= Seq::<char>::empty());
        assert(headers.deep_view() + Seq::<(Seq<char>, Seq<char>)>::empty()
            =~= headers.deep_view());
    }
    headers
}

/// Reads request line and header fields out of a decoded header block.
/// The request comes back with an empty body.
pub fn parse_request_head(text: &str) -> (r: Result<HttpRequest, RequestError>)
    ensures
        match r {
            Ok(request) => parse_head(text@) matches Ok(head) && request@ == (RequestView {
                method: head.method,
                path: head.path,
                headers: head.headers,
                body: Seq::empty(),
            }),
            Err(e) => parse_head(text@) == Err::<HeadView, RequestError>(e),
        },
{
    let chars = chars_of(text);
    if chars.len() == 0 {
        return Err(RequestError::MissingRequestLine);
    }
    let (stop, next) = line_bounds(&chars, 0);
    proof {
        assert(chars@.skip(0) =~= chars@);
    }
    let (a, b) = word_bounds(&chars, 0, stop);
    if a == b {
        return Err(RequestError::MissingMethod);
    }
    let (c, d) = word_bounds(&chars, b, stop);
    if c == d {
        return Err(RequestError::MissingPath);
    }
    let method = string_from(&chars, a, b);
    let path = string_from(&chars, c, d);
    let headers = parse_header_fields(&chars, next);
    Ok(HttpRequest { method, path, headers, body: Vec::new() })
}

/// Appends `more` to `bytes`.
pub fn append_bytes(bytes: &mut Vec<u8>, more: &[u8])
    ensures
        final(bytes)@ == old(bytes)@ + more@,
{
    let mut i: usize = 0;
    while i < more.len()
        invariant
            i <= more.len(),
            bytes@ == old(bytes)@ + more@.take(i as int),
        decreases more.len() - i,
    {
        bytes.push(more[i]);
        i += 1;
        assert(bytes@ =~= old(bytes)@ + more@.take(i as int));
    }
    assert(more@.take(more.len() as int) =~= more@);
}

/// Reads the request that `buffer` holds. The body is whatever follows the
/// blank line, be it shorter or longer than the declared length.
pub fn parse_request(buffer: &[u8]) -> (r: Result<HttpRequest, RequestError>)
    ensures
        match r {
            Ok(request) => request_in(buffer@) == Ok::<RequestView, RequestError>(request@),
            Err(e) => request_in(buffer@) == Err::<RequestView, RequestError>(e),
        },
{
    let end = match find_header_end(buffer) {
        Some(end) => end,
        None => {
            return Err(RequestError::Closed);
        },
    };
    let n = buffer.len();
    assert(is_header_end(buffer@, end as int));
    let text = decode_utf8_lossy(slice_subrange(buffer, 0, end));
    let mut request = match parse_request_head(text.as_str()) {
        Ok(request) => request,
        Err(e) => {
            return Err(e);
        },
    };
    append_bytes(&mut request.body, slice_subrange(buffer, end + 4, n));
    proof {
        assert(buffer@.subrange(0, end as int) =~= buffer@.take(end as int));
        assert(Seq::<u8>::empty() + buffer@.subrange(end as int + 4, buffer@.len() as int)
            =~= buffer@.skip(end as int + 4));
    }
    Ok(request)
}

impl HttpRequest {
    /// The value of the first header called `name`, ASCII case ignored.
    pub fn header(&self, name: &str) -> (value: Option<&str>)
        ensures
            match value {
                Some(v) => header_value(self@.headers, name@) == Some(v@),
                None => header_value(self@.headers, name@) is None,
            },
    {
        let ghost all = self.headers.deep_view();
        let mut i: usize = 0;
        assert(all.skip(0) =~= all);
        while i < self.headers.len()
            invariant
                i <= self.headers.len(),
                all == self.headers.deep_view(),
                header_value(all, name@) == header_value(all.skip(i as int), name@),
            decreases self.headers.len() - i,
        {
            proof {
                assert(all.skip(i as int).drop_first() =~= all.skip(i as int + 1));
            }
            if str_eq_ignore_ascii_case(self.headers[i].0.as_str(), name) {
                return Some(self.headers[i].1.as_str());
            }
            i += 1;
        }
        None
    }

    /// The declared body length.
    pub fn content_length(&self) -> (n: usize)
        ensures
            n == content_length(self@.headers),
    {
        let ghost all = self.headers.deep_view();
        let mut i: usize = 0;
        assert(all.skip(0) =~= all);
        while i < self.headers.len()
            invariant
                i <= self.headers.len(),
                all == self.headers.deep_view(),
                content_length(all) == content_length(all.skip(i as int)),
            decreases self.headers.len() - i,
        {
            proof {
                assert(all.skip(i as int).drop_first() =~= all.skip(i as int + 1));
            }
            if str_eq_ignore_ascii_case(self.headers[i].0.as_str(), "content-length") {
                let digits = chars_of(self.headers[i].1.as_str());
                proof {
                    assert(digits@.subrange(0, digits.len() as int) =~= digits@);
                }
                match parse_usize_in(&digits, 0, digits.len()) {
                    Some(n) => {
                        return n;
                    },
                    None => {},
                }
            }
            i += 1;
        }
        0
    }

    /// How many body bytes are still to be read from the connection.
    pub fn missing_body(&self) -> (n: usize)
        ensures
            n == missing_body(self@),
    {
        let declared = self.content_length();
        if self.body.len() < declared {
            declared - self.body.len()
        } else {
            0
        }
    }

    /// Appends bytes that were read after the first buffer.
    pub fn extend_body(&mut self, more: &[u8])
        ensures
            final(self)@ == (RequestView { body: old(self)@.body + more@, ..old(self)@ }),
    {
        append_bytes(&mut self.body, more);
    }
}

/// Accumulates what a connection sends until the header block is complete.
pub struct RequestReader {
    buffer: Vec<u8>,
}

impl View for RequestReader {
    type V = Seq<u8>;

    closed spec fn view(&self) -> Seq<u8> {
        self.buffer@
    }
}

impl RequestReader {
    /// A reader that has seen nothing.
    pub fn new() -> (reader: Self)
        ensures
            reader@ == Seq::<u8>::empty(),
    {
        RequestReader { buffer: Vec::new() }
    }

    /// Takes the bytes of one read; an empty `chunk` means that the peer
    /// closed the connection. Returns the request once its header block is
    /// complete, `None` while more is needed, and an error when the block is
    /// malformed or, still unterminated, has outgrown `MAX_HEADER_BYTES`.
    pub fn accept_chunk(&mut self, chunk: &[u8]) -> (r: Result<Option<HttpRequest>, RequestError>)
        ensures
            chunk@.len() == 0 ==> final(self)@ == old(self)@ && r matches Err(RequestError::Closed),
            chunk@.len() > 0 ==> final(self)@ == old(self)@ + chunk@,
            chunk@.len() > 0 ==> match r {
                Ok(Some(request)) => read_progress(final(self)@) == Ok::<
                    Option<RequestView>,
                    RequestError,
                >(Some(request@)),
                Ok(None) => read_progress(final(self)@) == Ok::<Option<RequestView>, RequestError>(
                    None,
                ) && final(self)@.len() <= MAX_HEADER_BYTES,
                Err(e) => read_progress(final(self)@) == Err::<Option<RequestView>, RequestError>(
                    e,
                ),
            },
    {
        if chunk.len() == 0 {
            return Err(RequestError::Closed);
        }
        append_bytes(&mut self.buffer, chunk);
        match find_header_end(self.buffer.as_slice()) {
            Some(_) => match parse_request(self.buffer.as_slice()) {
                Ok(request) => Ok(Some(request)),
                Err(e) => Err(e),
            },
            None => if self.buffer.len() > MAX_HEADER_BYTES {
                Err(RequestError::HeaderTooLarge)
            } else {
                Ok(None)
            },
        }
    }
}

} // verus!
