//! Raw HTTP responses that carry the CORS headers for one allowed origin.
use crate::text::{decimal, push_decimal};
use vstd::prelude::*;
use vstd::string::*;
use vstd::utf8::*;

verus! {

/// The content type announced for `body`: JSON when it opens like an
/// object, plain text otherwise.
pub open spec fn content_type(body: Seq<char>) -> Seq<char> {
    if body.len() > 0 && body[0] == '{' {
        "application/json"@
    } else {
        "text/plain"@
    }
}

/// One header line, line ending included.
pub open spec fn header_line(name: Seq<char>, value: Seq<char>) -> Seq<char> {
    name + ": "@ + value + "\r\n"@
}

/// The three CORS header lines for `origin`.
pub open spec fn cors_headers(origin: Seq<char>) -> Seq<char> {
    header_line("Access-Control-Allow-Origin"@, origin) + header_line(
        "Access-Control-Allow-Methods"@,
        "POST, OPTIONS"@,
    ) + header_line("Access-Control-Allow-Headers"@, "content-type"@)
}

/// The whole response: status line, content headers, CORS headers, a blank
/// line, and the body. The length announced is that of the body in UTF-8.
pub open spec fn cors_response(status: Seq<char>, origin: Seq<char>, body: Seq<char>) -> Seq<
    char,
> {
    status + "\r\n"@ + header_line("Content-Type"@, content_type(body)) + header_line(
        "Content-Length"@,
        decimal(encode_utf8(body).len()),
    ) + cors_headers(origin) + "\r\n"@ + body
}

/// Whether `response` has the three CORS header lines for `origin` at the
/// end of its header block: some head, the three lines, the blank line,
/// some body.
pub open spec fn has_cors_headers(response: Seq<char>, origin: Seq<char>) -> bool {
    exists|head: Seq<char>, body: Seq<char>| #[trigger]
        with_cors_headers(head, origin, body) == response
}

/// A head, the CORS header lines for `origin`, the blank line and a body.
pub open spec fn with_cors_headers(head: Seq<char>, origin: Seq<char>, body: Seq<char>) -> Seq<
    char,
> {
    head + cors_headers(origin) + "\r\n"@ + body
}

/// Every response that is built for an origin carries the CORS headers for
/// that origin, whatever its status and body.
pub proof fn law_response_has_cors_headers(status: Seq<char>, origin: Seq<char>, body: Seq<char>)
    ensures
        has_cors_headers(cors_response(status, origin, body), origin),
{
    let head = status + "\r\n"@ + header_line("Content-Type"@, content_type(body)) + header_line(
        "Content-Length"@,
        decimal(encode_utf8(body).len()),
    );
    assert(with_cors_headers(head, origin, body) =~= cors_response(status, origin, body));
}

/// Builds the response with status line `status` and, if any, `body`, for
/// a page served from `origin`.
pub fn build_cors_response(status: &str, origin: &str, body: Option<&str>) -> (response: String)
    ensures
        response@ == cors_response(
            status@,
            origin@,
            match body {
                Some(text) => text@,
                None => Seq::empty(),
            },
        ),
{
    proof {
        reveal_strlit("");
    }
    let body: &str = match body {
        Some(text) => text,
        None => "",
    };
    let json = !body.is_empty() && body.get_char(0) == '{';
    let length = body.as_bytes().len();
    let mut out = String::new();
    out.append(status);
    out.append("\r\nContent-Type: ");
    out.append(
        if json {
            "application/json"
        } else {
            "text/plain"
        },
    );
    out.append("\r\nContent-Length: ");
    push_decimal(&mut out, length);
    out.append("\r\nAccess-Control-Allow-Origin: ");
    out.append(origin);
    out.append(
        "\r\nAccess-Control-Allow-Methods: POST, OPTIONS\r\nAccess-Control-Allow-Headers: content-type\r\n\r\n",
    );
    out.append(body);
    proof {
        lemma_literals();
        assert(out@ =~= cors_response(status@, origin@, body@));
    }
    out
}

/// How the literals that the builder appends are made of the pieces that
/// the definition names.
proof fn lemma_literals()
    ensures
        "\r\nContent-Type: "@ == "\r\n"@ + "Content-Type"@ + ": "@,
        "\r\nContent-Length: "@ == "\r\n"@ + "Content-Length"@ + ": "@,
        "\r\nAccess-Control-Allow-Origin: "@ == "\r\n"@ + "Access-Control-Allow-Origin"@ + ": "@,
        "\r\nAccess-Control-Allow-Methods: POST, OPTIONS\r\nAccess-Control-Allow-Headers: content-type\r\n\r\n"@
            == "\r\n"@ + header_line("Access-Control-Allow-Methods"@, "POST, OPTIONS"@)
            + header_line("Access-Control-Allow-Headers"@, "content-type"@) + "\r\n"@,
{
    reveal_strlit("\r\n");
    reveal_strlit(": ");
    reveal_strlit("Content-Type");
    reveal_strlit("Content-Length");
    reveal_strlit("Access-Control-Allow-Origin");
    reveal_strlit("Access-Control-Allow-Methods");
    reveal_strlit("Access-Control-Allow-Headers");
    reveal_strlit("POST, OPTIONS");
    reveal_strlit("content-type");
    reveal_strlit("\r\nContent-Type: ");
    reveal_strlit("\r\nContent-Length: ");
    reveal_strlit("\r\nAccess-Control-Allow-Origin: ");
    reveal_strlit(
        "\r\nAccess-Control-Allow-Methods: POST, OPTIONS\r\nAccess-Control-Allow-Headers: content-type\r\n\r\n",
    );
    assert("\r\nContent-Type: "@ =~= "\r\n"@ + "Content-Type"@ + ": "@);
    assert("\r\nContent-Length: "@ =~= "\r\n"@ + "Content-Length"@ + ": "@);
    assert("\r\nAccess-Control-Allow-Origin: "@ =~= "\r\n"@ + "Access-Control-Allow-Origin"@
        + ": "@);
    assert("\r\nAccess-Control-Allow-Methods: POST, OPTIONS\r\nAccess-Control-Allow-Headers: content-type\r\n\r\n"@
        =~= "\r\n"@ + header_line("Access-Control-Allow-Methods"@, "POST, OPTIONS"@) + header_line(
        "Access-Control-Allow-Headers"@,
        "content-type"@,
    ) + "\r\n"@);
}

} // verus!
