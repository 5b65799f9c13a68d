//! Building the two response shapes the server sends: a success
//! response carrying a file's bytes, and an error response with a
//! small HTML body. A response is a header string followed by the
//! body bytes; the surrounding program writes the two to the socket
//! in that order.

use vstd::prelude::*;
use vstd::string::StrSliceExecFns;
use vstd::string::StringExecFns;
use vstd::utf8::encode_utf8;
use crate::text::{spec_dec, str_eq, u64_to_dec};

verus! {

/// A complete HTTP response: the header text (through the blank line
/// that ends it) and the body bytes.
pub struct HttpResponse {
    pub head: String,
    pub body: Vec<u8>,
}

impl View for HttpResponse {
    type V = (Seq<char>, Seq<u8>);

    open spec fn view(&self) -> (Seq<char>, Seq<u8>) {
        (self.head@, self.body@)
    }
}

/// The generic unknown-binary content type; when a file resolves to
/// it, the success header omits the `Content-Type` line entirely.
pub open spec fn spec_octet_stream() -> Seq<char> {
    "application/octet-stream"@
}

/// Header of a success response for a body of `len` bytes with the
/// given content type.
pub open spec fn spec_success_head(len: int, content_type: Seq<char>) -> Seq<char> {
    "HTTP/1.1 200 OK\r\nContent-Length: "@ + spec_dec(len) + "\r\n"@ + (if content_type
        == spec_octet_stream() {
        Seq::<char>::empty()
    } else {
        "Content-Type: "@ + content_type + "\r\n"@
    }) + "\r\n"@
}

/// Body of an error response: a one-line HTML page naming the status.
pub open spec fn spec_error_body(code: int, reason: Seq<char>) -> Seq<u8> {
    encode_utf8("<h1>"@ + spec_dec(code) + " "@ + reason + "</h1>"@)
}

/// Header of an error response; the body is always declared as
/// `text/html`.
pub open spec fn spec_error_head(code: int, reason: Seq<char>) -> Seq<char> {
    "HTTP/1.1 "@ + spec_dec(code) + " "@ + reason + "\r\nContent-Length: "@ + spec_dec(
        spec_error_body(code, reason).len() as int,
    ) + "\r\nContent-Type: text/html\r\n\r\n"@
}

/// A whole success response, at the specification level.
pub open spec fn spec_success_response(content: Seq<u8>, content_type: Seq<char>) -> (
    Seq<char>,
    Seq<u8>,
) {
    (spec_success_head(content.len() as int, content_type), content)
}

/// A whole error response, at the specification level.
pub open spec fn spec_error_response(code: int, reason: Seq<char>) -> (Seq<char>, Seq<u8>) {
    (spec_error_head(code, reason), spec_error_body(code, reason))
}

/// Builds the success response around `content`; the response body is
/// exactly the bytes handed in, so what is sent is what was cached.
pub fn success_response(content: Vec<u8>, content_type: &str) -> (r: HttpResponse)
    ensures
        r@ == spec_success_response(content@, content_type@),
{
    let mut head = ("HTTP/1.1 200 OK\r\nContent-Length: ").to_owned();
    let len_dec = u64_to_dec(content.len() as u64);
    head.append(len_dec.as_str());
    head.append("\r\n");
    if !str_eq(content_type, "application/octet-stream") {
        head.append("Content-Type: ");
        head.append(content_type);
        head.append("\r\n");
    }
    head.append("\r\n");
    proof {
        assert(head@ =~= spec_success_head(content@.len() as int, content_type@));
    }
    HttpResponse { head, body: content }
}

/// Builds the error response for a status code and reason phrase.
pub fn error_response(code: u16, reason: &str) -> (r: HttpResponse)
    ensures
        r@ == spec_error_response(code as int, reason@),
{
    let mut page = ("<h1>").to_owned();
    let code_dec = u64_to_dec(code as u64);
    page.append(code_dec.as_str());
    page.append(" ");
    page.append(reason);
    page.append("</h1>");
    let body = page.as_str().as_bytes_vec();
    proof {
        assert(page@ =~= "<h1>"@ + spec_dec(code as int) + " "@ + reason@ + "</h1>"@);
        assert(body@ == spec_error_body(code as int, reason@));
    }
    let mut head = ("HTTP/1.1 ").to_owned();
    head.append(code_dec.as_str());
    head.append(" ");
    head.append(reason);
    head.append("\r\nContent-Length: ");
    let len_dec = u64_to_dec(body.len() as u64);
    head.append(len_dec.as_str());
    head.append("\r\nContent-Type: text/html\r\n\r\n");
    proof {
        assert(head@ =~= spec_error_head(code as int, reason@));
    }
    HttpResponse { head, body }
}

} // verus!
