use vstd::prelude::*;

verus! {

use vstd::string::StringExecFns;
use vstd::utf8::encode_utf8;
use crate::text::decimal_string;
use crate::text::spec_decimal;

/// A transport-facing response: a status code and a body payload.
#[derive(Debug, Clone)]
pub struct Response {
    pub status: u16,
    pub body: String,
}

/// The status line written for each status code the router produces; any
/// other code is reported as an internal server error.
pub open spec fn spec_status_line(status: u16) -> Seq<char> {
    if status == 200 {
        "HTTP/1.1 200 OK\r\n"@
    } else if status == 404 {
        "HTTP/1.1 404 Not Found\r\n"@
    } else if status == 405 {
        "HTTP/1.1 405 Method Not Allowed\r\n"@
    } else {
        "HTTP/1.1 500 Internal Server Error\r\n"@
    }
}

/// The byte length of a body with these characters. `str::len` reports the
/// length as a `usize`, so it is stated through that machine width.
pub open spec fn spec_body_byte_len(body: Seq<char>) -> nat {
    (encode_utf8(body).len() as usize) as nat
}

/// The exact shape of a response on the wire: the status line, a
/// `Content-Length` header equal to the byte length of the body, a blank
/// line, and the body. No other headers are produced here.
pub open spec fn spec_wire(status: u16, body: Seq<char>) -> Seq<char> {
    spec_status_line(status) + "Content-Length: "@ + spec_decimal(spec_body_byte_len(body))
        + "\r\n\r\n"@ + body
}

/// The status line for `status`.
pub fn status_line(status: u16) -> (line: &'static str)
    ensures
        line@ == spec_status_line(status),
{
    match status {
        200 => "HTTP/1.1 200 OK\r\n",
        404 => "HTTP/1.1 404 Not Found\r\n",
        405 => "HTTP/1.1 405 Method Not Allowed\r\n",
        _ => "HTTP/1.1 500 Internal Server Error\r\n",
    }
}

/// Renders a response in its wire format, with a `Content-Length` header
/// that gives the exact byte length of the body.
pub fn format_response(response: &Response) -> (wire: String)
    ensures
        wire@ == spec_wire(response.status, response.body@),
{
    let mut wire = String::from_str(status_line(response.status));
    wire.append("Content-Length: ");
    let length_text = decimal_string(response.body.as_str().len());
    wire.append(length_text.as_str());
    wire.append("\r\n\r\n");
    wire.append(response.body.as_str());
    wire
}

} // verus!
