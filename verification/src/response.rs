//! Responses of the server, and the responders for static assets and errors.
//!
//! A response is plain data: a status code, an optional `Content-Type` header
//! value, and the body bytes. Text bodies are stated as the UTF-8 encoding of
//! their character sequence.

use vstd::prelude::*;
use vstd::string::*;
use vstd::utf8::encode_utf8;

verus! {

/// One HTTP response, ready to be written out by the listener.
pub struct HttpResponse {
    /// The status code sent on the status line.
    pub status: u16,
    /// The value of the `Content-Type` header, if one is set explicitly.
    pub content_type: Option<String>,
    /// The response body.
    pub body: Vec<u8>,
}

/// The response to a request that matches no route, and to a request for a
/// static asset that is missing: status 404 with the body `404`.
pub open spec fn is_not_found(r: HttpResponse) -> bool {
    &&& r.status == 404
    &&& r.content_type is None
    &&& r.body@ == encode_utf8("404"@)
}

/// A server-side failure: status 500 with the body `500: ` followed by the
/// error message.
pub open spec fn is_server_error(r: HttpResponse, msg: Seq<char>) -> bool {
    &&& r.status == 500
    &&& r.content_type is None
    &&& r.body@ == encode_utf8("500: "@ + msg)
}

/// A client-side failure: status 400, with the same `500: `-prefixed body
/// shape that every error response of this server carries.
pub open spec fn is_client_error(r: HttpResponse, msg: Seq<char>) -> bool {
    &&& r.status == 400
    &&& r.content_type is None
    &&& r.body@ == encode_utf8("500: "@ + msg)
}

/// A successful response: status 200, the given `Content-Type`, and exactly
/// the given body bytes.
pub open spec fn is_content(r: HttpResponse, content_type: Seq<char>, body: Seq<u8>) -> bool {
    &&& r.status == 200
    &&& r.content_type matches Some(ct) && ct@ == content_type
    &&& r.body@ == body
}

/// Builds the not-found response.
pub fn serve_404() -> (r: HttpResponse)
    ensures
        is_not_found(r),
{
    HttpResponse { status: 404, content_type: None, body: ("404").as_bytes_vec() }
}

/// Builds the server-error response for the given message.
pub fn serve_500(msg: &str) -> (r: HttpResponse)
    ensures
        is_server_error(r, msg@),
{
    let text = String::from_str("500: ").concat(msg);
    HttpResponse { status: 500, content_type: None, body: text.as_str().as_bytes_vec() }
}

/// Builds the client-error response for the given message.
pub fn serve_400(msg: &str) -> (r: HttpResponse)
    ensures
        is_client_error(r, msg@),
{
    let text = String::from_str("500: ").concat(msg);
    HttpResponse { status: 400, content_type: None, body: text.as_str().as_bytes_vec() }
}

/// What came of opening and reading a local file; the listener produces it
/// and the static-file responder turns it into a response.
pub enum FileOutcome {
    /// The file was read whole; these are its bytes.
    Content(Vec<u8>),
    /// The file does not exist.
    NotFound,
    /// The file exists but could not be read; the message describes why.
    ReadError(String),
}

/// Builds the response for a static asset from the outcome of reading it:
/// the file's bytes under the declared content type, the not-found response
/// for a missing file, and the server-error response for any other failure.
pub fn serve_static_file(outcome: FileOutcome, content_type: &str) -> (r: HttpResponse)
    ensures
        outcome matches FileOutcome::Content(bytes) ==> is_content(r, content_type@, bytes@),
        outcome is NotFound ==> is_not_found(r),
        outcome matches FileOutcome::ReadError(msg) ==> is_server_error(r, msg@),
{
    match outcome {
        FileOutcome::Content(bytes) => HttpResponse {
            status: 200,
            content_type: Some(content_type.to_owned()),
            body: bytes,
        },
        FileOutcome::NotFound => serve_404(),
        FileOutcome::ReadError(msg) => serve_500(msg.as_str()),
    }
}

} // verus!
