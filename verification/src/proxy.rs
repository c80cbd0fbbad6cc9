//! The proxy-fetch route: parse the request body, fetch the named URL
//! server-side, and return the fetched text verbatim.
//!
//! The body must be valid UTF-8 and begin with the literal prefix `url=`;
//! the rest is the percent-encoded target URL. The fetch sends a fixed
//! User-Agent header; its outcome depends on the network, so the response
//! built from it is stated for every value the fetch can return.

use crate::percent::{pct_decoded, percent_decode};
use crate::response::{
    is_client_error, is_content, is_server_error, serve_400, serve_500, HttpResponse,
};
use vstd::prelude::*;
use vstd::string::*;
use vstd::utf8::{decode_utf8, encode_utf8, valid_utf8};

verus! {

/// The bytes every proxy request body must begin with: `url=`.
pub open spec fn proxy_prefix() -> Seq<u8> {
    encode_utf8("url="@)
}

/// True when the body begins with the `url=` prefix.
pub open spec fn has_proxy_prefix(body: Seq<u8>) -> bool {
    body.len() >= 4 && body.subrange(0, 4) == proxy_prefix()
}

/// The bytes of the target URL: the body after the prefix, percent-decoded.
pub open spec fn proxy_target_bytes(body: Seq<u8>) -> Seq<u8> {
    pct_decoded(body.skip(4))
}

/// The `Content-Type` every proxied page is returned under, whatever the
/// remote resource declared.
pub open spec fn html_content_type() -> Seq<char> {
    "text/html; charset=utf-8"@
}

/// What parsing a proxy request body yields.
pub enum ProxyTarget {
    /// The body is not valid UTF-8.
    BodyNotUtf8,
    /// The body does not begin with `url=`.
    MissingPrefix,
    /// The percent-decoded remainder is not valid UTF-8.
    TargetNotUtf8,
    /// The target URL to fetch.
    Url(String),
}

/// Relies on `String::from_utf8`: it returns `Ok` exactly when the bytes are
/// a valid UTF-8 encoding, and the string it returns is their decoding.
#[verifier::external_body]
fn utf8_string_of(v: &Vec<u8>) -> (r: Option<String>)
    ensures
        r is Some <==> valid_utf8(v@),
        r matches Some(s) ==> s@ == decode_utf8(v@),
{
    String::from_utf8(v.clone()).ok()
}

/// The `url=` prefix written out as its four ASCII codes.
proof fn lemma_proxy_prefix_bytes()
    ensures
        proxy_prefix() =~= seq![117u8, 114u8, 108u8, 61u8],
{
    reveal_strlit("url=");
    let chars = "url="@;
    assert(chars.len() == 4);
    assert(chars[0] == 'u' && chars[1] == 'r' && chars[2] == 'l' && chars[3] == '=');
    assert(vstd::utf8::is_ascii_chars(chars));
    vstd::utf8::is_ascii_chars_encode_utf8(chars);
    assert(encode_utf8(chars)[0] == 'u' as u8);
    assert(encode_utf8(chars)[1] == 'r' as u8);
    assert(encode_utf8(chars)[2] == 'l' as u8);
    assert(encode_utf8(chars)[3] == '=' as u8);
}

/// Parses a proxy request body: checks that it is UTF-8 text beginning with
/// `url=`, percent-decodes the remainder, and checks that the decoded bytes
/// are a UTF-8 URL.
pub fn parse_proxy_target(body: &Vec<u8>) -> (r: ProxyTarget)
    ensures
        !valid_utf8(body@) ==> r is BodyNotUtf8,
        valid_utf8(body@) && !has_proxy_prefix(body@) ==> r is MissingPrefix,
        valid_utf8(body@) && has_proxy_prefix(body@) && !valid_utf8(proxy_target_bytes(body@))
            ==> r is TargetNotUtf8,
        valid_utf8(body@) && has_proxy_prefix(body@) && valid_utf8(proxy_target_bytes(body@))
            ==> (r matches ProxyTarget::Url(url) && url@ == decode_utf8(proxy_target_bytes(body@))),
{
    if utf8_string_of(body).is_none() {
        return ProxyTarget::BodyNotUtf8;
    }
    proof {
        lemma_proxy_prefix_bytes();
    }
    if !(body.len() >= 4 && body[0] == 117 && body[1] == 114 && body[2] == 108 && body[3] == 61) {
        proof {
            if body@.len() >= 4 {
                assert(body@.subrange(0, 4) == proxy_prefix() ==> (body@[0] == 117 && body@[1]
                    == 114 && body@[2] == 108 && body@[3] == 61)) by {
                    if body@.subrange(0, 4) == proxy_prefix() {
                        assert(body@.subrange(0, 4)[0] == body@[0]);
                        assert(body@.subrange(0, 4)[1] == body@[1]);
                        assert(body@.subrange(0, 4)[2] == body@[2]);
                        assert(body@.subrange(0, 4)[3] == body@[3]);
                    }
                }
            }
        }
        return ProxyTarget::MissingPrefix;
    }
    proof {
        assert(body@.subrange(0, 4) =~= proxy_prefix());
    }
    let mut tail: Vec<u8> = Vec::new();
    let mut i: usize = 4;
    while i < body.len()
        invariant
            4 <= i <= body@.len(),
            body@.len() >= 4,
            tail@ == body@.subrange(4, i as int),
        decreases body@.len() - i,
    {
        tail.push(body[i]);
        i = i + 1;
    }
    proof {
        assert(tail@ =~= body@.skip(4));
    }
    let decoded: Vec<u8> = percent_decode(&tail);
    match utf8_string_of(&decoded) {
        None => ProxyTarget::TargetNotUtf8,
        Some(url) => ProxyTarget::Url(url),
    }
}

/// The fixed User-Agent header value sent with every outbound fetch: a
/// mobile crawler's, so that sites which refuse generic clients answer.
pub fn user_agent_string() -> (s: &'static str)
    ensures
        s@
            == "Mozilla/5.0 (Linux; Android 6.0.1; Nexus 5X Build/MMB29P) AppleWebKit/537.36 (KHTML, like Gecko) Chrome/W.X.Y.Z Mobile Safari/537.36 (compatible; Googlebot/2.1; +http://www.google.com/bot.html)"@,
{
    "Mozilla/5.0 (Linux; Android 6.0.1; Nexus 5X Build/MMB29P) AppleWebKit/537.36 (KHTML, like Gecko) Chrome/W.X.Y.Z Mobile Safari/537.36 (compatible; Googlebot/2.1; +http://www.google.com/bot.html)"
}

/// Relies on `reqwest::blocking`: issues one GET request to `url`, sending
/// `user_agent` as the `User-Agent` header, and returns the response body
/// read as text on success, or the error's text on a transport or decoding
/// failure. The outcome depends on the network, so nothing is stated of it;
/// what the server answers for each value it can take is stated by
/// `proxy_fetch_response`.
#[verifier::external_body]
fn fetch_url_text(url: &String, user_agent: &str) -> Result<String, String> {
    let client = reqwest::blocking::Client::new();
    let sent = client.get(url.as_str()).header(reqwest::header::USER_AGENT, user_agent).send();
    match sent {
        Ok(res) => match res.text() {
            Ok(text) => Ok(text),
            Err(e) => Err(e.to_string()),
        },
        Err(e) => Err(e.to_string()),
    }
}

/// The response built from a fetch outcome: the fetched text verbatim under
/// the fixed HTML content type, or the server-error response carrying the
/// fetch error's message.
pub open spec fn is_fetch_outcome_response(r: HttpResponse, outcome: Result<Seq<char>, Seq<char>>) -> bool {
    match outcome {
        Ok(text) => is_content(r, html_content_type(), encode_utf8(text)),
        Err(msg) => is_server_error(r, msg),
    }
}

/// Builds the response for the outcome of an outbound fetch: status 200 with
/// the fetched text and the fixed HTML content type, or status 500 with the
/// error message. The remote status code is not inspected: whatever text the
/// fetch returned is passed on as a success.
pub fn proxy_fetch_response(outcome: Result<String, String>) -> (r: HttpResponse)
    ensures
        outcome matches Ok(text) ==> is_content(r, html_content_type(), encode_utf8(text@)),
        outcome matches Err(msg) ==> is_server_error(r, msg@),
{
    match outcome {
        Ok(text) => HttpResponse {
            status: 200,
            content_type: Some(String::from_str("text/html; charset=utf-8")),
            body: text.as_str().as_bytes_vec(),
        },
        Err(msg) => serve_500(msg.as_str()),
    }
}

/// Serves the proxy-fetch route from the raw request body: parses the body,
/// fetches the target URL with the fixed User-Agent, and answers with the
/// fetched text; each parse failure is answered without fetching anything.
/// Nothing is kept between calls: the same body fetches its URL anew every
/// time.
pub fn serve_article(body: &Vec<u8>) -> (r: HttpResponse)
    ensures
        !valid_utf8(body@) ==> is_client_error(r, "Body must be a valid UTF-8 string"@),
        valid_utf8(body@) && !has_proxy_prefix(body@) ==> is_client_error(
            r,
            "Body must begin with url="@,
        ),
        valid_utf8(body@) && has_proxy_prefix(body@) && !valid_utf8(proxy_target_bytes(body@))
            ==> is_server_error(r, "URL is not valid UTF-8 after percent-decoding"@),
        valid_utf8(body@) && has_proxy_prefix(body@) && valid_utf8(proxy_target_bytes(body@))
            ==> exists|outcome: Result<Seq<char>, Seq<char>>|
            is_fetch_outcome_response(r, outcome),
{
    match parse_proxy_target(body) {
        ProxyTarget::BodyNotUtf8 => serve_400("Body must be a valid UTF-8 string"),
        ProxyTarget::MissingPrefix => serve_400("Body must begin with url="),
        ProxyTarget::TargetNotUtf8 => serve_500("URL is not valid UTF-8 after percent-decoding"),
        ProxyTarget::Url(url) => {
            let outcome: Result<String, String> = fetch_url_text(&url, user_agent_string());
            let ghost o = outcome;
            let resp = proxy_fetch_response(outcome);
            proof {
                let witness: Result<Seq<char>, Seq<char>> = match o {
                    Ok(text) => Ok(text@),
                    Err(msg) => Err(msg@),
                };
                assert(is_fetch_outcome_response(resp, witness));
            }
            resp
        },
    }
}

} // verus!
