//! Microsoft Graph plumbing: the token gate, percent-encoding of path and
//! query segments, the shape of an HTTP exchange with Graph, and how a
//! response is turned into a value or an error message.

use vstd::prelude::*;
use vstd::string::StringSliceAdditionalSpecFns;
use crate::json::{
    Json, JsonV, jv, field, or_empty, field_v, str_of_v, lemma_field_jv, lemma_str_of_jv,
};
use crate::json_codec::{json_parsed, json_parse_error, parse_json};
use crate::text::{push_char, decimal, decimal_string, concat};

verus! {

pub const GRAPH_API_BASE: &'static str = "https://graph.microsoft.com/v1.0";

/// Largest body that a single PUT upload may carry (4 MiB).
pub const SIMPLE_UPLOAD_LIMIT: usize = 4194304;

pub const DOCX_MIME: &'static str =
    "application/vnd.openxmlformats-officedocument.wordprocessingml.document";

pub const PPTX_MIME: &'static str =
    "application/vnd.openxmlformats-officedocument.presentationml.presentation";

pub const OCTET_STREAM_MIME: &'static str = "application/octet-stream";

/// Name of the host secret that holds the OAuth token.
pub const TOKEN_SECRET_NAME: &'static str = "microsoft_oauth_token";

pub const MISSING_TOKEN_MESSAGE: &'static str =
    "Microsoft OAuth token not configured. Run `ironclaw tool auth microsoft` after exporting MICROSOFT_OAUTH_CLIENT_ID and MICROSOFT_OAUTH_CLIENT_SECRET.";

pub const JSON_BODY_HEADERS: &'static str = "{\"Content-Type\": \"application/json; charset=utf-8\"}";

pub const NO_BODY_HEADERS: &'static str = "{}";

/// Fails unless the OAuth token secret is present on the host.
pub fn require_token(token_configured: bool) -> (r: Result<(), String>)
    ensures
        r is Ok <==> token_configured,
        r matches Err(m) ==> m@ == MISSING_TOKEN_MESSAGE@,
{
    if token_configured {
        Ok(())
    } else {
        Err(MISSING_TOKEN_MESSAGE.to_string())
    }
}

// ---------------------------------------------------------------------------
// Percent-encoding
// ---------------------------------------------------------------------------

/// The bytes that pass through unescaped: ASCII letters, digits and `-_.~`.
pub open spec fn is_unreserved_byte(b: u8) -> bool {
    ||| 0x41 <= b <= 0x5A
    ||| 0x61 <= b <= 0x7A
    ||| 0x30 <= b <= 0x39
    ||| b == 0x2D
    ||| b == 0x5F
    ||| b == 0x2E
    ||| b == 0x7E
}

/// Upper-case hexadecimal digit of a value below 16.
pub open spec fn hex_digit(n: u8) -> char {
    if n < 10 {
        ((n + 48) as u8) as char
    } else {
        ((n + 55) as u8) as char
    }
}

pub open spec fn percent_encode_byte(b: u8) -> Seq<char> {
    if is_unreserved_byte(b) {
        seq![b as char]
    } else {
        seq!['%', hex_digit(b / 16), hex_digit(b % 16)]
    }
}

/// Each UTF-8 byte in turn: kept when unreserved, otherwise `%XX`.
pub open spec fn url_encoded(bytes: Seq<u8>) -> Seq<char> {
    bytes.map_values(|b: u8| percent_encode_byte(b)).flatten()
}

fn hex_digit_char(n: u8) -> (c: char)
    requires
        n < 16,
    ensures
        c == hex_digit(n),
{
    if n < 10 {
        (n + 48) as char
    } else {
        (n + 55) as char
    }
}

fn byte_is_unreserved(b: u8) -> (r: bool)
    ensures
        r == is_unreserved_byte(b),
{
    (0x41 <= b && b <= 0x5A) || (0x61 <= b && b <= 0x7A) || (0x30 <= b && b <= 0x39) || b == 0x2D
        || b == 0x5F || b == 0x2E || b == 0x7E
}

/// Percent-encodes every byte of `s` outside the unreserved set.
pub fn url_encode(s: &str) -> (r: String)
    ensures
        r@ == url_encoded(s.spec_bytes()),
{
    let bytes = s.as_bytes();
    let mut out = String::new();
    let mut i: usize = 0;
    while i < bytes.len()
        invariant
            bytes@ == s.spec_bytes(),
            i <= bytes@.len(),
            out@ == url_encoded(bytes@.take(i as int)),
        decreases bytes@.len() - i,
    {
        let b = bytes[i];
        proof {
            let f = |b: u8| percent_encode_byte(b);
            assert(bytes@.take(i + 1) =~= bytes@.take(i as int).push(b));
            assert(bytes@.take(i + 1).map_values(f) =~= bytes@.take(i as int).map_values(f).push(
                f(b),
            ));
            bytes@.take(i as int).map_values(f).lemma_flatten_push(f(b));
        }
        if byte_is_unreserved(b) {
            push_char(&mut out, b as char);
        } else {
            push_char(&mut out, '%');
            push_char(&mut out, hex_digit_char(b / 16));
            push_char(&mut out, hex_digit_char(b % 16));
        }
        i = i + 1;
    }
    assert(bytes@.take(bytes@.len() as int) =~= bytes@);
    out
}

} // verus!

verus! {

// ---------------------------------------------------------------------------
// Error payloads
// ---------------------------------------------------------------------------

/// The reason that Graph gives in an error payload
/// `{"error": {"code": .., "message": ..}}`: `"<code>: <message>"`, with a
/// missing or non-string part read as empty, and nothing when both are empty,
/// the payload has no `error` member, or the body is not JSON.
pub open spec fn error_reason(parsed: Option<JsonV>) -> Option<Seq<char>> {
    match parsed {
        None => None,
        Some(v) => match field_v(v, "error"@) {
            None => None,
            Some(err) => {
                let code = or_empty(str_of_v(field_v(err, "code"@)));
                let message = or_empty(str_of_v(field_v(err, "message"@)));
                if code.len() == 0 && message.len() == 0 {
                    None
                } else {
                    Some(code + ": "@ + message)
                }
            },
        },
    }
}

fn reason_of(v: &Json) -> (r: Option<String>)
    ensures
        crate::json::opt_view(r) == error_reason(Some(jv(*v))),
{
    proof {
        lemma_field_jv(*v, "error"@);
    }
    let err = match v.get("error") {
        Some(e) => e,
        None => return None,
    };
    proof {
        lemma_field_jv(*err, "code"@);
        lemma_field_jv(*err, "message"@);
        lemma_str_of_jv(field(*err, "code"@));
        lemma_str_of_jv(field(*err, "message"@));
    }
    let code = crate::json::str_field_or_empty(err, "code");
    let message = crate::json::str_field_or_empty(err, "message");
    if code.as_str().is_empty() && message.as_str().is_empty() {
        return None;
    }
    let mut out = code;
    out.append(": ");
    out.append(message.as_str());
    Some(out)
}

/// Reads Graph's reason out of a response body, `None` when the body is
/// not JSON or carries no reason.
pub fn extract_error(body: &str) -> (r: Option<String>)
    ensures
        crate::json::opt_view(r) == error_reason(json_parsed(body@)),
{
    match parse_json(body) {
        Ok(v) => reason_of(&v),
        Err(_) => None,
    }
}

// ---------------------------------------------------------------------------
// HTTP exchanges
// ---------------------------------------------------------------------------

/// An HTTP request ready for the host to send.
pub struct HttpRequest {
    pub method: String,
    pub url: String,
    pub headers: String,
    pub body: Option<Vec<u8>>,
}

/// The request that `request(method, endpoint, body)` sends: the endpoint
/// under the Graph base URL, a JSON content type when there is a body.
pub fn prepare_request(method: &str, endpoint: &str, body: Option<&str>) -> (r: HttpRequest)
    ensures
        r.method@ == method@,
        r.url@ == GRAPH_API_BASE@ + endpoint@,
        r.headers@ == (if body is Some {
            JSON_BODY_HEADERS@
        } else {
            NO_BODY_HEADERS@
        }),
        match body {
            Some(b) => r.body matches Some(bytes) && bytes@ == b.spec_bytes(),
            None => r.body is None,
        },
{
    let url = concat(GRAPH_API_BASE, endpoint);
    match body {
        Some(b) => HttpRequest {
            method: method.to_string(),
            url,
            headers: JSON_BODY_HEADERS.to_string(),
            body: Some(b.as_bytes_vec()),
        },
        None => HttpRequest {
            method: method.to_string(),
            url,
            headers: NO_BODY_HEADERS.to_string(),
            body: None,
        },
    }
}

/// The upload that `put_bytes(endpoint, bytes, content_type)` sends.
pub fn prepare_put(endpoint: &str, bytes: Vec<u8>, content_type: &str) -> (r: HttpRequest)
    ensures
        r.method@ == "PUT"@,
        r.url@ == GRAPH_API_BASE@ + endpoint@,
        r.headers@ == "{\"Content-Type\": \""@ + content_type@ + "\"}"@,
        r.body == Some(bytes),
{
    let mut headers = "{\"Content-Type\": \"".to_string();
    headers.append(content_type);
    headers.append("\"}");
    HttpRequest {
        method: "PUT".to_string(),
        url: concat(GRAPH_API_BASE, endpoint),
        headers,
        body: Some(bytes),
    }
}

pub open spec fn is_success(status: u16) -> bool {
    200 <= status < 300
}

/// The reason quoted after a failed status: Graph's own reason when the
/// body carries one, otherwise the body text.
pub open spec fn failure_reason(body_text: Seq<char>, parsed: Option<JsonV>) -> Seq<char> {
    match error_reason(parsed) {
        Some(reason) => reason,
        None => body_text,
    }
}

fn status_failure(prefix: &str, status: u16, body_text: &str) -> (r: String)
    ensures
        r@ == prefix@ + decimal(status as nat) + ": "@ + failure_reason(body_text@, json_parsed(body_text@)),
{
    let reason = extract_error(body_text);
    let mut msg = prefix.to_string();
    let code = decimal_string(status as u128);
    msg.append(code.as_str());
    msg.append(": ");
    match reason {
        Some(r) => msg.append(r.as_str()),
        None => msg.append(body_text),
    }
    msg
}

/// Outcome of a JSON request, given the response status and its body text.
pub fn request(status: u16, body_text: &str) -> (r: Result<(u16, Json), String>)
    ensures
        !is_success(status) ==> (r matches Err(m) && m@ == "Microsoft Graph returned "@ + decimal(
            status as nat,
        ) + ": "@ + failure_reason(body_text@, json_parsed(body_text@))),
        is_success(status) && body_text@.len() == 0 ==> r == Ok::<(u16, Json), String>((status, Json::Null)),
        is_success(status) && body_text@.len() != 0 ==> match json_parsed(body_text@) {
            Some(v) => r matches Ok((s, j)) && s == status && jv(j) == v,
            None => r matches Err(m) && m@ == "Invalid JSON from Graph: "@ + json_parse_error(
                body_text@,
            ),
        },
{
    if status < 200 || status >= 300 {
        return Err(status_failure("Microsoft Graph returned ", status, body_text));
    }
    if body_text.is_empty() {
        return Ok((status, Json::Null));
    }
    match parse_json(body_text) {
        Ok(v) => Ok((status, v)),
        Err(e) => Err(concat("Invalid JSON from Graph: ", e.as_str())),
    }
}

/// Outcome of an upload, given the response status and its body text.
pub fn put_bytes(status: u16, body_text: &str) -> (r: Result<Json, String>)
    ensures
        !is_success(status) ==> (r matches Err(m) && m@ == "Upload failed with "@ + decimal(
            status as nat,
        ) + ": "@ + failure_reason(body_text@, json_parsed(body_text@))),
        is_success(status) ==> match json_parsed(body_text@) {
            Some(v) => r matches Ok(j) && jv(j) == v,
            None => r matches Err(m) && m@ == "Invalid JSON from upload: "@ + json_parse_error(
                body_text@,
            ),
        },
{
    if status < 200 || status >= 300 {
        return Err(status_failure("Upload failed with ", status, body_text));
    }
    match parse_json(body_text) {
        Ok(v) => Ok(v),
        Err(e) => Err(concat("Invalid JSON from upload: ", e.as_str())),
    }
}

} // verus!

verus! {

/// Value of an upper-case hexadecimal digit.
pub open spec fn hex_value(c: char) -> int {
    if '0' <= c <= '9' {
        c as int - 48
    } else {
        c as int - 55
    }
}

/// Percent-decoding: `%XX` becomes the byte `XX`, any other character the
/// byte of its code.
pub open spec fn percent_decoded(s: Seq<char>) -> Seq<u8>
    decreases s.len(),
{
    if s.len() == 0 {
        Seq::empty()
    } else if s[0] == '%' && s.len() >= 3 {
        seq![(hex_value(s[1]) * 16 + hex_value(s[2])) as u8] + percent_decoded(s.skip(3))
    } else {
        seq![s[0] as u8] + percent_decoded(s.skip(1))
    }
}

proof fn lemma_decode_encoded_byte(b: u8, rest: Seq<char>)
    ensures
        percent_decoded(percent_encode_byte(b) + rest) == seq![b] + percent_decoded(rest),
{
    let e = percent_encode_byte(b);
    if is_unreserved_byte(b) {
        assert((e + rest).skip(1) =~= rest);
        assert(((b as char) as u8) == b);
    } else {
        assert((e + rest).skip(3) =~= rest);
        assert((e + rest)[0] == '%');
        let hi = b / 16;
        let lo = b % 16;
        assert(hex_value(hex_digit(hi)) == hi as int);
        assert(hex_value(hex_digit(lo)) == lo as int);
        assert((hi as int) * 16 + (lo as int) == b as int);
    }
}

/// Percent-decoding the result of `url_encode(s)` gives back the UTF-8
/// bytes of `s`: the encoding loses nothing.
pub proof fn lemma_url_encode_round_trip(bytes: Seq<u8>)
    ensures
        percent_decoded(url_encoded(bytes)) == bytes,
    decreases bytes.len(),
{
    let f = |b: u8| percent_encode_byte(b);
    if bytes.len() == 0 {
        assert(url_encoded(bytes) =~= Seq::<char>::empty());
    } else {
        let tail = bytes.drop_first();
        assert(bytes.map_values(f).drop_first() =~= tail.map_values(f));
        assert(url_encoded(bytes) == percent_encode_byte(bytes[0]) + url_encoded(tail));
        lemma_decode_encoded_byte(bytes[0], url_encoded(tail));
        lemma_url_encode_round_trip(tail);
        assert(seq![bytes[0]] + tail =~= bytes);
    }
}

/// A character that may stand in a URL path segment or query value as it
/// is: an unreserved character, or `%` opening an escape.
pub open spec fn is_url_safe_char(c: char) -> bool {
    ||| 'A' <= c <= 'Z'
    ||| 'a' <= c <= 'z'
    ||| '0' <= c <= '9'
    ||| c == '-' || c == '_' || c == '.' || c == '~' || c == '%'
}

proof fn lemma_encoded_byte_is_url_safe(b: u8)
    ensures
        forall|j: int|
            0 <= j < percent_encode_byte(b).len() ==> is_url_safe_char(
                #[trigger] percent_encode_byte(b)[j],
            ),
{
    let hi = b / 16;
    let lo = b % 16;
    assert(is_url_safe_char(hex_digit(hi)));
    assert(is_url_safe_char(hex_digit(lo)));
}

/// The output of `url_encode` holds only unreserved characters and `%`
/// escapes: no `/`, `?`, `#`, `&`, `=` or space survives, so an encoded
/// name stays inside its path segment or query value.
pub proof fn lemma_url_encode_is_url_safe(bytes: Seq<u8>)
    ensures
        forall|i: int| 0 <= i < url_encoded(bytes).len() ==> is_url_safe_char(#[trigger] url_encoded(bytes)[i]),
    decreases bytes.len(),
{
    let f = |b: u8| percent_encode_byte(b);
    if bytes.len() == 0 {
        assert(url_encoded(bytes) =~= Seq::<char>::empty());
    } else {
        let tail = bytes.drop_first();
        assert(bytes.map_values(f).drop_first() =~= tail.map_values(f));
        let head = percent_encode_byte(bytes[0]);
        let rest = url_encoded(tail);
        assert(url_encoded(bytes) == head + rest);
        lemma_encoded_byte_is_url_safe(bytes[0]);
        lemma_url_encode_is_url_safe(tail);
        assert forall|i: int| 0 <= i < (head + rest).len() implies is_url_safe_char(#[trigger] (head + rest)[i]) by {
            if i < head.len() {
                assert((head + rest)[i] == head[i]);
            } else {
                assert((head + rest)[i] == rest[i - head.len()]);
            }
        }
    }
}

/// A string made only of unreserved characters (ASCII letters, digits and
/// `-_.~`) is left as it is by `url_encode`.
pub proof fn lemma_url_encode_keeps_unreserved(bytes: Seq<u8>)
    requires
        forall|i: int| 0 <= i < bytes.len() ==> is_unreserved_byte(#[trigger] bytes[i]),
    ensures
        url_encoded(bytes) == bytes.map_values(|b: u8| b as char),
    decreases bytes.len(),
{
    let f = |b: u8| percent_encode_byte(b);
    let g = |b: u8| b as char;
    if bytes.len() == 0 {
        assert(url_encoded(bytes) =~= Seq::<char>::empty());
        assert(bytes.map_values(g) =~= Seq::<char>::empty());
    } else {
        let tail = bytes.drop_first();
        assert(bytes.map_values(f).drop_first() =~= tail.map_values(f));
        assert(url_encoded(bytes) == percent_encode_byte(bytes[0]) + url_encoded(tail));
        lemma_url_encode_keeps_unreserved(tail);
        assert(bytes.map_values(g) =~= seq![bytes[0] as char] + tail.map_values(g));
    }
}

} // verus!
