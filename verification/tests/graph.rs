use microsoft_365::graph::{extract_error, url_encode};
use microsoft_365::json::{Json, JsonNumber};
use microsoft_365::json_codec::{json_to_text, parse_json};

fn object(members: Vec<(&str, Json)>) -> Json {
    Json::Object(members.into_iter().map(|(k, v)| (k.to_string(), v)).collect())
}

fn string(s: &str) -> Json {
    Json::String(s.to_string())
}

#[test]
fn url_encode_preserves_unreserved() {
    assert_eq!(url_encode("abcXYZ123-_.~"), "abcXYZ123-_.~");
}

#[test]
fn url_encode_percent_escapes_reserved() {
    assert_eq!(url_encode("a b/c?d=e&f"), "a%20b%2Fc%3Fd%3De%26f");
}

#[test]
fn url_encode_handles_unicode_bytes() {
    assert_eq!(url_encode("é"), "%C3%A9");
}

#[test]
fn extract_error_returns_code_and_message() {
    let body = r#"{"error":{"code":"InvalidAuthenticationToken","message":"Token expired"}}"#;
    assert_eq!(
        extract_error(body),
        Some("InvalidAuthenticationToken: Token expired".to_string())
    );
}

#[test]
fn extract_error_returns_none_for_non_error_payload() {
    assert!(extract_error(r#"{"value":[]}"#).is_none());
}

#[test]
fn extract_error_returns_none_for_invalid_json() {
    assert!(extract_error("not json").is_none());
}

use microsoft_365::graph::{
    prepare_put, prepare_request, put_bytes, request, require_token, MISSING_TOKEN_MESSAGE,
};

fn percent_decode(s: &str) -> Vec<u8> {
    let b = s.as_bytes();
    let mut out = Vec::new();
    let mut i = 0;
    while i < b.len() {
        if b[i] == b'%' && i + 2 < b.len() + 0 && i + 2 <= b.len() - 1 {
            let hex = std::str::from_utf8(&b[i + 1..i + 3]).unwrap();
            out.push(u8::from_str_radix(hex, 16).unwrap());
            i += 3;
        } else {
            out.push(b[i]);
            i += 1;
        }
    }
    out
}

#[test]
fn url_encode_round_trips_through_percent_decoding() {
    for input in ["", "plain", "a b&c=d/é?ü", "100% sure", "~._-"] {
        assert_eq!(percent_decode(&url_encode(input)), input.as_bytes());
    }
}

#[test]
fn url_encode_output_is_unreserved_or_escape() {
    let out = url_encode("ü and ß / ?");
    assert!(out
        .chars()
        .all(|c| c.is_ascii_alphanumeric() || "-_.~%".contains(c)));
}

#[test]
fn require_token_gate() {
    assert!(require_token(true).is_ok());
    assert_eq!(require_token(false).err().unwrap(), MISSING_TOKEN_MESSAGE);
}

#[test]
fn prepare_request_sets_url_and_headers() {
    let get = prepare_request("GET", "/me", None);
    assert_eq!(get.method, "GET");
    assert_eq!(get.url, "https://graph.microsoft.com/v1.0/me");
    assert_eq!(get.headers, "{}");
    assert!(get.body.is_none());
    let post = prepare_request("POST", "/me/sendMail", Some("{\"a\":1}"));
    assert_eq!(post.headers, "{\"Content-Type\": \"application/json; charset=utf-8\"}");
    assert_eq!(post.body.unwrap(), b"{\"a\":1}".to_vec());
}

#[test]
fn prepare_put_names_the_content_type() {
    let put = prepare_put("/me/drive/root:/a.txt:/content", vec![1, 2, 3], "text/plain");
    assert_eq!(put.method, "PUT");
    assert_eq!(put.url, "https://graph.microsoft.com/v1.0/me/drive/root:/a.txt:/content");
    assert_eq!(put.headers, "{\"Content-Type\": \"text/plain\"}");
    assert_eq!(put.body.unwrap(), vec![1, 2, 3]);
}

#[test]
fn request_reports_graph_errors() {
    let body = r#"{"error":{"code":"Forbidden","message":"No access"}}"#;
    assert_eq!(
        request(403, body).err().unwrap(),
        "Microsoft Graph returned 403: Forbidden: No access"
    );
    assert_eq!(request(500, "oops").err().unwrap(), "Microsoft Graph returned 500: oops");
    assert_eq!(request(199, "").err().unwrap(), "Microsoft Graph returned 199: ");
}

#[test]
fn request_accepts_success() {
    let (status, value) = request(204, "").unwrap();
    assert_eq!(status, 204);
    assert!(matches!(value, Json::Null));
    let (status, value) = request(200, "{}").unwrap();
    assert_eq!(status, 200);
    assert!(matches!(value, Json::Object(ref m) if m.is_empty()));
    let (_, value) = request(200, r#"{"id":"x","n":-3,"ok":true,"f":1.5}"#).unwrap();
    match value {
        Json::Object(m) => {
            assert!(m.iter().any(|(k, v)| k == "id" && matches!(v, Json::String(s) if s == "x")));
            assert!(m.iter().any(|(k, v)| k == "n" && matches!(v, Json::Number(JsonNumber::NegInt(-3)))));
            assert!(m.iter().any(|(k, v)| k == "ok" && matches!(v, Json::Bool(true))));
        }
        _ => panic!("not an object"),
    }
    let serde_message = serde_json::from_str::<serde_json::Value>("nope").unwrap_err().to_string();
    assert_eq!(
        request(200, "nope").err().unwrap(),
        format!("Invalid JSON from Graph: {}", serde_message)
    );
}

#[test]
fn put_bytes_outcomes() {
    assert_eq!(put_bytes(413, "too big").err().unwrap(), "Upload failed with 413: too big");
    let serde_message = serde_json::from_str::<serde_json::Value>("").unwrap_err().to_string();
    assert_eq!(
        put_bytes(201, "").err().unwrap(),
        format!("Invalid JSON from upload: {}", serde_message)
    );
    assert!(matches!(put_bytes(201, "{}").unwrap(), Json::Object(_)));
}

#[test]
fn extract_error_with_only_a_message() {
    assert_eq!(extract_error(r#"{"error":{"message":"m"}}"#), Some(": m".to_string()));
    assert_eq!(extract_error(r#"{"error":{"code":""}}"#), None);
}

#[test]
fn json_text_round_trip() {
    let value = object(vec![
        ("b", Json::Array(vec![string("x"), Json::Number(JsonNumber::PosInt(2))])),
        ("a", Json::Bool(false)),
    ]);
    let text = json_to_text(value);
    assert_eq!(text, r#"{"a":false,"b":["x",2]}"#);
    assert_eq!(json_to_text(parse_json(&text).unwrap()), text);
    assert!(parse_json("{").is_err());
}
