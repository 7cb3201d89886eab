use base64::Engine;
use microsoft_365::api::{upload_bytes, upload_file, upload_to_drive};
use microsoft_365::graph::{MISSING_TOKEN_MESSAGE, SIMPLE_UPLOAD_LIMIT};

#[test]
fn upload_file_decodes_base64() {
    let req = upload_file(true, None, "my file.txt", "aGVsbG8=").unwrap();
    assert_eq!(req.method, "PUT");
    assert_eq!(req.url, "https://graph.microsoft.com/v1.0/me/drive/root:/my%20file.txt:/content");
    assert_eq!(req.headers, "{\"Content-Type\": \"application/octet-stream\"}");
    assert_eq!(req.body.unwrap(), b"hello".to_vec());
}

#[test]
fn upload_file_rejects_bad_base64_before_the_token() {
    let err = upload_file(false, None, "a", "!!!").err().unwrap();
    let decoder_message = base64::engine::general_purpose::STANDARD.decode("!!!").unwrap_err().to_string();
    assert_eq!(err, format!("Invalid base64 content: {}", decoder_message));
    assert_eq!(upload_file(false, None, "a", "aGk=").err().unwrap(), MISSING_TOKEN_MESSAGE);
}

#[test]
fn upload_into_folder() {
    let req = upload_to_drive(true, Some("F1"), "r.pdf", vec![7], "application/pdf").unwrap();
    assert_eq!(req.url, "https://graph.microsoft.com/v1.0/me/drive/items/F1:/r.pdf:/content");
    assert_eq!(req.headers, "{\"Content-Type\": \"application/pdf\"}");
}

#[test]
fn upload_needs_a_name() {
    assert_eq!(
        upload_to_drive(true, None, " \t", vec![], "x").err().unwrap(),
        "upload requires a non-empty name"
    );
}

#[test]
fn upload_limit_is_four_mebibytes() {
    assert_eq!(SIMPLE_UPLOAD_LIMIT, 4 * 1024 * 1024);
    assert!(upload_bytes(None, "a", vec![0; SIMPLE_UPLOAD_LIMIT], "x").is_ok());
    assert_eq!(
        upload_bytes(None, "a", vec![0; SIMPLE_UPLOAD_LIMIT + 1], "x").err().unwrap(),
        "4194305 bytes exceeds the 4194304-byte simple-upload limit; chunked upload session not yet supported"
    );
}
