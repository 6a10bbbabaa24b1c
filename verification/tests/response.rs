use completion_client::client::Client;
use completion_client::errors::{ClientError, Failure};

fn client() -> Client {
    Client::new(Some("k".to_string())).unwrap()
}

#[test]
fn ok_status_with_json_body_returns_the_parse() {
    let r = client().decode_response(200, b"{\"text\": \"hello\"}").unwrap();
    let want: serde_json::Value = serde_json::from_str("{\"text\": \"hello\"}").unwrap();
    assert_eq!(r, want);
}

#[test]
fn any_2xx_status_is_accepted() {
    let r = client().decode_response(299, b"[1, 2, 3]").unwrap();
    let want: serde_json::Value = serde_json::from_str("[1,2,3]").unwrap();
    assert_eq!(r, want);
}

#[test]
fn unauthorized_status_fails_with_the_status() {
    let r = client().decode_response(401, b"{\"error\": \"bad key\"}");
    assert!(matches!(
        r,
        Err(ClientError::RequestFailed(Failure::Status(401)))
    ));
}

#[test]
fn redirect_status_fails_with_the_status() {
    let r = client().decode_response(300, b"{}");
    assert!(matches!(
        r,
        Err(ClientError::RequestFailed(Failure::Status(300)))
    ));
}

#[test]
fn status_just_below_2xx_fails() {
    let r = client().decode_response(199, b"{}");
    assert!(matches!(
        r,
        Err(ClientError::RequestFailed(Failure::Status(199)))
    ));
}

#[test]
fn malformed_body_fails_with_a_decode_error() {
    let r = client().decode_response(200, b"not json at all");
    assert!(matches!(
        r,
        Err(ClientError::RequestFailed(Failure::Decode(_)))
    ));
}

#[test]
fn empty_body_fails_with_a_decode_error() {
    let r = client().decode_response(204, b"");
    assert!(matches!(
        r,
        Err(ClientError::RequestFailed(Failure::Decode(_)))
    ));
}

#[test]
fn non_utf8_body_fails_with_a_decode_error() {
    let r = client().decode_response(200, &[0x22, 0xff, 0xfe, 0x22]);
    assert!(matches!(
        r,
        Err(ClientError::RequestFailed(Failure::Decode(_)))
    ));
}
