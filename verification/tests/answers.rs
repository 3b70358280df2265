use pyttch::api::{
    download_from_body, failure_error, file_path_from_body, get_file_status_error,
    sent_from_body, status_error,
};
use pyttch::http::Failure;
use pyttch::Error;

fn body(text: &str) -> Result<Vec<u8>, String> {
    Ok(text.as_bytes().to_vec())
}

#[test]
fn sent_message_id_is_read() {
    let r = sent_from_body(body(r#"{"ok":true,"result":{"message_id":77,"chat":{"id":1}}}"#));
    assert_eq!(r.unwrap(), 77);
}

#[test]
fn sent_not_ok_gives_description() {
    let r = sent_from_body(body(r#"{"ok":false,"description":"Bad Request: chat not found"}"#));
    let e = r.unwrap_err();
    assert!(matches!(&e, Error::Api(d) if d == "Bad Request: chat not found"));
    assert_eq!(e.message(), "telegram api error: Bad Request: chat not found");
    let e = sent_from_body(body(r#"{"ok":false}"#)).unwrap_err();
    assert!(matches!(&e, Error::Api(d) if d.is_empty()));
}

#[test]
fn sent_without_result() {
    let e = sent_from_body(body(r#"{"ok":true}"#)).unwrap_err();
    assert!(matches!(&e, Error::NoResult(m) if m == "sendMessage"));
    assert_eq!(e.message(), "sendMessage returned no result");
    let e = sent_from_body(body(r#"{"ok":true,"result":null}"#)).unwrap_err();
    assert!(matches!(&e, Error::NoResult(_)));
}

#[test]
fn sent_malformed_answers() {
    for text in [
        "not json",
        r#"{"result":{"message_id":1}}"#,
        r#"{"ok":"yes"}"#,
        r#"{"ok":true,"result":{"message_id":1.5}}"#,
        r#"{"ok":true,"result":{}}"#,
        r#"{"ok":true,"description":7}"#,
        r#"[true,{"message_id":1},null,4]"#,
    ] {
        let e = sent_from_body(body(text)).unwrap_err();
        assert!(matches!(e, Error::MalformedResponse), "{text}");
    }
}

#[test]
fn sent_answer_with_invalid_utf8_is_malformed() {
    let mut bytes = br#"{"ok":false,"description":"x"#.to_vec();
    bytes.push(0xff);
    bytes.extend_from_slice(br#""}"#);
    assert!(matches!(sent_from_body(Ok(bytes)), Err(Error::MalformedResponse)));
}

#[test]
fn sent_answer_read_from_array_form() {
    assert_eq!(sent_from_body(body(r#"[true,[9]]"#)).unwrap(), 9);
}

#[test]
fn sent_body_read_failure() {
    let e = sent_from_body(Err("connection reset".to_string())).unwrap_err();
    assert!(matches!(&e, Error::Transport(m) if m == "connection reset"));
}

#[test]
fn sent_other_statuses() {
    let e = status_error(204, Ok(String::new()));
    assert!(matches!(&e, Error::UnexpectedStatus { status: 204, body } if body.is_empty()));
    assert_eq!(e.message(), "telegram api error (204): ");
    let e = failure_error(Failure::Rejected(401));
    assert!(matches!(e, Error::HttpStatus(401)));
    assert_eq!(e.message(), "http status: 401");
    let e = failure_error(Failure::Failed("dns failed".to_string()));
    assert_eq!(e.message(), "dns failed");
}

#[test]
fn status_only_answers() {
    let e = status_error(202, Ok("queued".to_string()));
    assert_eq!(e.message(), "telegram api error (202): queued");
    let e = status_error(202, Err("body cut short".to_string()));
    assert!(matches!(&e, Error::Transport(m) if m == "body cut short"));
    assert!(matches!(failure_error(Failure::Rejected(500)), Error::HttpStatus(500)));
}

#[test]
fn file_path_answers() {
    let ok = file_path_from_body(body(
        r#"{"ok":true,"result":{"file_id":"x","file_path":"photos/a.jpg"}}"#,
    ));
    assert_eq!(ok.unwrap(), "photos/a.jpg");
    let e = file_path_from_body(body(r#"{"ok":false,"description":"nope"}"#)).unwrap_err();
    assert_eq!(e.message(), "telegram getFile error: nope");
    let e = file_path_from_body(body(r#"{"ok":true}"#)).unwrap_err();
    assert_eq!(e.message(), "getFile returned no result");
    let e = get_file_status_error(203, Ok("hm".to_string()));
    assert_eq!(e.message(), "telegram getFile error (203): hm");
}

#[test]
fn download_answers() {
    let ok = download_from_body(Ok(vec![1u8, 2, 3]));
    assert_eq!(ok.unwrap(), vec![1u8, 2, 3]);
    let e = download_from_body(Err("eof".to_string())).unwrap_err();
    assert_eq!(e.message(), "eof");
    assert_eq!(Error::DownloadStatus(206).message(), "telegram file download error (206)");
}

#[test]
fn error_texts() {
    assert_eq!(Error::MalformedResponse.message(), "malformed response from telegram");
    assert_eq!(
        Error::UnknownParseMode("bold".to_string()).message(),
        "unknown parse mode: bold"
    );
    assert_eq!(
        Error::NoMessage.message(),
        "no message provided (pass as argument or pipe to stdin)"
    );
    assert_eq!(
        Error::GetFileStatus { status: 201, body: "b".to_string() }.message(),
        "telegram getFile error (201): b"
    );
    assert_eq!(Error::UpdateIdOverflow.message(), "update id leaves no next offset");
}
