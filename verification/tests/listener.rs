use pyttch::listen::{parse_updates_with_offset, try_parse_updates, Content, Listener};
use pyttch::{Error, Inbox};

fn text_update(update_id: i64, chat: i64, text: &str) -> String {
    format!(
        r#"{{"update_id":{update_id},"message":{{"message_id":1,"chat":{{"id":{chat}}},"text":"{text}","date":1}}}}"#
    )
}

fn answer(updates: &[String]) -> String {
    format!(r#"{{"ok":true,"result":[{}]}}"#, updates.join(","))
}

#[test]
fn receive_moves_offset_past_last_update() {
    let mut listener = Listener::new("T", 12345);
    let raw = answer(&[text_update(10, 12345, "a"), text_update(11, 99, "b")]);
    let messages = listener.receive(&raw).unwrap();
    assert_eq!(messages.len(), 1);
    assert_eq!(messages[0].text(), Some("a"));
    // The next receive of an empty batch keeps the offset.
    let messages = listener.receive(r#"{"ok":true,"result":[]}"#).unwrap();
    assert!(messages.is_empty());
    assert_eq!(listener.chat_id(), 12345);
}

#[test]
fn receive_errors_leave_listener_alone() {
    let mut listener = Listener::new("T", 1);
    assert!(matches!(listener.receive("garbage"), Err(Error::MalformedResponse)));
    let e = listener.receive(r#"{"ok":false,"result":[],"description":"Conflict"}"#).unwrap_err();
    assert_eq!(e.message(), "telegram api error: Conflict");
}

#[test]
fn largest_update_id_has_no_next_offset() {
    let raw = answer(&[text_update(i64::MAX, 1, "x")]);
    let mut listener = Listener::new("T", 1);
    assert!(matches!(listener.receive(&raw), Err(Error::UpdateIdOverflow)));
    assert!(try_parse_updates(&raw, 1).is_none());
    let fine = answer(&[text_update(i64::MAX - 1, 1, "x")]);
    let (messages, offset) = parse_updates_with_offset(&fine, 1).unwrap();
    assert_eq!(messages.len(), 1);
    assert_eq!(offset, i64::MAX);
    assert!(try_parse_updates(&fine, 1).unwrap().is_ok());
}

#[test]
fn offset_counts_every_update_even_filtered_ones() {
    let raw = answer(&[text_update(7, 1, "mine"), r#"{"update_id":9}"#.to_string()]);
    let (messages, offset) = parse_updates_with_offset(&raw, 1).unwrap();
    assert_eq!(messages.len(), 1);
    assert_eq!(offset, 10);
    let (messages, offset) = parse_updates_with_offset(r#"{"ok":true,"result":[]}"#, 1).unwrap();
    assert!(messages.is_empty());
    assert_eq!(offset, 0);
}

#[test]
fn malformed_update_for_another_chat_fails_the_whole_answer() {
    let bad = r#"{"update_id":8,"message":{"message_id":"x","chat":{"id":2},"date":1}}"#;
    let raw = answer(&[text_update(7, 1, "mine"), bad.to_string()]);
    assert!(matches!(parse_updates_with_offset(&raw, 1), Err(Error::MalformedResponse)));
}

#[test]
fn text_wins_over_media_and_empty_photo_falls_through() {
    let raw = r#"{"ok":true,"result":[
        {"update_id":1,"message":{"message_id":1,"chat":{"id":1},"date":1,"text":"t","photo":[{"file_id":"p"}]}},
        {"update_id":2,"message":{"message_id":2,"chat":{"id":1},"date":1,"photo":[],"voice":{"file_id":"v"},"caption":"c"}},
        {"update_id":3,"message":{"message_id":3,"chat":{"id":1},"date":1,"photo":[{"file_id":"small"},{"file_id":"large"}]}}
    ]}"#;
    let (messages, _) = parse_updates_with_offset(raw, 1).unwrap();
    assert!(matches!(&messages[0].content, Content::Text(t) if t == "t"));
    assert!(matches!(&messages[1].content, Content::Voice { file_id, caption } if file_id == "v" && caption.as_deref() == Some("c")));
    assert_eq!(messages[1].text_or_caption(), Some("c"));
    assert_eq!(messages[1].file_id(), Some("v"));
    assert!(matches!(&messages[2].content, Content::Photo { file_id, .. } if file_id == "large"));
}

#[test]
fn callback_query_takes_precedence_over_message() {
    let raw = r#"{"ok":true,"result":[{"update_id":1,
        "message":{"message_id":5,"chat":{"id":1},"date":1,"text":"ignored"},
        "callback_query":{"id":"c","from":{"first_name":"A"},"data":"d"}}]}"#;
    let (messages, offset) = parse_updates_with_offset(raw, 1).unwrap();
    assert!(messages.is_empty());
    assert_eq!(offset, 2);
}

#[test]
fn structs_read_from_arrays_as_serde_does() {
    let raw = r#"{"ok":true,"result":[[4,[1,[1],"hi",null,null,null,null,null,null,["Ann","Lee"],3]]]}"#;
    let (messages, offset) = parse_updates_with_offset(raw, 1).unwrap();
    assert_eq!(offset, 5);
    assert_eq!(messages[0].text(), Some("hi"));
    assert_eq!(messages[0].from.as_deref(), Some("Ann Lee"));
    assert_eq!(messages[0].date, 3);
    let too_long = r#"{"ok":true,"result":[[4,null,null,null]]}"#;
    assert!(parse_updates_with_offset(too_long, 1).is_err());
}

#[test]
fn null_optional_fields_are_absent() {
    let raw = r#"{"ok":true,"description":null,"result":[{"update_id":1,"callback_query":null,
        "message":{"message_id":1,"chat":{"id":1},"date":1,"text":null,"sticker":{"file_id":"s","emoji":null}}}]}"#;
    let (messages, _) = parse_updates_with_offset(raw, 1).unwrap();
    assert!(matches!(&messages[0].content, Content::Sticker { file_id, emoji } if file_id == "s" && emoji.is_none()));
    assert_eq!(messages[0].text(), None);
    assert_eq!(messages[0].text_or_caption(), None);
}

#[test]
fn listener_with_timeout_keeps_chat() {
    let listener = Listener::new("T", -5).with_timeout(0);
    assert_eq!(listener.chat_id(), -5);
}

#[test]
fn inbox_hands_out_messages_oldest_first() {
    let raw = answer(&[text_update(1, 1, "a"), text_update(2, 1, "b")]);
    let (first, _) = parse_updates_with_offset(&raw, 1).unwrap();
    let raw = answer(&[text_update(3, 1, "c")]);
    let (second, _) = parse_updates_with_offset(&raw, 1).unwrap();
    let mut inbox = Inbox::new();
    assert!(inbox.take().is_none());
    inbox.fill(first);
    assert_eq!(inbox.take().unwrap().text(), Some("a"));
    inbox.fill(second);
    assert_eq!(inbox.take().unwrap().text(), Some("b"));
    assert_eq!(inbox.take().unwrap().text(), Some("c"));
    assert!(inbox.take().is_none());
}

#[test]
fn inbox_step_hands_out_waiting_messages_before_polling() {
    let raw = answer(&[text_update(1, 1, "a"), text_update(2, 1, "b")]);
    let (batch, _) = parse_updates_with_offset(&raw, 1).unwrap();
    let mut inbox = Inbox::new();
    inbox.fill(batch);
    let mut listener = Listener::new("bad-token", 1).with_timeout(0);
    assert_eq!(inbox.step(&mut listener).unwrap().unwrap().text(), Some("a"));
    assert_eq!(inbox.step(&mut listener).unwrap().unwrap().text(), Some("b"));
    // Nothing waits now: the step polls, and a bad token (or no network) fails it.
    assert!(inbox.step(&mut listener).is_err());
    assert!(inbox.take().is_none());
}
