use pyttch::api::{
    answer_callback_request, edit_message_request, file_download_url, get_file_request,
    method_url, send_menu_request, send_message_request, send_typing_request,
};
use pyttch::listen::get_updates_request_body;
use pyttch::{Button, ParseMode};

/// serde_json's own pretty text of a body whose keys are already in its map order.
fn pretty_again(body: &str) -> String {
    let value: serde_json::Value = serde_json::from_str(body).unwrap();
    serde_json::to_string_pretty(&value).unwrap()
}

#[test]
fn method_url_joins_token_and_method() {
    assert_eq!(
        method_url("123:abc", "sendMessage"),
        "https://api.telegram.org/bot123:abc/sendMessage"
    );
}

#[test]
fn send_message_body_without_parse_mode() {
    let r = send_message_request("T", 12345, "hello", None);
    assert_eq!(r.url, "https://api.telegram.org/botT/sendMessage");
    assert_eq!(r.body, "{\n  \"chat_id\": 12345,\n  \"text\": \"hello\"\n}");
}

#[test]
fn send_message_body_with_parse_mode_and_escapes() {
    let r = send_message_request("T", -1001234, "say \"hi\"\n\\ok", Some(ParseMode::Html));
    assert_eq!(
        r.body,
        "{\n  \"chat_id\": -1001234,\n  \"text\": \"say \\\"hi\\\"\\n\\\\ok\",\n  \"parse_mode\": \"HTML\"\n}"
    );
    let parsed: serde_json::Value = serde_json::from_str(&r.body).unwrap();
    assert_eq!(parsed["text"].as_str(), Some("say \"hi\"\n\\ok"));
    assert_eq!(parsed["chat_id"].as_i64(), Some(-1001234));
}

#[test]
fn extreme_chat_ids_are_written_in_full() {
    let r = send_message_request("T", i64::MIN, "x", None);
    assert_eq!(r.body, "{\n  \"chat_id\": -9223372036854775808,\n  \"text\": \"x\"\n}");
    let r = send_message_request("T", i64::MAX, "x", None);
    assert_eq!(r.body, "{\n  \"chat_id\": 9223372036854775807,\n  \"text\": \"x\"\n}");
    let r = send_message_request("T", 0, "x", None);
    assert_eq!(r.body, "{\n  \"chat_id\": 0,\n  \"text\": \"x\"\n}");
}

#[test]
fn edit_message_body() {
    let r = edit_message_request("T", 5, 42, "done", Some(ParseMode::MarkdownV2));
    assert_eq!(r.url, "https://api.telegram.org/botT/editMessageText");
    assert_eq!(
        r.body,
        "{\n  \"chat_id\": 5,\n  \"message_id\": 42,\n  \"text\": \"done\",\n  \"parse_mode\": \"MarkdownV2\"\n}"
    );
    let r = edit_message_request("T", 5, 42, "done", None);
    assert_eq!(r.body, "{\n  \"chat_id\": 5,\n  \"message_id\": 42,\n  \"text\": \"done\"\n}");
}

#[test]
fn send_menu_body_has_rows_of_buttons() {
    let rows = vec![
        vec![Button::new("Option A", "a"), Button::new("Option B", "b")],
        vec![Button::new("Cancel", "cancel")],
    ];
    let r = send_menu_request("T", 7, "Pick one:", &rows);
    assert_eq!(r.url, "https://api.telegram.org/botT/sendMessage");
    assert_eq!(
        r.body,
        [
            "{\n  \"chat_id\": 7,\n  \"text\": \"Pick one:\",\n  \"reply_markup\": {\n",
            "    \"inline_keyboard\": [\n      [\n        {\n          \"text\": \"Option A\",\n",
            "          \"callback_data\": \"a\"\n        },\n        {\n",
            "          \"text\": \"Option B\",\n          \"callback_data\": \"b\"\n        }\n",
            "      ],\n      [\n        {\n          \"text\": \"Cancel\",\n",
            "          \"callback_data\": \"cancel\"\n        }\n      ]\n    ]\n  }\n}",
        ]
        .concat()
    );
}

#[test]
fn send_menu_body_with_no_rows_and_empty_row() {
    let r = send_menu_request("T", 7, "m", &vec![]);
    assert_eq!(
        r.body,
        "{\n  \"chat_id\": 7,\n  \"text\": \"m\",\n  \"reply_markup\": {\n    \"inline_keyboard\": []\n  }\n}"
    );
    let r = send_menu_request("T", 7, "m", &vec![vec![]]);
    assert_eq!(
        r.body,
        "{\n  \"chat_id\": 7,\n  \"text\": \"m\",\n  \"reply_markup\": {\n    \"inline_keyboard\": [\n      []\n    ]\n  }\n}"
    );
}

#[test]
fn small_request_bodies() {
    let r = answer_callback_request("T", "cb_1");
    assert_eq!(r.url, "https://api.telegram.org/botT/answerCallbackQuery");
    assert_eq!(r.body, "{\n  \"callback_query_id\": \"cb_1\"\n}");
    let r = send_typing_request("T", 12345);
    assert_eq!(r.url, "https://api.telegram.org/botT/sendChatAction");
    assert_eq!(r.body, "{\n  \"action\": \"typing\",\n  \"chat_id\": 12345\n}");
    let r = get_file_request("T", "abc");
    assert_eq!(r.url, "https://api.telegram.org/botT/getFile");
    assert_eq!(r.body, "{\n  \"file_id\": \"abc\"\n}");
}

#[test]
fn bodies_match_serde_json_pretty_layout() {
    for body in [
        answer_callback_request("T", "a \"b\" \\ c").body,
        send_typing_request("T", -42).body,
        get_file_request("T", "f\n1").body,
        get_updates_request_body(7, 0),
    ] {
        assert_eq!(pretty_again(&body), body);
    }
}

#[test]
fn file_download_url_uses_file_path() {
    assert_eq!(
        file_download_url("T", "photos/file_1.jpg"),
        "https://api.telegram.org/file/botT/photos/file_1.jpg"
    );
}

#[test]
fn get_updates_body_names_offset_and_timeout() {
    assert_eq!(
        get_updates_request_body(501, 30),
        "{\n  \"allowed_updates\": [\n    \"message\",\n    \"callback_query\"\n  ],\n  \"offset\": 501,\n  \"timeout\": 30\n}"
    );
    assert_eq!(
        get_updates_request_body(-3, u64::MAX),
        "{\n  \"allowed_updates\": [\n    \"message\",\n    \"callback_query\"\n  ],\n  \"offset\": -3,\n  \"timeout\": 18446744073709551615\n}"
    );
}

#[test]
fn control_characters_are_escaped_as_serde_json_does() {
    let r = answer_callback_request("T", "\u{1}\u{8}\t\u{b}\u{c}\r\u{1f} é");
    assert_eq!(
        r.body,
        "{\n  \"callback_query_id\": \"\\u0001\\b\\t\\u000b\\f\\r\\u001f é\"\n}"
    );
    assert_eq!(pretty_again(&r.body), r.body);
}
