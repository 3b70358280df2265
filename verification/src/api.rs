//! Sending: the requests the Bot API methods take, what each answer means, and the
//! calls that put the two together.
use vstd::prelude::*;

use crate::error::{Error, ErrorView};
use crate::http::{
    bytes_read, fetched, get, post, posted, read_bytes, read_stream, read_text, reply_view,
    result_view, stream_read, text_read, Answer, AnswerView, Failure, FailureView,
    JSON_CONTENT_TYPE,
};
use crate::json::{
    decimal, field_text, is_struct_shaped, json_node, json_node_of_bytes, json_quoted, optional,
    optional_of, optional_string, parse_node, parse_node_bytes, push_i64, push_quoted, read_bool,
    read_i64, read_string, required, required_bool, required_i64, required_string, struct_shaped,
    JsonNode, JsonNodeView,
};

verus! {

// ---------------------------------------------------------------------------------
// Parse modes and buttons.
// ---------------------------------------------------------------------------------

/// Formatting mode Telegram applies to a message's text.
#[derive(Debug, Clone, Copy)]
pub enum ParseMode {
    Html,
    Markdown,
    MarkdownV2,
}

/// The name Telegram's `parse_mode` field takes for each mode.
pub open spec fn mode_name(mode: ParseMode) -> Seq<char> {
    match mode {
        ParseMode::Html => "HTML"@,
        ParseMode::Markdown => "Markdown"@,
        ParseMode::MarkdownV2 => "MarkdownV2"@,
    }
}

impl DeepView for ParseMode {
    type V = ParseMode;

    open spec fn deep_view(&self) -> ParseMode {
        *self
    }
}

impl ParseMode {
    pub fn as_str(self) -> (name: &'static str)
        ensures
            name@ == mode_name(self),
    {
        match self {
            ParseMode::Html => "HTML",
            ParseMode::Markdown => "Markdown",
            ParseMode::MarkdownV2 => "MarkdownV2",
        }
    }
}

/// Each parse mode has a name of its own.
pub proof fn mode_names_differ(a: ParseMode, b: ParseMode)
    ensures
        mode_name(a) == mode_name(b) ==> a == b,
{
    reveal_strlit("HTML");
    reveal_strlit("Markdown");
    reveal_strlit("MarkdownV2");
    assert("HTML"@.len() == 4);
    assert("Markdown"@.len() == 8);
    assert("MarkdownV2"@.len() == 10);
}

/// A button in an inline keyboard menu.
/// `label` is what the user sees, `data` is what you get back in the callback.
#[derive(Debug, Clone)]
pub struct Button {
    text: String,
    callback_data: String,
}

/// The mathematical value of a [`Button`].
pub struct ButtonView {
    pub text: Seq<char>,
    pub callback_data: Seq<char>,
}

impl DeepView for Button {
    type V = ButtonView;

    closed spec fn deep_view(&self) -> ButtonView {
        ButtonView { text: self.text@, callback_data: self.callback_data@ }
    }
}

impl Button {
    pub fn new(label: &str, data: &str) -> (button: Self)
        ensures
            button.deep_view() == (ButtonView { text: label@, callback_data: data@ }),
    {
        Button { text: label.to_owned(), callback_data: data.to_owned() }
    }
}

// ---------------------------------------------------------------------------------
// Requests.
// ---------------------------------------------------------------------------------

/// An HTTP request to make: where to, and the JSON body to send.
pub struct Request {
    pub url: String,
    pub body: String,
}

/// The URL of a Bot API method.
pub open spec fn api_url(token: Seq<char>, method: Seq<char>) -> Seq<char> {
    "https://api.telegram.org/bot"@ + token + "/"@ + method
}

/// The URL a file is downloaded from, given the path `getFile` answered with.
pub open spec fn file_url(token: Seq<char>, file_path: Seq<char>) -> Seq<char> {
    "https://api.telegram.org/file/bot"@ + token + "/"@ + file_path
}

/// The `parse_mode` member of a body: left out when there is no mode.
pub open spec fn parse_mode_member(mode: Option<ParseMode>) -> Seq<char> {
    match mode {
        Some(m) => ",\n  \"parse_mode\": "@ + json_quoted(mode_name(m)),
        None => seq![],
    }
}

// Request bodies are laid out as ureq's `send_json` writes them, through
// `serde_json::to_vec_pretty`: each member or element on a line of its own, indented
// two spaces per level, `": "` after each key, and an empty array as `[]`.

/// The body of `sendMessage`.
pub open spec fn send_message_body(chat_id: i64, text: Seq<char>, mode: Option<ParseMode>) -> Seq<
    char,
> {
    "{\n  \"chat_id\": "@ + decimal(chat_id as int) + ",\n  \"text\": "@ + json_quoted(text)
        + parse_mode_member(mode) + "\n}"@
}

/// The body of `editMessageText`.
pub open spec fn edit_message_body(
    chat_id: i64,
    message_id: i64,
    text: Seq<char>,
    mode: Option<ParseMode>,
) -> Seq<char> {
    "{\n  \"chat_id\": "@ + decimal(chat_id as int) + ",\n  \"message_id\": "@ + decimal(
        message_id as int,
    ) + ",\n  \"text\": "@ + json_quoted(text) + parse_mode_member(mode) + "\n}"@
}

/// Items with `sep` between each two.
pub open spec fn joined(items: Seq<Seq<char>>, sep: Seq<char>) -> Seq<char>
    decreases items.len(),
{
    if items.len() == 0 {
        seq![]
    } else if items.len() == 1 {
        items[0]
    } else {
        joined(items.drop_last(), sep) + sep + items.last()
    }
}

/// A JSON array whose elements stand on lines indented by `inner`, the closing bracket
/// on a line indented by `outer`; `[]` when there are none.
pub open spec fn pretty_array(items: Seq<Seq<char>>, inner: Seq<char>, outer: Seq<char>) -> Seq<
    char,
> {
    if items.len() == 0 {
        "[]"@
    } else {
        "["@ + inner + joined(items, ","@ + inner) + outer + "]"@
    }
}

/// A button as the keyboard markup writes it, at the depth of a row's element.
pub open spec fn button_json(b: ButtonView) -> Seq<char> {
    "{\n          \"text\": "@ + json_quoted(b.text) + ",\n          \"callback_data\": "@
        + json_quoted(b.callback_data) + "\n        }"@
}

/// A row of buttons as a JSON array, at the depth of the keyboard's element.
pub open spec fn row_json(row: Seq<ButtonView>) -> Seq<char> {
    pretty_array(
        row.map_values(|b: ButtonView| button_json(b)),
        "\n        "@,
        "\n      "@,
    )
}

/// The rows of a keyboard as a JSON array of arrays.
pub open spec fn keyboard_json(rows: Seq<Seq<ButtonView>>) -> Seq<char> {
    pretty_array(rows.map_values(|r: Seq<ButtonView>| row_json(r)), "\n      "@, "\n    "@)
}

/// The body of `sendMessage` with an inline keyboard.
pub open spec fn send_menu_body(chat_id: i64, text: Seq<char>, rows: Seq<Seq<ButtonView>>) -> Seq<
    char,
> {
    "{\n  \"chat_id\": "@ + decimal(chat_id as int) + ",\n  \"text\": "@ + json_quoted(text)
        + ",\n  \"reply_markup\": {\n    \"inline_keyboard\": "@ + keyboard_json(rows)
        + "\n  }\n}"@
}

/// The body of `answerCallbackQuery`.
pub open spec fn answer_callback_body(callback_id: Seq<char>) -> Seq<char> {
    "{\n  \"callback_query_id\": "@ + json_quoted(callback_id) + "\n}"@
}

/// The body of `sendChatAction` with the typing action (keys in serde_json's map order).
pub open spec fn typing_body(chat_id: i64) -> Seq<char> {
    "{\n  \"action\": \"typing\",\n  \"chat_id\": "@ + decimal(chat_id as int) + "\n}"@
}

/// The body of `getFile`.
pub open spec fn get_file_body(file_id: Seq<char>) -> Seq<char> {
    "{\n  \"file_id\": "@ + json_quoted(file_id) + "\n}"@
}

/// The URL of a Bot API method: see [`api_url`].
pub fn method_url(token: &str, method: &str) -> (url: String)
    ensures
        url@ == api_url(token@, method@),
{
    let mut url = "https://api.telegram.org/bot".to_owned();
    url.append(token);
    url.append("/");
    url.append(method);
    url
}

/// The URL a file is downloaded from: see [`file_url`].
pub fn file_download_url(token: &str, file_path: &str) -> (url: String)
    ensures
        url@ == file_url(token@, file_path@),
{
    let mut url = "https://api.telegram.org/file/bot".to_owned();
    url.append(token);
    url.append("/");
    url.append(file_path);
    url
}

fn push_parse_mode(body: &mut String, mode: Option<ParseMode>)
    ensures
        final(body)@ == old(body)@ + parse_mode_member(mode),
{
    match mode {
        Some(m) => {
            body.append(",\n  \"parse_mode\": ");
            push_quoted(body, m.as_str());
        },
        None => {
            assert(body@ =~= old(body)@ + parse_mode_member(mode));
        },
    }
}

/// The `sendMessage` request.
pub fn send_message_request(token: &str, chat_id: i64, text: &str, mode: Option<ParseMode>) -> (r:
    Request)
    ensures
        r.url@ == api_url(token@, "sendMessage"@),
        r.body@ == send_message_body(chat_id, text@, mode),
{
    let url = method_url(token, "sendMessage");
    let mut body = "{\n  \"chat_id\": ".to_owned();
    push_i64(&mut body, chat_id);
    body.append(",\n  \"text\": ");
    push_quoted(&mut body, text);
    push_parse_mode(&mut body, mode);
    body.append("\n}");
    assert(body@ =~= send_message_body(chat_id, text@, mode));
    Request { url, body }
}

/// The `editMessageText` request.
pub fn edit_message_request(
    token: &str,
    chat_id: i64,
    message_id: i64,
    text: &str,
    mode: Option<ParseMode>,
) -> (r: Request)
    ensures
        r.url@ == api_url(token@, "editMessageText"@),
        r.body@ == edit_message_body(chat_id, message_id, text@, mode),
{
    let url = method_url(token, "editMessageText");
    let mut body = "{\n  \"chat_id\": ".to_owned();
    push_i64(&mut body, chat_id);
    body.append(",\n  \"message_id\": ");
    push_i64(&mut body, message_id);
    body.append(",\n  \"text\": ");
    push_quoted(&mut body, text);
    push_parse_mode(&mut body, mode);
    body.append("\n}");
    assert(body@ =~= edit_message_body(chat_id, message_id, text@, mode));
    Request { url, body }
}

fn push_button(body: &mut String, button: &Button)
    ensures
        final(body)@ == old(body)@ + button_json(button.deep_view()),
{
    body.append("{\n          \"text\": ");
    push_quoted(body, button.text.as_str());
    body.append(",\n          \"callback_data\": ");
    push_quoted(body, button.callback_data.as_str());
    body.append("\n        }");
    assert(body@ =~= old(body)@ + button_json(button.deep_view()));
}

fn push_row(body: &mut String, row: &Vec<Button>)
    ensures
        final(body)@ == old(body)@ + row_json(row.deep_view()),
{
    let ghost items = row.deep_view().map_values(|b: ButtonView| button_json(b));
    let ghost sep = ","@ + "\n        "@;
    if row.len() == 0 {
        body.append("[]");
        assert(body@ =~= old(body)@ + row_json(row.deep_view()));
        return;
    }
    body.append("[");
    body.append("\n        ");
    let ghost start = body@;
    let mut i: usize = 0;
    assert(items.take(0) =~= Seq::<Seq<char>>::empty());
    while i < row.len()
        invariant
            i <= row.len(),
            sep == ","@ + "\n        "@,
            items == row.deep_view().map_values(|b: ButtonView| button_json(b)),
            body@ == start + joined(items.take(i as int), sep),
        decreases row.len() - i,
    {
        if i > 0 {
            body.append(",");
            body.append("\n        ");
        }
        push_button(body, &row[i]);
        proof {
            assert(items[i as int] == button_json(row[i as int].deep_view()));
            assert(items.take(i + 1).drop_last() =~= items.take(i as int));
            assert(items.take(i + 1).last() == items[i as int]);
            if i == 0 {
                assert(items.take(1).len() == 1);
                assert(body@ =~= start + joined(items.take(i + 1), sep));
            } else {
                assert(body@ =~= start + joined(items.take(i + 1), sep));
            }
        }
        i = i + 1;
    }
    assert(items.take(i as int) =~= items);
    body.append("\n      ");
    body.append("]");
    assert(body@ =~= old(body)@ + row_json(row.deep_view()));
}

fn push_keyboard(body: &mut String, rows: &Vec<Vec<Button>>)
    ensures
        final(body)@ == old(body)@ + keyboard_json(rows.deep_view()),
{
    let ghost items = rows.deep_view().map_values(|r: Seq<ButtonView>| row_json(r));
    let ghost sep = ","@ + "\n      "@;
    if rows.len() == 0 {
        body.append("[]");
        assert(body@ =~= old(body)@ + keyboard_json(rows.deep_view()));
        return;
    }
    body.append("[");
    body.append("\n      ");
    let ghost start = body@;
    let mut i: usize = 0;
    assert(items.take(0) =~= Seq::<Seq<char>>::empty());
    while i < rows.len()
        invariant
            i <= rows.len(),
            sep == ","@ + "\n      "@,
            items == rows.deep_view().map_values(|r: Seq<ButtonView>| row_json(r)),
            body@ == start + joined(items.take(i as int), sep),
        decreases rows.len() - i,
    {
        if i > 0 {
            body.append(",");
            body.append("\n      ");
        }
        push_row(body, &rows[i]);
        proof {
            assert(items[i as int] == row_json(rows[i as int].deep_view()));
            assert(items.take(i + 1).drop_last() =~= items.take(i as int));
            assert(items.take(i + 1).last() == items[i as int]);
            if i == 0 {
                assert(items.take(1).len() == 1);
                assert(body@ =~= start + joined(items.take(i + 1), sep));
            } else {
                assert(body@ =~= start + joined(items.take(i + 1), sep));
            }
        }
        i = i + 1;
    }
    assert(items.take(i as int) =~= items);
    body.append("\n    ");
    body.append("]");
    assert(body@ =~= old(body)@ + keyboard_json(rows.deep_view()));
}

/// The `sendMessage` request with an inline keyboard.
pub fn send_menu_request(token: &str, chat_id: i64, text: &str, rows: &Vec<Vec<Button>>) -> (r:
    Request)
    ensures
        r.url@ == api_url(token@, "sendMessage"@),
        r.body@ == send_menu_body(chat_id, text@, rows.deep_view()),
{
    let url = method_url(token, "sendMessage");
    let mut body = "{\n  \"chat_id\": ".to_owned();
    push_i64(&mut body, chat_id);
    body.append(",\n  \"text\": ");
    push_quoted(&mut body, text);
    body.append(",\n  \"reply_markup\": {\n    \"inline_keyboard\": ");
    push_keyboard(&mut body, rows);
    body.append("\n  }\n}");
    assert(body@ =~= send_menu_body(chat_id, text@, rows.deep_view()));
    Request { url, body }
}

/// The `answerCallbackQuery` request.
pub fn answer_callback_request(token: &str, callback_id: &str) -> (r: Request)
    ensures
        r.url@ == api_url(token@, "answerCallbackQuery"@),
        r.body@ == answer_callback_body(callback_id@),
{
    let url = method_url(token, "answerCallbackQuery");
    let mut body = "{\n  \"callback_query_id\": ".to_owned();
    push_quoted(&mut body, callback_id);
    body.append("\n}");
    assert(body@ =~= answer_callback_body(callback_id@));
    Request { url, body }
}

/// The `sendChatAction` request with the typing action.
pub fn send_typing_request(token: &str, chat_id: i64) -> (r: Request)
    ensures
        r.url@ == api_url(token@, "sendChatAction"@),
        r.body@ == typing_body(chat_id),
{
    let url = method_url(token, "sendChatAction");
    let mut body = "{\n  \"action\": \"typing\",\n  \"chat_id\": ".to_owned();
    push_i64(&mut body, chat_id);
    body.append("\n}");
    assert(body@ =~= typing_body(chat_id));
    Request { url, body }
}

/// The `getFile` request.
pub fn get_file_request(token: &str, file_id: &str) -> (r: Request)
    ensures
        r.url@ == api_url(token@, "getFile"@),
        r.body@ == get_file_body(file_id@),
{
    let url = method_url(token, "getFile");
    let mut body = "{\n  \"file_id\": ".to_owned();
    push_quoted(&mut body, file_id);
    body.append("\n}");
    assert(body@ =~= get_file_body(file_id@));
    Request { url, body }
}

// ---------------------------------------------------------------------------------
// What the answers mean.
// ---------------------------------------------------------------------------------

/// The error of an exchange that ended without a response.
pub open spec fn failure_error_of(f: FailureView) -> ErrorView {
    match f {
        FailureView::Rejected(code) => ErrorView::HttpStatus(code),
        FailureView::Failed(m) => ErrorView::Transport(m),
    }
}

/// The error of an answer whose status is not 200, from its body read as text: the
/// status and the text, or the read's error.
pub open spec fn status_error_of(status: u16, read: Result<Seq<char>, Seq<char>>) -> ErrorView {
    match read {
        Ok(body) => ErrorView::UnexpectedStatus { status, body },
        Err(m) => ErrorView::Transport(m),
    }
}

/// As [`status_error_of`], for `getFile`.
pub open spec fn get_file_status_error_of(status: u16, read: Result<Seq<char>, Seq<char>>) -> ErrorView {
    match read {
        Ok(body) => ErrorView::GetFileStatus { status, body },
        Err(m) => ErrorView::Transport(m),
    }
}

/// The sent message in a `sendMessage` answer, read for its `message_id`.
pub open spec fn sent_message_at(t: Seq<char>) -> Option<i64> {
    let node = json_node(t);
    if struct_shaped(node, 1) {
        required(field_text(node, 0, "message_id"@), |x: Seq<char>| read_i64(x))
    } else {
        None
    }
}

/// A `sendMessage` answer read from its parsed JSON: `ok`, the sent message's id, and
/// the description.
pub open spec fn send_response_of(node: JsonNodeView) -> Option<(bool, Option<i64>, Option<Seq<char>>)> {
    let ok = required(field_text(node, 0, "ok"@), |x: Seq<char>| read_bool(x));
    let result = optional(field_text(node, 1, "result"@), |x: Seq<char>| sent_message_at(x));
    let description = optional(
        field_text(node, 2, "description"@),
        |x: Seq<char>| read_string(x),
    );
    if struct_shaped(node, 3) && ok is Some && result is Some && description is Some {
        Some((ok->0, result->0, description->0))
    } else {
        None
    }
}

/// A description, or the empty text when there is none.
pub open spec fn description_or_empty(d: Option<Seq<char>>) -> Seq<char> {
    match d {
        Some(d) => d,
        None => seq![],
    }
}

/// What the body of a 200 `sendMessage` answer means, as read into bytes: the sent
/// message's id, or the error.
pub open spec fn sent_from_read(read: Result<Seq<u8>, Seq<char>>) -> Result<i64, ErrorView> {
    match read {
        Err(m) => Err(ErrorView::Transport(m)),
        Ok(bytes) => match send_response_of(json_node_of_bytes(bytes)) {
            None => Err(ErrorView::MalformedResponse),
            Some((ok, result, description)) => if !ok {
                Err(ErrorView::Api(description_or_empty(description)))
            } else {
                match result {
                    Some(id) => Ok(id),
                    None => Err(ErrorView::NoResult("sendMessage"@)),
                }
            },
        },
    }
}

/// The file in a `getFile` answer, read for its `file_path`.
pub open spec fn file_result_at(t: Seq<char>) -> Option<Seq<char>> {
    let node = json_node(t);
    if struct_shaped(node, 1) {
        required(field_text(node, 0, "file_path"@), |x: Seq<char>| read_string(x))
    } else {
        None
    }
}

/// A `getFile` answer read from its parsed JSON: `ok`, the file path, the description.
pub open spec fn file_response_of(node: JsonNodeView) -> Option<
    (bool, Option<Seq<char>>, Option<Seq<char>>),
> {
    let ok = required(field_text(node, 0, "ok"@), |x: Seq<char>| read_bool(x));
    let result = optional(field_text(node, 1, "result"@), |x: Seq<char>| file_result_at(x));
    let description = optional(
        field_text(node, 2, "description"@),
        |x: Seq<char>| read_string(x),
    );
    if struct_shaped(node, 3) && ok is Some && result is Some && description is Some {
        Some((ok->0, result->0, description->0))
    } else {
        None
    }
}

/// What the body of a 200 `getFile` answer means, as read into bytes: the file's path,
/// or the error.
pub open spec fn file_path_from_read(read: Result<Seq<u8>, Seq<char>>) -> Result<Seq<char>, ErrorView> {
    match read {
        Err(m) => Err(ErrorView::Transport(m)),
        Ok(bytes) => match file_response_of(json_node_of_bytes(bytes)) {
            None => Err(ErrorView::MalformedResponse),
            Some((ok, result, description)) => if !ok {
                Err(ErrorView::GetFileApi(description_or_empty(description)))
            } else {
                match result {
                    Some(path) => Ok(path),
                    None => Err(ErrorView::NoResult("getFile"@)),
                }
            },
        },
    }
}

/// What the body of a 200 file download means, as read to its end: its bytes, or the
/// read's error.
pub open spec fn download_from_read(read: Result<Seq<u8>, Seq<char>>) -> Result<Seq<u8>, ErrorView> {
    match read {
        Ok(bytes) => Ok(bytes),
        Err(m) => Err(ErrorView::Transport(m)),
    }
}

/// What the reply to a method whose result is not read comes to: a 200 answer is
/// success and its body is not read; any other answer's body is read as text for the
/// error.
pub open spec fn status_answered(reply: Result<AnswerView, FailureView>, r: Result<(), ErrorView>) -> bool {
    match reply {
        Err(f) => r == Err::<(), ErrorView>(failure_error_of(f)),
        Ok(a) => if a.status == 200 {
            r == Ok::<(), ErrorView>(())
        } else {
            exists|read: Result<Seq<char>, Seq<char>>|
                #[trigger] text_read(a, read) && r == Err::<(), ErrorView>(
                    status_error_of(a.status, read),
                )
        },
    }
}

/// What the reply to `sendMessage` comes to: a 200 answer's body is read into bytes
/// and parsed as JSON; any other answer's body is read as text for the error.
pub open spec fn sent_answered(reply: Result<AnswerView, FailureView>, r: Result<i64, ErrorView>) -> bool {
    match reply {
        Err(f) => r == Err::<i64, ErrorView>(failure_error_of(f)),
        Ok(a) => if a.status != 200 {
            exists|read: Result<Seq<char>, Seq<char>>|
                #[trigger] text_read(a, read) && r == Err::<i64, ErrorView>(
                    status_error_of(a.status, read),
                )
        } else {
            exists|read: Result<Seq<u8>, Seq<char>>|
                #[trigger] bytes_read(a, read) && r == sent_from_read(read)
        },
    }
}

/// What the reply to `getFile` comes to: as [`sent_answered`], with the file's path.
pub open spec fn file_path_answered(
    reply: Result<AnswerView, FailureView>,
    r: Result<Seq<char>, ErrorView>,
) -> bool {
    match reply {
        Err(f) => r == Err::<Seq<char>, ErrorView>(failure_error_of(f)),
        Ok(a) => if a.status != 200 {
            exists|read: Result<Seq<char>, Seq<char>>|
                #[trigger] text_read(a, read) && r == Err::<Seq<char>, ErrorView>(
                    get_file_status_error_of(a.status, read),
                )
        } else {
            exists|read: Result<Seq<u8>, Seq<char>>|
                #[trigger] bytes_read(a, read) && r == file_path_from_read(read)
        },
    }
}

/// What the reply to a file download comes to: an answer other than 200 is an error
/// and its body is not read; a 200 answer's body is read to its end.
pub open spec fn download_answered(
    reply: Result<AnswerView, FailureView>,
    r: Result<Seq<u8>, ErrorView>,
) -> bool {
    match reply {
        Err(f) => r == Err::<Seq<u8>, ErrorView>(failure_error_of(f)),
        Ok(a) => if a.status != 200 {
            r == Err::<Seq<u8>, ErrorView>(ErrorView::DownloadStatus(a.status))
        } else {
            exists|read: Result<Seq<u8>, Seq<char>>|
                #[trigger] stream_read(a, read) && r == download_from_read(read)
        },
    }
}

/// The error of an exchange that ended without a response: see [`failure_error_of`].
pub fn failure_error(f: Failure) -> (e: Error)
    ensures
        e.deep_view() == failure_error_of(f.deep_view()),
{
    match f {
        Failure::Rejected(code) => Error::HttpStatus(code),
        Failure::Failed(m) => Error::Transport(m),
    }
}

/// The error of an answer whose status is not 200: see [`status_error_of`].
pub fn status_error(status: u16, read: Result<String, String>) -> (e: Error)
    ensures
        e.deep_view() == status_error_of(status, result_view(read)),
{
    match read {
        Ok(body) => Error::UnexpectedStatus { status, body },
        Err(m) => Error::Transport(m),
    }
}

/// The error of a `getFile` answer whose status is not 200: see
/// [`get_file_status_error_of`].
pub fn get_file_status_error(status: u16, read: Result<String, String>) -> (e: Error)
    ensures
        e.deep_view() == get_file_status_error_of(status, result_view(read)),
{
    match read {
        Ok(body) => Error::GetFileStatus { status, body },
        Err(m) => Error::Transport(m),
    }
}

fn read_sent_message(t: &str) -> (v: Option<i64>)
    ensures
        v == sent_message_at(t@),
{
    let node = parse_node(t);
    if !is_struct_shaped(&node, 1) {
        return None;
    }
    required_i64(&node, 0, "message_id")
}

fn read_send_response(node: &JsonNode) -> (v: Option<(bool, Option<i64>, Option<String>)>)
    ensures
        v.deep_view() == send_response_of(node.deep_view()),
{
    if !is_struct_shaped(node, 3) {
        return None;
    }
    let ok = match required_bool(node, 0, "ok") {
        Some(v) => v,
        None => return None,
    };
    let result = match optional_of(
        node,
        1,
        "result",
        read_sent_message,
        Ghost(|x: Seq<char>| sent_message_at(x)),
    ) {
        Some(v) => v,
        None => return None,
    };
    let description = match optional_string(node, 2, "description") {
        Some(v) => v,
        None => return None,
    };
    Some((ok, result, description))
}

fn description_text(d: Option<String>) -> (t: String)
    ensures
        t@ == description_or_empty(d.deep_view()),
{
    match d {
        Some(d) => d,
        None => String::new(),
    }
}

/// What the body of a 200 `sendMessage` answer means: see [`sent_from_read`].
pub fn sent_from_body(read: Result<Vec<u8>, String>) -> (r: Result<i64, Error>)
    ensures
        result_view(r) == sent_from_read(result_view(read)),
{
    let bytes = match read {
        Ok(bytes) => bytes,
        Err(m) => return Err(Error::Transport(m)),
    };
    let slice = bytes.as_slice();
    assert(slice@ =~= bytes.deep_view());
    let node = parse_node_bytes(slice);
    match read_send_response(&node) {
        None => Err(Error::MalformedResponse),
        Some((ok, result, description)) => {
            if !ok {
                Err(Error::Api(description_text(description)))
            } else {
                match result {
                    Some(id) => Ok(id),
                    None => Err(Error::NoResult("sendMessage".to_owned())),
                }
            }
        },
    }
}

fn read_file_result(t: &str) -> (v: Option<String>)
    ensures
        v.deep_view() == file_result_at(t@),
{
    let node = parse_node(t);
    if !is_struct_shaped(&node, 1) {
        return None;
    }
    required_string(&node, 0, "file_path")
}

fn read_file_response(node: &JsonNode) -> (v: Option<(bool, Option<String>, Option<String>)>)
    ensures
        v.deep_view() == file_response_of(node.deep_view()),
{
    if !is_struct_shaped(node, 3) {
        return None;
    }
    let ok = match required_bool(node, 0, "ok") {
        Some(v) => v,
        None => return None,
    };
    let result = match optional_of(
        node,
        1,
        "result",
        read_file_result,
        Ghost(|x: Seq<char>| file_result_at(x)),
    ) {
        Some(v) => v,
        None => return None,
    };
    let description = match optional_string(node, 2, "description") {
        Some(v) => v,
        None => return None,
    };
    Some((ok, result, description))
}

/// What the body of a 200 `getFile` answer means: see [`file_path_from_read`].
pub fn file_path_from_body(read: Result<Vec<u8>, String>) -> (r: Result<String, Error>)
    ensures
        result_view(r) == file_path_from_read(result_view(read)),
{
    let bytes = match read {
        Ok(bytes) => bytes,
        Err(m) => return Err(Error::Transport(m)),
    };
    let slice = bytes.as_slice();
    assert(slice@ =~= bytes.deep_view());
    let node = parse_node_bytes(slice);
    match read_file_response(&node) {
        None => Err(Error::MalformedResponse),
        Some((ok, result, description)) => {
            if !ok {
                Err(Error::GetFileApi(description_text(description)))
            } else {
                match result {
                    Some(path) => Ok(path),
                    None => Err(Error::NoResult("getFile".to_owned())),
                }
            }
        },
    }
}

/// What the body of a 200 file download means: see [`download_from_read`].
pub fn download_from_body(read: Result<Vec<u8>, String>) -> (r: Result<Vec<u8>, Error>)
    ensures
        result_view(r) == download_from_read(result_view(read)),
{
    match read {
        Ok(bytes) => Ok(bytes),
        Err(m) => Err(Error::Transport(m)),
    }
}

/// Takes the reply to a method whose result is not read: see [`status_answered`].
fn answer_for_status(reply: Result<Answer, Failure>) -> (r: Result<(), Error>)
    ensures
        status_answered(reply_view(&reply), result_view(r)),
{
    match reply {
        Err(f) => Err(failure_error(f)),
        Ok(answer) => {
            let ghost a = answer@;
            let status = answer.status();
            if status == 200 {
                Ok(())
            } else {
                let read = read_text(answer);
                let r: Result<(), Error> = Err(status_error(status, read));
                assert(text_read(a, result_view(read)));
                r
            }
        },
    }
}

/// Takes the reply to `sendMessage`: see [`sent_answered`].
fn answer_for_sent(reply: Result<Answer, Failure>) -> (r: Result<i64, Error>)
    ensures
        sent_answered(reply_view(&reply), result_view(r)),
{
    match reply {
        Err(f) => Err(failure_error(f)),
        Ok(answer) => {
            let ghost a = answer@;
            let status = answer.status();
            if status != 200 {
                let read = read_text(answer);
                let r: Result<i64, Error> = Err(status_error(status, read));
                assert(text_read(a, result_view(read)));
                r
            } else {
                let read = read_bytes(answer);
                let ghost rv = result_view(read);
                let r = sent_from_body(read);
                assert(bytes_read(a, rv));
                r
            }
        },
    }
}

/// Takes the reply to `getFile`: see [`file_path_answered`].
fn answer_for_file_path(reply: Result<Answer, Failure>) -> (r: Result<String, Error>)
    ensures
        file_path_answered(reply_view(&reply), result_view(r)),
{
    match reply {
        Err(f) => Err(failure_error(f)),
        Ok(answer) => {
            let ghost a = answer@;
            let status = answer.status();
            if status != 200 {
                let read = read_text(answer);
                let r: Result<String, Error> = Err(get_file_status_error(status, read));
                assert(text_read(a, result_view(read)));
                r
            } else {
                let read = read_bytes(answer);
                let ghost rv = result_view(read);
                let r = file_path_from_body(read);
                assert(bytes_read(a, rv));
                r
            }
        },
    }
}

/// Takes the reply to a file download: see [`download_answered`].
fn answer_for_download(reply: Result<Answer, Failure>) -> (r: Result<Vec<u8>, Error>)
    ensures
        download_answered(reply_view(&reply), result_view(r)),
{
    match reply {
        Err(f) => Err(failure_error(f)),
        Ok(answer) => {
            let ghost a = answer@;
            let status = answer.status();
            if status != 200 {
                Err(Error::DownloadStatus(status))
            } else {
                let read = read_stream(answer);
                let ghost rv = result_view(read);
                let r = download_from_body(read);
                assert(stream_read(a, rv));
                r
            }
        },
    }
}

// ---------------------------------------------------------------------------------
// The calls.
// ---------------------------------------------------------------------------------

/// A result with its value dropped.
pub open spec fn without_value<T, E>(r: Result<T, E>) -> Result<(), E> {
    match r {
        Ok(_) => Ok(()),
        Err(e) => Err(e),
    }
}

/// That `reply` answers the POST of `body` as JSON to the method's URL.
pub open spec fn called(token: Seq<char>, method: Seq<char>, body: Seq<char>, reply: Result<
    AnswerView,
    FailureView,
>) -> bool {
    posted(api_url(token, method), JSON_CONTENT_TYPE@, body, reply)
}

/// What sending a message comes to: `sendMessage` with the body for the chat, text
/// and mode, and the sent message's id read from the reply.
pub open spec fn send_call(
    token: Seq<char>,
    chat_id: i64,
    text: Seq<char>,
    mode: Option<ParseMode>,
    reply: Result<AnswerView, FailureView>,
    r: Result<i64, ErrorView>,
) -> bool {
    called(token, "sendMessage"@, send_message_body(chat_id, text, mode), reply) && sent_answered(
        reply,
        r,
    )
}

/// Sending with a parse mode POSTs, to the bot's `sendMessage` URL, a body that names
/// the mode: the chat id, the text, and `"parse_mode"` with the mode's name.
pub proof fn sending_with_a_mode_names_it(
    token: Seq<char>,
    chat_id: i64,
    text: Seq<char>,
    mode: ParseMode,
    reply: Result<AnswerView, FailureView>,
    r: Result<i64, ErrorView>,
)
    requires
        send_call(token, chat_id, text, Some(mode), reply, r),
    ensures
        posted(
            "https://api.telegram.org/bot"@ + token + "/"@ + "sendMessage"@,
            JSON_CONTENT_TYPE@,
            "{\n  \"chat_id\": "@ + decimal(chat_id as int) + ",\n  \"text\": "@ + json_quoted(text)
                + ",\n  \"parse_mode\": "@ + json_quoted(mode_name(mode)) + "\n}"@,
            reply,
        ),
{
    assert(send_message_body(chat_id, text, Some(mode)) =~= "{\n  \"chat_id\": "@ + decimal(
        chat_id as int,
    ) + ",\n  \"text\": "@ + json_quoted(text) + ",\n  \"parse_mode\": "@ + json_quoted(
        mode_name(mode),
    ) + "\n}"@);
}

/// Sending without a parse mode POSTs a body with only the chat id and the text.
pub proof fn sending_without_a_mode_leaves_it_out(
    token: Seq<char>,
    chat_id: i64,
    text: Seq<char>,
    reply: Result<AnswerView, FailureView>,
    r: Result<i64, ErrorView>,
)
    requires
        send_call(token, chat_id, text, None, reply, r),
    ensures
        posted(
            "https://api.telegram.org/bot"@ + token + "/"@ + "sendMessage"@,
            JSON_CONTENT_TYPE@,
            "{\n  \"chat_id\": "@ + decimal(chat_id as int) + ",\n  \"text\": "@ + json_quoted(text)
                + "\n}"@,
            reply,
        ),
{
    assert(send_message_body(chat_id, text, None) =~= "{\n  \"chat_id\": "@ + decimal(
        chat_id as int,
    ) + ",\n  \"text\": "@ + json_quoted(text) + "\n}"@);
}

/// A parse mode changes what is sent: the bodies of `sendMessage` and of
/// `editMessageText` with a mode are longer than those without, by the `parse_mode`
/// member.
pub proof fn a_mode_changes_the_body(chat_id: i64, message_id: i64, text: Seq<char>, mode: ParseMode)
    ensures
        send_message_body(chat_id, text, Some(mode)).len() == send_message_body(
            chat_id,
            text,
            None,
        ).len() + ",\n  \"parse_mode\": "@.len() + json_quoted(mode_name(mode)).len(),
        edit_message_body(chat_id, message_id, text, Some(mode)).len() == edit_message_body(
            chat_id,
            message_id,
            text,
            None,
        ).len() + ",\n  \"parse_mode\": "@.len() + json_quoted(mode_name(mode)).len(),
        send_message_body(chat_id, text, Some(mode)) != send_message_body(chat_id, text, None),
        edit_message_body(chat_id, message_id, text, Some(mode)) != edit_message_body(
            chat_id,
            message_id,
            text,
            None,
        ),
{
    reveal_strlit(",\n  \"parse_mode\": ");
}

fn post_request(request: Request) -> (reply: Result<Answer, Failure>)
    ensures
        posted(request.url@, JSON_CONTENT_TYPE@, request.body@, reply_view(&reply)),
{
    post(request.url.as_str(), JSON_CONTENT_TYPE, request.body.as_str())
}

fn send_inner(token: &str, chat_id: i64, message: &str, parse_mode: Option<ParseMode>) -> (r:
    Result<i64, Error>)
    ensures
        exists|reply: Result<AnswerView, FailureView>|
            send_call(token@, chat_id, message@, parse_mode, reply, result_view(r)),
{
    let reply = post_request(send_message_request(token, chat_id, message, parse_mode));
    let ghost ex = reply_view(&reply);
    let r = answer_for_sent(reply);
    assert(send_call(token@, chat_id, message@, parse_mode, ex, result_view(r)));
    r
}

fn drop_value(r: Result<i64, Error>) -> (out: Result<(), Error>)
    ensures
        result_view(out) == without_value(result_view(r)),
{
    match r {
        Ok(_) => Ok(()),
        Err(e) => Err(e),
    }
}

/// Sends a text message (`sendMessage`).
pub fn send(token: &str, chat_id: i64, message: &str) -> (r: Result<(), Error>)
    ensures
        exists|reply: Result<AnswerView, FailureView>, sent: Result<i64, ErrorView>|
            send_call(token@, chat_id, message@, None, reply, sent) && result_view(r)
                == without_value(sent),
{
    drop_value(send_inner(token, chat_id, message, None))
}

/// Sends a text message with a parse mode.
pub fn send_with_parse_mode(token: &str, chat_id: i64, message: &str, parse_mode: ParseMode) -> (r:
    Result<(), Error>)
    ensures
        exists|reply: Result<AnswerView, FailureView>, sent: Result<i64, ErrorView>|
            send_call(token@, chat_id, message@, Some(parse_mode), reply, sent) && result_view(r)
                == without_value(sent),
{
    drop_value(send_inner(token, chat_id, message, Some(parse_mode)))
}

/// Same as `send`, but returns the Telegram `message_id` so the caller can later
/// `edit_message` it. Use this when you want to mutate the message later (e.g. a
/// "working..." status that gets edited as progress arrives).
pub fn send_returning_id(token: &str, chat_id: i64, message: &str) -> (r: Result<i64, Error>)
    ensures
        exists|reply: Result<AnswerView, FailureView>|
            send_call(token@, chat_id, message@, None, reply, result_view(r)),
{
    send_inner(token, chat_id, message, None)
}

/// Same as `send_with_parse_mode`, but returns the Telegram `message_id`.
pub fn send_returning_id_with_parse_mode(
    token: &str,
    chat_id: i64,
    message: &str,
    parse_mode: ParseMode,
) -> (r: Result<i64, Error>)
    ensures
        exists|reply: Result<AnswerView, FailureView>|
            send_call(token@, chat_id, message@, Some(parse_mode), reply, result_view(r)),
{
    send_inner(token, chat_id, message, Some(parse_mode))
}

fn call_for_status(request: Request) -> (r: Result<(), Error>)
    ensures
        exists|reply: Result<AnswerView, FailureView>|
            posted(request.url@, JSON_CONTENT_TYPE@, request.body@, reply) && status_answered(
                reply,
                result_view(r),
            ),
{
    let ghost url = request.url@;
    let ghost body = request.body@;
    let reply = post_request(request);
    let ghost ex = reply_view(&reply);
    let r = answer_for_status(reply);
    assert(posted(url, JSON_CONTENT_TYPE@, body, ex) && status_answered(ex, result_view(r)));
    r
}

/// Send a message with inline keyboard buttons.
/// Each inner vec is a row of buttons.
pub fn send_menu(token: &str, chat_id: i64, message: &str, rows: Vec<Vec<Button>>) -> (r: Result<
    (),
    Error,
>)
    ensures
        exists|reply: Result<AnswerView, FailureView>|
            called(token@, "sendMessage"@, send_menu_body(chat_id, message@, rows.deep_view()), reply)
                && status_answered(reply, result_view(r)),
{
    call_for_status(send_menu_request(token, chat_id, message, &rows))
}

/// Acknowledge a callback query (button press). Call this after handling a CallbackQuery
/// or the button will show a loading spinner.
pub fn answer_callback(token: &str, callback_id: &str) -> (r: Result<(), Error>)
    ensures
        exists|reply: Result<AnswerView, FailureView>|
            called(token@, "answerCallbackQuery"@, answer_callback_body(callback_id@), reply)
                && status_answered(reply, result_view(r)),
{
    call_for_status(answer_callback_request(token, callback_id))
}

/// Send a "typing" chat action indicator.
pub fn send_typing(token: &str, chat_id: i64) -> (r: Result<(), Error>)
    ensures
        exists|reply: Result<AnswerView, FailureView>|
            called(token@, "sendChatAction"@, typing_body(chat_id), reply) && status_answered(
                reply,
                result_view(r),
            ),
{
    call_for_status(send_typing_request(token, chat_id))
}

fn edit_inner(token: &str, chat_id: i64, message_id: i64, text: &str, parse_mode: Option<ParseMode>) -> (r:
    Result<(), Error>)
    ensures
        exists|reply: Result<AnswerView, FailureView>|
            called(
                token@,
                "editMessageText"@,
                edit_message_body(chat_id, message_id, text@, parse_mode),
                reply,
            ) && status_answered(reply, result_view(r)),
{
    call_for_status(edit_message_request(token, chat_id, message_id, text, parse_mode))
}

/// Edit the text of a previously sent message. Caller owns the `message_id`.
/// One HTTP call, no state, no retries — same shape as `send`.
pub fn edit_message(token: &str, chat_id: i64, message_id: i64, text: &str) -> (r: Result<(), Error>)
    ensures
        exists|reply: Result<AnswerView, FailureView>|
            called(token@, "editMessageText"@, edit_message_body(chat_id, message_id, text@, None), reply)
                && status_answered(reply, result_view(r)),
{
    edit_inner(token, chat_id, message_id, text, None)
}

/// Edit the text of a previously sent message with a parse mode.
pub fn edit_message_with_parse_mode(
    token: &str,
    chat_id: i64,
    message_id: i64,
    text: &str,
    parse_mode: ParseMode,
) -> (r: Result<(), Error>)
    ensures
        exists|reply: Result<AnswerView, FailureView>|
            called(
                token@,
                "editMessageText"@,
                edit_message_body(chat_id, message_id, text@, Some(parse_mode)),
                reply,
            ) && status_answered(reply, result_view(r)),
{
    edit_inner(token, chat_id, message_id, text, Some(parse_mode))
}

/// What downloading a file comes to: `getFile` for the file id, then, when that
/// answers with a path, a GET of the file's URL, whose bytes are the result.
pub open spec fn download_call(
    token: Seq<char>,
    file_id: Seq<char>,
    meta: Result<AnswerView, FailureView>,
    path: Result<Seq<char>, ErrorView>,
    file: Result<AnswerView, FailureView>,
    r: Result<Seq<u8>, ErrorView>,
) -> bool {
    &&& called(token, "getFile"@, get_file_body(file_id), meta)
    &&& file_path_answered(meta, path)
    &&& match path {
        Err(e) => r == Err::<Seq<u8>, ErrorView>(e),
        Ok(p) => fetched(file_url(token, p), file) && download_answered(file, r),
    }
}

/// Downloading a file asks `getFile` about the file id, and, when that answers with a
/// path, GETs the bot's file URL for exactly that path (not the file id); the bytes
/// are then those of the GET's answer. When `getFile` gives no path, nothing is
/// fetched and its error is the result.
pub proof fn download_fetches_the_answered_path(
    token: Seq<char>,
    file_id: Seq<char>,
    meta: Result<AnswerView, FailureView>,
    path: Result<Seq<char>, ErrorView>,
    file: Result<AnswerView, FailureView>,
    r: Result<Seq<u8>, ErrorView>,
)
    requires
        download_call(token, file_id, meta, path, file, r),
    ensures
        posted(
            "https://api.telegram.org/bot"@ + token + "/"@ + "getFile"@,
            JSON_CONTENT_TYPE@,
            "{\n  \"file_id\": "@ + json_quoted(file_id) + "\n}"@,
            meta,
        ),
        path matches Ok(p) ==> fetched(
            "https://api.telegram.org/file/bot"@ + token + "/"@ + p,
            file,
        ),
        path matches Ok(p) ==> meta is Ok && meta->Ok_0.status == 200,
        path matches Err(e) ==> r == Err::<Seq<u8>, ErrorView>(e),
        path is Ok && file is Ok && file->Ok_0.status != 200 ==> r == Err::<Seq<u8>, ErrorView>(
            ErrorView::DownloadStatus(file->Ok_0.status),
        ),
{
}

/// Download a file's bytes given its `file_id` (from `Content::Photo { file_id, .. }`, etc.).
/// Two HTTP calls: `getFile` → file URL.
pub fn download_file(token: &str, file_id: &str) -> (r: Result<Vec<u8>, Error>)
    ensures
        exists|
            meta: Result<AnswerView, FailureView>,
            path: Result<Seq<char>, ErrorView>,
            file: Result<AnswerView, FailureView>,
        | download_call(token@, file_id@, meta, path, file, result_view(r)),
{
    let reply = post_request(get_file_request(token, file_id));
    let ghost meta = reply_view(&reply);
    let path_r = answer_for_file_path(reply);
    let ghost path = result_view(path_r);
    let file_path = match path_r {
        Ok(p) => p,
        Err(e) => {
            let r: Result<Vec<u8>, Error> = Err(e);
            assert(download_call(
                token@,
                file_id@,
                meta,
                path,
                Err(FailureView::Rejected(0)),
                result_view(r),
            ));
            return r;
        },
    };
    let download = get(file_download_url(token, file_path.as_str()).as_str());
    let ghost file = reply_view(&download);
    let r = answer_for_download(download);
    assert(download_call(token@, file_id@, meta, path, file, result_view(r)));
    r
}

} // verus!
