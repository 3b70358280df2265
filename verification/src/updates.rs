//! What Telegram's `getUpdates` answers with, and reading it from its JSON text field by
//! field, as serde's derived readers do.
use vstd::prelude::*;

use crate::json::{
    field_text, is_struct_shaped, json_node, list_of, optional, optional_of, optional_string,
    parse_node, read_bool, read_i64, read_list, read_string, required, required_bool,
    required_i64, required_of, required_string, struct_shaped,
};

verus! {

// ---------------------------------------------------------------------------------
// What `getUpdates` answers with, as the library reads it.
// ---------------------------------------------------------------------------------

/// The sender of a message or button press.
pub struct User {
    pub first_name: String,
    pub last_name: Option<String>,
}

pub struct UserView {
    pub first_name: Seq<char>,
    pub last_name: Option<Seq<char>>,
}

impl DeepView for User {
    type V = UserView;

    open spec fn deep_view(&self) -> UserView {
        UserView { first_name: self.first_name@, last_name: self.last_name.deep_view() }
    }
}

/// A document attached to a message.
pub struct TgDocument {
    pub file_id: String,
    pub file_name: Option<String>,
}

pub struct DocumentView {
    pub file_id: Seq<char>,
    pub file_name: Option<Seq<char>>,
}

impl DeepView for TgDocument {
    type V = DocumentView;

    open spec fn deep_view(&self) -> DocumentView {
        DocumentView { file_id: self.file_id@, file_name: self.file_name.deep_view() }
    }
}

/// A sticker attached to a message.
pub struct TgSticker {
    pub file_id: String,
    pub emoji: Option<String>,
}

pub struct StickerView {
    pub file_id: Seq<char>,
    pub emoji: Option<Seq<char>>,
}

impl DeepView for TgSticker {
    type V = StickerView;

    open spec fn deep_view(&self) -> StickerView {
        StickerView { file_id: self.file_id@, emoji: self.emoji.deep_view() }
    }
}

/// A message as `getUpdates` describes it. Photo sizes, voice notes and videos are
/// read for their `file_id`, the chat for its `id`.
pub struct TgMessage {
    pub message_id: i64,
    pub chat_id: i64,
    pub text: Option<String>,
    pub caption: Option<String>,
    pub photo: Option<Vec<String>>,
    pub document: Option<TgDocument>,
    pub sticker: Option<TgSticker>,
    pub voice: Option<String>,
    pub video: Option<String>,
    pub from: Option<User>,
    pub date: i64,
}

pub struct TgMessageView {
    pub message_id: i64,
    pub chat_id: i64,
    pub text: Option<Seq<char>>,
    pub caption: Option<Seq<char>>,
    pub photo: Option<Seq<Seq<char>>>,
    pub document: Option<DocumentView>,
    pub sticker: Option<StickerView>,
    pub voice: Option<Seq<char>>,
    pub video: Option<Seq<char>>,
    pub from: Option<UserView>,
    pub date: i64,
}

impl DeepView for TgMessage {
    type V = TgMessageView;

    open spec fn deep_view(&self) -> TgMessageView {
        TgMessageView {
            message_id: self.message_id,
            chat_id: self.chat_id,
            text: self.text.deep_view(),
            caption: self.caption.deep_view(),
            photo: self.photo.deep_view(),
            document: self.document.deep_view(),
            sticker: self.sticker.deep_view(),
            voice: self.voice.deep_view(),
            video: self.video.deep_view(),
            from: self.from.deep_view(),
            date: self.date,
        }
    }
}

/// The message a pressed button belongs to.
#[derive(Clone, Copy)]
pub struct TgCallbackMessage {
    pub message_id: i64,
    pub chat_id: i64,
    pub date: i64,
}

impl DeepView for TgCallbackMessage {
    type V = TgCallbackMessage;

    open spec fn deep_view(&self) -> TgCallbackMessage {
        *self
    }
}

/// A button press.
pub struct TgCallbackQuery {
    pub id: String,
    pub from: User,
    pub message: Option<TgCallbackMessage>,
    pub data: Option<String>,
}

pub struct CallbackQueryView {
    pub id: Seq<char>,
    pub from: UserView,
    pub message: Option<TgCallbackMessage>,
    pub data: Option<Seq<char>>,
}

impl DeepView for TgCallbackQuery {
    type V = CallbackQueryView;

    open spec fn deep_view(&self) -> CallbackQueryView {
        CallbackQueryView {
            id: self.id@,
            from: self.from.deep_view(),
            message: self.message.deep_view(),
            data: self.data.deep_view(),
        }
    }
}

/// One update of `getUpdates`.
pub struct Update {
    pub update_id: i64,
    pub message: Option<TgMessage>,
    pub callback_query: Option<TgCallbackQuery>,
}

pub struct UpdateView {
    pub update_id: i64,
    pub message: Option<TgMessageView>,
    pub callback_query: Option<CallbackQueryView>,
}

impl DeepView for Update {
    type V = UpdateView;

    open spec fn deep_view(&self) -> UpdateView {
        UpdateView {
            update_id: self.update_id,
            message: self.message.deep_view(),
            callback_query: self.callback_query.deep_view(),
        }
    }
}

/// The whole answer of `getUpdates`.
pub struct GetUpdatesResponse {
    pub ok: bool,
    pub result: Vec<Update>,
    pub description: Option<String>,
}

pub struct GetUpdatesResponseView {
    pub ok: bool,
    pub result: Seq<UpdateView>,
    pub description: Option<Seq<char>>,
}

impl DeepView for GetUpdatesResponse {
    type V = GetUpdatesResponseView;

    open spec fn deep_view(&self) -> GetUpdatesResponseView {
        GetUpdatesResponseView {
            ok: self.ok,
            result: self.result.deep_view(),
            description: self.description.deep_view(),
        }
    }
}

// ---------------------------------------------------------------------------------
// Reading those from JSON text, field by field as serde's derived readers do.
// ---------------------------------------------------------------------------------

/// A chat, read for its `id`.
pub open spec fn chat_at(t: Seq<char>) -> Option<i64> {
    let node = json_node(t);
    if struct_shaped(node, 1) {
        required(field_text(node, 0, "id"@), |x: Seq<char>| read_i64(x))
    } else {
        None
    }
}

/// A photo size, voice note or video, read for its `file_id`.
pub open spec fn file_at(t: Seq<char>) -> Option<Seq<char>> {
    let node = json_node(t);
    if struct_shaped(node, 1) {
        required(field_text(node, 0, "file_id"@), |x: Seq<char>| read_string(x))
    } else {
        None
    }
}

pub open spec fn user_at(t: Seq<char>) -> Option<UserView> {
    let node = json_node(t);
    let first_name = required(field_text(node, 0, "first_name"@), |x: Seq<char>| read_string(x));
    let last_name = optional(field_text(node, 1, "last_name"@), |x: Seq<char>| read_string(x));
    if struct_shaped(node, 2) && first_name is Some && last_name is Some {
        Some(UserView { first_name: first_name->0, last_name: last_name->0 })
    } else {
        None
    }
}

pub open spec fn document_at(t: Seq<char>) -> Option<DocumentView> {
    let node = json_node(t);
    let file_id = required(field_text(node, 0, "file_id"@), |x: Seq<char>| read_string(x));
    let file_name = optional(field_text(node, 1, "file_name"@), |x: Seq<char>| read_string(x));
    if struct_shaped(node, 2) && file_id is Some && file_name is Some {
        Some(DocumentView { file_id: file_id->0, file_name: file_name->0 })
    } else {
        None
    }
}

pub open spec fn sticker_at(t: Seq<char>) -> Option<StickerView> {
    let node = json_node(t);
    let file_id = required(field_text(node, 0, "file_id"@), |x: Seq<char>| read_string(x));
    let emoji = optional(field_text(node, 1, "emoji"@), |x: Seq<char>| read_string(x));
    if struct_shaped(node, 2) && file_id is Some && emoji is Some {
        Some(StickerView { file_id: file_id->0, emoji: emoji->0 })
    } else {
        None
    }
}

pub open spec fn message_at(t: Seq<char>) -> Option<TgMessageView> {
    let node = json_node(t);
    let message_id = required(field_text(node, 0, "message_id"@), |x: Seq<char>| read_i64(x));
    let chat_id = required(field_text(node, 1, "chat"@), |x: Seq<char>| chat_at(x));
    let text = optional(field_text(node, 2, "text"@), |x: Seq<char>| read_string(x));
    let caption = optional(field_text(node, 3, "caption"@), |x: Seq<char>| read_string(x));
    let photo = optional(
        field_text(node, 4, "photo"@),
        |x: Seq<char>| read_list(x, |y: Seq<char>| file_at(y)),
    );
    let document = optional(field_text(node, 5, "document"@), |x: Seq<char>| document_at(x));
    let sticker = optional(field_text(node, 6, "sticker"@), |x: Seq<char>| sticker_at(x));
    let voice = optional(field_text(node, 7, "voice"@), |x: Seq<char>| file_at(x));
    let video = optional(field_text(node, 8, "video"@), |x: Seq<char>| file_at(x));
    let from = optional(field_text(node, 9, "from"@), |x: Seq<char>| user_at(x));
    let date = required(field_text(node, 10, "date"@), |x: Seq<char>| read_i64(x));
    if struct_shaped(node, 11) && message_id is Some && chat_id is Some && text is Some
        && caption is Some && photo is Some && document is Some && sticker is Some && voice is Some
        && video is Some && from is Some && date is Some {
        Some(
            TgMessageView {
                message_id: message_id->0,
                chat_id: chat_id->0,
                text: text->0,
                caption: caption->0,
                photo: photo->0,
                document: document->0,
                sticker: sticker->0,
                voice: voice->0,
                video: video->0,
                from: from->0,
                date: date->0,
            },
        )
    } else {
        None
    }
}

pub open spec fn callback_message_at(t: Seq<char>) -> Option<TgCallbackMessage> {
    let node = json_node(t);
    let message_id = required(field_text(node, 0, "message_id"@), |x: Seq<char>| read_i64(x));
    let chat_id = required(field_text(node, 1, "chat"@), |x: Seq<char>| chat_at(x));
    let date = required(field_text(node, 2, "date"@), |x: Seq<char>| read_i64(x));
    if struct_shaped(node, 3) && message_id is Some && chat_id is Some && date is Some {
        Some(
            TgCallbackMessage { message_id: message_id->0, chat_id: chat_id->0, date: date->0 },
        )
    } else {
        None
    }
}

pub open spec fn callback_query_at(t: Seq<char>) -> Option<CallbackQueryView> {
    let node = json_node(t);
    let id = required(field_text(node, 0, "id"@), |x: Seq<char>| read_string(x));
    let from = required(field_text(node, 1, "from"@), |x: Seq<char>| user_at(x));
    let message = optional(
        field_text(node, 2, "message"@),
        |x: Seq<char>| callback_message_at(x),
    );
    let data = optional(field_text(node, 3, "data"@), |x: Seq<char>| read_string(x));
    if struct_shaped(node, 4) && id is Some && from is Some && message is Some && data is Some {
        Some(
            CallbackQueryView {
                id: id->0,
                from: from->0,
                message: message->0,
                data: data->0,
            },
        )
    } else {
        None
    }
}

pub open spec fn update_at(t: Seq<char>) -> Option<UpdateView> {
    let node = json_node(t);
    let update_id = required(field_text(node, 0, "update_id"@), |x: Seq<char>| read_i64(x));
    let message = optional(field_text(node, 1, "message"@), |x: Seq<char>| message_at(x));
    let callback_query = optional(
        field_text(node, 2, "callback_query"@),
        |x: Seq<char>| callback_query_at(x),
    );
    if struct_shaped(node, 3) && update_id is Some && message is Some && callback_query is Some {
        Some(
            UpdateView {
                update_id: update_id->0,
                message: message->0,
                callback_query: callback_query->0,
            },
        )
    } else {
        None
    }
}

/// The answer of `getUpdates` read from its JSON text; `None` when it does not read.
pub open spec fn updates_response_at(t: Seq<char>) -> Option<GetUpdatesResponseView> {
    let node = json_node(t);
    let ok = required(field_text(node, 0, "ok"@), |x: Seq<char>| read_bool(x));
    let result = required(
        field_text(node, 1, "result"@),
        |x: Seq<char>| read_list(x, |y: Seq<char>| update_at(y)),
    );
    let description = optional(
        field_text(node, 2, "description"@),
        |x: Seq<char>| read_string(x),
    );
    if struct_shaped(node, 3) && ok is Some && result is Some && description is Some {
        Some(
            GetUpdatesResponseView {
                ok: ok->0,
                result: result->0,
                description: description->0,
            },
        )
    } else {
        None
    }
}

fn read_chat(t: &str) -> (v: Option<i64>)
    ensures
        v == chat_at(t@),
{
    let node = parse_node(t);
    if !is_struct_shaped(&node, 1) {
        return None;
    }
    required_i64(&node, 0, "id")
}

fn read_file(t: &str) -> (v: Option<String>)
    ensures
        v.deep_view() == file_at(t@),
{
    let node = parse_node(t);
    if !is_struct_shaped(&node, 1) {
        return None;
    }
    required_string(&node, 0, "file_id")
}

fn read_files(t: &str) -> (v: Option<Vec<String>>)
    ensures
        v.deep_view() == read_list(t@, |y: Seq<char>| file_at(y)),
{
    list_of(t, read_file, Ghost(|y: Seq<char>| file_at(y)))
}

fn read_user(t: &str) -> (v: Option<User>)
    ensures
        v.deep_view() == user_at(t@),
{
    let node = parse_node(t);
    if !is_struct_shaped(&node, 2) {
        return None;
    }
    let first_name = match required_string(&node, 0, "first_name") {
        Some(v) => v,
        None => return None,
    };
    let last_name = match optional_string(&node, 1, "last_name") {
        Some(v) => v,
        None => return None,
    };
    Some(User { first_name, last_name })
}

fn read_document(t: &str) -> (v: Option<TgDocument>)
    ensures
        v.deep_view() == document_at(t@),
{
    let node = parse_node(t);
    if !is_struct_shaped(&node, 2) {
        return None;
    }
    let file_id = match required_string(&node, 0, "file_id") {
        Some(v) => v,
        None => return None,
    };
    let file_name = match optional_string(&node, 1, "file_name") {
        Some(v) => v,
        None => return None,
    };
    Some(TgDocument { file_id, file_name })
}

fn read_sticker(t: &str) -> (v: Option<TgSticker>)
    ensures
        v.deep_view() == sticker_at(t@),
{
    let node = parse_node(t);
    if !is_struct_shaped(&node, 2) {
        return None;
    }
    let file_id = match required_string(&node, 0, "file_id") {
        Some(v) => v,
        None => return None,
    };
    let emoji = match optional_string(&node, 1, "emoji") {
        Some(v) => v,
        None => return None,
    };
    Some(TgSticker { file_id, emoji })
}

fn read_message(t: &str) -> (v: Option<TgMessage>)
    ensures
        v.deep_view() == message_at(t@),
{
    let node = parse_node(t);
    if !is_struct_shaped(&node, 11) {
        return None;
    }
    let message_id = match required_i64(&node, 0, "message_id") {
        Some(v) => v,
        None => return None,
    };
    let chat_id = match required_of(&node, 1, "chat", read_chat, Ghost(|x: Seq<char>| chat_at(x))) {
        Some(v) => v,
        None => return None,
    };
    let text = match optional_string(&node, 2, "text") {
        Some(v) => v,
        None => return None,
    };
    let caption = match optional_string(&node, 3, "caption") {
        Some(v) => v,
        None => return None,
    };
    let photo = match optional_of(
        &node,
        4,
        "photo",
        read_files,
        Ghost(|x: Seq<char>| read_list(x, |y: Seq<char>| file_at(y))),
    ) {
        Some(v) => v,
        None => return None,
    };
    let document = match optional_of(
        &node,
        5,
        "document",
        read_document,
        Ghost(|x: Seq<char>| document_at(x)),
    ) {
        Some(v) => v,
        None => return None,
    };
    let sticker = match optional_of(
        &node,
        6,
        "sticker",
        read_sticker,
        Ghost(|x: Seq<char>| sticker_at(x)),
    ) {
        Some(v) => v,
        None => return None,
    };
    let voice = match optional_of(&node, 7, "voice", read_file, Ghost(|x: Seq<char>| file_at(x))) {
        Some(v) => v,
        None => return None,
    };
    let video = match optional_of(&node, 8, "video", read_file, Ghost(|x: Seq<char>| file_at(x))) {
        Some(v) => v,
        None => return None,
    };
    let from = match optional_of(&node, 9, "from", read_user, Ghost(|x: Seq<char>| user_at(x))) {
        Some(v) => v,
        None => return None,
    };
    let date = match required_i64(&node, 10, "date") {
        Some(v) => v,
        None => return None,
    };
    Some(
        TgMessage {
            message_id,
            chat_id,
            text,
            caption,
            photo,
            document,
            sticker,
            voice,
            video,
            from,
            date,
        },
    )
}

fn read_callback_message(t: &str) -> (v: Option<TgCallbackMessage>)
    ensures
        v.deep_view() == callback_message_at(t@),
{
    let node = parse_node(t);
    if !is_struct_shaped(&node, 3) {
        return None;
    }
    let message_id = match required_i64(&node, 0, "message_id") {
        Some(v) => v,
        None => return None,
    };
    let chat_id = match required_of(&node, 1, "chat", read_chat, Ghost(|x: Seq<char>| chat_at(x))) {
        Some(v) => v,
        None => return None,
    };
    let date = match required_i64(&node, 2, "date") {
        Some(v) => v,
        None => return None,
    };
    Some(TgCallbackMessage { message_id, chat_id, date })
}

fn read_callback_query(t: &str) -> (v: Option<TgCallbackQuery>)
    ensures
        v.deep_view() == callback_query_at(t@),
{
    let node = parse_node(t);
    if !is_struct_shaped(&node, 4) {
        return None;
    }
    let id = match required_string(&node, 0, "id") {
        Some(v) => v,
        None => return None,
    };
    let from = match required_of(&node, 1, "from", read_user, Ghost(|x: Seq<char>| user_at(x))) {
        Some(v) => v,
        None => return None,
    };
    let message = match optional_of(
        &node,
        2,
        "message",
        read_callback_message,
        Ghost(|x: Seq<char>| callback_message_at(x)),
    ) {
        Some(v) => v,
        None => return None,
    };
    let data = match optional_string(&node, 3, "data") {
        Some(v) => v,
        None => return None,
    };
    Some(TgCallbackQuery { id, from, message, data })
}

fn read_update(t: &str) -> (v: Option<Update>)
    ensures
        v.deep_view() == update_at(t@),
{
    let node = parse_node(t);
    if !is_struct_shaped(&node, 3) {
        return None;
    }
    let update_id = match required_i64(&node, 0, "update_id") {
        Some(v) => v,
        None => return None,
    };
    let message = match optional_of(
        &node,
        1,
        "message",
        read_message,
        Ghost(|x: Seq<char>| message_at(x)),
    ) {
        Some(v) => v,
        None => return None,
    };
    let callback_query = match optional_of(
        &node,
        2,
        "callback_query",
        read_callback_query,
        Ghost(|x: Seq<char>| callback_query_at(x)),
    ) {
        Some(v) => v,
        None => return None,
    };
    Some(Update { update_id, message, callback_query })
}

fn read_updates(t: &str) -> (v: Option<Vec<Update>>)
    ensures
        v.deep_view() == read_list(t@, |y: Seq<char>| update_at(y)),
{
    list_of(t, read_update, Ghost(|y: Seq<char>| update_at(y)))
}

/// Reads the answer of `getUpdates` from its JSON text: see [`updates_response_at`].
pub fn read_updates_response(t: &str) -> (v: Option<GetUpdatesResponse>)
    ensures
        v.deep_view() == updates_response_at(t@),
{
    let node = parse_node(t);
    if !is_struct_shaped(&node, 3) {
        return None;
    }
    let ok = match required_bool(&node, 0, "ok") {
        Some(v) => v,
        None => return None,
    };
    let result = match required_of(
        &node,
        1,
        "result",
        read_updates,
        Ghost(|x: Seq<char>| read_list(x, |y: Seq<char>| update_at(y))),
    ) {
        Some(v) => v,
        None => return None,
    };
    let description = match optional_string(&node, 2, "description") {
        Some(v) => v,
        None => return None,
    };
    Some(GetUpdatesResponse { ok, result, description })
}

} // verus!
