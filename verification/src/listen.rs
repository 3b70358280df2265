//! Receiving: reading Telegram's `getUpdates` answers into the messages of one chat,
//! and a long-poll listener that keeps the offset.
use std::collections::VecDeque;
use vstd::prelude::*;

use crate::api::{api_url, method_url};
use crate::error::{Error, ErrorView};
use crate::api::{failure_error, failure_error_of};
use crate::http::{
    client_post, client_posted, client_with_timeout, read_text, reply_view, result_view,
    text_read, AnswerView, Failure, FailureView, HttpClient, JSON_CONTENT_TYPE,
};
use crate::json::{decimal, push_digits, push_i64};
use crate::updates::{
    read_updates_response, updates_response_at, TgMessage, TgMessageView,
    Update, UpdateView, User, UserView,
};

verus! {

// ---------------------------------------------------------------------------------
// What the library hands out.
// ---------------------------------------------------------------------------------

/// Content type of an incoming Telegram message.
#[derive(Debug, Clone)]
pub enum Content {
    Text(String),
    Photo { file_id: String, caption: Option<String> },
    Document { file_id: String, file_name: Option<String>, caption: Option<String> },
    Sticker { file_id: String, emoji: Option<String> },
    Voice { file_id: String, caption: Option<String> },
    Video { file_id: String, caption: Option<String> },
    /// A button press from an inline keyboard. `data` is the callback_data you set on the button.
    CallbackQuery { data: String, callback_id: String },
    Other,
}

/// The mathematical value of a [`Content`].
pub enum ContentView {
    Text(Seq<char>),
    Photo { file_id: Seq<char>, caption: Option<Seq<char>> },
    Document { file_id: Seq<char>, file_name: Option<Seq<char>>, caption: Option<Seq<char>> },
    Sticker { file_id: Seq<char>, emoji: Option<Seq<char>> },
    Voice { file_id: Seq<char>, caption: Option<Seq<char>> },
    Video { file_id: Seq<char>, caption: Option<Seq<char>> },
    CallbackQuery { data: Seq<char>, callback_id: Seq<char> },
    Other,
}

impl DeepView for Content {
    type V = ContentView;

    open spec fn deep_view(&self) -> ContentView {
        match self {
            Content::Text(t) => ContentView::Text(t@),
            Content::Photo { file_id, caption } => ContentView::Photo {
                file_id: file_id@,
                caption: caption.deep_view(),
            },
            Content::Document { file_id, file_name, caption } => ContentView::Document {
                file_id: file_id@,
                file_name: file_name.deep_view(),
                caption: caption.deep_view(),
            },
            Content::Sticker { file_id, emoji } => ContentView::Sticker {
                file_id: file_id@,
                emoji: emoji.deep_view(),
            },
            Content::Voice { file_id, caption } => ContentView::Voice {
                file_id: file_id@,
                caption: caption.deep_view(),
            },
            Content::Video { file_id, caption } => ContentView::Video {
                file_id: file_id@,
                caption: caption.deep_view(),
            },
            Content::CallbackQuery { data, callback_id } => ContentView::CallbackQuery {
                data: data@,
                callback_id: callback_id@,
            },
            Content::Other => ContentView::Other,
        }
    }
}

/// An incoming Telegram message.
#[derive(Debug, Clone)]
pub struct Message {
    pub message_id: i64,
    pub chat_id: i64,
    pub content: Content,
    pub from: Option<String>,
    pub date: i64,
}

/// The mathematical value of a [`Message`].
pub struct MessageView {
    pub message_id: i64,
    pub chat_id: i64,
    pub content: ContentView,
    pub from: Option<Seq<char>>,
    pub date: i64,
}

impl DeepView for Message {
    type V = MessageView;

    open spec fn deep_view(&self) -> MessageView {
        MessageView {
            message_id: self.message_id,
            chat_id: self.chat_id,
            content: self.content.deep_view(),
            from: self.from.deep_view(),
            date: self.date,
        }
    }
}

/// The text of a text message.
pub open spec fn text_of(c: ContentView) -> Option<Seq<char>> {
    match c {
        ContentView::Text(t) => Some(t),
        _ => None,
    }
}

/// The text of a text message, or the caption of a photo, document, voice or video.
pub open spec fn text_or_caption_of(c: ContentView) -> Option<Seq<char>> {
    match c {
        ContentView::Text(t) => Some(t),
        ContentView::Photo { caption, .. } => caption,
        ContentView::Document { caption, .. } => caption,
        ContentView::Voice { caption, .. } => caption,
        ContentView::Video { caption, .. } => caption,
        _ => None,
    }
}

/// The file id of media content.
pub open spec fn file_id_of(c: ContentView) -> Option<Seq<char>> {
    match c {
        ContentView::Photo { file_id, .. } => Some(file_id),
        ContentView::Document { file_id, .. } => Some(file_id),
        ContentView::Sticker { file_id, .. } => Some(file_id),
        ContentView::Voice { file_id, .. } => Some(file_id),
        ContentView::Video { file_id, .. } => Some(file_id),
        _ => None,
    }
}

fn as_text(o: &Option<String>) -> (r: Option<&str>)
    ensures
        r.deep_view() == o.deep_view(),
{
    match o {
        Some(s) => Some(s.as_str()),
        None => None,
    }
}

impl Message {
    /// Convenience: returns the text if this is a text message.
    pub fn text(&self) -> (t: Option<&str>)
        ensures
            t.deep_view() == text_of(self.content.deep_view()),
    {
        match &self.content {
            Content::Text(t) => Some(t.as_str()),
            _ => None,
        }
    }

    /// Returns caption for media types, or the text for text messages.
    pub fn text_or_caption(&self) -> (t: Option<&str>)
        ensures
            t.deep_view() == text_or_caption_of(self.content.deep_view()),
    {
        match &self.content {
            Content::Text(t) => Some(t.as_str()),
            Content::Photo { caption, .. } => as_text(caption),
            Content::Document { caption, .. } => as_text(caption),
            Content::Voice { caption, .. } => as_text(caption),
            Content::Video { caption, .. } => as_text(caption),
            _ => None,
        }
    }

    /// Returns the Telegram `file_id` for media content, or `None` for text/callback/other.
    /// Pass to `pyttch::download_file` to fetch the bytes.
    pub fn file_id(&self) -> (id: Option<&str>)
        ensures
            id.deep_view() == file_id_of(self.content.deep_view()),
    {
        match &self.content {
            Content::Photo { file_id, .. } => Some(file_id.as_str()),
            Content::Document { file_id, .. } => Some(file_id.as_str()),
            Content::Sticker { file_id, .. } => Some(file_id.as_str()),
            Content::Voice { file_id, .. } => Some(file_id.as_str()),
            Content::Video { file_id, .. } => Some(file_id.as_str()),
            _ => None,
        }
    }
}

/// A text message's text is also what `text_or_caption` gives, and no message has
/// both a text and a file id.
pub proof fn text_is_its_own_caption(c: ContentView)
    ensures
        text_of(c) is Some ==> text_or_caption_of(c) == text_of(c),
        !(text_of(c) is Some && file_id_of(c) is Some),
{
}

// ---------------------------------------------------------------------------------
// From updates to the messages of one chat.
// ---------------------------------------------------------------------------------

/// How a sender is named: first name, then a space and the last name when there is one.
pub open spec fn display_name(u: UserView) -> Seq<char> {
    match u.last_name {
        Some(last) => u.first_name + " "@ + last,
        None => u.first_name,
    }
}

/// The content of a message: its text if it has one, else its largest (last) photo
/// size, else its document, sticker, voice note or video, in that order.
pub open spec fn content_of(m: TgMessageView) -> ContentView {
    if m.text is Some {
        ContentView::Text(m.text->0)
    } else if m.photo is Some && m.photo->0.len() > 0 {
        ContentView::Photo { file_id: m.photo->0.last(), caption: m.caption }
    } else if m.document is Some {
        ContentView::Document {
            file_id: m.document->0.file_id,
            file_name: m.document->0.file_name,
            caption: m.caption,
        }
    } else if m.sticker is Some {
        ContentView::Sticker { file_id: m.sticker->0.file_id, emoji: m.sticker->0.emoji }
    } else if m.voice is Some {
        ContentView::Voice { file_id: m.voice->0, caption: m.caption }
    } else if m.video is Some {
        ContentView::Video { file_id: m.video->0, caption: m.caption }
    } else {
        ContentView::Other
    }
}

/// The message an update gives for `chat_id`: a button press with data and a message
/// in that chat, or else a message in that chat; `None` otherwise.
pub open spec fn message_of(u: UpdateView, chat_id: i64) -> Option<MessageView> {
    match u.callback_query {
        Some(cb) => if cb.data is Some && cb.message is Some && cb.message->0.chat_id == chat_id {
            Some(
                MessageView {
                    message_id: cb.message->0.message_id,
                    chat_id: cb.message->0.chat_id,
                    content: ContentView::CallbackQuery { data: cb.data->0, callback_id: cb.id },
                    from: Some(display_name(cb.from)),
                    date: cb.message->0.date,
                },
            )
        } else {
            None
        },
        None => match u.message {
            Some(m) => if m.chat_id == chat_id {
                Some(
                    MessageView {
                        message_id: m.message_id,
                        chat_id: m.chat_id,
                        content: content_of(m),
                        from: match m.from {
                            Some(f) => Some(display_name(f)),
                            None => None,
                        },
                        date: m.date,
                    },
                )
            } else {
                None
            },
            None => None,
        },
    }
}

/// The messages the updates give for `chat_id`, in order.
pub open spec fn selected(updates: Seq<UpdateView>, chat_id: i64) -> Seq<MessageView>
    decreases updates.len(),
{
    if updates.len() == 0 {
        seq![]
    } else {
        let earlier = selected(updates.drop_last(), chat_id);
        match message_of(updates.last(), chat_id) {
            Some(m) => earlier.push(m),
            None => earlier,
        }
    }
}

/// The offset that acknowledges the updates: one past the last update's id, 0 for none.
pub open spec fn next_offset(updates: Seq<UpdateView>) -> int {
    if updates.len() == 0 {
        0
    } else {
        updates.last().update_id + 1
    }
}

/// Whether every update id has a successor in `i64`.
pub open spec fn ids_have_successors(updates: Seq<UpdateView>) -> bool {
    forall|i: int| 0 <= i < updates.len() ==> (#[trigger] updates[i]).update_id < i64::MAX
}

/// What reading a `getUpdates` answer gives: the messages for `chat_id` and the next
/// offset, or the error.
pub open spec fn updates_outcome(json: Seq<char>, chat_id: i64) -> Result<
    (Seq<MessageView>, int),
    ErrorView,
> {
    match updates_response_at(json) {
        None => Err(ErrorView::MalformedResponse),
        Some(r) => if !r.ok {
            Err(
                ErrorView::Api(
                    match r.description {
                        Some(d) => d,
                        None => seq![],
                    },
                ),
            )
        } else {
            Ok((selected(r.result, chat_id), next_offset(r.result)))
        },
    }
}

/// Whether reading the answer computes no offset past `i64::MAX`.
pub open spec fn updates_fit(json: Seq<char>) -> bool {
    match updates_response_at(json) {
        Some(r) => r.ok ==> ids_have_successors(r.result),
        None => true,
    }
}

/// Every message selected for a chat is in that chat.
pub proof fn selected_messages_are_in_chat(updates: Seq<UpdateView>, chat_id: i64)
    ensures
        forall|i: int|
            0 <= i < selected(updates, chat_id).len() ==> (#[trigger] selected(
                updates,
                chat_id,
            )[i]).chat_id == chat_id,
    decreases updates.len(),
{
    if updates.len() > 0 {
        selected_messages_are_in_chat(updates.drop_last(), chat_id);
    }
}

/// A message handed out for a chat carries the Telegram message's own id and date,
/// never the update's id: for an update that carries a message in the chat (and no
/// button press), and for a button press on a message in the chat. Nothing is handed
/// out for another chat.
pub proof fn handed_out_messages_keep_their_ids(u: UpdateView, chat_id: i64)
    ensures
        u.callback_query is None && u.message is Some && u.message->0.chat_id == chat_id ==> {
            &&& message_of(u, chat_id) is Some
            &&& message_of(u, chat_id)->0.message_id == u.message->0.message_id
            &&& message_of(u, chat_id)->0.chat_id == chat_id
            &&& message_of(u, chat_id)->0.date == u.message->0.date
        },
        u.callback_query is Some && u.callback_query->0.data is Some
            && u.callback_query->0.message is Some && u.callback_query->0.message->0.chat_id
            == chat_id ==> {
            &&& message_of(u, chat_id) is Some
            &&& message_of(u, chat_id)->0.message_id == u.callback_query->0.message->0.message_id
            &&& message_of(u, chat_id)->0.date == u.callback_query->0.message->0.date
            &&& message_of(u, chat_id)->0.content == ContentView::CallbackQuery {
                data: u.callback_query->0.data->0,
                callback_id: u.callback_query->0.id,
            }
        },
        u.callback_query is None && u.message is Some && u.message->0.chat_id != chat_id
            ==> message_of(u, chat_id) is None,
        message_of(u, chat_id) matches Some(mv) ==> mv.chat_id == chat_id,
{
}

/// Every message parsed for a chat is the one some update of the answer carries, and
/// the messages come in the updates' order.
pub proof fn selected_messages_come_from_updates(updates: Seq<UpdateView>, chat_id: i64)
    ensures
        forall|j: int|
            0 <= j < selected(updates, chat_id).len() ==> exists|i: int|
                0 <= i < updates.len() && message_of(#[trigger] updates[i], chat_id) == Some(
                    #[trigger] selected(updates, chat_id)[j],
                ),
        selected(updates, chat_id).len() <= updates.len(),
    decreases updates.len(),
{
    if updates.len() > 0 {
        let earlier = updates.drop_last();
        selected_messages_come_from_updates(earlier, chat_id);
        assert forall|j: int|
            0 <= j < selected(updates, chat_id).len() implies exists|i: int|
                0 <= i < updates.len() && message_of(#[trigger] updates[i], chat_id) == Some(
                    #[trigger] selected(updates, chat_id)[j],
                ) by {
            if j < selected(earlier, chat_id).len() {
                let i = choose|i: int|
                    0 <= i < earlier.len() && message_of(#[trigger] earlier[i], chat_id) == Some(
                        selected(earlier, chat_id)[j],
                    );
                assert(updates[i] == earlier[i]);
            } else {
                assert(updates[updates.len() - 1] == updates.last());
            }
        }
    }
}

/// The file id a message hands out is the one of the media it carries, by the same
/// priority its content is read with: a text message has none; otherwise its largest
/// photo size, else its document, sticker, voice note or video; with none of these,
/// none. Media keep their caption as what `text_or_caption` gives.
pub proof fn messages_hand_out_their_media(m: TgMessageView)
    ensures
        m.text is Some ==> text_of(content_of(m)) == m.text && text_or_caption_of(content_of(m))
            == m.text && file_id_of(content_of(m)) is None,
        m.text is None && m.photo is Some && m.photo->0.len() > 0 ==> file_id_of(content_of(m))
            == Some(m.photo->0.last()) && text_or_caption_of(content_of(m)) == m.caption,
        m.text is None && !(m.photo is Some && m.photo->0.len() > 0) && m.document is Some ==> {
            &&& file_id_of(content_of(m)) == Some(m.document->0.file_id)
            &&& text_or_caption_of(content_of(m)) == m.caption
        },
        m.text is None && !(m.photo is Some && m.photo->0.len() > 0) && m.document is None
            && m.sticker is Some ==> file_id_of(content_of(m)) == Some(m.sticker->0.file_id),
        m.text is None && !(m.photo is Some && m.photo->0.len() > 0) && m.document is None
            && m.sticker is None && m.voice is Some ==> file_id_of(content_of(m)) == Some(
            m.voice->0,
        ) && text_or_caption_of(content_of(m)) == m.caption,
        m.text is None && !(m.photo is Some && m.photo->0.len() > 0) && m.document is None
            && m.sticker is None && m.voice is None && m.video is Some ==> file_id_of(
            content_of(m),
        ) == Some(m.video->0) && text_or_caption_of(content_of(m)) == m.caption,
        m.text is None && !(m.photo is Some && m.photo->0.len() > 0) && m.document is None
            && m.sticker is None && m.voice is None && m.video is None ==> file_id_of(
            content_of(m),
        ) is None && text_or_caption_of(content_of(m)) is None,
{
}

/// Every kind of media content hands out its own file id, and text, button presses
/// and other content hand out none.
pub proof fn media_hand_out_their_file_id(c: ContentView)
    ensures
        c matches ContentView::Photo { file_id, .. } ==> file_id_of(c) == Some(file_id),
        c matches ContentView::Document { file_id, .. } ==> file_id_of(c) == Some(file_id),
        c matches ContentView::Sticker { file_id, .. } ==> file_id_of(c) == Some(file_id),
        c matches ContentView::Voice { file_id, .. } ==> file_id_of(c) == Some(file_id),
        c matches ContentView::Video { file_id, .. } ==> file_id_of(c) == Some(file_id),
        c is Text || c is CallbackQuery || c is Other ==> file_id_of(c) is None,
{
}

fn clone_text(o: &Option<String>) -> (r: Option<String>)
    ensures
        r.deep_view() == o.deep_view(),
{
    match o {
        Some(s) => Some(s.clone()),
        None => None,
    }
}

fn display_name_of(user: &User) -> (name: String)
    ensures
        name@ == display_name(user.deep_view()),
{
    let mut name = user.first_name.clone();
    match &user.last_name {
        Some(last) => {
            name.append(" ");
            name.append(last.as_str());
        },
        None => {},
    }
    name
}

fn extract_from(user: &Option<User>) -> (from: Option<String>)
    ensures
        from.deep_view() == match user.deep_view() {
            Some(u) => Some(display_name(u)),
            None => None,
        },
{
    match user {
        Some(u) => Some(display_name_of(u)),
        None => None,
    }
}

fn extract_content(msg: &TgMessage) -> (content: Content)
    ensures
        content.deep_view() == content_of(msg.deep_view()),
{
    if let Some(text) = &msg.text {
        return Content::Text(text.clone());
    }
    if let Some(photos) = &msg.photo {
        if photos.len() > 0 {
            let largest = photos[photos.len() - 1].clone();
            assert(largest@ == msg.deep_view().photo->0.last());
            return Content::Photo { file_id: largest, caption: clone_text(&msg.caption) };
        }
    }
    if let Some(doc) = &msg.document {
        return Content::Document {
            file_id: doc.file_id.clone(),
            file_name: clone_text(&doc.file_name),
            caption: clone_text(&msg.caption),
        };
    }
    if let Some(sticker) = &msg.sticker {
        return Content::Sticker { file_id: sticker.file_id.clone(), emoji: clone_text(&sticker.emoji) };
    }
    if let Some(voice) = &msg.voice {
        return Content::Voice { file_id: voice.clone(), caption: clone_text(&msg.caption) };
    }
    if let Some(video) = &msg.video {
        return Content::Video { file_id: video.clone(), caption: clone_text(&msg.caption) };
    }
    Content::Other
}

fn message_from_update(update: &Update, chat_id: i64) -> (m: Option<Message>)
    ensures
        m.deep_view() == message_of(update.deep_view(), chat_id),
{
    if let Some(cb) = &update.callback_query {
        match (&cb.data, &cb.message) {
            (Some(data), Some(cb_msg)) => {
                if cb_msg.chat_id != chat_id {
                    return None;
                }
                Some(
                    Message {
                        message_id: cb_msg.message_id,
                        chat_id: cb_msg.chat_id,
                        content: Content::CallbackQuery {
                            data: data.clone(),
                            callback_id: cb.id.clone(),
                        },
                        from: Some(display_name_of(&cb.from)),
                        date: cb_msg.date,
                    },
                )
            },
            _ => None,
        }
    } else if let Some(msg) = &update.message {
        if msg.chat_id != chat_id {
            return None;
        }
        let content = extract_content(msg);
        let from = extract_from(&msg.from);
        Some(
            Message {
                message_id: msg.message_id,
                chat_id: msg.chat_id,
                content,
                from,
                date: msg.date,
            },
        )
    } else {
        None
    }
}

/// The messages the updates give for `chat_id`, in order, and the next offset.
pub fn select_messages(updates: &Vec<Update>, chat_id: i64) -> (r: (Vec<Message>, i64))
    requires
        ids_have_successors(updates.deep_view()),
    ensures
        r.0.deep_view() == selected(updates.deep_view(), chat_id),
        r.1 as int == next_offset(updates.deep_view()),
{
    let ghost all = updates.deep_view();
    let mut messages: Vec<Message> = Vec::new();
    let mut offset: i64 = 0;
    let mut i: usize = 0;
    assert(all.take(0) =~= Seq::<UpdateView>::empty());
    while i < updates.len()
        invariant
            i <= updates.len(),
            all == updates.deep_view(),
            ids_have_successors(all),
            messages.deep_view() == selected(all.take(i as int), chat_id),
            offset as int == next_offset(all.take(i as int)),
        decreases updates.len() - i,
    {
        let update = &updates[i];
        assert(all[i as int] == update.deep_view());
        assert(all[i as int].update_id < i64::MAX);
        offset = update.update_id + 1;
        let ghost before = messages.deep_view();
        match message_from_update(update, chat_id) {
            Some(m) => {
                messages.push(m);
                assert(messages.deep_view() =~= before.push(m.deep_view()));
            },
            None => {},
        }
        assert(all.take(i + 1).drop_last() =~= all.take(i as int));
        assert(all.take(i + 1).last() == all[i as int]);
        i = i + 1;
    }
    assert(all.take(i as int) =~= all);
    (messages, offset)
}

/// Whether reading the answer computes no offset past `i64::MAX`: see [`updates_fit`].
pub fn offsets_fit(json: &str) -> (b: bool)
    ensures
        b == updates_fit(json@),
{
    match read_updates_response(json) {
        Some(response) => {
            if !response.ok {
                return true;
            }
            let ghost all = response.result.deep_view();
            let mut i: usize = 0;
            while i < response.result.len()
                invariant
                    i <= response.result.len(),
                    all == response.result.deep_view(),
                    response.ok,
                    updates_response_at(json@) == Some(response.deep_view()),
                    forall|j: int| 0 <= j < i ==> (#[trigger] all[j]).update_id < i64::MAX,
                decreases response.result.len() - i,
            {
                assert(all[i as int] == response.result[i as int].deep_view());
                if response.result[i].update_id == i64::MAX {
                    return false;
                }
                i = i + 1;
            }
            true
        },
        None => true,
    }
}

/// Parse a raw `getUpdates` JSON response, filtering by chat_id.
/// Returns matching messages and the next offset.
pub fn parse_updates_with_offset(json: &str, chat_id: i64) -> (r: Result<(Vec<Message>, i64), Error>)
    requires
        updates_fit(json@),
    ensures
        match (r, updates_outcome(json@, chat_id)) {
            (Ok((messages, offset)), Ok((expected, next))) => messages.deep_view() == expected
                && offset as int == next,
            (Err(e), Err(expected)) => e.deep_view() == expected,
            _ => false,
        },
        r matches Ok((messages, _)) ==> forall|i: int|
            0 <= i < messages.len() ==> (#[trigger] messages@[i]).chat_id == chat_id,
{
    let parsed = match read_updates_response(json) {
        Some(p) => p,
        None => return Err(Error::MalformedResponse),
    };
    if !parsed.ok {
        let description = match parsed.description {
            Some(d) => d,
            None => String::new(),
        };
        return Err(Error::Api(description));
    }
    let (messages, offset) = select_messages(&parsed.result, chat_id);
    proof {
        selected_messages_are_in_chat(parsed.result.deep_view(), chat_id);
        assert forall|i: int| 0 <= i < messages.len() implies (#[trigger] messages@[i]).chat_id
            == chat_id by {
            assert(messages@[i].deep_view() == messages.deep_view()[i]);
        }
    }
    Ok((messages, offset))
}

/// Parse a raw `getUpdates` JSON response, filtering by chat_id.
pub fn parse_updates(json: &str, chat_id: i64) -> (r: Result<Vec<Message>, Error>)
    requires
        updates_fit(json@),
    ensures
        match (r, updates_outcome(json@, chat_id)) {
            (Ok(messages), Ok((expected, _))) => messages.deep_view() == expected,
            (Err(e), Err(expected)) => e.deep_view() == expected,
            _ => false,
        },
        r matches Ok(messages) ==> forall|i: int|
            0 <= i < messages.len() ==> (#[trigger] messages@[i]).chat_id == chat_id,
{
    let (messages, _) = parse_updates_with_offset(json, chat_id)?;
    Ok(messages)
}

/// [`parse_updates`] where no offset would pass `i64::MAX`; `None` where one would.
pub fn try_parse_updates(json: &str, chat_id: i64) -> (r: Option<Result<Vec<Message>, Error>>)
    ensures
        r is None <==> !updates_fit(json@),
        r matches Some(inner) ==> match (inner, updates_outcome(json@, chat_id)) {
            (Ok(messages), Ok((expected, _))) => messages.deep_view() == expected,
            (Err(e), Err(expected)) => e.deep_view() == expected,
            _ => false,
        },
{
    if offsets_fit(json) {
        Some(parse_updates(json, chat_id))
    } else {
        None
    }
}

// ---------------------------------------------------------------------------------
// The long-poll listener.
// ---------------------------------------------------------------------------------

/// The body of `getUpdates`: from `offset`, waiting up to `timeout` seconds, for
/// messages and button presses (laid out as ureq's `send_json` writes it: pretty JSON,
/// keys in serde_json's map order).
pub open spec fn get_updates_body(offset: i64, timeout: u64) -> Seq<char> {
    "{\n  \"allowed_updates\": [\n    \"message\",\n    \"callback_query\"\n  ],\n  \"offset\": "@
        + decimal(offset as int) + ",\n  \"timeout\": "@ + decimal(timeout as int) + "\n}"@
}

/// The body of `getUpdates`: see [`get_updates_body`].
pub fn get_updates_request_body(offset: i64, timeout: u64) -> (body: String)
    ensures
        body@ == get_updates_body(offset, timeout),
{
    let mut body =
        "{\n  \"allowed_updates\": [\n    \"message\",\n    \"callback_query\"\n  ],\n  \"offset\": ".to_owned();
    push_i64(&mut body, offset);
    body.append(",\n  \"timeout\": ");
    push_digits(&mut body, timeout);
    body.append("\n}");
    assert(body@ =~= get_updates_body(offset, timeout));
    body
}

/// Blocking long-poll listener for a single Telegram chat.
pub struct Listener {
    url: String,
    chat_id: i64,
    offset: i64,
    timeout: u64,
    client: HttpClient,
}

/// What a [`Listener`] holds: the `getUpdates` URL, the chat it listens to, the
/// offset of the next update it asks for, the long-poll timeout in seconds, and the
/// global timeout in seconds of the HTTP client it polls through.
pub struct ListenerView {
    pub url: Seq<char>,
    pub chat_id: i64,
    pub offset: i64,
    pub timeout: u64,
    pub client_timeout: u64,
}

impl View for Listener {
    type V = ListenerView;

    closed spec fn view(&self) -> ListenerView {
        ListenerView {
            url: self.url@,
            chat_id: self.chat_id,
            offset: self.offset,
            timeout: self.timeout,
            client_timeout: self.client@,
        }
    }
}

/// What receiving the raw answer `raw` of `getUpdates` returns and leaves the listener
/// as: the chat's messages, with the offset moved to the next one when that is
/// positive; the listener unchanged on an error.
pub open spec fn received(before: ListenerView, raw: Seq<char>) -> (
    Result<Seq<MessageView>, ErrorView>,
    ListenerView,
) {
    if !updates_fit(raw) {
        (Err(ErrorView::UpdateIdOverflow), before)
    } else {
        match updates_outcome(raw, before.chat_id) {
            Err(e) => (Err(e), before),
            Ok((messages, next)) => (
                Ok(messages),
                if next > 0 {
                    ListenerView { offset: next as i64, ..before }
                } else {
                    before
                },
            ),
        }
    }
}

/// What one poll comes to, given how its `getUpdates` exchange ended: an exchange
/// without a response is an error that leaves the listener alone; a response's body is
/// read as text, whatever its status, and received (a failed read is an error that
/// leaves the listener alone).
pub open spec fn polled(
    before: ListenerView,
    reply: Result<AnswerView, FailureView>,
    outcome: (Result<Seq<MessageView>, ErrorView>, ListenerView),
) -> bool {
    match reply {
        Err(f) => outcome == (Err::<Seq<MessageView>, ErrorView>(failure_error_of(f)), before),
        Ok(a) => exists|read: Result<Seq<char>, Seq<char>>|
            #[trigger] text_read(a, read) && outcome == match read {
                Err(m) => (Err::<Seq<MessageView>, ErrorView>(ErrorView::Transport(m)), before),
                Ok(raw) => received(before, raw),
            },
    }
}

/// That `reply` answers the `getUpdates` POST a listener in state `before` makes
/// (through its own client, from its offset, with its timeout), and that the poll
/// comes to `outcome`: see [`polled`].
pub open spec fn poll_made(
    before: ListenerView,
    reply: Result<AnswerView, FailureView>,
    outcome: (Result<Seq<MessageView>, ErrorView>, ListenerView),
) -> bool {
    &&& client_posted(
        before.client_timeout,
        before.url,
        JSON_CONTENT_TYPE@,
        get_updates_body(before.offset, before.timeout),
        reply,
    )
    &&& polled(before, reply, outcome)
}

/// Receiving an answer never changes the chat a listener listens to, its URL, its
/// timeout or its client, and it leaves the offset where it was or moves it to a
/// positive value.
pub proof fn receiving_keeps_the_listener(before: ListenerView, raw: Seq<char>)
    ensures
        received(before, raw).1.chat_id == before.chat_id,
        received(before, raw).1.url == before.url,
        received(before, raw).1.timeout == before.timeout,
        received(before, raw).1.client_timeout == before.client_timeout,
        received(before, raw).1.offset == before.offset || received(before, raw).1.offset > 0,
{
}

/// Receiving an ok answer moves the listener's offset to one past the last update's
/// id (when that is positive), whatever chats the updates belong to, so the next
/// `getUpdates` asks only for later updates; an answer with no updates, and any error,
/// leave the listener as it was.
pub proof fn receiving_moves_the_offset_past_the_updates(before: ListenerView, raw: Seq<char>)
    ensures
        updates_response_at(raw) matches Some(resp) && resp.ok && resp.result.len() > 0 && (forall|
            i: int,
        | 0 <= i < resp.result.len() ==> (#[trigger] resp.result[i]).update_id < i64::MAX) ==> {
            &&& received(before, raw).0 is Ok
            &&& updates_response_at(raw)->0.result.last().update_id + 1 > 0 ==> received(
                before,
                raw,
            ).1.offset == updates_response_at(raw)->0.result.last().update_id + 1
            &&& updates_response_at(raw)->0.result.last().update_id + 1 <= 0 ==> received(
                before,
                raw,
            ).1 == before
            &&& received(before, raw).1.chat_id == before.chat_id
        },
        updates_response_at(raw) matches Some(resp) && resp.ok && resp.result.len() == 0
            ==> received(before, raw).1 == before,
        received(before, raw).0 is Err ==> received(before, raw).1 == before,
{
}

impl Listener {
    /// Create a new listener for the given bot token and chat ID.
    /// Polls with a 30-second long-poll timeout by default, through an HTTP client
    /// whose global timeout is 35 seconds.
    pub fn new(token: &str, chat_id: i64) -> (listener: Self)
        ensures
            listener@ == (ListenerView {
                url: api_url(token@, "getUpdates"@),
                chat_id,
                offset: 0,
                timeout: 30,
                client_timeout: 35,
            }),
    {
        Listener {
            url: method_url(token, "getUpdates"),
            chat_id,
            offset: 0,
            timeout: 30,
            client: client_with_timeout(35),
        }
    }

    pub fn chat_id(&self) -> (id: i64)
        ensures
            id == self@.chat_id,
    {
        self.chat_id
    }

    /// Set the long-poll timeout in seconds; the HTTP client is rebuilt with a global
    /// timeout five seconds longer.
    pub fn with_timeout(self, timeout: u64) -> (listener: Self)
        requires
            timeout <= u64::MAX - 5,
        ensures
            listener@ == (ListenerView { timeout, client_timeout: (timeout + 5) as u64, ..self@ }),
    {
        let mut listener = self;
        listener.timeout = timeout;
        listener.client = client_with_timeout(timeout + 5);
        listener
    }

    /// Takes in the raw answer of `getUpdates`: returns this chat's messages and moves
    /// the offset past the updates read. See [`received`].
    pub fn receive(&mut self, raw: &str) -> (r: Result<Vec<Message>, Error>)
        ensures
            (result_view(r), final(self)@) == received(old(self)@, raw@),
    {
        if !offsets_fit(raw) {
            return Err(Error::UpdateIdOverflow);
        }
        let (messages, offset) = parse_updates_with_offset(raw, self.chat_id)?;
        if offset > 0 {
            self.offset = offset;
        }
        Ok(messages)
    }

    /// Block and return the next batch of messages. May return an empty vec on timeout.
    pub fn poll(&mut self) -> (r: Result<Vec<Message>, Error>)
        ensures
            exists|reply: Result<AnswerView, FailureView>|
                poll_made(old(self)@, reply, (result_view(r), final(self)@)),
    {
        let body = get_updates_request_body(self.offset, self.timeout);
        let reply = client_post(&self.client, self.url.as_str(), JSON_CONTENT_TYPE, body.as_str());
        let ghost ex = reply_view(&reply);
        match reply {
            Err(f) => {
                let r: Result<Vec<Message>, Error> = Err(failure_error(f));
                assert(polled(old(self)@, ex, (result_view(r), self@)));
                assert(poll_made(old(self)@, ex, (result_view(r), self@)));
                r
            },
            Ok(answer) => {
                let ghost a = answer@;
                let read = read_text(answer);
                let ghost rv = result_view(read);
                let r = match read {
                    Err(m) => Err(Error::Transport(m)),
                    Ok(raw) => self.receive(raw.as_str()),
                };
                assert(text_read(a, rv));
                assert(polled(old(self)@, ex, (result_view(r), self@)));
                assert(poll_made(old(self)@, ex, (result_view(r), self@)));
                r
            },
        }
    }
}

/// What an empty inbox hands out, and keeps, once a poll has come to `batch`: the
/// poll's error, or the batch's first message with the rest kept (nothing, for an
/// empty batch).
pub open spec fn after_poll(batch: Result<Seq<MessageView>, ErrorView>) -> (
    Result<Option<MessageView>, ErrorView>,
    Seq<MessageView>,
) {
    match batch {
        Err(e) => (Err(e), seq![]),
        Ok(messages) => if messages.len() == 0 {
            (Ok(None), seq![])
        } else {
            (Ok(Some(messages[0])), messages.drop_first())
        },
    }
}

/// What successive [`Inbox::step`]s hand out from an inbox holding `waiting`, when the
/// polls they make come to the batches in order: each step hands out the oldest
/// waiting message or, with none waiting, polls and goes by [`after_poll`]; the steps
/// are followed until nothing is waiting and no batch is left.
pub open spec fn handed_out(waiting: Seq<MessageView>, batches: Seq<Seq<MessageView>>) -> Seq<
    MessageView,
>
    decreases batches.len(), waiting.len(),
{
    if waiting.len() > 0 {
        seq![waiting[0]] + handed_out(waiting.drop_first(), batches)
    } else if batches.len() == 0 {
        seq![]
    } else {
        match after_poll(Ok(batches[0])) {
            (Ok(Some(m)), kept) => seq![m] + handed_out(kept, batches.drop_first()),
            (_, kept) => handed_out(kept, batches.drop_first()),
        }
    }
}

/// Taking a listener's messages step by step loses none and reorders none: the steps
/// hand out the messages already waiting, then every polled batch's messages, batch
/// after batch, empty batches skipped.
pub proof fn steps_hand_out_every_message(waiting: Seq<MessageView>, batches: Seq<Seq<MessageView>>)
    ensures
        handed_out(waiting, batches) == waiting + batches.flatten(),
    decreases batches.len(), waiting.len(),
{
    if waiting.len() > 0 {
        steps_hand_out_every_message(waiting.drop_first(), batches);
        assert(seq![waiting[0]] + (waiting.drop_first() + batches.flatten()) =~= waiting
            + batches.flatten());
    } else if batches.len() == 0 {
        assert(waiting + batches.flatten() =~= Seq::<MessageView>::empty());
    } else {
        let first = batches[0];
        let rest = batches.drop_first();
        assert(batches.flatten() == first + rest.flatten());
        if first.len() == 0 {
            steps_hand_out_every_message(seq![], rest);
            assert(waiting + batches.flatten() =~= Seq::<MessageView>::empty() + rest.flatten());
        } else {
            steps_hand_out_every_message(first.drop_first(), rest);
            assert(seq![first[0]] + (first.drop_first() + rest.flatten()) =~= waiting
                + batches.flatten());
        }
    }
}

/// Messages a listener has polled and not yet handed out, oldest first: what lets a
/// caller take the messages of each batch one by one.
pub struct Inbox {
    queue: VecDeque<Message>,
}

impl View for Inbox {
    type V = Seq<MessageView>;

    closed spec fn view(&self) -> Seq<MessageView> {
        self.queue.deep_view()
    }
}

impl Inbox {
    /// An empty inbox.
    pub fn new() -> (inbox: Self)
        ensures
            inbox@ == Seq::<MessageView>::empty(),
    {
        let inbox = Inbox { queue: VecDeque::new() };
        assert(inbox@ =~= Seq::<MessageView>::empty());
        inbox
    }

    /// Puts a polled batch after the messages already waiting.
    pub fn fill(&mut self, batch: Vec<Message>)
        ensures
            final(self)@ == old(self)@ + batch.deep_view(),
    {
        let ghost all = batch.deep_view();
        let mut rest = batch;
        let mut arrived: VecDeque<Message> = VecDeque::new();
        assert(arrived.deep_view() =~= all.subrange(all.len() as int, all.len() as int));
        assert(rest.deep_view() =~= all.subrange(0, all.len() as int));
        while rest.len() > 0
            invariant
                rest.len() <= all.len(),
                rest.deep_view() == all.subrange(0, rest.len() as int),
                arrived.deep_view() == all.subrange(rest.len() as int, all.len() as int),
            decreases rest.len(),
        {
            let ghost before = rest.deep_view();
            let ghost n = rest.len();
            let m = rest.pop().unwrap();
            assert(m.deep_view() == before[n - 1]);
            let ghost arrived_before = arrived.deep_view();
            let ghost mv = m.deep_view();
            arrived.push_front(m);
            assert(arrived.deep_view() =~= seq![mv] + arrived_before);
            assert(rest.deep_view() =~= all.subrange(0, rest.len() as int));
            assert(arrived.deep_view() =~= all.subrange(rest.len() as int, all.len() as int));
        }
        let ghost waiting = self.queue.deep_view();
        self.queue.append(&mut arrived);
        assert(self.queue.deep_view() =~= waiting + all);
    }

    /// One step of taking a listener's messages one by one: the oldest waiting message
    /// when there is one, the listener untouched; otherwise one poll, whose batch is
    /// kept and its first message handed out (`None` for an empty batch, the poll's
    /// error for a failed one).
    pub fn step(&mut self, listener: &mut Listener) -> (r: Result<Option<Message>, Error>)
        ensures
            old(self)@.len() > 0 ==> result_view(r) == Ok::<Option<MessageView>, ErrorView>(
                Some(old(self)@[0]),
            ) && final(self)@ == old(self)@.drop_first() && final(listener)@ == old(listener)@,
            old(self)@.len() == 0 ==> exists|
                reply: Result<AnswerView, FailureView>,
                batch: Result<Seq<MessageView>, ErrorView>,
            |
                poll_made(old(listener)@, reply, (batch, final(listener)@)) && (
                    result_view(r),
                    final(self)@,
                ) == after_poll(batch),
    {
        if self.queue.len() > 0 {
            let m = self.take();
            return Ok(m);
        }
        let ghost waiting = self@;
        let batch = listener.poll();
        let ghost bv = result_view(batch);
        let ghost reply = choose|reply: Result<AnswerView, FailureView>|
            poll_made(old(listener)@, reply, (bv, listener@));
        let r = match batch {
            Err(e) => Err(e),
            Ok(messages) => {
                self.fill(messages);
                assert(self@ =~= bv->Ok_0);
                Ok(self.take())
            },
        };
        assert(waiting.len() == 0);
        assert((result_view(r), self@) == after_poll(bv));
        assert(poll_made(old(listener)@, reply, (bv, listener@)));
        r
    }

    /// Takes the oldest waiting message.
    pub fn take(&mut self) -> (message: Option<Message>)
        ensures
            match message {
                Some(m) => old(self)@.len() > 0 && m.deep_view() == old(self)@[0] && final(self)@
                    == old(self)@.drop_first(),
                None => old(self)@.len() == 0 && final(self)@ == old(self)@,
            },
    {
        let ghost waiting = self.queue.deep_view();
        let m = self.queue.pop_front();
        assert(self.queue.deep_view() =~= match m {
            Some(_) => waiting.drop_first(),
            None => waiting,
        });
        m
    }
}

} // verus!
