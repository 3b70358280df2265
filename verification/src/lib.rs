//! Telegram message sender and listener.
use vstd::prelude::*;

pub mod api;
pub mod cli;
pub mod error;
pub mod http;
pub mod json;
pub mod listen;
pub mod updates;

pub use api::{
    answer_callback, download_file, edit_message, edit_message_with_parse_mode, send, send_menu,
    send_returning_id, send_returning_id_with_parse_mode, send_typing, send_with_parse_mode, Button,
    ParseMode,
};
pub use error::{Error, ErrorView};
pub use listen::{Content, Inbox, Listener, Message};

verus! {

} // verus!
