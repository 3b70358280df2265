//! The library's errors and the text each one reads as.
use vstd::prelude::*;

use crate::json::{decimal, push_digits};

verus! {

/// Why a call to Telegram, or the reading of its answer, did not succeed.
#[derive(Debug, Clone)]
pub enum Error {
    /// The HTTP exchange failed, or a response's body could not be read: ureq's (or the
    /// reader's) message.
    Transport(String),
    /// The server answered with a 4xx or 5xx status, which ureq reports as an error.
    HttpStatus(u16),
    /// Telegram answered with a status other than 200: the status and the body.
    UnexpectedStatus { status: u16, body: String },
    /// `getFile` answered with a status other than 200: the status and the body.
    GetFileStatus { status: u16, body: String },
    /// The answer is not JSON of the shape Telegram documents.
    MalformedResponse,
    /// Telegram answered `"ok": false`, with its description (empty when absent).
    Api(String),
    /// `getFile` answered `"ok": false`, with its description (empty when absent).
    GetFileApi(String),
    /// Telegram answered `"ok": true` without a `result`: the method's name.
    NoResult(String),
    /// The file download answered with a status other than 200.
    DownloadStatus(u16),
    /// An update carried the largest `i64` as its id, so no next offset exists.
    UpdateIdOverflow,
    /// The parse mode named on the command line is none of the three (lowercased).
    UnknownParseMode(String),
    /// No message was given and standard input held only whitespace.
    NoMessage,
}

/// The mathematical value of an [`Error`].
pub enum ErrorView {
    Transport(Seq<char>),
    HttpStatus(u16),
    UnexpectedStatus { status: u16, body: Seq<char> },
    GetFileStatus { status: u16, body: Seq<char> },
    MalformedResponse,
    Api(Seq<char>),
    GetFileApi(Seq<char>),
    NoResult(Seq<char>),
    DownloadStatus(u16),
    UpdateIdOverflow,
    UnknownParseMode(Seq<char>),
    NoMessage,
}

impl DeepView for Error {
    type V = ErrorView;

    open spec fn deep_view(&self) -> ErrorView {
        match self {
            Error::Transport(m) => ErrorView::Transport(m@),
            Error::HttpStatus(c) => ErrorView::HttpStatus(*c),
            Error::UnexpectedStatus { status, body } => ErrorView::UnexpectedStatus {
                status: *status,
                body: body@,
            },
            Error::GetFileStatus { status, body } => ErrorView::GetFileStatus {
                status: *status,
                body: body@,
            },
            Error::MalformedResponse => ErrorView::MalformedResponse,
            Error::Api(d) => ErrorView::Api(d@),
            Error::GetFileApi(d) => ErrorView::GetFileApi(d@),
            Error::NoResult(m) => ErrorView::NoResult(m@),
            Error::DownloadStatus(c) => ErrorView::DownloadStatus(*c),
            Error::UpdateIdOverflow => ErrorView::UpdateIdOverflow,
            Error::UnknownParseMode(s) => ErrorView::UnknownParseMode(s@),
            Error::NoMessage => ErrorView::NoMessage,
        }
    }
}

/// The text an error reads as.
pub open spec fn error_text(e: ErrorView) -> Seq<char> {
    match e {
        ErrorView::Transport(m) => m,
        ErrorView::HttpStatus(c) => "http status: "@ + decimal(c as int),
        ErrorView::UnexpectedStatus { status, body } => "telegram api error ("@ + decimal(
            status as int,
        ) + "): "@ + body,
        ErrorView::GetFileStatus { status, body } => "telegram getFile error ("@ + decimal(
            status as int,
        ) + "): "@ + body,
        ErrorView::MalformedResponse => "malformed response from telegram"@,
        ErrorView::Api(d) => "telegram api error: "@ + d,
        ErrorView::GetFileApi(d) => "telegram getFile error: "@ + d,
        ErrorView::NoResult(m) => m + " returned no result"@,
        ErrorView::DownloadStatus(c) => "telegram file download error ("@ + decimal(c as int)
            + ")"@,
        ErrorView::UpdateIdOverflow => "update id leaves no next offset"@,
        ErrorView::UnknownParseMode(s) => "unknown parse mode: "@ + s,
        ErrorView::NoMessage => "no message provided (pass as argument or pipe to stdin)"@,
    }
}

impl Error {
    /// The text this error reads as.
    pub fn message(&self) -> (text: String)
        ensures
            text@ == error_text(self.deep_view()),
    {
        match self {
            Error::Transport(m) => m.clone(),
            Error::HttpStatus(c) => {
                let mut t = "http status: ".to_owned();
                push_digits(&mut t, *c as u64);
                t
            },
            Error::UnexpectedStatus { status, body } => {
                let mut t = "telegram api error (".to_owned();
                push_digits(&mut t, *status as u64);
                t.append("): ");
                t.append(body.as_str());
                t
            },
            Error::GetFileStatus { status, body } => {
                let mut t = "telegram getFile error (".to_owned();
                push_digits(&mut t, *status as u64);
                t.append("): ");
                t.append(body.as_str());
                t
            },
            Error::MalformedResponse => "malformed response from telegram".to_owned(),
            Error::Api(d) => {
                let mut t = "telegram api error: ".to_owned();
                t.append(d.as_str());
                t
            },
            Error::GetFileApi(d) => {
                let mut t = "telegram getFile error: ".to_owned();
                t.append(d.as_str());
                t
            },
            Error::NoResult(m) => {
                let mut t = m.clone();
                t.append(" returned no result");
                t
            },
            Error::DownloadStatus(c) => {
                let mut t = "telegram file download error (".to_owned();
                push_digits(&mut t, *c as u64);
                t.append(")");
                t
            },
            Error::UpdateIdOverflow => "update id leaves no next offset".to_owned(),
            Error::UnknownParseMode(s) => {
                let mut t = "unknown parse mode: ".to_owned();
                t.append(s.as_str());
                t
            },
            Error::NoMessage => "no message provided (pass as argument or pipe to stdin)".to_owned(),
        }
    }
}

} // verus!
