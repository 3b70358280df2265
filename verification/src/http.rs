//! The HTTP exchanges with Telegram, made through ureq. An exchange is taken in two
//! steps, as ureq takes it: the request goes out and a response's status comes back,
//! and then, only where the caller decides to, its body is read in one of ureq's ways.
//! What comes back rests on the network and on Telegram, so nothing is claimed of it
//! beyond which request it answers: the callers state what they send, and what they
//! make of every possible answer.
use std::io::Read;
use vstd::prelude::*;

verus! {

#[verifier::external_type_specification]
#[verifier::external_body]
pub struct ExAgent(ureq::Agent);

#[verifier::external_type_specification]
#[verifier::external_body]
pub struct ExBody(ureq::Body);

#[verifier::external_type_specification]
#[verifier::external_body]
#[verifier::reject_recursive_types(T)]
pub struct ExResponse<T>(ureq::http::Response<T>);

/// A `Result` with both sides taken by their mathematical values.
pub open spec fn result_view<T: DeepView, E: DeepView>(r: Result<T, E>) -> Result<T::V, E::V> {
    match r {
        Ok(v) => Ok(v.deep_view()),
        Err(e) => Err(e.deep_view()),
    }
}

/// The content type a JSON body is sent with (the one ureq's `send_json` sets).
pub const JSON_CONTENT_TYPE: &'static str = "application/json; charset=utf-8";

/// How an exchange ended without a response to read.
#[derive(Debug)]
pub enum Failure {
    /// The server answered with a 4xx or 5xx status, which ureq reports as an error.
    Rejected(u16),
    /// No response could be had: ureq's message.
    Failed(String),
}

/// The mathematical value of a [`Failure`].
pub enum FailureView {
    Rejected(u16),
    Failed(Seq<char>),
}

impl DeepView for Failure {
    type V = FailureView;

    open spec fn deep_view(&self) -> FailureView {
        match self {
            Failure::Rejected(code) => FailureView::Rejected(*code),
            Failure::Failed(m) => FailureView::Failed(m@),
        }
    }
}

/// Which way a request went out: a POST through ureq's default agent, a POST through
/// an agent whose global timeout is the given number of seconds, or a GET.
#[derive(Clone, Copy, Debug)]
pub enum Route {
    Post,
    ClientPost(u64),
    Get,
}

/// A response whose status has arrived and whose body is not read yet, with the
/// request it answers.
pub struct Answer {
    response: ureq::http::Response<ureq::Body>,
    status: u16,
    route: Route,
    url: String,
    content_type: String,
    body: String,
}

/// What an [`Answer`] is: the request it answers (its route, URL, content type and
/// body; a GET has an empty content type and body) and the response's status.
pub struct AnswerView {
    pub route: Route,
    pub url: Seq<char>,
    pub content_type: Seq<char>,
    pub body: Seq<char>,
    pub status: u16,
}

impl View for Answer {
    type V = AnswerView;

    closed spec fn view(&self) -> AnswerView {
        AnswerView {
            route: self.route,
            url: self.url@,
            content_type: self.content_type@,
            body: self.body@,
            status: self.status,
        }
    }
}

impl Answer {
    /// The response's status.
    pub fn status(&self) -> (status: u16)
        ensures
            status == self@.status,
    {
        self.status
    }
}

/// How an exchange ended: a response to read, or a failure.
pub open spec fn reply_view(reply: &Result<Answer, Failure>) -> Result<AnswerView, FailureView> {
    match reply {
        Ok(a) => Ok(a@),
        Err(f) => Err(f.deep_view()),
    }
}

/// That `reply` is how a POST of `body`, with the content type, to `url` through
/// ureq's default agent (`ureq::post`) ended. It is no function of its request: a
/// relation that ties an answer to the request it answers, and nothing more is known
/// of it.
pub uninterp spec fn posted(
    url: Seq<char>,
    content_type: Seq<char>,
    body: Seq<char>,
    reply: Result<AnswerView, FailureView>,
) -> bool;

/// That `reply` is how a POST of `body`, with the content type, to `url` ended, made
/// through an agent whose global timeout is `timeout` seconds; as [`posted`], only a
/// tie to the request (the timeout included).
pub uninterp spec fn client_posted(
    timeout: u64,
    url: Seq<char>,
    content_type: Seq<char>,
    body: Seq<char>,
    reply: Result<AnswerView, FailureView>,
) -> bool;

/// That `reply` is how a GET of `url` ended; as [`posted`], only a tie to the request.
pub uninterp spec fn fetched(url: Seq<char>, reply: Result<AnswerView, FailureView>) -> bool;

/// That `read` is what ureq's `Body::read_to_string` gave for the answer's body (text
/// with invalid UTF-8 replaced, at most 10 MB), or its error's message; only a tie to
/// the answer.
pub uninterp spec fn text_read(answer: AnswerView, read: Result<Seq<char>, Seq<char>>) -> bool;

/// That `read` is what ureq's `Body::read_to_vec` gave for the answer's body (its
/// bytes, at most 10 MB), or its error's message; only a tie to the answer.
pub uninterp spec fn bytes_read(answer: AnswerView, read: Result<Seq<u8>, Seq<char>>) -> bool;

/// That `read` is what reading the answer's body to its end through
/// `Body::as_reader` gave (its bytes), or the I/O error's message; only a tie to the
/// answer.
pub uninterp spec fn stream_read(answer: AnswerView, read: Result<Seq<u8>, Seq<char>>) -> bool;

/// POSTs `body` with the given content type to `url` with
/// `ureq::post(..).content_type(..).send(..)`, and keeps the response unread. Claims
/// that the reply is the one to this request, and that an answer records this request.
#[verifier::external_body]
pub(crate) fn post(url: &str, content_type: &str, body: &str) -> (reply: Result<Answer, Failure>)
    ensures
        posted(url@, content_type@, body@, reply_view(&reply)),
        reply matches Ok(a) ==> a@.route == Route::Post && a@.url == url@ && a@.content_type
            == content_type@ && a@.body == body@,
{
    match ureq::post(url).content_type(content_type).send(body) {
        Ok(response) => Ok(Answer {
            status: response.status().as_u16(),
            response,
            route: Route::Post,
            url: url.to_owned(),
            content_type: content_type.to_owned(),
            body: body.to_owned(),
        }),
        Err(ureq::Error::StatusCode(code)) => Err(Failure::Rejected(code)),
        Err(e) => Err(Failure::Failed(e.to_string())),
    }
}

/// GETs `url` with `ureq::get(..).call()`, and keeps the response unread. Claims that
/// the reply is the one to this request, and that an answer records this request.
#[verifier::external_body]
pub(crate) fn get(url: &str) -> (reply: Result<Answer, Failure>)
    ensures
        fetched(url@, reply_view(&reply)),
        reply matches Ok(a) ==> a@.route == Route::Get && a@.url == url@ && a@.content_type.len()
            == 0 && a@.body.len() == 0,
{
    match ureq::get(url).call() {
        Ok(response) => Ok(Answer {
            status: response.status().as_u16(),
            response,
            route: Route::Get,
            url: url.to_owned(),
            content_type: String::new(),
            body: String::new(),
        }),
        Err(ureq::Error::StatusCode(code)) => Err(Failure::Rejected(code)),
        Err(e) => Err(Failure::Failed(e.to_string())),
    }
}

/// Reads the answer's body with `Body::read_to_string`. Claims only that the text (or
/// error) is the one read from this answer.
#[verifier::external_body]
pub(crate) fn read_text(answer: Answer) -> (read: Result<String, String>)
    ensures
        text_read(answer@, result_view(read)),
{
    let mut response = answer.response;
    match response.body_mut().read_to_string() {
        Ok(text) => Ok(text),
        Err(e) => Err(e.to_string()),
    }
}

/// Reads the answer's body with `Body::read_to_vec`. Claims only that the bytes (or
/// error) are the ones read from this answer.
#[verifier::external_body]
pub(crate) fn read_bytes(answer: Answer) -> (read: Result<Vec<u8>, String>)
    ensures
        bytes_read(answer@, result_view(read)),
{
    let mut response = answer.response;
    match response.body_mut().read_to_vec() {
        Ok(bytes) => Ok(bytes),
        Err(e) => Err(e.to_string()),
    }
}

/// Reads the answer's body to its end through `Body::as_reader` and
/// `Read::read_to_end`. Claims only that the bytes (or error) are the ones read from
/// this answer.
#[verifier::external_body]
pub(crate) fn read_stream(answer: Answer) -> (read: Result<Vec<u8>, String>)
    ensures
        stream_read(answer@, result_view(read)),
{
    let mut response = answer.response;
    let mut bytes = Vec::new();
    match response.body_mut().as_reader().read_to_end(&mut bytes) {
        Ok(_) => Ok(bytes),
        Err(e) => Err(e.to_string()),
    }
}

/// An HTTP client: a ureq agent, and the global timeout in seconds it was built with.
/// [`client_with_timeout`] is the only way to make one, so the two always agree.
pub struct HttpClient {
    agent: ureq::Agent,
    timeout: u64,
}

impl View for HttpClient {
    type V = u64;

    /// The client's global timeout, in seconds.
    closed spec fn view(&self) -> u64 {
        self.timeout
    }
}

/// Builds a `ureq::Agent` with `Agent::new_with_config` from
/// `Config::builder().timeout_global(Some(Duration::from_secs(seconds)))`, and keeps
/// `seconds` beside it. Claims that the client's timeout is `seconds`: the agent itself
/// is opaque, and the field is set from the same argument the agent is configured with.
#[verifier::external_body]
pub(crate) fn client_with_timeout(seconds: u64) -> (client: HttpClient)
    ensures
        client@ == seconds,
{
    HttpClient {
        agent: ureq::Agent::new_with_config(
            ureq::config::Config::builder().timeout_global(
                Some(std::time::Duration::from_secs(seconds)),
            ).build(),
        ),
        timeout: seconds,
    }
}

/// POSTs `body` with the given content type to `url` through the client's agent
/// (`Agent::post(..).content_type(..).send(..)`), and keeps the response unread.
/// Claims that the reply is the one to this request, made with this client's timeout,
/// and that an answer records this request.
#[verifier::external_body]
pub(crate) fn client_post(client: &HttpClient, url: &str, content_type: &str, body: &str) -> (reply:
    Result<Answer, Failure>)
    ensures
        client_posted(client@, url@, content_type@, body@, reply_view(&reply)),
        reply matches Ok(a) ==> a@.route == Route::ClientPost(client@) && a@.url == url@
            && a@.content_type == content_type@ && a@.body == body@,
{
    match client.agent.post(url).content_type(content_type).send(body) {
        Ok(response) => Ok(Answer {
            status: response.status().as_u16(),
            response,
            route: Route::ClientPost(client.timeout),
            url: url.to_owned(),
            content_type: content_type.to_owned(),
            body: body.to_owned(),
        }),
        Err(ureq::Error::StatusCode(code)) => Err(Failure::Rejected(code)),
        Err(e) => Err(Failure::Failed(e.to_string())),
    }
}

} // verus!
