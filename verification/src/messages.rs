//! What is sent to the text-generation service, and how its failures are
//! told apart.

use crate::frame::render::{compose, frame, layout, render, Line, LineView};
use crate::game::RandomResult;
use vstd::prelude::*;

verus! {

/// The instruction that opens every request: it tells the model how to answer
/// the one word that follows.
pub const LLM_INPUT: &'static str =
    "You will answer only to \"Correct\" or \"Incorrect.\" These correspond to either a\
notification that a user got a number right in a number guessing game or not, respectively. Your\
task is to, depending on whether you were notified they got it right, or not, to return a\
cowboy-like answer to the user. Make it a short text. Include just your answer and nothing more.\
Don't include emoji or otherwise non-verbal content.";

/// Who speaks in a message of a chat exchange.
#[derive(Clone, Copy, Debug, PartialEq, Eq)]
pub enum Role {
    /// The model.
    Assistant,
    /// The instruction that frames the exchange.
    System,
    /// The player.
    User,
}

/// One message of a chat exchange.
#[derive(Debug, PartialEq, Eq)]
pub struct Message {
    pub role: Role,
    pub content: String,
}

/// A message as plain values.
pub ghost struct MessageView {
    pub role: Role,
    pub content: Seq<char>,
}

impl View for Message {
    type V = MessageView;

    open spec fn view(&self) -> MessageView {
        MessageView { role: self.role, content: self.content@ }
    }
}

impl DeepView for Message {
    type V = MessageView;

    open spec fn deep_view(&self) -> MessageView {
        self@
    }
}

impl Message {
    /// A message with the given role and content.
    pub fn new(role: Role, content: &str) -> (message: Self)
        ensures
            message@ == (MessageView { role, content: content@ }),
    {
        Self { role, content: content.to_owned() }
    }
}

/// The body of a chat completion request.
#[derive(Debug, PartialEq, Eq)]
pub struct Request {
    pub messages: Vec<Message>,
    pub model: String,
}

/// A request as plain values.
pub ghost struct RequestView {
    pub messages: Seq<MessageView>,
    pub model: Seq<char>,
}

impl View for Request {
    type V = RequestView;

    open spec fn view(&self) -> RequestView {
        RequestView { messages: self.messages.deep_view(), model: self.model@ }
    }
}

/// The word that reports an outcome to the model.
pub open spec fn outcome_word(input: RandomResult) -> Seq<char> {
    match input {
        RandomResult::Correct => "Correct"@,
        RandomResult::Incorrect => "Incorrect"@,
    }
}

impl Request {
    /// The request that reports `input` to `model`: the instruction as the
    /// system's message, then the outcome as the user's.
    pub fn new(input: RandomResult, model: &str) -> (request: Self)
        ensures
            request@ == (RequestView {
                messages: seq![
                    MessageView { role: Role::System, content: LLM_INPUT@ },
                    MessageView { role: Role::User, content: outcome_word(input) },
                ],
                model: model@,
            }),
    {
        let word = match input {
            RandomResult::Correct => "Correct",
            RandomResult::Incorrect => "Incorrect",
        };
        let messages = vec![Message::new(Role::System, LLM_INPUT), Message::new(Role::User, word)];
        let request = Self { messages, model: model.to_owned() };
        assert(request@.messages =~= seq![
            MessageView { role: Role::System, content: LLM_INPUT@ },
            MessageView { role: Role::User, content: outcome_word(input) },
        ]);
        request
    }
}

/// A failure of the exchange that is no answer of the service.
#[derive(Clone, Copy, Debug, PartialEq, Eq)]
pub enum ExtraError {
    /// Too many answers in a row came back empty.
    TimedOut,
}

/// The failures that the service reports by the status of its answer.
#[derive(Clone, Copy, Debug, PartialEq, Eq)]
pub enum ResponseError {
    BadRequest,
    InvalidCredentials,
    InsufficientCredits,
    FlaggedInput,
    TimedOut,
    RateLimited,
    ServiceUnavailable,
    NoProviders,
    Unknown,
}

/// The failure that a status code stands for.
pub open spec fn status_error(status: u16) -> ResponseError {
    if status == 400 {
        ResponseError::BadRequest
    } else if status == 401 {
        ResponseError::InvalidCredentials
    } else if status == 402 {
        ResponseError::InsufficientCredits
    } else if status == 403 {
        ResponseError::FlaggedInput
    } else if status == 408 {
        ResponseError::TimedOut
    } else if status == 429 {
        ResponseError::RateLimited
    } else if status == 502 {
        ResponseError::ServiceUnavailable
    } else if status == 503 {
        ResponseError::NoProviders
    } else {
        ResponseError::Unknown
    }
}

impl ExtraError {
    /// The words shown for this failure.
    pub open spec fn message_text(self) -> Seq<char> {
        "timed out after multiple requests"@
    }

    pub fn message(&self) -> (text: &'static str)
        ensures
            text@ == self.message_text(),
    {
        "timed out after multiple requests"
    }
}

impl ResponseError {
    /// The words shown for this failure.
    pub open spec fn message_text(self) -> Seq<char> {
        match self {
            ResponseError::BadRequest => "bad request"@,
            ResponseError::InvalidCredentials => "invalid credentials"@,
            ResponseError::InsufficientCredits => "insufficient credits"@,
            ResponseError::FlaggedInput => "flagged input"@,
            ResponseError::TimedOut => "timed out"@,
            ResponseError::RateLimited => "rate limited"@,
            ResponseError::ServiceUnavailable => "model down or invalid response"@,
            ResponseError::NoProviders => "no available providers"@,
            ResponseError::Unknown => "unknown error"@,
        }
    }

    pub fn message(&self) -> (text: &'static str)
        ensures
            text@ == self.message_text(),
    {
        match self {
            ResponseError::BadRequest => "bad request",
            ResponseError::InvalidCredentials => "invalid credentials",
            ResponseError::InsufficientCredits => "insufficient credits",
            ResponseError::FlaggedInput => "flagged input",
            ResponseError::TimedOut => "timed out",
            ResponseError::RateLimited => "rate limited",
            ResponseError::ServiceUnavailable => "model down or invalid response",
            ResponseError::NoProviders => "no available providers",
            ResponseError::Unknown => "unknown error",
        }
    }

    /// Tells the failures apart by the status code of the answer.
    pub fn from_status(status: u16) -> (error: Self)
        ensures
            error == status_error(status),
    {
        match status {
            400 => ResponseError::BadRequest,
            401 => ResponseError::InvalidCredentials,
            402 => ResponseError::InsufficientCredits,
            403 => ResponseError::FlaggedInput,
            408 => ResponseError::TimedOut,
            429 => ResponseError::RateLimited,
            502 => ResponseError::ServiceUnavailable,
            503 => ResponseError::NoProviders,
            _ => ResponseError::Unknown,
        }
    }
}

/// How an exchange with the service went wrong, as the caller met it.
#[derive(Clone, Copy, Debug, PartialEq, Eq)]
pub enum Fault {
    /// The exchange was given up.
    Extra(ExtraError),
    /// The service answered with this status code.
    Status(u16),
    /// Anything else: the service was not reached, or its answer not read.
    Other,
}

/// What is reported to the player.
#[derive(Clone, Copy, Debug, PartialEq, Eq)]
pub enum Report {
    Extra(ExtraError),
    Response(ResponseError),
}

/// The report that a fault leads to.
pub open spec fn report_of(fault: Fault) -> Report {
    match fault {
        Fault::Extra(error) => Report::Extra(error),
        Fault::Status(status) => Report::Response(status_error(status)),
        Fault::Other => Report::Response(ResponseError::Unknown),
    }
}

/// Turns a fault into what is reported: a given-up exchange stays what it
/// is, a status code becomes the failure it stands for, and anything else is
/// unknown.
pub fn response_error(input: Fault) -> (report: Report)
    ensures
        report == report_of(input),
{
    match input {
        Fault::Extra(error) => Report::Extra(error),
        Fault::Status(status) => Report::Response(ResponseError::from_status(status)),
        Fault::Other => Report::Response(ResponseError::Unknown),
    }
}

/// The most empty answers in a row after which the exchange still goes on.
pub const MAX_REPEATED: u32 = 10;

/// What to do with an answer of the service.
#[derive(Clone, Copy, Debug, PartialEq, Eq)]
pub enum Reply {
    /// The answer has content: show it.
    Deliver,
    /// The answer is empty: ask again, having counted this many empty ones.
    Again(u32),
    /// The answer is empty once too often.
    GiveUp(ExtraError),
}

/// The decision on an answer with the given content, after `repeated` empty
/// answers.
pub open spec fn reply_on(content: Seq<char>, repeated: u32) -> Reply {
    if content.len() > 0 {
        Reply::Deliver
    } else if repeated > MAX_REPEATED {
        Reply::GiveUp(ExtraError::TimedOut)
    } else {
        Reply::Again((repeated + 1) as u32)
    }
}

/// Decides on an answer of the service: an answer with content is delivered;
/// an empty one is asked for again, unless more than `MAX_REPEATED` empty
/// ones came before it.
pub fn on_answer(content: &str, repeated: u32) -> (next: Reply)
    ensures
        next == reply_on(content@, repeated),
{
    if !content.is_empty() {
        Reply::Deliver
    } else if repeated > MAX_REPEATED {
        Reply::GiveUp(ExtraError::TimedOut)
    } else {
        Reply::Again(repeated + 1)
    }
}

/// The dots that run while the answer is waited for: one, two, three, and
/// again from one.
pub open spec fn dots(tick: nat) -> Seq<char> {
    if tick % 3 == 0 {
        "."@
    } else if tick % 3 == 1 {
        ".."@
    } else {
        "..."@
    }
}

/// The two lines shown while the answer is waited for.
pub open spec fn processing_lines(tick: nat) -> Seq<LineView> {
    seq![
        LineView { text: "Processing"@, selected: false },
        LineView { text: dots(tick), selected: false },
    ]
}

/// Lays out the screen that is shown while the answer is waited for, at the
/// given tick of its run of dots.
pub fn draw_processing(tick: usize, rows: usize, cols: usize, colors: bool) -> (out: Vec<String>)
    ensures
        out.deep_view() == frame(processing_lines(tick as nat), rows as nat, cols as nat, colors),
{
    let run = if tick % 3 == 0 {
        "."
    } else if tick % 3 == 1 {
        ".."
    } else {
        "..."
    };
    let lines = vec![
        Line { text: String::from_str("Processing"), selected: false },
        Line { text: String::from_str(run), selected: false },
    ];
    assert(lines.deep_view() =~= processing_lines(tick as nat));
    render(&lines, rows, cols, colors)
}

/// Lays out the answer of the service, as it came, alone in the middle of
/// the terminal.
pub fn draw_message(message: &str, rows: usize, cols: usize) -> (out: Vec<String>)
    ensures
        out.deep_view() == layout(seq![message@], rows as nat, cols as nat),
{
    let texts = vec![String::from_str(message)];
    assert(texts.deep_view() =~= seq![message@]);
    compose(&texts, rows, cols)
}

} // verus!
