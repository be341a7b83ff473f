//! The error taxonomy and its rendering for HTTP clients.

use vstd::prelude::*;
use crate::ident::{id_text, id_to_string};

verus! {

/// Where a processing error arose.
#[derive(Clone, Copy, Debug, PartialEq, Eq, Structural)]
pub enum Origin {
    /// Inside the engine that runs the processor's code.
    Engine,
    /// In an outbound HTTP call that the processor's code asked for.
    Outbound,
}

/// Every kind of failure that the gateway reports.
#[derive(Debug)]
pub enum RequestProcessorError {
    /// No entity of this kind has this identifier.
    NotFound { kind: String, id: u128 },
    /// The database failed.
    Db(String),
    /// A string names no variant of an enumeration.
    Parse(String),
    /// A string is no identifier.
    UuidParse(String),
    /// JSON could not be written or read.
    JsonSerialize(String),
    /// The engine or an outbound HTTP call failed.
    Processing { origin: Origin, message: String },
    /// An internal lock was poisoned.
    Locking(String),
    /// A string is no timestamp.
    TimeParse(String),
    /// Any other failure, by its text.
    Custom(String),
    /// A stored row lacks a field that its kind needs.
    EmptyDbField(String),
}

/// The mathematical value of an error.
pub enum ErrorView {
    NotFound { kind: Seq<char>, id: u128 },
    Db(Seq<char>),
    Parse(Seq<char>),
    UuidParse(Seq<char>),
    JsonSerialize(Seq<char>),
    Processing { origin: Origin, message: Seq<char> },
    Locking(Seq<char>),
    TimeParse(Seq<char>),
    Custom(Seq<char>),
    EmptyDbField(Seq<char>),
}

impl View for RequestProcessorError {
    type V = ErrorView;

    open spec fn view(&self) -> ErrorView {
        match self {
            RequestProcessorError::NotFound { kind, id } => ErrorView::NotFound {
                kind: kind@,
                id: *id,
            },
            RequestProcessorError::Db(m) => ErrorView::Db(m@),
            RequestProcessorError::Parse(m) => ErrorView::Parse(m@),
            RequestProcessorError::UuidParse(m) => ErrorView::UuidParse(m@),
            RequestProcessorError::JsonSerialize(m) => ErrorView::JsonSerialize(m@),
            RequestProcessorError::Processing { origin, message } => ErrorView::Processing {
                origin: *origin,
                message: message@,
            },
            RequestProcessorError::Locking(m) => ErrorView::Locking(m@),
            RequestProcessorError::TimeParse(m) => ErrorView::TimeParse(m@),
            RequestProcessorError::Custom(m) => ErrorView::Custom(m@),
            RequestProcessorError::EmptyDbField(m) => ErrorView::EmptyDbField(m@),
        }
    }
}

/// The text that an error shows to a reader.
pub open spec fn message_of(e: ErrorView) -> Seq<char> {
    match e {
        ErrorView::NotFound { kind, id } => kind + " with id "@ + id_text(id) + " not found"@,
        ErrorView::Db(m) => m,
        ErrorView::Parse(m) => "Unable to parse to enum: "@ + m,
        ErrorView::UuidParse(m) => m,
        ErrorView::JsonSerialize(m) => m,
        ErrorView::Processing { origin, message } => message,
        ErrorView::Locking(m) => m,
        ErrorView::TimeParse(m) => m,
        ErrorView::Custom(m) => m,
        ErrorView::EmptyDbField(m) => m,
    }
}

/// The HTTP status that an error is answered with: 404 for a missing entity,
/// 502 for a failed outbound call, 500 for everything else.
pub open spec fn status_of(e: ErrorView) -> u16 {
    match e {
        ErrorView::NotFound { kind, id } => 404,
        ErrorView::Processing { origin, message } => if origin == Origin::Outbound {
            502
        } else {
            500
        },
        _ => 500,
    }
}

/// A failure as a processing error: a processing error is kept as it is, so
/// that a failed outbound call stays one; any other failure becomes a
/// processing error of the engine with the failure's message.
pub open spec fn processing_of(e: ErrorView) -> ErrorView {
    match e {
        ErrorView::Processing { origin, message } => e,
        _ => ErrorView::Processing { origin: Origin::Engine, message: message_of(e) },
    }
}

impl RequestProcessorError {
    /// The failure as a processing error.
    pub fn into_processing(self) -> (e: RequestProcessorError)
        ensures
            e@ == processing_of(self@),
    {
        match self {
            RequestProcessorError::Processing { origin, message } => {
                RequestProcessorError::Processing { origin, message }
            },
            other => {
                let message = other.message();
                RequestProcessorError::Processing { origin: Origin::Engine, message }
            },
        }
    }

    /// The error for a missing entity of the given kind.
    pub fn not_found(kind: &str, id: u128) -> (e: RequestProcessorError)
        ensures
            e@ == (ErrorView::NotFound { kind: kind@, id }),
    {
        RequestProcessorError::NotFound { kind: kind.to_owned(), id }
    }

    /// The text that the error shows to a reader.
    pub fn message(&self) -> (text: String)
        ensures
            text@ == message_of(self@),
    {
        match self {
            RequestProcessorError::NotFound { kind, id } => {
                let mut text = kind.clone();
                text.append(" with id ");
                text.append(id_to_string(*id).as_str());
                text.append(" not found");
                text
            },
            RequestProcessorError::Parse(m) => {
                let mut text = "Unable to parse to enum: ".to_owned();
                text.append(m.as_str());
                text
            },
            RequestProcessorError::Db(m) => m.clone(),
            RequestProcessorError::UuidParse(m) => m.clone(),
            RequestProcessorError::JsonSerialize(m) => m.clone(),
            RequestProcessorError::Processing { origin: _, message } => message.clone(),
            RequestProcessorError::Locking(m) => m.clone(),
            RequestProcessorError::TimeParse(m) => m.clone(),
            RequestProcessorError::Custom(m) => m.clone(),
            RequestProcessorError::EmptyDbField(m) => m.clone(),
        }
    }

    /// The HTTP status that the error is answered with.
    pub fn status_code(&self) -> (code: u16)
        ensures
            code == status_of(self@),
    {
        match self {
            RequestProcessorError::NotFound { .. } => 404,
            RequestProcessorError::Processing { origin: Origin::Outbound, .. } => 502,
            _ => 500,
        }
    }

    /// A copy of the error.
    pub fn duplicate(&self) -> (copy: RequestProcessorError)
        ensures
            copy@ == self@,
    {
        match self {
            RequestProcessorError::NotFound { kind, id } => RequestProcessorError::NotFound {
                kind: kind.clone(),
                id: *id,
            },
            RequestProcessorError::Db(m) => RequestProcessorError::Db(m.clone()),
            RequestProcessorError::Parse(m) => RequestProcessorError::Parse(m.clone()),
            RequestProcessorError::UuidParse(m) => RequestProcessorError::UuidParse(m.clone()),
            RequestProcessorError::JsonSerialize(m) => RequestProcessorError::JsonSerialize(
                m.clone(),
            ),
            RequestProcessorError::Processing { origin, message } => {
                RequestProcessorError::Processing { origin: *origin, message: message.clone() }
            },
            RequestProcessorError::Locking(m) => RequestProcessorError::Locking(m.clone()),
            RequestProcessorError::TimeParse(m) => RequestProcessorError::TimeParse(m.clone()),
            RequestProcessorError::Custom(m) => RequestProcessorError::Custom(m.clone()),
            RequestProcessorError::EmptyDbField(m) => RequestProcessorError::EmptyDbField(
                m.clone(),
            ),
        }
    }
}

/// A failure to take an internal lock, as the HTTP layer carries it.
#[derive(Debug)]
pub struct FhLockingError<T> {
    pub err: T,
}

impl<T> FhLockingError<T> {
    pub fn new(err: T) -> (e: Self)
        ensures
            e.err == err,
    {
        Self { err }
    }
}

/// A failure of the engine, as the HTTP layer carries it.
#[derive(Debug)]
pub struct FhProcessorError<T> {
    pub err: T,
}

impl<T> FhProcessorError<T> {
    pub fn new(err: T) -> (e: Self)
        ensures
            e.err == err,
    {
        Self { err }
    }
}

/// Any failure that a request handler hands to the HTTP layer.
#[derive(Debug)]
pub struct FhHttpError<T> {
    pub err: T,
}

impl<T> FhHttpError<T> {
    pub fn new(err: T) -> (e: Self)
        ensures
            e.err == err,
    {
        Self { err }
    }
}

/// Why the HTTP layer turned a request down.
#[derive(Debug)]
pub enum Rejection {
    /// No route matched the request.
    NotFound,
    /// The reply channel closed before a reply came; the text says how.
    Recv(String),
    /// A command was answered with an error.
    Processor(RequestProcessorError),
    /// A route matched the path, but not the method.
    MethodNotAllowed,
    /// The request body could not be read as what the route expects.
    BodyDeserialize(String),
    /// Anything else.
    Unhandled,
}

/// The body of an error answer.
#[derive(Debug)]
pub struct ErrorMessage {
    pub code: u16,
    pub message: String,
}

/// The status of the answer to a rejection.
pub open spec fn rejection_code(r: Rejection) -> u16 {
    match r {
        Rejection::NotFound => 404,
        Rejection::Recv(m) => 500,
        Rejection::Processor(e) => status_of(e@),
        Rejection::MethodNotAllowed => 405,
        Rejection::BodyDeserialize(m) => 400,
        Rejection::Unhandled => 500,
    }
}

/// The message of the answer to a rejection.
pub open spec fn rejection_message(r: Rejection) -> Seq<char> {
    match r {
        Rejection::NotFound => "NOT_FOUND"@,
        Rejection::Recv(m) => m@,
        Rejection::Processor(e) => message_of(e@),
        Rejection::MethodNotAllowed => "METHOD_NOT_ALLOWED"@,
        Rejection::BodyDeserialize(m) => m@,
        Rejection::Unhandled => "UNHANDLED_REJECTION"@,
    }
}

/// Renders a rejection as the status and message of the answer. The status
/// of the HTTP answer is the `code` of the result.
pub fn handle_rejections(err: &Rejection) -> (answer: ErrorMessage)
    ensures
        answer.code == rejection_code(*err),
        answer.message@ == rejection_message(*err),
{
    match err {
        Rejection::NotFound => ErrorMessage { code: 404, message: "NOT_FOUND".to_owned() },
        Rejection::Recv(m) => ErrorMessage { code: 500, message: m.clone() },
        Rejection::Processor(e) => ErrorMessage { code: e.status_code(), message: e.message() },
        Rejection::MethodNotAllowed => ErrorMessage {
            code: 405,
            message: "METHOD_NOT_ALLOWED".to_owned(),
        },
        Rejection::BodyDeserialize(m) => ErrorMessage { code: 400, message: m.clone() },
        Rejection::Unhandled => ErrorMessage {
            code: 500,
            message: "UNHANDLED_REJECTION".to_owned(),
        },
    }
}

} // verus!
