//! The failures that end an operation. Every one is final: nothing in this
//! library retries.

use vstd::prelude::*;
use vstd::string::*;

verus! {

/// Why an operation failed.
#[derive(Debug, PartialEq, Eq)]
pub enum Error {
    /// The configuration cannot be read, or holds a value that cannot be used.
    Config(String),
    /// A transport-level failure of an HTTP call.
    Network(String),
    /// The redirect carried a state that is not the one this attempt sent.
    StateMismatch,
    /// The loopback connection ended before a code was delivered.
    ServerClosed,
    /// The token endpoint refused the request; holds the provider's response
    /// body as it came.
    TokenExchange(String),
    /// The token cache is present but cannot be used.
    Cache(String),
    /// The resource API refused a request; holds the status line and the
    /// response body as it came.
    Api { status: String, body: String },
    /// A text that should have been a document or a URL is malformed.
    Parse(String),
    /// The driver reported something that the operation was not waiting for.
    Unexpected,
    /// A command cannot be carried out; holds the reason.
    Command(String),
    /// A command met something that this program does not handle yet.
    NotImplemented,
}

/// An `Error` with its texts as character sequences.
pub enum ErrorView {
    Config(Seq<char>),
    Network(Seq<char>),
    StateMismatch,
    ServerClosed,
    TokenExchange(Seq<char>),
    Cache(Seq<char>),
    Api { status: Seq<char>, body: Seq<char> },
    Parse(Seq<char>),
    Unexpected,
    Command(Seq<char>),
    NotImplemented,
}

impl View for Error {
    type V = ErrorView;

    open spec fn view(&self) -> ErrorView {
        match self {
            Error::Config(m) => ErrorView::Config(m@),
            Error::Network(m) => ErrorView::Network(m@),
            Error::StateMismatch => ErrorView::StateMismatch,
            Error::ServerClosed => ErrorView::ServerClosed,
            Error::TokenExchange(m) => ErrorView::TokenExchange(m@),
            Error::Cache(m) => ErrorView::Cache(m@),
            Error::Api { status, body } => ErrorView::Api { status: status@, body: body@ },
            Error::Parse(m) => ErrorView::Parse(m@),
            Error::Unexpected => ErrorView::Unexpected,
            Error::Command(m) => ErrorView::Command(m@),
            Error::NotImplemented => ErrorView::NotImplemented,
        }
    }
}

impl ErrorView {
    /// The text shown to the user.
    pub open spec fn message(self) -> Seq<char> {
        match self {
            ErrorView::Config(m) => m,
            ErrorView::Network(m) => m,
            ErrorView::StateMismatch => "state mismatch."@,
            ErrorView::ServerClosed => "failed to serve code."@,
            ErrorView::TokenExchange(body) => "failed to get access token. "@ + body,
            ErrorView::Cache(m) => m,
            ErrorView::Api { status, body } => "failed to request("@ + status + ").: "@ + body,
            ErrorView::Parse(m) => m,
            ErrorView::Unexpected => "unexpected event."@,
            ErrorView::Command(m) => m,
            ErrorView::NotImplemented => "not yet implemented"@,
        }
    }
}

impl Clone for Error {
    fn clone(&self) -> (r: Self)
        ensures
            r@ == self@,
    {
        match self {
            Error::Config(m) => Error::Config(m.clone()),
            Error::Network(m) => Error::Network(m.clone()),
            Error::StateMismatch => Error::StateMismatch,
            Error::ServerClosed => Error::ServerClosed,
            Error::TokenExchange(m) => Error::TokenExchange(m.clone()),
            Error::Cache(m) => Error::Cache(m.clone()),
            Error::Api { status, body } => Error::Api { status: status.clone(), body: body.clone() },
            Error::Parse(m) => Error::Parse(m.clone()),
            Error::Unexpected => Error::Unexpected,
            Error::Command(m) => Error::Command(m.clone()),
            Error::NotImplemented => Error::NotImplemented,
        }
    }
}

impl Error {
    /// The text shown to the user. For a refusal by the token endpoint or by
    /// the resource API it ends with the response body, unchanged.
    pub fn message(&self) -> (text: String)
        ensures
            text@ == self@.message(),
    {
        match self {
            Error::Config(m) => m.clone(),
            Error::Network(m) => m.clone(),
            Error::StateMismatch => String::from_str("state mismatch."),
            Error::ServerClosed => String::from_str("failed to serve code."),
            Error::TokenExchange(body) => {
                let mut text = String::from_str("failed to get access token. ");
                text.append(body.as_str());
                text
            },
            Error::Cache(m) => m.clone(),
            Error::Api { status, body } => {
                let mut text = String::from_str("failed to request(");
                text.append(status.as_str());
                text.append(").: ");
                text.append(body.as_str());
                text
            },
            Error::Parse(m) => m.clone(),
            Error::Unexpected => String::from_str("unexpected event."),
            Error::Command(m) => m.clone(),
            Error::NotImplemented => String::from_str("not yet implemented"),
        }
    }
}

/// The message of a refusal ends with the response body exactly as the
/// server sent it.
pub proof fn lemma_message_carries_body(error: ErrorView)
    ensures
        error matches ErrorView::TokenExchange(body) ==> error.message().subrange(
            error.message().len() - body.len(),
            error.message().len() as int,
        ) == body,
        error matches ErrorView::Api { status, body } ==> error.message().subrange(
            error.message().len() - body.len(),
            error.message().len() as int,
        ) == body,
{
    match error {
        ErrorView::TokenExchange(body) => {
            let m = error.message();
            assert(m.subrange(m.len() - body.len(), m.len() as int) =~= body);
        },
        ErrorView::Api { status, body } => {
            let m = error.message();
            assert(m.subrange(m.len() - body.len(), m.len() as int) =~= body);
        },
        _ => {},
    }
}

} // verus!
