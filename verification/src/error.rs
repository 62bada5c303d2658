//! The closed set of failures of an outbound call, and how each one is
//! reported outward.

use vstd::prelude::*;
use vstd::string::StringExecFns;
use crate::graphql::{Details, DetailsView, GraphqlError, GraphqlErrorView};
use crate::status::{status_line, StatusCode};
use crate::text::{decimal, decimal_text};

verus! {

/// The structured body of an answer that reports a failure.
#[derive(Debug, Clone, PartialEq, Eq)]
pub struct ErrorMessage {
    pub code: u16,
    pub message: String,
}

/// Mathematical model of [`ErrorMessage`].
pub struct ErrorMessageView {
    pub code: u16,
    pub message: Seq<char>,
}

impl View for ErrorMessage {
    type V = ErrorMessageView;

    open spec fn view(&self) -> ErrorMessageView {
        ErrorMessageView { code: self.code, message: self.message@ }
    }
}

/// Why an outbound call failed.
#[derive(Debug, Clone, PartialEq, Eq)]
pub enum Error {
    /// The service answered with a status outside the success range.
    Api(StatusCode, Option<ErrorMessage>),
    /// No usable answer was obtained; the text describes the transport's failure.
    Network(String),
    /// The request target or an answer's body was malformed.
    Parse(String),
    /// The plumbing of the client itself broke.
    Unknown(String),
}

/// Mathematical model of [`Error`].
pub enum ErrorView {
    Api(u16, Option<ErrorMessageView>),
    Network(Seq<char>),
    Parse(Seq<char>),
    Unknown(Seq<char>),
}

impl View for Error {
    type V = ErrorView;

    open spec fn view(&self) -> ErrorView {
        match *self {
            Error::Api(status, Some(message)) => ErrorView::Api(status@, Some(message@)),
            Error::Api(status, None) => ErrorView::Api(status@, None),
            Error::Network(text) => ErrorView::Network(text@),
            Error::Parse(text) => ErrorView::Parse(text@),
            Error::Unknown(text) => ErrorView::Unknown(text@),
        }
    }
}

/// The outcome of one raw exchange: the body of a successful answer, or the failure.
pub type ClientResult = Result<String, Error>;

/// Mathematical model of a [`ClientResult`].
pub open spec fn result_view(result: ClientResult) -> Result<Seq<char>, ErrorView> {
    match result {
        Ok(body) => Ok(body@),
        Err(error) => Err(error@),
    }
}

/// Outward code of an answer with a failure status.
pub const API_CODE: u32 = 100;

/// Outward code of a transport failure.
pub const NETWORK_CODE: u32 = 200;

/// Outward code of a malformed target or body.
pub const PARSE_CODE: u32 = 300;

/// Outward code of a broken client.
pub const UNKNOWN_CODE: u32 = 400;

impl ErrorView {
    /// Whether the failure is one that a further attempt may cure.
    pub open spec fn is_network(self) -> bool {
        self is Network
    }

    /// The outward code of the failure's kind.
    pub open spec fn code(self) -> u32 {
        match self {
            ErrorView::Api(..) => API_CODE,
            ErrorView::Network(_) => NETWORK_CODE,
            ErrorView::Parse(_) => PARSE_CODE,
            ErrorView::Unknown(_) => UNKNOWN_CODE,
        }
    }

    /// The one-line description of the failure.
    pub open spec fn description(self) -> Seq<char> {
        match self {
            ErrorView::Api(status, Some(message)) => "Http client 100: Api error: status: "@
                + status_line(status) + ", code: "@ + decimal(message.code as nat)
                + ", message: "@ + message.message,
            ErrorView::Api(status, None) => "Http client 100: Api error: status: "@ + status_line(
                status,
            ),
            ErrorView::Network(text) => "Http client 200: Network error: "@ + text,
            ErrorView::Parse(text) => "Http client 300: Parse error: "@ + text,
            ErrorView::Unknown(text) => "Http client 400: Unknown error: "@ + text,
        }
    }

    /// The failure as the outward API reports it. What the transport said of
    /// a network failure, and what broke inside the client, stay inside.
    pub open spec fn outward(self) -> GraphqlErrorView {
        match self {
            ErrorView::Api(status, Some(message)) => GraphqlErrorView {
                message: "Error response from microservice"@,
                code: API_CODE,
                details: DetailsView::Api {
                    status: status_line(status),
                    code: decimal(message.code as nat),
                    message: message.message,
                },
            },
            ErrorView::Api(status, None) => GraphqlErrorView {
                message: "Error response from microservice"@,
                code: API_CODE,
                details: DetailsView::Status { status: status_line(status) },
            },
            ErrorView::Network(_) => GraphqlErrorView {
                message: "Network error for microservice"@,
                code: NETWORK_CODE,
                details: DetailsView::Text("See server logs for details."@),
            },
            ErrorView::Parse(text) => GraphqlErrorView {
                message: "Unexpected parsing error"@,
                code: PARSE_CODE,
                details: DetailsView::Text(text),
            },
            ErrorView::Unknown(_) => GraphqlErrorView {
                message: "Unknown error for microservice"@,
                code: UNKNOWN_CODE,
                details: DetailsView::Text("See server logs for details."@),
            },
        }
    }
}

impl Error {
    /// Whether the failure is a transport failure, the one kind that is retried.
    pub fn is_network(&self) -> (r: bool)
        ensures
            r == self@.is_network(),
    {
        match self {
            Error::Network(_) => true,
            _ => false,
        }
    }

    /// Describes the failure in one line.
    pub fn to_string(&self) -> (r: String)
        ensures
            r@ == self@.description(),
    {
        match self {
            Error::Api(status, Some(message)) => {
                let mut text = String::from_str("Http client 100: Api error: status: ");
                let line = status.to_string();
                text.append(line.as_str());
                text.append(", code: ");
                let code = decimal_text(message.code as u64);
                text.append(code.as_str());
                text.append(", message: ");
                text.append(message.message.as_str());
                text
            },
            Error::Api(status, None) => {
                let mut text = String::from_str("Http client 100: Api error: status: ");
                let line = status.to_string();
                text.append(line.as_str());
                text
            },
            Error::Network(detail) => {
                let mut text = String::from_str("Http client 200: Network error: ");
                text.append(detail.as_str());
                text
            },
            Error::Parse(detail) => {
                let mut text = String::from_str("Http client 300: Parse error: ");
                text.append(detail.as_str());
                text
            },
            Error::Unknown(detail) => {
                let mut text = String::from_str("Http client 400: Unknown error: ");
                text.append(detail.as_str());
                text
            },
        }
    }

    /// Turns the failure into the error that the outward API reports.
    pub fn into_graphql(self) -> (r: GraphqlError)
        ensures
            r@ == self@.outward(),
            r@.code == self@.code(),
    {
        match self {
            Error::Api(status, Some(ErrorMessage { code, message })) => GraphqlError {
                message: String::from_str("Error response from microservice"),
                code: API_CODE,
                details: Details::Api {
                    status: status.to_string(),
                    code: decimal_text(code as u64),
                    message,
                },
            },
            Error::Api(status, None) => GraphqlError {
                message: String::from_str("Error response from microservice"),
                code: API_CODE,
                details: Details::Status { status: status.to_string() },
            },
            Error::Network(_) => GraphqlError {
                message: String::from_str("Network error for microservice"),
                code: NETWORK_CODE,
                details: Details::Text(String::from_str("See server logs for details.")),
            },
            Error::Parse(message) => GraphqlError {
                message: String::from_str("Unexpected parsing error"),
                code: PARSE_CODE,
                details: Details::Text(message),
            },
            Error::Unknown(_) => GraphqlError {
                message: String::from_str("Unknown error for microservice"),
                code: UNKNOWN_CODE,
                details: Details::Text(String::from_str("See server logs for details.")),
            },
        }
    }
}

/// The outward report of a transport failure, and of a failure of the
/// client itself, is the same whatever the failure's text: nothing of the
/// transport's internals is shown outward.
pub proof fn lemma_internals_stay_inside(kept: Seq<char>, other: Seq<char>)
    ensures
        ErrorView::Network(kept).outward() == ErrorView::Network(other).outward(),
        ErrorView::Unknown(kept).outward() == ErrorView::Unknown(other).outward(),
{
}

/// The outward report carries the code of the failure's kind, one of the
/// four codes.
pub proof fn lemma_outward_code(error: ErrorView)
    ensures
        error.outward().code == error.code(),
        error.code() == API_CODE || error.code() == NETWORK_CODE || error.code() == PARSE_CODE
            || error.code() == UNKNOWN_CODE,
        error.code() == NETWORK_CODE <==> error.is_network(),
{
}

} // verus!
