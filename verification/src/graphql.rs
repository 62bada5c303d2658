//! The outward-facing error payload handed to the API layer.

use vstd::prelude::*;

verus! {

/// The detail part of an outward error.
#[derive(Debug, Clone, PartialEq, Eq)]
pub enum Details {
    /// A single line of text.
    Text(String),
    /// The status line of an upstream answer that carried no structured message.
    Status { status: String },
    /// The status line, code and message of an upstream answer.
    Api { status: String, code: String, message: String },
}

/// Mathematical model of [`Details`].
pub enum DetailsView {
    Text(Seq<char>),
    Status { status: Seq<char> },
    Api { status: Seq<char>, code: Seq<char>, message: Seq<char> },
}

impl View for Details {
    type V = DetailsView;

    open spec fn view(&self) -> DetailsView {
        match *self {
            Details::Text(text) => DetailsView::Text(text@),
            Details::Status { status } => DetailsView::Status { status: status@ },
            Details::Api { status, code, message } => DetailsView::Api {
                status: status@,
                code: code@,
                message: message@,
            },
        }
    }
}

/// An error as the outward API reports it: a headline, a numeric code and details.
#[derive(Debug, Clone, PartialEq, Eq)]
pub struct GraphqlError {
    pub message: String,
    pub code: u32,
    pub details: Details,
}

/// Mathematical model of [`GraphqlError`].
pub struct GraphqlErrorView {
    pub message: Seq<char>,
    pub code: u32,
    pub details: DetailsView,
}

impl View for GraphqlError {
    type V = GraphqlErrorView;

    open spec fn view(&self) -> GraphqlErrorView {
        GraphqlErrorView { message: self.message@, code: self.code, details: self.details@ }
    }
}

} // verus!
