//! What is sent to the provider and what comes back, as plain values.
//!
//! A [`Request`] says everything about one HTTP request that this client
//! decides; a [`Reply`] holds everything about the outcome that this client
//! reads. Sending the one and receiving the other is left to the caller.

use vstd::prelude::*;

use crate::ringgo::errors::Error;
use crate::ringgo::json::{parse_json, parsed_json, Json, JsonView};

verus! {

/// The status with which the provider reports success.
pub const STATUS_OK: u16 = 200;

/// The status with which the provider rejects credentials or a token.
pub const STATUS_UNAUTHORIZED: u16 = 401;

/// The HTTP method of a request.
#[derive(Debug, Clone, Copy, PartialEq, Eq, Structural)]
pub enum Method {
    Get,
    Post,
}

/// The body of a request.
#[derive(Debug, PartialEq, Eq)]
pub enum Payload {
    /// No body.
    Empty,
    /// A form, sent URL-encoded: its fields in the order in which they are
    /// written, each a name and a value.
    Form(Vec<(String, String)>),
    /// A JSON document.
    Json(Json),
}

/// What a [`Payload`] holds, with every string as its characters.
pub enum PayloadView {
    Empty,
    Form(Seq<(Seq<char>, Seq<char>)>),
    Json(JsonView),
}

impl View for Payload {
    type V = PayloadView;

    open spec fn view(&self) -> PayloadView {
        match self {
            Payload::Empty => PayloadView::Empty,
            Payload::Form(fields) => PayloadView::Form(fields.deep_view()),
            Payload::Json(document) => PayloadView::Json(document@),
        }
    }
}

/// One HTTP request.
#[derive(Debug, PartialEq, Eq)]
pub struct Request {
    pub method: Method,
    /// The full address, query included.
    pub url: String,
    /// The token to present as a bearer credential, if any.
    pub bearer: Option<String>,
    pub payload: Payload,
}

/// What a [`Request`] holds, with every string as its characters.
pub struct RequestView {
    pub method: Method,
    pub url: Seq<char>,
    pub bearer: Option<Seq<char>>,
    pub payload: PayloadView,
}

impl View for Request {
    type V = RequestView;

    open spec fn view(&self) -> RequestView {
        RequestView {
            method: self.method,
            url: self.url@,
            bearer: self.bearer.deep_view(),
            payload: self.payload@,
        }
    }
}

/// The outcome of one HTTP request.
#[derive(Debug, PartialEq, Eq)]
pub enum Reply {
    /// The request did not complete: there is no response.
    Failed,
    /// The provider answered with this status and these bytes as the body.
    Answered { status: u16, body: Vec<u8> },
}

impl Reply {
    /// The body of the response where it reports success, and otherwise the
    /// error that this reply amounts to: [`Error::HttpError`] where there is
    /// no response, [`Error::Unauthorized`] for status 401, and
    /// [`Error::Unknown`] for every other status but 200.
    pub open spec fn spec_success_body(self) -> Result<Seq<u8>, Error> {
        match self {
            Reply::Failed => Err(Error::HttpError),
            Reply::Answered { status, body } => if status == STATUS_UNAUTHORIZED {
                Err(Error::Unauthorized)
            } else if status == STATUS_OK {
                Ok(body@)
            } else {
                Err(Error::Unknown)
            },
        }
    }

    /// The document in the body of the response where it reports success and
    /// the parser reads a document from its body, and otherwise the error
    /// that this reply amounts to: that of [`Reply::spec_success_body`], or
    /// [`Error::Unknown`] for a body from which no document is read.
    pub open spec fn spec_document(self) -> Result<JsonView, Error> {
        match self.spec_success_body() {
            Ok(body) => match parsed_json(body) {
                Some(document) => Ok(document),
                None => Err(Error::Unknown),
            },
            Err(error) => Err(error),
        }
    }

    /// Returns the body of the response where it reports success, and
    /// otherwise the error that this reply amounts to.
    pub fn success_body(&self) -> (result: Result<&Vec<u8>, Error>)
        ensures
            match result {
                Ok(body) => self.spec_success_body() == Ok::<Seq<u8>, Error>(body@),
                Err(error) => self.spec_success_body() == Err::<Seq<u8>, Error>(error),
            },
    {
        match self {
            Reply::Failed => Err(Error::HttpError),
            Reply::Answered { status, body } => {
                if *status == STATUS_UNAUTHORIZED {
                    Err(Error::Unauthorized)
                } else if *status == STATUS_OK {
                    Ok(body)
                } else {
                    Err(Error::Unknown)
                }
            },
        }
    }

    /// Parses the body of the response where it reports success, and
    /// otherwise returns the error that this reply amounts to.
    pub fn document(&self) -> (result: Result<Json, Error>)
        ensures
            match result {
                Ok(document) => self.spec_document() == Ok::<JsonView, Error>(document@),
                Err(error) => self.spec_document() == Err::<JsonView, Error>(error),
            },
    {
        match self.success_body() {
            Ok(body) => match parse_json(body.as_slice()) {
                Some(document) => Ok(document),
                None => Err(Error::Unknown),
            },
            Err(error) => Err(error),
        }
    }
}

} // verus!
