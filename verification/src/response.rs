//! HTTP responses as plain values, and the mapping from lookup outcomes to
//! responses.

use crate::error::RedirectGetError;
use crate::json::{frame_error_body, framed_body, is_plain, json_string_literal, quoted};
use crate::resolve::{RedirectGetResponse, RedirectView};
use vstd::prelude::*;

verus! {

/// One header line of a response.
#[derive(Debug, PartialEq, Eq)]
pub struct ResponseHeader {
    pub name: String,
    pub value: String,
}

impl View for ResponseHeader {
    type V = (Seq<char>, Seq<char>);

    open spec fn view(&self) -> (Seq<char>, Seq<char>) {
        (self.name@, self.value@)
    }
}

/// The body of a response.
#[derive(Debug, PartialEq, Eq)]
pub enum Body {
    /// No body at all.
    Empty,
    /// A body of text.
    Text(String),
}

impl View for Body {
    type V = Option<Seq<char>>;

    open spec fn view(&self) -> Option<Seq<char>> {
        match self {
            Body::Empty => None,
            Body::Text(text) => Some(text@),
        }
    }
}

/// An HTTP response: status code, header lines in order, and body.
#[derive(Debug, PartialEq, Eq)]
pub struct HttpResponse {
    pub status: u16,
    pub headers: Vec<ResponseHeader>,
    pub body: Body,
}

/// The mathematical value of an [`HttpResponse`].
pub struct HttpResponseView {
    pub status: u16,
    pub headers: Seq<(Seq<char>, Seq<char>)>,
    pub body: Option<Seq<char>>,
}

impl View for HttpResponse {
    type V = HttpResponseView;

    open spec fn view(&self) -> HttpResponseView {
        HttpResponseView {
            status: self.status,
            headers: self.headers@.map_values(|h: ResponseHeader| h@),
            body: self.body@,
        }
    }
}

/// The body that reports `error`: a JSON object with the error's name under
/// `type` and its description under `message`.
pub open spec fn error_body(error: RedirectGetError) -> Seq<char> {
    framed_body(quoted(error.spec_kind_name()), quoted(error.spec_message()))
}

/// The response that reports `error`: the error's status code, a JSON
/// content type, and the error body.
pub open spec fn error_response(error: RedirectGetError) -> HttpResponseView {
    HttpResponseView {
        status: error.spec_status(),
        headers: seq![("Content-Type"@, "application/json"@)],
        body: Some(error_body(error)),
    }
}

/// The permanent redirect to `location`: status 301, the location in the
/// `Location` header, and no body.
pub open spec fn redirect_response(location: Seq<char>) -> HttpResponseView {
    HttpResponseView { status: 301, headers: seq![("Location"@, location)], body: None }
}

/// The response that a lookup outcome is answered with.
pub open spec fn response_for(outcome: Result<RedirectView, RedirectGetError>) -> HttpResponseView {
    match outcome {
        Ok(redirect) => redirect_response(redirect.location),
        Err(error) => error_response(error),
    }
}

/// The names and descriptions of all errors are free of characters that
/// JSON escapes.
pub proof fn lemma_error_texts_are_plain(error: RedirectGetError)
    ensures
        is_plain(error.spec_kind_name()),
        is_plain(error.spec_message()),
{
    reveal_strlit("HostNotFound");
    reveal_strlit("BadRequest");
    reveal_strlit("InvalidFormat");
    reveal_strlit("UnknownError");
    reveal_strlit("No redirect location found for the given host");
    reveal_strlit("The request was invalid");
    reveal_strlit("The redirect record is invalid");
    reveal_strlit("An unknown error condition occurred");
}

impl RedirectGetError {
    /// Renders the failure as an HTTP response.
    pub fn into_response(self) -> (response: HttpResponse)
        ensures
            response@ == error_response(self),
    {
        let status = self.status();
        let kind = self.kind_name();
        let message = self.message();
        proof {
            lemma_error_texts_are_plain(self);
        }
        let kind_json = json_string_literal(kind.as_str());
        let message_json = json_string_literal(message.as_str());
        let body = frame_error_body(kind_json.as_str(), message_json.as_str());
        let mut headers: Vec<ResponseHeader> = Vec::new();
        headers.push(
            ResponseHeader { name: "Content-Type".to_owned(), value: "application/json".to_owned() },
        );
        let response = HttpResponse { status, headers, body: Body::Text(body) };
        assert(response@.headers =~= error_response(self).headers);
        response
    }
}

impl RedirectGetResponse {
    /// Renders the redirect as an HTTP response.
    pub fn into_response(self) -> (response: HttpResponse)
        ensures
            response@ == redirect_response(self@.location),
    {
        let mut headers: Vec<ResponseHeader> = Vec::new();
        headers.push(ResponseHeader { name: "Location".to_owned(), value: self.redirect.location });
        let response = HttpResponse { status: 301, headers, body: Body::Empty };
        assert(response@.headers =~= redirect_response(self@.location).headers);
        response
    }
}

/// The response mapper: renders a lookup outcome as an HTTP response.
pub fn to_response(outcome: Result<RedirectGetResponse, RedirectGetError>) -> (response:
    HttpResponse)
    ensures
        response@ == response_for(crate::resolve::outcome_view(outcome)),
{
    match outcome {
        Ok(found) => found.into_response(),
        Err(error) => error.into_response(),
    }
}

} // verus!
