//! The request handler as two decisions around the one store read: what to
//! do with a request, and what to answer once the read has ended.

use crate::error::RedirectGetError;
use crate::request::{get_request_header, header_text, header_value, Request};
use crate::resolve::{host_query, lookup_outcome, query_for_host, resolve, resolve_outcome};
use crate::response::{
    error_response, redirect_response, response_for, to_response, HttpResponse, HttpResponseView,
};
use crate::store::{
    AttributeValueView, GetItemQuery, GetItemQueryView, ResolverConfig, StoreReply, StoreReplyView,
};
use vstd::prelude::*;
use vstd::utf8::*;

verus! {

/// What the handler does next with a request.
#[derive(Debug, PartialEq, Eq)]
pub enum Step {
    /// Read the store with `query`, then answer for `host`.
    Lookup { host: String, query: GetItemQuery },
    /// Answer at once, without reading the store.
    Respond(HttpResponse),
}

/// The mathematical value of a [`Step`].
pub enum StepView {
    Lookup { host: Seq<char>, query: GetItemQueryView },
    Respond(HttpResponseView),
}

impl View for Step {
    type V = StepView;

    open spec fn view(&self) -> StepView {
        match self {
            Step::Lookup { host, query } => StepView::Lookup { host: host@, query: query@ },
            Step::Respond(response) => StepView::Respond(response@),
        }
    }
}

/// The name of the header that carries the requested host.
pub open spec fn host_header() -> Seq<char> {
    "Host"@
}

/// The step that a request calls for: a lookup of its host in
/// `table_name`, or the bad-request response where it names no host.
pub open spec fn first_step(table_name: Seq<char>, request: Seq<(Seq<char>, Seq<u8>)>) -> StepView {
    match header_text(request, host_header()) {
        Ok(host) => StepView::Lookup { host, query: host_query(table_name, host) },
        Err(error) => StepView::Respond(error_response(error)),
    }
}

/// The response for `host` once its lookup has ended with `reply`.
pub open spec fn final_response(host: Seq<char>, reply: StoreReplyView) -> HttpResponseView {
    response_for(resolve_outcome(host, reply))
}

/// The response to a request, given how the store ends each point read.
pub open spec fn handle(
    table_name: Seq<char>,
    request: Seq<(Seq<char>, Seq<u8>)>,
    store: spec_fn(GetItemQueryView) -> StoreReplyView,
) -> HttpResponseView {
    match first_step(table_name, request) {
        StepView::Respond(response) => response,
        StepView::Lookup { host, query } => final_response(host, store(query)),
    }
}

/// Decides what to do with a request: look its host up, or answer at once
/// that the request is bad.
pub fn on_request(config: &ResolverConfig, event: Request) -> (step: Step)
    ensures
        step@ == first_step(config.table_name@, event@),
{
    match get_request_header(event, "Host") {
        Ok(host) => {
            let query = query_for_host(config, host.as_str());
            Step::Lookup { host, query }
        },
        Err(error) => Step::Respond(error.into_response()),
    }
}

/// Decides the response for `host` once its lookup has ended with `reply`.
pub fn on_store_reply(host: &str, reply: StoreReply) -> (response: HttpResponse)
    ensures
        response@ == final_response(host@, reply@),
{
    to_response(resolve(host, reply))
}

/// Whether a request names its host in a way that can be read: it has a
/// `Host` header line, and the first such line holds valid UTF-8.
pub open spec fn names_host(request: Seq<(Seq<char>, Seq<u8>)>) -> bool {
    match header_value(request, host_header()) {
        Some(bytes) => valid_utf8(bytes),
        None => false,
    }
}

/// A request that does not name its host is answered with the bad-request
/// response, status 400, whatever the store holds.
pub proof fn lemma_unnamed_host_is_bad_request(
    table_name: Seq<char>,
    request: Seq<(Seq<char>, Seq<u8>)>,
    store: spec_fn(GetItemQueryView) -> StoreReplyView,
)
    requires
        !names_host(request),
    ensures
        header_text(request, host_header()) == Err::<Seq<char>, RedirectGetError>(
            RedirectGetError::BadRequest,
        ),
        first_step(table_name, request) == StepView::Respond(
            error_response(RedirectGetError::BadRequest),
        ),
        handle(table_name, request, store) == error_response(RedirectGetError::BadRequest),
        handle(table_name, request, store).status == 400,
{
}

/// A request that names its host leads to exactly one point read, keyed by
/// that host, and is answered for that host from how the read ends; the
/// answer is never the bad-request response.
pub proof fn lemma_named_host_is_looked_up(
    table_name: Seq<char>,
    request: Seq<(Seq<char>, Seq<u8>)>,
    store: spec_fn(GetItemQueryView) -> StoreReplyView,
)
    requires
        names_host(request),
    ensures
        ({
            let host = decode_utf8(header_value(request, host_header())->Some_0);
            &&& first_step(table_name, request) == StepView::Lookup {
                host,
                query: host_query(table_name, host),
            }
            &&& handle(table_name, request, store) == final_response(
                host,
                store(host_query(table_name, host)),
            )
        }),
        handle(table_name, request, store).status != 400,
{
}

/// A host for which the store holds no record is not found: status 404.
pub proof fn lemma_absent_record_is_not_found(host: Seq<char>)
    ensures
        resolve_outcome(host, StoreReplyView::Answered(None)) == Err::<
            crate::resolve::RedirectView,
            RedirectGetError,
        >(RedirectGetError::HostNotFound),
        final_response(host, StoreReplyView::Answered(None)) == error_response(
            RedirectGetError::HostNotFound,
        ),
        final_response(host, StoreReplyView::Answered(None)).status == 404,
{
}

/// A host whose record has no location counts as not found, exactly as a
/// host without a record does: status 404.
pub proof fn lemma_record_without_location_is_not_found(
    host: Seq<char>,
    record: Map<Seq<char>, AttributeValueView>,
)
    requires
        !record.contains_key(crate::resolve::location_attribute()),
    ensures
        lookup_outcome(host, Some(record)) == Err::<crate::resolve::RedirectView, RedirectGetError>(
            RedirectGetError::HostNotFound,
        ),
        final_response(host, StoreReplyView::Answered(Some(record))) == final_response(
            host,
            StoreReplyView::Answered(None),
        ),
        final_response(host, StoreReplyView::Answered(Some(record))).status == 404,
{
}

/// A host whose record holds something other than a string under its
/// location is reported as a malformed record: status 500.
pub proof fn lemma_location_of_other_type_is_invalid(
    host: Seq<char>,
    record: Map<Seq<char>, AttributeValueView>,
)
    requires
        record.contains_key(crate::resolve::location_attribute()),
        !(record[crate::resolve::location_attribute()] is S),
    ensures
        lookup_outcome(host, Some(record)) == Err::<crate::resolve::RedirectView, RedirectGetError>(
            RedirectGetError::InvalidFormat,
        ),
        final_response(host, StoreReplyView::Answered(Some(record))) == error_response(
            RedirectGetError::InvalidFormat,
        ),
        final_response(host, StoreReplyView::Answered(Some(record))).status == 500,
{
}

/// A host whose record holds a non-empty string under its location is
/// redirected there: status 301, one `Location` header that holds the
/// stored string unchanged, and no body.
pub proof fn lemma_string_location_is_redirected(
    host: Seq<char>,
    record: Map<Seq<char>, AttributeValueView>,
    location: Seq<char>,
)
    requires
        record.contains_key(crate::resolve::location_attribute()),
        record[crate::resolve::location_attribute()] == AttributeValueView::S(location),
        location.len() > 0,
    ensures
        lookup_outcome(host, Some(record)) == Ok::<crate::resolve::RedirectView, RedirectGetError>(
            crate::resolve::RedirectView { host, location },
        ),
        final_response(host, StoreReplyView::Answered(Some(record))) == redirect_response(location),
        final_response(host, StoreReplyView::Answered(Some(record))).status == 301,
        final_response(host, StoreReplyView::Answered(Some(record))).headers == seq![
            ("Location"@, location),
        ],
        final_response(host, StoreReplyView::Answered(Some(record))).body is None,
{
}

/// A read that fails is reported as an unknown error, status 500, for every
/// host and whatever the store holds.
pub proof fn lemma_failed_read_is_unknown_error(host: Seq<char>)
    ensures
        resolve_outcome(host, StoreReplyView::Failed) == Err::<
            crate::resolve::RedirectView,
            RedirectGetError,
        >(RedirectGetError::UnknownError),
        final_response(host, StoreReplyView::Failed) == error_response(
            RedirectGetError::UnknownError,
        ),
        final_response(host, StoreReplyView::Failed).status == 500,
{
}

/// Every response is one of the five that the service knows: the redirect
/// with status 301, or the error response with status 400, 404 or 500, and
/// an error response always carries a JSON content type and a body.
pub proof fn lemma_response_is_redirect_or_error(
    table_name: Seq<char>,
    request: Seq<(Seq<char>, Seq<u8>)>,
    store: spec_fn(GetItemQueryView) -> StoreReplyView,
)
    ensures
        ({
            let response = handle(table_name, request, store);
            ||| response.status == 301 && response.body is None
            ||| {
                &&& response.status == 400 || response.status == 404 || response.status == 500
                &&& response.headers == seq![("Content-Type"@, "application/json"@)]
                &&& response.body is Some
            }
        }),
{
}

} // verus!
