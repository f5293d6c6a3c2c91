//! From what the store answered to a redirect, or to the reason why there
//! is none.

use crate::error::RedirectGetError;
use crate::store::{
    AttributeValueView, GetItemOutput, GetItemQuery, GetItemQueryView, ResolverConfig, StoreReply,
    StoreReplyView,
};
use vstd::prelude::*;

verus! {

/// A redirect record: requests for `host` are sent on to `location`.
#[derive(Debug, PartialEq, Eq)]
pub struct Redirect {
    pub host: String,
    pub location: String,
}

/// The mathematical value of a [`Redirect`].
pub struct RedirectView {
    pub host: Seq<char>,
    pub location: Seq<char>,
}

impl View for Redirect {
    type V = RedirectView;

    open spec fn view(&self) -> RedirectView {
        RedirectView { host: self.host@, location: self.location@ }
    }
}

/// The successful outcome of a lookup.
#[derive(Debug, PartialEq, Eq)]
pub struct RedirectGetResponse {
    pub redirect: Redirect,
}

impl View for RedirectGetResponse {
    type V = RedirectView;

    open spec fn view(&self) -> RedirectView {
        self.redirect@
    }
}

/// The outcome of a lookup, over views.
pub open spec fn outcome_view(
    outcome: Result<RedirectGetResponse, RedirectGetError>,
) -> Result<RedirectView, RedirectGetError> {
    match outcome {
        Ok(response) => Ok(response@),
        Err(error) => Err(error),
    }
}

/// The name of the attribute that holds a record's redirect location.
pub open spec fn location_attribute() -> Seq<char> {
    "location"@
}

/// What a store answer means for `host`.
///
/// No record, or a record without a location, means that the host is not
/// known. A location that is not a string, or is the empty string, means
/// that the record is malformed. Any other location is the redirect.
pub open spec fn lookup_outcome(
    host: Seq<char>,
    item: Option<Map<Seq<char>, AttributeValueView>>,
) -> Result<RedirectView, RedirectGetError> {
    match item {
        None => Err(RedirectGetError::HostNotFound),
        Some(record) => if !record.contains_key(location_attribute()) {
            Err(RedirectGetError::HostNotFound)
        } else {
            match record[location_attribute()] {
                AttributeValueView::S(location) => if location.len() > 0 {
                    Ok(RedirectView { host, location })
                } else {
                    Err(RedirectGetError::InvalidFormat)
                },
                _ => Err(RedirectGetError::InvalidFormat),
            }
        },
    }
}

/// What the end of a point read means for `host`: a failed read is an
/// unknown error, an answer is judged by [`lookup_outcome`].
pub open spec fn resolve_outcome(host: Seq<char>, reply: StoreReplyView) -> Result<
    RedirectView,
    RedirectGetError,
> {
    match reply {
        StoreReplyView::Failed => Err(RedirectGetError::UnknownError),
        StoreReplyView::Answered(item) => lookup_outcome(host, item),
    }
}

/// The point read that looks `host` up in `table_name`: records are keyed
/// by the exact host string under the attribute `host`.
pub open spec fn host_query(table_name: Seq<char>, host: Seq<char>) -> GetItemQueryView {
    GetItemQueryView { table_name, key_attribute: "host"@, key: host }
}

/// Builds the one point read that a lookup of `host` makes.
pub fn query_for_host(config: &ResolverConfig, host: &str) -> (query: GetItemQuery)
    ensures
        query@ == host_query(config.table_name@, host@),
{
    GetItemQuery {
        table_name: config.table_name.clone(),
        key_attribute: "host".to_owned(),
        key: host.to_owned(),
    }
}

/// Judges what the store answered for `host`.
///
/// Returns the redirect where the record has a non-empty string under
/// `location`, `HostNotFound` where there is no record or the record has no
/// `location`, and `InvalidFormat` where `location` holds anything else.
pub fn get_item_to_response(host: &str, output: GetItemOutput) -> (outcome: Result<
    RedirectGetResponse,
    RedirectGetError,
>)
    ensures
        outcome_view(outcome) == lookup_outcome(host@, output@),
{
    let record = if let Some(item) = output.item {
        item
    } else {
        return Err(RedirectGetError::HostNotFound);
    };

    let location_raw = if let Some(location_value) = record.get("location") {
        location_value.as_s()
    } else {
        return Err(RedirectGetError::HostNotFound);
    };

    if let Ok(location) = location_raw {
        if location.as_str().is_empty() {
            Err(RedirectGetError::InvalidFormat)
        } else {
            Ok(
                RedirectGetResponse {
                    redirect: Redirect { host: host.to_owned(), location: location.clone() },
                },
            )
        }
    } else {
        Err(RedirectGetError::InvalidFormat)
    }
}

/// The redirect resolver: judges how a point read for `host` ended.
///
/// A failed read gives `UnknownError`, whatever the store holds; an answer
/// is judged as [`get_item_to_response`] does.
pub fn resolve(host: &str, reply: StoreReply) -> (outcome: Result<
    RedirectGetResponse,
    RedirectGetError,
>)
    ensures
        outcome_view(outcome) == resolve_outcome(host@, reply@),
{
    match reply {
        StoreReply::Failed => Err(RedirectGetError::UnknownError),
        StoreReply::Answered(output) => get_item_to_response(host, output),
    }
}

} // verus!
