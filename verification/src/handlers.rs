//! What each request is answered with.

use crate::analytics::{
    track_request, umami_track_event, website_view, AnalyticsRequest, AnalyticsRequestView,
};
use crate::response::{
    Body, BodyView, Response, ResponseView, STATUS_INTERNAL_SERVER_ERROR,
    STATUS_MOVED_PERMANENTLY, STATUS_NOT_FOUND, STATUS_OK, STATUS_REQUEST_TIMEOUT,
    STATUS_SERVICE_UNAVAILABLE,
};
use crate::store::{
    distinct_codes, entries_map, lemma_entries_map_distinct, lemma_entries_map_domain,
    lemma_entries_map_last_wins, AppState,
};
use crate::text::{decimal, decimal_text};
use vstd::prelude::*;

verus! {

/// The body of the reply to an unknown short code.
pub const NOT_FOUND_BODY: &'static str = "{\"error\":\"Not Found\"}";

/// The body of the reply to a request that took too long.
pub const TIMED_OUT_BODY: &'static str = "request timed out";

/// The body of the reply to a request that was turned away under load.
pub const OVERLOADED_BODY: &'static str = "service is overloaded, try again later";

/// What the body of the reply to an unexpected failure begins with.
pub const UNHANDLED_PREFIX: &'static str = "Unhandled internal error: ";

/// Why the layers in front of the handlers gave a request up.
#[derive(Debug, Clone, PartialEq, Eq)]
pub enum ServiceError {
    /// The request was not answered within the time allowed.
    Elapsed,
    /// Too many requests were in flight, and this one was shed.
    Overloaded,
    /// Anything else, with the failure's own description.
    Other(String),
}

/// A failure with its description as a sequence of characters.
pub enum ServiceErrorView {
    Elapsed,
    Overloaded,
    Other(Seq<char>),
}

impl View for ServiceError {
    type V = ServiceErrorView;

    open spec fn view(&self) -> ServiceErrorView {
        match self {
            ServiceError::Elapsed => ServiceErrorView::Elapsed,
            ServiceError::Overloaded => ServiceErrorView::Overloaded,
            ServiceError::Other(description) => ServiceErrorView::Other(description@),
        }
    }
}

/// The reply to a request that a layer gave up: 408 for one that took too
/// long, 503 for one that was shed, and 500 with the description for any
/// other failure. Each carries plain text.
pub open spec fn error_reply(error: ServiceErrorView) -> ResponseView {
    match error {
        ServiceErrorView::Elapsed => ResponseView {
            status: STATUS_REQUEST_TIMEOUT,
            location: None,
            body: BodyView::Text(TIMED_OUT_BODY@),
        },
        ServiceErrorView::Overloaded => ResponseView {
            status: STATUS_SERVICE_UNAVAILABLE,
            location: None,
            body: BodyView::Text(OVERLOADED_BODY@),
        },
        ServiceErrorView::Other(description) => ResponseView {
            status: STATUS_INTERNAL_SERVER_ERROR,
            location: None,
            body: BodyView::Text(UNHANDLED_PREFIX@ + description),
        },
    }
}

/// The reply that redirects to `target` for good: 301, no body.
pub open spec fn moved_reply(target: Seq<char>) -> ResponseView {
    ResponseView { status: STATUS_MOVED_PERMANENTLY, location: Some(target), body: BodyView::Empty }
}

/// The reply to an unknown short code: 404 and a JSON object whose one
/// member, `error`, is the string `Not Found`.
pub open spec fn not_found_reply() -> ResponseView {
    ResponseView {
        status: STATUS_NOT_FOUND,
        location: None,
        body: BodyView::Json(NOT_FOUND_BODY@),
    }
}

/// The reply to a request for a short code: a redirect to exactly the
/// destination that the table has for the code, or the reply to an unknown
/// code.
pub open spec fn redirect_reply(table: Map<Seq<char>, Seq<char>>, shortcode: Seq<char>) -> ResponseView {
    if table.contains_key(shortcode) {
        moved_reply(table[shortcode])
    } else {
        not_found_reply()
    }
}

/// The report that a request for a short code gives rise to: one for a code
/// that the table has, none for an unknown code.
pub open spec fn redirect_notification(
    table: Map<Seq<char>, Seq<char>>,
    shortcode: Seq<char>,
    website_id: Option<Seq<char>>,
) -> Option<AnalyticsRequestView> {
    if table.contains_key(shortcode) {
        track_request(table[shortcode], shortcode, website_id)
    } else {
        None
    }
}

/// The reply to a request for the size of a table with `n` mappings: 200 and a
/// JSON object whose one member, `total_links`, is `n`.
pub open spec fn count_reply(n: nat) -> ResponseView {
    ResponseView {
        status: STATUS_OK,
        location: None,
        body: BodyView::Json("{\"total_links\":"@ + decimal(n) + "}"@),
    }
}

/// Turns a failure of the layers in front of the handlers into a reply.
pub fn handle_error(error: ServiceError) -> (reply: Response)
    ensures
        reply@ == error_reply(error@),
{
    match error {
        ServiceError::Elapsed => Response {
            status: STATUS_REQUEST_TIMEOUT,
            location: None,
            body: Body::Text(TIMED_OUT_BODY.to_string()),
        },
        ServiceError::Overloaded => Response {
            status: STATUS_SERVICE_UNAVAILABLE,
            location: None,
            body: Body::Text(OVERLOADED_BODY.to_string()),
        },
        ServiceError::Other(description) => {
            let mut text: String = UNHANDLED_PREFIX.to_string();
            text.append(description.as_str());
            Response { status: STATUS_INTERNAL_SERVER_ERROR, location: None, body: Body::Text(text) }
        },
    }
}

/// What a request for a short code calls for: the reply to give, and the
/// report to attempt before giving it.
#[derive(Debug, Clone, PartialEq, Eq)]
pub struct Redirection {
    pub response: Response,
    pub notification: Option<AnalyticsRequest>,
}

/// How the one attempt to deliver a report ended.
#[derive(Debug, Clone, Copy, PartialEq, Eq)]
pub enum Delivery {
    /// The collector accepted the report.
    Delivered,
    /// The collector answered with a status other than success.
    Rejected,
    /// The collector answered, but its answer could not be read.
    Unreadable,
    /// The request did not get through.
    Failed,
}

impl Redirection {
    /// The reply to give once the report was attempted. It is the reply that
    /// was decided before the attempt, however the attempt ended.
    pub fn conclude(self, delivery: Delivery) -> (reply: Response)
        ensures
            reply == self.response,
    {
        self.response
    }
}

/// Answers a request for a short code.
///
/// The reply depends on the table and the code alone. The website identifier
/// only goes into the report.
pub fn redirect_to_link(
    state: &AppState,
    shortcode: &str,
    website_id: Option<&str>,
) -> (outcome: Redirection)
    ensures
        outcome.response@ == redirect_reply(state@, shortcode@),
        match outcome.notification {
            Some(request) => redirect_notification(state@, shortcode@, website_view(website_id))
                == Some(request@),
            None => redirect_notification(state@, shortcode@, website_view(website_id)) is None,
        },
{
    match state.lookup(shortcode) {
        Some(url) => Redirection {
            response: Response {
                status: STATUS_MOVED_PERMANENTLY,
                location: Some(url.clone()),
                body: Body::Empty,
            },
            notification: umami_track_event(url.as_str(), shortcode, website_id),
        },
        None => Redirection {
            response: Response {
                status: STATUS_NOT_FOUND,
                location: None,
                body: Body::Json(NOT_FOUND_BODY.to_string()),
            },
            notification: None,
        },
    }
}

/// Answers a request for the size of the table.
pub fn get_links_count(state: &AppState) -> (reply: Response)
    ensures
        reply@ == count_reply(state@.len()),
{
    let mut text: String = "{\"total_links\":".to_string();
    let digits: String = decimal_text(state.count());
    text.append(digits.as_str());
    text.append("}");
    Response { status: STATUS_OK, location: None, body: Body::Json(text) }
}

/// A table that was loaded from entries serves every entry that no later
/// entry overrides: the request for the entry's code is answered by a
/// permanent redirect to that entry's destination, character for character,
/// and the report is the one for that code and destination.
pub proof fn lemma_listed_code_redirects(
    entries: Seq<(Seq<char>, Seq<char>)>,
    i: int,
    website_id: Option<Seq<char>>,
)
    requires
        0 <= i < entries.len(),
        forall|j: int| i < j < entries.len() ==> (#[trigger] entries[j]).0 != entries[i].0,
    ensures
        redirect_reply(entries_map(entries), entries[i].0) == moved_reply(entries[i].1),
        redirect_notification(entries_map(entries), entries[i].0, website_id) == track_request(
            entries[i].1,
            entries[i].0,
            website_id,
        ),
{
    lemma_entries_map_last_wins(entries, i);
}

/// A table that was loaded from entries answers the request for a code that
/// no entry names with the reply to an unknown code, and reports nothing.
pub proof fn lemma_unlisted_code_is_not_found(
    entries: Seq<(Seq<char>, Seq<char>)>,
    shortcode: Seq<char>,
    website_id: Option<Seq<char>>,
)
    requires
        forall|i: int| 0 <= i < entries.len() ==> (#[trigger] entries[i]).0 != shortcode,
    ensures
        redirect_reply(entries_map(entries), shortcode) == not_found_reply(),
        redirect_notification(entries_map(entries), shortcode, website_id) is None,
{
    lemma_entries_map_domain(entries);
}

/// A table that was loaded from entries without a repeated code reports the
/// number of entries as its size.
pub proof fn lemma_count_is_number_of_entries(entries: Seq<(Seq<char>, Seq<char>)>)
    requires
        distinct_codes(entries),
    ensures
        entries_map(entries).len() == entries.len(),
        count_reply(entries_map(entries).len()) == (ResponseView {
            status: STATUS_OK,
            location: None,
            body: BodyView::Json("{\"total_links\":"@ + decimal(entries.len()) + "}"@),
        }),
{
    lemma_entries_map_distinct(entries);
}

} // verus!
