//! The page-view report that follows a successful redirect.
//!
//! The report is one HTTP POST to a fixed collector. This module decides what
//! the request holds; sending it is left to the caller, who makes one attempt
//! and lets its outcome change nothing.

use vstd::prelude::*;

verus! {

/// Where reports are posted.
pub const COLLECTOR_URL: &'static str = "https://umami.omnid.io/api/send";

/// The `User-Agent` header of a report.
pub const USER_AGENT: &'static str =
    "Mozilla/5.0 (U; Linux x86_64; en-US) Gecko/20130401 Firefox/69.6";

/// The `Content-Type` header of a report.
pub const CONTENT_TYPE: &'static str = "application/json";

/// The environment variable that names the website a deployment reports for.
pub const WEBSITE_ID_VAR: &'static str = "UMAMI_WEBSITE_ID";

/// The website that is reported for where none is configured.
pub const DEFAULT_WEBSITE_ID: &'static str = "dev";

/// The beginning of a report's document, up to the website: the member
/// `type` with the tag `event`, and the opening of the member `payload`.
pub const PAYLOAD_HEAD: &'static str = "{\"type\":\"event\",\"payload\":{\"website\":";

/// The JSON text of a string, quotes included, as `serde_json` writes it;
/// `None` where it reports an error instead.
pub uninterp spec fn json_string(s: Seq<char>) -> Option<Seq<char>>;

/// Calls `serde_json::to_string` on a string slice.
///
/// Trusted, not proved: the call's result depends on the characters of `s`
/// alone, so it is the value that `json_string` names; an error of the
/// serializer comes back as `None`. Nothing is claimed about what the text
/// looks like.
#[verifier::external_body]
fn encode_json_string(s: &str) -> (text: Option<String>)
    ensures
        match text {
            Some(t) => json_string(s@) == Some(t@),
            None => json_string(s@) is None,
        },
{
    serde_json::to_string(s).ok()
}

/// What kind of thing a report tells of.
#[derive(Debug, Clone, Copy, PartialEq, Eq)]
pub enum EventType {
    /// Something that happened on a website; its tag in a report is `event`.
    Event,
}

/// One page view: the kind of the report, the website it is counted for, the
/// short code that was asked for and the destination that it led to.
#[derive(Debug, Clone, PartialEq, Eq)]
pub struct AnalyticsEvent {
    pub event_type: EventType,
    pub website: String,
    pub name: String,
    pub url: String,
}

/// An event with its texts as sequences of characters.
pub struct AnalyticsEventView {
    pub event_type: EventType,
    pub website: Seq<char>,
    pub name: Seq<char>,
    pub url: Seq<char>,
}

impl View for AnalyticsEvent {
    type V = AnalyticsEventView;

    open spec fn view(&self) -> AnalyticsEventView {
        AnalyticsEventView {
            event_type: self.event_type,
            website: self.website@,
            name: self.name@,
            url: self.url@,
        }
    }
}

/// A configured website identifier as characters, if there is one.
pub open spec fn website_view(website_id: Option<&str>) -> Option<Seq<char>> {
    match website_id {
        Some(id) => Some(id@),
        None => None,
    }
}

/// The event for a redirect of `shortcode` to `url`: it is counted for the
/// configured website, or for `dev` where none is configured.
pub open spec fn event_for(
    url: Seq<char>,
    shortcode: Seq<char>,
    website_id: Option<Seq<char>>,
) -> AnalyticsEventView {
    AnalyticsEventView {
        event_type: EventType::Event,
        website: match website_id {
            Some(id) => id,
            None => DEFAULT_WEBSITE_ID@,
        },
        name: shortcode,
        url,
    }
}

/// The JSON document of a report of an event, given the JSON texts of its
/// three strings: an object with the member `type`, which is the string
/// `event`, and the member `payload`, which is an object with the members
/// `website`, `name` and `url`. No white space stands between the tokens.
pub open spec fn payload_text(website: Seq<char>, name: Seq<char>, url: Seq<char>) -> Seq<char> {
    PAYLOAD_HEAD@ + website + ",\"name\":"@ + name + ",\"url\":"@ + url + "}}"@
}

/// The JSON document that reports an event, or `None` where one of its strings
/// has no JSON text.
pub open spec fn payload_of(event: AnalyticsEventView) -> Option<Seq<char>> {
    match (json_string(event.website), json_string(event.name), json_string(event.url)) {
        (Some(website), Some(name), Some(url)) => Some(payload_text(website, name, url)),
        _ => None,
    }
}

/// Puts the document of a report together from the JSON texts of its strings.
pub fn payload_from_parts(website: &str, name: &str, url: &str) -> (text: String)
    ensures
        text@ == payload_text(website@, name@, url@),
{
    let mut text: String = PAYLOAD_HEAD.to_string();
    text.append(website);
    text.append(",\"name\":");
    text.append(name);
    text.append(",\"url\":");
    text.append(url);
    text.append("}}");
    text
}

impl AnalyticsEvent {
    /// The event for a redirect of `shortcode` to `url`.
    pub fn new(url: &str, shortcode: &str, website_id: Option<&str>) -> (event: Self)
        ensures
            event@ == event_for(url@, shortcode@, website_view(website_id)),
    {
        let website: String = match website_id {
            Some(id) => id.to_string(),
            None => DEFAULT_WEBSITE_ID.to_string(),
        };
        AnalyticsEvent {
            event_type: EventType::Event,
            website,
            name: shortcode.to_string(),
            url: url.to_string(),
        }
    }

    /// The JSON document that reports this event.
    pub fn payload(&self) -> (text: Option<String>)
        ensures
            match text {
                Some(t) => payload_of(self@) == Some(t@),
                None => payload_of(self@) is None,
            },
    {
        let website: String = match encode_json_string(self.website.as_str()) {
            Some(t) => t,
            None => { return None; },
        };
        let name: String = match encode_json_string(self.name.as_str()) {
            Some(t) => t,
            None => { return None; },
        };
        let url: String = match encode_json_string(self.url.as_str()) {
            Some(t) => t,
            None => { return None; },
        };
        Some(payload_from_parts(website.as_str(), name.as_str(), url.as_str()))
    }
}

/// A report, ready to be posted: where to, under which headers, and the body.
#[derive(Debug, Clone, PartialEq, Eq)]
pub struct AnalyticsRequest {
    pub endpoint: String,
    pub user_agent: String,
    pub content_type: String,
    pub body: String,
}

/// A report with its texts as sequences of characters.
pub struct AnalyticsRequestView {
    pub endpoint: Seq<char>,
    pub user_agent: Seq<char>,
    pub content_type: Seq<char>,
    pub body: Seq<char>,
}

impl View for AnalyticsRequest {
    type V = AnalyticsRequestView;

    open spec fn view(&self) -> AnalyticsRequestView {
        AnalyticsRequestView {
            endpoint: self.endpoint@,
            user_agent: self.user_agent@,
            content_type: self.content_type@,
            body: self.body@,
        }
    }
}

/// The report of a redirect of `shortcode` to `url`: a POST of the event's
/// document to the collector, under the fixed headers. There is none where
/// the document cannot be written.
pub open spec fn track_request(
    url: Seq<char>,
    shortcode: Seq<char>,
    website_id: Option<Seq<char>>,
) -> Option<AnalyticsRequestView> {
    match payload_of(event_for(url, shortcode, website_id)) {
        Some(body) => Some(
            AnalyticsRequestView {
                endpoint: COLLECTOR_URL@,
                user_agent: USER_AGENT@,
                content_type: CONTENT_TYPE@,
                body,
            },
        ),
        None => None,
    }
}

/// Prepares the report of a redirect of `shortcode` to `url`.
pub fn umami_track_event(
    url: &str,
    shortcode: &str,
    website_id: Option<&str>,
) -> (request: Option<AnalyticsRequest>)
    ensures
        match request {
            Some(r) => track_request(url@, shortcode@, website_view(website_id)) == Some(r@),
            None => track_request(url@, shortcode@, website_view(website_id)) is None,
        },
{
    let event: AnalyticsEvent = AnalyticsEvent::new(url, shortcode, website_id);
    match event.payload() {
        Some(body) => Some(
            AnalyticsRequest {
                endpoint: COLLECTOR_URL.to_string(),
                user_agent: USER_AGENT.to_string(),
                content_type: CONTENT_TYPE.to_string(),
                body,
            },
        ),
        None => None,
    }
}

} // verus!
