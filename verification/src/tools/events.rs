//! Event tools: cleaning and checking a new event, and describing the time
//! range of an event query.
use vstd::prelude::*;
use crate::sanitize::{
    sanitize_message, sanitize_name, sanitize_optional, sanitize_tags, sanitized, sanitized_tags,
    take_at_most, views, MAX_MESSAGE_LENGTH, MAX_NAME_LENGTH, MAX_TAGS,
};
use crate::text::{dec_int, owned, push_decimal_i64, push_str};
use crate::tools::monitors::{opt_view, sanitized_opt};

verus! {

/// The text fields of a new event after sanitization.
#[derive(Debug, Clone)]
pub struct EventDraft {
    pub title: String,
    pub text: String,
    pub tags: Option<Vec<String>>,
    pub alert_type: Option<String>,
    pub priority: Option<String>,
    pub host: Option<String>,
    pub source_type_name: Option<String>,
    pub aggregation_key: Option<String>,
    pub device_name: Option<String>,
}

/// The message for an event whose title is empty after sanitization.
pub const EMPTY_EVENT_TITLE: &'static str = "Empty title is not allowed";

/// The message for an event whose text is empty after sanitization.
pub const EMPTY_EVENT_TEXT: &'static str = "Empty text is not allowed";

/// Sanitized optional tags.
pub open spec fn sanitized_opt_tags(tags: Option<Vec<String>>) -> Option<Seq<Seq<char>>> {
    match tags {
        None => None,
        Some(v) => Some(take_at_most(sanitized_tags(views(v@)), MAX_TAGS as nat)),
    }
}

/// The character views of optional tags.
pub open spec fn opt_tags_view(tags: Option<Vec<String>>) -> Option<Seq<Seq<char>>> {
    match tags {
        None => None,
        Some(v) => Some(views(v@)),
    }
}

/// Sanitizes the fields of a new event; the title and the text must not be
/// empty after sanitization (the title is checked first).
pub fn prepare_event(
    title: &str,
    text: &str,
    tags: Option<Vec<String>>,
    alert_type: Option<String>,
    priority: Option<String>,
    host: Option<String>,
    source_type_name: Option<String>,
    aggregation_key: Option<String>,
    device_name: Option<String>,
) -> (r: Result<EventDraft, String>)
    ensures
        ({
            let t = sanitized(title@, MAX_NAME_LENGTH as nat);
            let x = sanitized(text@, MAX_MESSAGE_LENGTH as nat);
            let n = MAX_NAME_LENGTH as nat;
            &&& t.len() == 0 ==> (r matches Err(m) && m@ == EMPTY_EVENT_TITLE@)
            &&& t.len() > 0 && x.len() == 0 ==> (r matches Err(m) && m@ == EMPTY_EVENT_TEXT@)
            &&& r is Ok <==> t.len() > 0 && x.len() > 0
            &&& r matches Ok(d) ==> {
                &&& d.title@ == t
                &&& d.text@ == x
                &&& opt_tags_view(d.tags) == sanitized_opt_tags(tags)
                &&& opt_view(d.alert_type) == sanitized_opt(alert_type, n)
                &&& opt_view(d.priority) == sanitized_opt(priority, n)
                &&& opt_view(d.host) == sanitized_opt(host, n)
                &&& opt_view(d.source_type_name) == sanitized_opt(source_type_name, n)
                &&& opt_view(d.aggregation_key) == sanitized_opt(aggregation_key, n)
                &&& opt_view(d.device_name) == sanitized_opt(device_name, n)
            }
        }),
{
    let title = sanitize_name(title);
    let text = sanitize_message(text);
    if title.as_str().is_empty() {
        return Err(owned(EMPTY_EVENT_TITLE));
    }
    if text.as_str().is_empty() {
        return Err(owned(EMPTY_EVENT_TEXT));
    }
    let tags = match tags {
        Some(v) => Some(sanitize_tags(v)),
        None => None,
    };
    Ok(EventDraft {
        title,
        text,
        tags,
        alert_type: sanitize_optional(alert_type, MAX_NAME_LENGTH),
        priority: sanitize_optional(priority, MAX_NAME_LENGTH),
        host: sanitize_optional(host, MAX_NAME_LENGTH),
        source_type_name: sanitize_optional(source_type_name, MAX_NAME_LENGTH),
        aggregation_key: sanitize_optional(aggregation_key, MAX_NAME_LENGTH),
        device_name: sanitize_optional(device_name, MAX_NAME_LENGTH),
    })
}

/// The time range of an event query: `start to end`, in seconds.
pub open spec fn time_range_text(start: int, end: int) -> Seq<char> {
    dec_int(start) + " to "@ + dec_int(end)
}

/// Describes the time range of an event query.
pub fn time_range(start: i64, end: i64) -> (r: String)
    ensures
        r@ == time_range_text(start as int, end as int),
{
    let mut s = String::new();
    push_decimal_i64(&mut s, start);
    push_str(&mut s, " to ");
    push_decimal_i64(&mut s, end);
    assert(s@ =~= time_range_text(start as int, end as int));
    s
}

} // verus!
