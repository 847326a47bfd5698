//! Downtime tools: cleaning a new downtime's scope and message.
use vstd::prelude::*;
use crate::sanitize::{
    sanitize_optional, sanitize_tags, sanitized_tags, take_at_most, views, MAX_MESSAGE_LENGTH,
    MAX_TAGS,
};
use crate::tools::monitors::{opt_view, sanitized_opt};

verus! {

/// Sanitizes the scope and message of a new downtime; the scope is cleaned
/// like tags.
pub fn prepare_downtime(scope: Vec<String>, message: Option<String>) -> (r: (
    Vec<String>,
    Option<String>,
))
    ensures
        views(r.0@) == take_at_most(sanitized_tags(views(scope@)), MAX_TAGS as nat),
        opt_view(r.1) == sanitized_opt(message, MAX_MESSAGE_LENGTH as nat),
{
    (sanitize_tags(scope), sanitize_optional(message, MAX_MESSAGE_LENGTH))
}

} // verus!
