//! Dashboard tools: cleaning and checking dashboard definitions, and
//! summarizing dashboards.
use vstd::prelude::*;
use crate::input_validation::{
    validate_dashboard_layout, validate_dashboard_title, valid_dashboard_layouts, ValidationError,
};
use crate::sanitize::{
    sanitize_name, sanitize_optional, sanitized, MAX_MESSAGE_LENGTH, MAX_NAME_LENGTH,
};
use crate::text::{all_ws, lowercase, owned};
use crate::tools::monitors::{opt_view, sanitized_opt};

verus! {

/// A dashboard definition after sanitization and validation.
#[derive(Debug, Clone)]
pub struct DashboardDraft {
    pub title: String,
    pub layout_type: String,
    pub description: Option<String>,
}

/// Sanitizes a new dashboard's title and description, then checks the title
/// and the layout, in that order.
pub fn prepare_dashboard_create(
    title: &str,
    layout_type: &str,
    description: Option<String>,
) -> (r: Result<DashboardDraft, ValidationError>)
    ensures
        ({
            let t = sanitized(title@, MAX_NAME_LENGTH as nat);
            &&& all_ws(t) ==> (r matches Err(ValidationError::EmptyField(f)) && f@ == "title"@)
            &&& !all_ws(t) && !valid_dashboard_layouts().contains(lowercase(layout_type@)) ==> (
            r matches Err(ValidationError::InvalidDashboardLayout(l)) && l@ == layout_type@)
            &&& r is Ok <==> !all_ws(t) && valid_dashboard_layouts().contains(
                lowercase(layout_type@),
            )
            &&& r matches Ok(d) ==> d.title@ == t && d.layout_type@ == layout_type@ && opt_view(
                d.description,
            ) == sanitized_opt(description, MAX_MESSAGE_LENGTH as nat)
        }),
{
    let title = sanitize_name(title);
    let description = sanitize_optional(description, MAX_MESSAGE_LENGTH);
    validate_dashboard_title(title.as_str())?;
    validate_dashboard_layout(layout_type)?;
    Ok(DashboardDraft { title, layout_type: owned(layout_type), description })
}

/// Sanitizes the optional new title of a dashboard update.
pub fn prepare_dashboard_update(title: Option<String>) -> (r: Option<String>)
    ensures
        opt_view(r) == sanitized_opt(title, MAX_NAME_LENGTH as nat),
{
    sanitize_optional(title, MAX_NAME_LENGTH)
}

/// Titles with missing ones shown as `Untitled`.
pub open spec fn titles_or_untitled(titles: Seq<Option<String>>) -> Seq<Seq<char>> {
    titles.map_values(
        |s: Option<String>|
            match s {
                Some(t) => t@,
                None => "Untitled"@,
            },
    )
}

/// Titles shown as a sample of a dashboard list: the first five, with
/// `Untitled` for those without a title.
pub open spec fn sample_titles(titles: Seq<Option<String>>) -> Seq<Seq<char>> {
    titles_or_untitled(titles.take(if titles.len() < 5 {
        titles.len() as int
    } else {
        5
    }))
}

/// Picks the sample of dashboard titles.
pub fn dashboard_sample(titles: &Vec<Option<String>>) -> (r: Vec<String>)
    ensures
        crate::sanitize::views(r@) == sample_titles(titles@),
{
    let n: usize = if titles.len() < 5 {
        titles.len()
    } else {
        5
    };
    let mut out: Vec<String> = Vec::new();
    let mut i: usize = 0;
    while i < n
        invariant
            i <= n <= titles@.len(),
            n == (if titles@.len() < 5 {
                titles@.len()
            } else {
                5
            }),
            crate::sanitize::views(out@) == titles_or_untitled(
                titles@.take(i as int),
            ),
        decreases n - i,
    {
        let s = match &titles[i] {
            Some(t) => t.clone(),
            None => owned("Untitled"),
        };
        let ghost before = out@;
        out.push(s);
        proof {
            assert(crate::sanitize::views(out@) =~= crate::sanitize::views(before).push(s@));
            assert(titles_or_untitled(titles@.take(i + 1))
                =~= titles_or_untitled(titles@.take(i as int)).push(
                s@,
            ));
        }
        i = i + 1;
    }
    out
}

} // verus!
