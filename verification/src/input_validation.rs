//! Validation of monitor types, dashboard layouts, and required text fields
//! before they are sent to the Datadog API.
use vstd::prelude::*;
use crate::text::{is_blank, all_ws, lowercase, push_str, str_eq, to_lowercase, owned};

verus! {

/// Why an input was rejected.
#[derive(Debug)]
pub enum ValidationError {
    /// The given monitor type, and the list of valid types joined by `", "`.
    InvalidMonitorType(String, String),
    /// The given dashboard layout.
    InvalidDashboardLayout(String),
    /// The name of a field that was empty.
    EmptyField(&'static str),
    /// Any other message.
    Custom(String),
}

/// The text of a validation error, as it is shown to users.
pub open spec fn validation_message(e: ValidationError) -> Seq<char> {
    match e {
        ValidationError::InvalidMonitorType(t, valid) => "Invalid monitor type '"@ + t@
            + "'. Valid types: "@ + valid@,
        ValidationError::InvalidDashboardLayout(l) => "Invalid dashboard layout '"@ + l@
            + "'. Valid layouts: ordered, free"@,
        ValidationError::EmptyField(f) => "Empty "@ + f@ + " is not allowed"@,
        ValidationError::Custom(m) => m@,
    }
}

impl ValidationError {
    /// The text of this error, as it is shown to users.
    pub fn message(&self) -> (r: String)
        ensures
            r@ == validation_message(*self),
    {
        let mut s = String::new();
        match self {
            ValidationError::InvalidMonitorType(t, valid) => {
                push_str(&mut s, "Invalid monitor type '");
                push_str(&mut s, t.as_str());
                push_str(&mut s, "'. Valid types: ");
                push_str(&mut s, valid.as_str());
            },
            ValidationError::InvalidDashboardLayout(l) => {
                push_str(&mut s, "Invalid dashboard layout '");
                push_str(&mut s, l.as_str());
                push_str(&mut s, "'. Valid layouts: ordered, free");
            },
            ValidationError::EmptyField(f) => {
                push_str(&mut s, "Empty ");
                push_str(&mut s, f);
                push_str(&mut s, " is not allowed");
            },
            ValidationError::Custom(m) => {
                push_str(&mut s, m.as_str());
            },
        }
        assert(s@ =~= validation_message(*self));
        s
    }
}

/// Number of valid Datadog monitor types.
pub const MONITOR_TYPE_COUNT: usize = 17;

/// Valid Datadog monitor types.
pub const VALID_MONITOR_TYPES: [&'static str; 17] = [
    "metric alert",
    "service check",
    "event alert",
    "event-v2 alert",
    "query alert",
    "composite",
    "synthetics alert",
    "log alert",
    "process alert",
    "rum alert",
    "trace-analytics alert",
    "slo alert",
    "audit alert",
    "ci-pipelines alert",
    "ci-tests alert",
    "error-tracking alert",
    "database-monitoring alert",
];

/// Valid dashboard layout types.
pub const VALID_DASHBOARD_LAYOUTS: [&'static str; 2] = ["ordered", "free"];

/// The character views of a list of string slices.
pub open spec fn str_views(v: Seq<&str>) -> Seq<Seq<char>> {
    v.map_values(|s: &str| s@)
}

/// The valid monitor types as character sequences.
pub open spec fn valid_monitor_types() -> Seq<Seq<char>> {
    str_views(VALID_MONITOR_TYPES@)
}

/// The valid dashboard layouts as character sequences.
pub open spec fn valid_dashboard_layouts() -> Seq<Seq<char>> {
    str_views(VALID_DASHBOARD_LAYOUTS@)
}

/// `list` joined with `sep` between consecutive entries.
pub open spec fn joined(list: Seq<Seq<char>>, sep: Seq<char>) -> Seq<char>
    decreases list.len(),
{
    if list.len() == 0 {
        Seq::empty()
    } else if list.len() == 1 {
        list[0]
    } else {
        joined(list.drop_last(), sep) + sep + list.last()
    }
}

/// Joins `list` with `sep` (`<[&str]>::join`).
pub fn join_strs(list: &[&str], sep: &str) -> (r: String)
    ensures
        r@ == joined(str_views(list@), sep@),
{
    let mut s = String::new();
    let mut i: usize = 0;
    while i < list.len()
        invariant
            i <= list@.len(),
            s@ == joined(str_views(list@.take(i as int)), sep@),
        decreases list@.len() - i,
    {
        let ghost before = s@;
        if i > 0 {
            push_str(&mut s, sep);
        }
        push_str(&mut s, list[i]);
        proof {
            let prev = str_views(list@.take(i as int));
            let next = str_views(list@.take(i + 1));
            assert(next.drop_last() =~= prev);
            assert(next.last() == list@[i as int]@);
            if i == 0 {
                assert(before =~= Seq::<char>::empty());
                assert(s@ =~= next[0]);
            }
        }
        i = i + 1;
    }
    assert(list@.take(list@.len() as int) =~= list@);
    s
}

/// Whether an already lower-cased monitor type is one of the valid types.
pub fn is_valid_monitor_type(normalized: &str) -> (r: bool)
    ensures
        r == valid_monitor_types().contains(normalized@),
{
    let mut i: usize = 0;
    while i < MONITOR_TYPE_COUNT
        invariant
            i <= MONITOR_TYPE_COUNT == VALID_MONITOR_TYPES@.len(),
            forall|j: int| 0 <= j < i ==> valid_monitor_types()[j] != normalized@,
        decreases MONITOR_TYPE_COUNT - i,
    {
        if str_eq(VALID_MONITOR_TYPES[i], normalized) {
            assert(valid_monitor_types()[i as int] == normalized@);
            return true;
        }
        i = i + 1;
    }
    assert(!valid_monitor_types().contains(normalized@)) by {
        if valid_monitor_types().contains(normalized@) {
            let j = choose|j: int|
                0 <= j < valid_monitor_types().len() && valid_monitor_types()[j] == normalized@;
            assert(valid_monitor_types()[j] != normalized@);
        }
    }
    false
}

/// Whether an already lower-cased layout is one of the valid dashboard layouts.
pub fn is_valid_dashboard_layout(normalized: &str) -> (r: bool)
    ensures
        r == valid_dashboard_layouts().contains(normalized@),
{
    let a = str_eq(VALID_DASHBOARD_LAYOUTS[0], normalized);
    let b = str_eq(VALID_DASHBOARD_LAYOUTS[1], normalized);
    assert(valid_dashboard_layouts()[0] == VALID_DASHBOARD_LAYOUTS@[0]@);
    assert(valid_dashboard_layouts()[1] == VALID_DASHBOARD_LAYOUTS@[1]@);
    if !a && !b {
        assert(!valid_dashboard_layouts().contains(normalized@)) by {
            if valid_dashboard_layouts().contains(normalized@) {
                let j = choose|j: int|
                    0 <= j < valid_dashboard_layouts().len() && valid_dashboard_layouts()[j]
                        == normalized@;
                assert(j == 0 || j == 1);
            }
        }
    }
    a || b
}

/// Validates a monitor type, ignoring case.
pub fn validate_monitor_type(monitor_type: &str) -> (r: Result<(), ValidationError>)
    ensures
        r is Ok <==> valid_monitor_types().contains(lowercase(monitor_type@)),
        r matches Err(e) ==> e matches ValidationError::InvalidMonitorType(t, valid) && t@
            == monitor_type@ && valid@ == joined(valid_monitor_types(), ", "@),
{
    let normalized = to_lowercase(monitor_type);
    if is_valid_monitor_type(normalized.as_str()) {
        Ok(())
    } else {
        let list = join_strs(&VALID_MONITOR_TYPES, ", ");
        Err(ValidationError::InvalidMonitorType(owned(monitor_type), list))
    }
}

/// Validates a dashboard layout type, ignoring case.
pub fn validate_dashboard_layout(layout: &str) -> (r: Result<(), ValidationError>)
    ensures
        r is Ok <==> valid_dashboard_layouts().contains(lowercase(layout@)),
        r matches Err(e) ==> e matches ValidationError::InvalidDashboardLayout(l) && l@
            == layout@,
{
    let normalized = to_lowercase(layout);
    if is_valid_dashboard_layout(normalized.as_str()) {
        Ok(())
    } else {
        Err(ValidationError::InvalidDashboardLayout(owned(layout)))
    }
}

/// Rejects a blank text field, naming the field in the error.
fn require_not_blank(value: &str, field: &'static str) -> (r: Result<(), ValidationError>)
    ensures
        r is Err <==> all_ws(value@),
        r matches Err(e) ==> e == ValidationError::EmptyField(field),
{
    if is_blank(value) {
        Err(ValidationError::EmptyField(field))
    } else {
        Ok(())
    }
}

/// Validates that a monitor query is not blank.
pub fn validate_monitor_query(query: &str) -> (r: Result<(), ValidationError>)
    ensures
        r is Err <==> all_ws(query@),
        r matches Err(e) ==> e matches ValidationError::EmptyField(f) && f@ == "query"@,
{
    require_not_blank(query, "query")
}

/// Validates that a monitor name is not blank.
pub fn validate_monitor_name(name: &str) -> (r: Result<(), ValidationError>)
    ensures
        r is Err <==> all_ws(name@),
        r matches Err(e) ==> e matches ValidationError::EmptyField(f) && f@ == "name"@,
{
    require_not_blank(name, "name")
}

/// Validates that a dashboard title is not blank.
pub fn validate_dashboard_title(title: &str) -> (r: Result<(), ValidationError>)
    ensures
        r is Err <==> all_ws(title@),
        r matches Err(e) ==> e matches ValidationError::EmptyField(f) && f@ == "title"@,
{
    require_not_blank(title, "title")
}

} // verus!
