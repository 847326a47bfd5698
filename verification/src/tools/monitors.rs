//! Monitor tools: cleaning and checking monitor definitions, and summarizing
//! monitors and their groups.
use vstd::prelude::*;
use crate::input_validation::{
    validate_monitor_name, validate_monitor_query, validate_monitor_type, valid_monitor_types,
    ValidationError,
};
use crate::sanitize::{
    sanitize_name, sanitize_optional, sanitize_query, sanitized, MAX_MESSAGE_LENGTH,
    MAX_NAME_LENGTH, MAX_QUERY_LENGTH,
};
use crate::text::{all_ws, dec_int, lowercase, owned, push_decimal_i64, push_str, str_eq};

verus! {

/// A monitor definition after sanitization and validation.
#[derive(Debug, Clone)]
pub struct MonitorDraft {
    pub name: String,
    pub monitor_type: String,
    pub query: String,
    pub message: Option<String>,
}

/// The sanitized form of an optional text.
pub open spec fn sanitized_opt(input: Option<String>, max: nat) -> Option<Seq<char>> {
    match input {
        None => None,
        Some(s) => if sanitized(s@, max).len() == 0 {
            None
        } else {
            Some(sanitized(s@, max))
        },
    }
}

/// The character view of an optional string.
pub open spec fn opt_view(o: Option<String>) -> Option<Seq<char>> {
    match o {
        None => None,
        Some(s) => Some(s@),
    }
}

/// Sanitizes a new monitor's name, query and message, then checks the name,
/// the type and the query, in that order.
pub fn prepare_monitor_create(
    name: &str,
    monitor_type: &str,
    query: &str,
    message: Option<String>,
) -> (r: Result<MonitorDraft, ValidationError>)
    ensures
        ({
            let n = sanitized(name@, MAX_NAME_LENGTH as nat);
            let q = sanitized(query@, MAX_QUERY_LENGTH as nat);
            &&& all_ws(n) ==> (r matches Err(ValidationError::EmptyField(f)) && f@ == "name"@)
            &&& !all_ws(n) && !valid_monitor_types().contains(lowercase(monitor_type@)) ==> (
            r matches Err(ValidationError::InvalidMonitorType(t, _)) && t@ == monitor_type@)
            &&& !all_ws(n) && valid_monitor_types().contains(lowercase(monitor_type@)) && all_ws(q)
                ==> (r matches Err(ValidationError::EmptyField(f)) && f@ == "query"@)
            &&& r is Ok <==> !all_ws(n) && valid_monitor_types().contains(lowercase(monitor_type@))
                && !all_ws(q)
            &&& r matches Ok(d) ==> d.name@ == n && d.query@ == q && d.monitor_type@
                == monitor_type@ && opt_view(d.message) == sanitized_opt(
                message,
                MAX_MESSAGE_LENGTH as nat,
            )
        }),
{
    let name = sanitize_name(name);
    let query = sanitize_query(query);
    let message = sanitize_optional(message, MAX_MESSAGE_LENGTH);
    validate_monitor_name(name.as_str())?;
    validate_monitor_type(monitor_type)?;
    validate_monitor_query(query.as_str())?;
    Ok(MonitorDraft { name, monitor_type: owned(monitor_type), query, message })
}

/// The changes of a monitor update, after sanitization.
#[derive(Debug, Clone)]
pub struct MonitorChanges {
    pub name: Option<String>,
    pub query: Option<String>,
    pub message: Option<String>,
}

/// Sanitizes the optional name, query and message of a monitor update.
pub fn prepare_monitor_update(
    name: Option<String>,
    query: Option<String>,
    message: Option<String>,
) -> (r: MonitorChanges)
    ensures
        opt_view(r.name) == sanitized_opt(name, MAX_NAME_LENGTH as nat),
        opt_view(r.query) == sanitized_opt(query, MAX_QUERY_LENGTH as nat),
        opt_view(r.message) == sanitized_opt(message, MAX_MESSAGE_LENGTH as nat),
{
    MonitorChanges {
        name: sanitize_optional(name, MAX_NAME_LENGTH),
        query: sanitize_optional(query, MAX_QUERY_LENGTH),
        message: sanitize_optional(message, MAX_MESSAGE_LENGTH),
    }
}

/// Sanitizes and checks the query of a monitor search, and sanitizes its
/// sort order.
pub fn prepare_monitor_search(query: &str, sort: Option<String>) -> (r: Result<
    (String, Option<String>),
    ValidationError,
>)
    ensures
        r is Err <==> all_ws(sanitized(query@, MAX_QUERY_LENGTH as nat)),
        r matches Err(e) ==> e matches ValidationError::EmptyField(f) && f@ == "query"@,
        r matches Ok((q, s)) ==> q@ == sanitized(query@, MAX_QUERY_LENGTH as nat) && opt_view(s)
            == sanitized_opt(sort, MAX_NAME_LENGTH as nat),
{
    let query = sanitize_query(query);
    let sort = sanitize_optional(sort, MAX_NAME_LENGTH);
    validate_monitor_query(query.as_str())?;
    Ok((query, sort))
}

/// The status label of a monitor's overall state.
pub open spec fn status_label(state: Seq<char>) -> Seq<char> {
    if state == "Alert"@ {
        "alerting"@
    } else if state == "Warn"@ {
        "warning"@
    } else if state == "No Data"@ {
        "no_data"@
    } else if state == "OK"@ {
        "ok"@
    } else if state == "Ignored"@ {
        "ignored"@
    } else if state == "Skipped"@ {
        "skipped"@
    } else {
        "unknown"@
    }
}

/// The status label of a monitor's overall state, when it has one.
pub fn monitor_status(state: Option<&str>) -> (r: Option<&'static str>)
    ensures
        match state {
            None => r is None,
            Some(s) => r matches Some(l) && l@ == status_label(s@),
        },
{
    match state {
        None => None,
        Some(s) => Some(
            if str_eq(s, "Alert") {
                "alerting"
            } else if str_eq(s, "Warn") {
                "warning"
            } else if str_eq(s, "No Data") {
                "no_data"
            } else if str_eq(s, "OK") {
                "ok"
            } else if str_eq(s, "Ignored") {
                "ignored"
            } else if str_eq(s, "Skipped") {
                "skipped"
            } else {
                "unknown"
            },
        ),
    }
}

/// Group statuses with missing ones shown as `Unknown`.
pub open spec fn statuses_or_unknown(statuses: Seq<Option<String>>) -> Seq<Seq<char>> {
    statuses.map_values(
        |s: Option<String>|
            match s {
                Some(t) => t@,
                None => "Unknown"@,
            },
    )
}

/// Group statuses with missing ones shown as `Unknown`.
pub fn group_status_names(statuses: &Vec<Option<String>>) -> (r: Vec<String>)
    ensures
        crate::sanitize::views(r@) == statuses_or_unknown(statuses@),
{
    let mut out: Vec<String> = Vec::new();
    let mut i: usize = 0;
    while i < statuses.len()
        invariant
            i <= statuses@.len(),
            crate::sanitize::views(out@) == statuses_or_unknown(statuses@.take(i as int)),
        decreases statuses@.len() - i,
    {
        let s = match &statuses[i] {
            Some(t) => t.clone(),
            None => owned("Unknown"),
        };
        let ghost before = out@;
        out.push(s);
        proof {
            assert(crate::sanitize::views(out@) =~= crate::sanitize::views(before).push(s@));
            assert(statuses_or_unknown(statuses@.take(i + 1)) =~= statuses_or_unknown(
                statuses@.take(i as int),
            ).push(s@));
        }
        i = i + 1;
    }
    assert(statuses@.take(statuses@.len() as int) =~= statuses@);
    out
}

/// The statuses that are present, in order.
pub open spec fn present_values(vs: Seq<Option<String>>) -> Seq<Seq<char>>
    decreases vs.len(),
{
    if vs.len() == 0 {
        Seq::empty()
    } else {
        present_values(vs.drop_last()) + match vs.last() {
            Some(s) => seq![s@],
            None => Seq::empty(),
        }
    }
}

/// The statuses that are present, in order.
pub fn present_strings(vs: &Vec<Option<String>>) -> (r: Vec<String>)
    ensures
        crate::sanitize::views(r@) == present_values(vs@),
{
    let mut out: Vec<String> = Vec::new();
    let mut i: usize = 0;
    while i < vs.len()
        invariant
            i <= vs@.len(),
            crate::sanitize::views(out@) == present_values(vs@.take(i as int)),
        decreases vs@.len() - i,
    {
        let ghost before = out@;
        proof {
            assert(vs@.take(i + 1).drop_last() =~= vs@.take(i as int));
        }
        match &vs[i] {
            Some(t) => {
                out.push(t.clone());
                assert(crate::sanitize::views(out@) =~= crate::sanitize::views(before).push(
                    t@,
                ));
            },
            None => {},
        }
        assert(crate::sanitize::views(out@) =~= present_values(vs@.take(i + 1)));
        i = i + 1;
    }
    assert(vs@.take(vs@.len() as int) =~= vs@);
    out
}

proof fn lemma_unknown_not_counted(vs: Seq<Option<String>>, x: Seq<char>)
    requires
        x != "Unknown"@,
    ensures
        crate::tools::count_eq(statuses_or_unknown(vs), x) == crate::tools::count_some_eq(vs, x),
    decreases vs.len(),
{
    if vs.len() > 0 {
        lemma_unknown_not_counted(vs.drop_last(), x);
        assert(statuses_or_unknown(vs).drop_last() =~= statuses_or_unknown(vs.drop_last()));
    }
}

proof fn lemma_present_counted(vs: Seq<Option<String>>, x: Seq<char>)
    ensures
        crate::tools::count_eq(present_values(vs), x) == crate::tools::count_some_eq(vs, x),
    decreases vs.len(),
{
    if vs.len() > 0 {
        lemma_present_counted(vs.drop_last(), x);
        let p = present_values(vs.drop_last());
        match vs.last() {
            Some(s) => {
                assert((p + seq![s@]).drop_last() =~= p);
            },
            None => {
                assert(p + Seq::<Seq<char>>::empty() =~= p);
            },
        }
    }
}

/// What a monitor's groups add up to.
#[derive(Debug, Clone)]
pub struct MonitorGroupStats {
    pub group_count: usize,
    pub status_counts: crate::tools::Tally,
    pub alerting: usize,
    pub warning: usize,
    pub no_data: usize,
}

/// Counts a monitor's groups by status (a group without a status counts as
/// `Unknown`), and the groups that alert, warn or have no data. Each of
/// the last three equals the tally of its status.
pub fn monitor_group_stats(statuses: &Vec<Option<String>>) -> (r: MonitorGroupStats)
    ensures
        r.group_count == statuses@.len(),
        crate::tools::tallies(r.status_counts, statuses_or_unknown(statuses@)),
        r.alerting == crate::tools::count_some_eq(statuses@, "Alert"@),
        r.warning == crate::tools::count_some_eq(statuses@, "Warn"@),
        r.no_data == crate::tools::count_some_eq(statuses@, "No Data"@),
        r.alerting == crate::tools::count_eq(statuses_or_unknown(statuses@), "Alert"@),
        r.warning == crate::tools::count_eq(statuses_or_unknown(statuses@), "Warn"@),
        r.no_data == crate::tools::count_eq(statuses_or_unknown(statuses@), "No Data"@),
{
    let names = group_status_names(statuses);
    let status_counts = crate::tools::tally(&names);
    let alerting = crate::tools::count_present_eq(statuses, "Alert");
    let warning = crate::tools::count_present_eq(statuses, "Warn");
    let no_data = crate::tools::count_present_eq(statuses, "No Data");
    proof {
        reveal_strlit("Alert");
        reveal_strlit("Warn");
        reveal_strlit("No Data");
        reveal_strlit("Unknown");
        assert("Alert"@ != "Unknown"@) by {
            assert("Alert"@[0] != "Unknown"@[0]);
        }
        assert("Warn"@ != "Unknown"@) by {
            assert("Warn"@[0] != "Unknown"@[0]);
        }
        assert("No Data"@ != "Unknown"@) by {
            assert("No Data"@[0] != "Unknown"@[0]);
        }
        lemma_unknown_not_counted(statuses@, "Alert"@);
        lemma_unknown_not_counted(statuses@, "Warn"@);
        lemma_unknown_not_counted(statuses@, "No Data"@);
    }
    MonitorGroupStats { group_count: statuses.len(), status_counts, alerting, warning, no_data }
}

/// What a list of monitors adds up to.
#[derive(Debug, Clone)]
pub struct MonitorsOverview {
    pub total: usize,
    pub state_counts: crate::tools::Tally,
    pub alerting: usize,
}

/// Counts monitors by overall state (monitors without a state are left out
/// of the tally) and the monitors that alert.
pub fn monitors_overview(states: &Vec<Option<String>>) -> (r: MonitorsOverview)
    ensures
        r.total == states@.len(),
        crate::tools::tallies(r.state_counts, present_values(states@)),
        r.alerting == crate::tools::count_some_eq(states@, "Alert"@),
        r.alerting == crate::tools::count_eq(present_values(states@), "Alert"@),
{
    let present = present_strings(states);
    let state_counts = crate::tools::tally(&present);
    let alerting = crate::tools::count_present_eq(states, "Alert");
    proof {
        lemma_present_counted(states@, "Alert"@);
    }
    MonitorsOverview { total: states.len(), state_counts, alerting }
}

/// The `group_states` query value of a monitor request: `all` when no
/// filter is given, none when the filter is empty, else the filters joined
/// by commas.
pub fn group_states_param(filters: Option<Vec<&str>>) -> (r: Option<String>)
    ensures
        match filters {
            None => r matches Some(s) && s@ == "all"@,
            Some(v) => if v@.len() == 0 {
                r is None
            } else {
                r matches Some(s) && s@ == crate::input_validation::joined(
                    crate::input_validation::str_views(v@),
                    ","@,
                )
            },
        },
{
    match filters {
        None => Some(owned("all")),
        Some(v) => if v.len() == 0 {
            None
        } else {
            Some(crate::input_validation::join_strs(v.as_slice(), ","))
        },
    }
}

/// The summary line of a monitor: its name and overall state, `Unknown`
/// where either is missing.
pub open spec fn monitor_summary_text(name: Option<Seq<char>>, state: Option<Seq<char>>) -> Seq<
    char,
> {
    "Monitor: "@ + (match name {
        Some(n) => n,
        None => "Unknown"@,
    }) + " - Status: "@ + (match state {
        Some(s) => s,
        None => "Unknown"@,
    })
}

/// Builds the summary line of a monitor.
pub fn monitor_summary(name: Option<&str>, state: Option<&str>) -> (r: String)
    ensures
        r@ == monitor_summary_text(
            match name {
                Some(n) => Some(n@),
                None => None,
            },
            match state {
                Some(s) => Some(s@),
                None => None,
            },
        ),
{
    let mut s = String::new();
    push_str(&mut s, "Monitor: ");
    match name {
        Some(n) => push_str(&mut s, n),
        None => push_str(&mut s, "Unknown"),
    }
    push_str(&mut s, " - Status: ");
    match state {
        Some(t) => push_str(&mut s, t),
        None => push_str(&mut s, "Unknown"),
    }
    assert(s@ =~= monitor_summary_text(
        match name {
            Some(n) => Some(n@),
            None => None,
        },
        match state {
            Some(t) => Some(t@),
            None => None,
        },
    ));
    s
}

/// The summary line of a deleted monitor.
pub open spec fn monitor_deleted_text(id: int) -> Seq<char> {
    "Successfully deleted monitor ID: "@ + dec_int(id)
}

/// Builds the summary line of a deleted monitor.
pub fn monitor_deleted_summary(id: i64) -> (r: String)
    ensures
        r@ == monitor_deleted_text(id as int),
{
    let mut s = String::new();
    push_str(&mut s, "Successfully deleted monitor ID: ");
    push_decimal_i64(&mut s, id);
    assert(s@ =~= monitor_deleted_text(id as int));
    s
}

} // verus!
