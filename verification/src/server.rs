//! The server's tool catalogue, the rule that keeps tools that change
//! Datadog resources disabled unless writes were allowed at start-up, and
//! which tools' responses may be cached.
use vstd::prelude::*;
use crate::input_validation::str_views;
use crate::response::CachePolicy;
use crate::state::AccessMode;
use crate::text::{owned, str_eq};

verus! {

/// Number of tools the server offers.
pub const TOOL_COUNT: usize = 39;

/// Every tool the server offers.
pub const TOOL_NAMES: [&'static str; 39] = [
    "validate_api_key",
    "get_metrics",
    "search_metrics",
    "get_metric_metadata",
    "get_monitors",
    "search_monitors",
    "get_monitor",
    "create_monitor",
    "update_monitor",
    "delete_monitor",
    "get_dashboards",
    "get_dashboard",
    "create_dashboard",
    "update_dashboard",
    "delete_dashboard",
    "search_logs",
    "get_events",
    "create_event",
    "get_event",
    "get_infrastructure",
    "get_tags",
    "get_kubernetes_deployments",
    "get_downtimes",
    "create_downtime",
    "cancel_downtime",
    "get_synthetics_tests",
    "get_synthetics_locations",
    "create_synthetics_test",
    "update_synthetics_test",
    "trigger_synthetics_tests",
    "delete_synthetics_tests",
    "get_security_rules",
    "get_incidents",
    "get_slos",
    "get_notebooks",
    "get_teams",
    "get_users",
    "analyze_data",
    "cleanup_cache",
];

/// Number of tools that change Datadog resources or the cache.
pub const WRITE_TOOL_COUNT: usize = 14;

/// The tools that create, update, delete, trigger or cancel something.
pub const WRITE_TOOLS: [&'static str; 14] = [
    "create_monitor",
    "update_monitor",
    "delete_monitor",
    "create_dashboard",
    "update_dashboard",
    "delete_dashboard",
    "create_event",
    "create_downtime",
    "cancel_downtime",
    "create_synthetics_test",
    "update_synthetics_test",
    "trigger_synthetics_tests",
    "delete_synthetics_tests",
    "cleanup_cache",
];

/// Number of tools whose responses may be cached.
pub const CACHED_TOOL_COUNT: usize = 26;

/// The tools whose responses may be cached, each with the prefix of its
/// cache files. Every other tool's responses are never cached.
pub const CACHED_TOOLS: [(&'static str, &'static str); 26] = [
    ("get_metrics", "metrics"),
    ("search_metrics", "metrics_search"),
    ("get_metric_metadata", "metric_metadata"),
    ("get_monitors", "monitors"),
    ("search_monitors", "monitors_search"),
    ("get_monitor", "monitor"),
    ("create_monitor", "monitor_created"),
    ("update_monitor", "monitor_updated"),
    ("get_dashboards", "dashboards"),
    ("get_dashboard", "dashboard"),
    ("create_dashboard", "dashboard_created"),
    ("update_dashboard", "dashboard_updated"),
    ("get_infrastructure", "infrastructure"),
    ("get_tags", "tags"),
    ("get_kubernetes_deployments", "kubernetes_deployments"),
    ("get_downtimes", "downtimes"),
    ("create_downtime", "downtime_created"),
    ("get_synthetics_tests", "synthetics_tests"),
    ("delete_synthetics_tests", "synthetics_tests_deleted"),
    ("get_synthetics_locations", "synthetics_locations"),
    ("create_synthetics_test", "synthetics_test_created"),
    ("update_synthetics_test", "synthetics_test_updated"),
    ("trigger_synthetics_tests", "synthetics_tests_triggered"),
    ("get_slos", "slos"),
    ("get_notebooks", "notebooks"),
    ("get_teams", "teams"),
];

/// `i` is the first entry of `CACHED_TOOLS` for the named tool.
pub open spec fn first_cached_entry(name: Seq<char>, i: int) -> bool {
    &&& 0 <= i < CACHED_TOOLS@.len()
    &&& CACHED_TOOLS@[i].0@ == name
    &&& forall|j: int| 0 <= j < i ==> CACHED_TOOLS@[j].0@ != name
}

/// The cache-file prefix of the named tool's responses, if they may be
/// cached.
pub open spec fn cache_prefix_of(name: Seq<char>) -> Option<Seq<char>> {
    if exists|i: int| first_cached_entry(name, i) {
        Some(CACHED_TOOLS@[choose|i: int| first_cached_entry(name, i)].1@)
    } else {
        None
    }
}

/// The cache policy of the named tool's responses.
pub fn tool_cache_policy(name: &str) -> (r: CachePolicy)
    ensures
        match r {
            CachePolicy::Never => cache_prefix_of(name@) is None,
            CachePolicy::Store(p) => cache_prefix_of(name@) == Some(p@),
        },
{
    let mut i: usize = 0;
    while i < CACHED_TOOL_COUNT
        invariant
            i <= CACHED_TOOL_COUNT == CACHED_TOOLS@.len(),
            forall|j: int| 0 <= j < i ==> CACHED_TOOLS@[j].0@ != name@,
        decreases CACHED_TOOL_COUNT - i,
    {
        let (tool, prefix) = CACHED_TOOLS[i];
        if str_eq(tool, name) {
            proof {
                assert(first_cached_entry(name@, i as int));
                let k = choose|k: int| first_cached_entry(name@, k);
                assert(k == i) by {
                    if k < i {
                        assert(CACHED_TOOLS@[k].0@ != name@);
                    } else if k > i {
                        assert(CACHED_TOOLS@[i as int].0@ != name@);
                    }
                }
            }
            return CachePolicy::Store(prefix);
        }
        i = i + 1;
    }
    assert(!exists|k: int| first_cached_entry(name@, k));
    CachePolicy::Never
}

/// Log, user, event, incident and security-rule responses are never cached,
/// whatever the cache's settings.
pub proof fn lemma_sensitive_responses_never_cached(name: Seq<char>)
    requires
        name == "search_logs"@ || name == "get_users"@ || name == "get_events"@ || name
            == "get_event"@ || name == "create_event"@ || name == "get_incidents"@ || name
            == "get_security_rules"@,
    ensures
        cache_prefix_of(name) is None,
{
    reveal_strlit("search_logs");
    reveal_strlit("get_users");
    reveal_strlit("get_events");
    reveal_strlit("get_event");
    reveal_strlit("create_event");
    reveal_strlit("get_incidents");
    reveal_strlit("get_security_rules");
    assert forall|i: int| 0 <= i < CACHED_TOOLS@.len() implies CACHED_TOOLS@[i].0@ != name by {
        lemma_cached_tool_name_shape(i);
    }
}

/// No entry of `CACHED_TOOLS` names a tool whose responses hold logs, users,
/// events, incidents or security rules.
proof fn lemma_cached_tool_name_shape(i: int)
    requires
        0 <= i < CACHED_TOOLS@.len(),
    ensures
        CACHED_TOOLS@[i].0@ != "search_logs"@,
        CACHED_TOOLS@[i].0@ != "get_users"@,
        CACHED_TOOLS@[i].0@ != "get_events"@,
        CACHED_TOOLS@[i].0@ != "get_event"@,
        CACHED_TOOLS@[i].0@ != "create_event"@,
        CACHED_TOOLS@[i].0@ != "get_incidents"@,
        CACHED_TOOLS@[i].0@ != "get_security_rules"@,
{
    reveal_strlit("search_logs");
    assert("search_logs"@.len() == 11);
    reveal_strlit("get_users");
    assert("get_users"@.len() == 9);
    reveal_strlit("get_events");
    assert("get_events"@.len() == 10);
    reveal_strlit("get_event");
    assert("get_event"@.len() == 9);
    reveal_strlit("create_event");
    assert("create_event"@.len() == 12);
    reveal_strlit("get_incidents");
    assert("get_incidents"@.len() == 13);
    reveal_strlit("get_security_rules");
    assert("get_security_rules"@.len() == 18);
    if i == 0 {
        reveal_strlit("get_metrics");
        assert(CACHED_TOOLS@[i].0@ == "get_metrics"@);
        assert(CACHED_TOOLS@[i].0@.len() == 11);
        assert(CACHED_TOOLS@[i].0@[0] != "search_logs"@[0]);
    } else if i == 1 {
        reveal_strlit("search_metrics");
        assert(CACHED_TOOLS@[i].0@ == "search_metrics"@);
        assert(CACHED_TOOLS@[i].0@.len() == 14);
    } else if i == 2 {
        reveal_strlit("get_metric_metadata");
        assert(CACHED_TOOLS@[i].0@ == "get_metric_metadata"@);
        assert(CACHED_TOOLS@[i].0@.len() == 19);
    } else if i == 3 {
        reveal_strlit("get_monitors");
        assert(CACHED_TOOLS@[i].0@ == "get_monitors"@);
        assert(CACHED_TOOLS@[i].0@.len() == 12);
        assert(CACHED_TOOLS@[i].0@[0] != "create_event"@[0]);
    } else if i == 4 {
        reveal_strlit("search_monitors");
        assert(CACHED_TOOLS@[i].0@ == "search_monitors"@);
        assert(CACHED_TOOLS@[i].0@.len() == 15);
    } else if i == 5 {
        reveal_strlit("get_monitor");
        assert(CACHED_TOOLS@[i].0@ == "get_monitor"@);
        assert(CACHED_TOOLS@[i].0@.len() == 11);
        assert(CACHED_TOOLS@[i].0@[0] != "search_logs"@[0]);
    } else if i == 6 {
        reveal_strlit("create_monitor");
        assert(CACHED_TOOLS@[i].0@ == "create_monitor"@);
        assert(CACHED_TOOLS@[i].0@.len() == 14);
    } else if i == 7 {
        reveal_strlit("update_monitor");
        assert(CACHED_TOOLS@[i].0@ == "update_monitor"@);
        assert(CACHED_TOOLS@[i].0@.len() == 14);
    } else if i == 8 {
        reveal_strlit("get_dashboards");
        assert(CACHED_TOOLS@[i].0@ == "get_dashboards"@);
        assert(CACHED_TOOLS@[i].0@.len() == 14);
    } else if i == 9 {
        reveal_strlit("get_dashboard");
        assert(CACHED_TOOLS@[i].0@ == "get_dashboard"@);
        assert(CACHED_TOOLS@[i].0@.len() == 13);
        assert(CACHED_TOOLS@[i].0@[4] != "get_incidents"@[4]);
    } else if i == 10 {
        reveal_strlit("create_dashboard");
        assert(CACHED_TOOLS@[i].0@ == "create_dashboard"@);
        assert(CACHED_TOOLS@[i].0@.len() == 16);
    } else if i == 11 {
        reveal_strlit("update_dashboard");
        assert(CACHED_TOOLS@[i].0@ == "update_dashboard"@);
        assert(CACHED_TOOLS@[i].0@.len() == 16);
    } else if i == 12 {
        reveal_strlit("get_infrastructure");
        assert(CACHED_TOOLS@[i].0@ == "get_infrastructure"@);
        assert(CACHED_TOOLS@[i].0@.len() == 18);
        assert(CACHED_TOOLS@[i].0@[4] != "get_security_rules"@[4]);
    } else if i == 13 {
        reveal_strlit("get_tags");
        assert(CACHED_TOOLS@[i].0@ == "get_tags"@);
        assert(CACHED_TOOLS@[i].0@.len() == 8);
    } else if i == 14 {
        reveal_strlit("get_kubernetes_deployments");
        assert(CACHED_TOOLS@[i].0@ == "get_kubernetes_deployments"@);
        assert(CACHED_TOOLS@[i].0@.len() == 26);
    } else if i == 15 {
        reveal_strlit("get_downtimes");
        assert(CACHED_TOOLS@[i].0@ == "get_downtimes"@);
        assert(CACHED_TOOLS@[i].0@.len() == 13);
        assert(CACHED_TOOLS@[i].0@[4] != "get_incidents"@[4]);
    } else if i == 16 {
        reveal_strlit("create_downtime");
        assert(CACHED_TOOLS@[i].0@ == "create_downtime"@);
        assert(CACHED_TOOLS@[i].0@.len() == 15);
    } else if i == 17 {
        reveal_strlit("get_synthetics_tests");
        assert(CACHED_TOOLS@[i].0@ == "get_synthetics_tests"@);
        assert(CACHED_TOOLS@[i].0@.len() == 20);
    } else if i == 18 {
        reveal_strlit("delete_synthetics_tests");
        assert(CACHED_TOOLS@[i].0@ == "delete_synthetics_tests"@);
        assert(CACHED_TOOLS@[i].0@.len() == 23);
    } else if i == 19 {
        reveal_strlit("get_synthetics_locations");
        assert(CACHED_TOOLS@[i].0@ == "get_synthetics_locations"@);
        assert(CACHED_TOOLS@[i].0@.len() == 24);
    } else if i == 20 {
        reveal_strlit("create_synthetics_test");
        assert(CACHED_TOOLS@[i].0@ == "create_synthetics_test"@);
        assert(CACHED_TOOLS@[i].0@.len() == 22);
    } else if i == 21 {
        reveal_strlit("update_synthetics_test");
        assert(CACHED_TOOLS@[i].0@ == "update_synthetics_test"@);
        assert(CACHED_TOOLS@[i].0@.len() == 22);
    } else if i == 22 {
        reveal_strlit("trigger_synthetics_tests");
        assert(CACHED_TOOLS@[i].0@ == "trigger_synthetics_tests"@);
        assert(CACHED_TOOLS@[i].0@.len() == 24);
    } else if i == 23 {
        reveal_strlit("get_slos");
        assert(CACHED_TOOLS@[i].0@ == "get_slos"@);
        assert(CACHED_TOOLS@[i].0@.len() == 8);
    } else if i == 24 {
        reveal_strlit("get_notebooks");
        assert(CACHED_TOOLS@[i].0@ == "get_notebooks"@);
        assert(CACHED_TOOLS@[i].0@.len() == 13);
        assert(CACHED_TOOLS@[i].0@[4] != "get_incidents"@[4]);
    } else if i == 25 {
        reveal_strlit("get_teams");
        assert(CACHED_TOOLS@[i].0@ == "get_teams"@);
        assert(CACHED_TOOLS@[i].0@.len() == 9);
        assert(CACHED_TOOLS@[i].0@[4] != "get_users"@[4]);
        assert(CACHED_TOOLS@[i].0@[4] != "get_event"@[4]);
    }
}

/// The message of a write tool called in read-only mode.
pub const READ_ONLY_REFUSAL: &'static str = "this tool is disabled because the server is running in read-only mode; restart with --allow-write to enable Datadog mutations";

/// Whether the named tool changes something.
pub open spec fn is_write_tool_name(name: Seq<char>) -> bool {
    str_views(WRITE_TOOLS@).contains(name)
}

/// Whether a call of the named tool may proceed in the given mode.
pub open spec fn tool_permitted(name: Seq<char>, mode: AccessMode) -> bool {
    !is_write_tool_name(name) || mode == AccessMode::ReadWrite
}

/// Whether the named tool changes something.
pub fn is_write_tool(name: &str) -> (r: bool)
    ensures
        r == is_write_tool_name(name@),
{
    let mut i: usize = 0;
    while i < WRITE_TOOL_COUNT
        invariant
            i <= WRITE_TOOL_COUNT == WRITE_TOOLS@.len(),
            forall|j: int| 0 <= j < i ==> str_views(WRITE_TOOLS@)[j] != name@,
        decreases WRITE_TOOL_COUNT - i,
    {
        if str_eq(WRITE_TOOLS[i], name) {
            assert(str_views(WRITE_TOOLS@)[i as int] == name@);
            return true;
        }
        i = i + 1;
    }
    assert(!str_views(WRITE_TOOLS@).contains(name@)) by {
        if str_views(WRITE_TOOLS@).contains(name@) {
            let j = choose|j: int|
                0 <= j < str_views(WRITE_TOOLS@).len() && str_views(WRITE_TOOLS@)[j] == name@;
            assert(str_views(WRITE_TOOLS@)[j] != name@);
        }
    }
    false
}

/// The read-only annotation of a tool: it holds for every tool that changes
/// nothing.
pub fn read_only_hint(name: &str) -> (r: bool)
    ensures
        r == !is_write_tool_name(name@),
{
    !is_write_tool(name)
}

/// Decides whether a call of the named tool may proceed; in read-only mode
/// a tool that changes something is refused with `READ_ONLY_REFUSAL`.
pub fn authorize_tool(name: &str, mode: AccessMode) -> (r: Result<(), String>)
    ensures
        r is Ok <==> tool_permitted(name@, mode),
        r matches Err(m) ==> m@ == READ_ONLY_REFUSAL@,
{
    if is_write_tool(name) && !mode.allows_writes() {
        Err(owned(READ_ONLY_REFUSAL))
    } else {
        Ok(())
    }
}

/// Read-only by default: in read-only mode a call proceeds exactly when the
/// tool changes nothing, and in read-write mode every call proceeds.
pub proof fn lemma_read_only_blocks_exactly_the_write_tools(name: Seq<char>)
    ensures
        tool_permitted(name, AccessMode::ReadOnly) <==> !is_write_tool_name(name),
        tool_permitted(name, AccessMode::ReadWrite),
{
}

/// Every write tool is one of the tools the server offers.
pub proof fn lemma_write_tools_are_offered(name: Seq<char>)
    requires
        is_write_tool_name(name),
    ensures
        str_views(TOOL_NAMES@).contains(name),
{
    let w = str_views(WRITE_TOOLS@);
    let t = str_views(TOOL_NAMES@);
    let j = choose|j: int| 0 <= j < w.len() && w[j] == name;
    let idx: Seq<int> = seq![7, 8, 9, 12, 13, 14, 17, 23, 24, 27, 28, 29, 30, 38];
    assert(WRITE_TOOLS@[j] == TOOL_NAMES@[idx[j]]) by {
        assert(j == 0 || j == 1 || j == 2 || j == 3 || j == 4 || j == 5 || j == 6 || j == 7 || j
            == 8 || j == 9 || j == 10 || j == 11 || j == 12 || j == 13);
    }
    assert(t[idx[j]] == name);
}

} // verus!
