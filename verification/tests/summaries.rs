use datadog_mcp::response::{cache_prefix_for, CachePolicy};
use datadog_mcp::server::{tool_cache_policy, CACHED_TOOLS, TOOL_NAMES};
use datadog_mcp::state::{cache_max_bytes, AccessMode, ServerOptions};
use datadog_mcp::text::{compare_strs, sorted_unique, StrOrder};
use datadog_mcp::tools::events::time_range;
use datadog_mcp::tools::infrastructure::{deployment_snapshot, deployment_window, last_present};
use datadog_mcp::tools::synthetics::{
    plan_test_update, prepare_synthetics_update, TestEdit, NO_OPTIONS_OBJECT, NO_REQUEST_OBJECT,
};
use datadog_mcp::tools::monitors::{monitor_group_stats, monitors_overview, present_strings};
use std::path::PathBuf;

fn some(s: &str) -> Option<String> {
    Some(s.to_string())
}

fn count_of(values: &[String], counts: &[usize], key: &str) -> Option<usize> {
    values.iter().position(|v| v == key).map(|i| counts[i])
}

#[test]
fn monitor_groups_are_counted_by_status() {
    let statuses = vec![some("Alert"), some("OK"), None, some("Alert"), some("No Data"), some("Warn")];
    let stats = monitor_group_stats(&statuses);
    assert_eq!(stats.group_count, 6);
    assert_eq!(stats.alerting, 2);
    assert_eq!(stats.warning, 1);
    assert_eq!(stats.no_data, 1);
    assert_eq!(
        stats.status_counts.values,
        vec!["Alert", "OK", "Unknown", "No Data", "Warn"]
    );
    assert_eq!(stats.status_counts.counts, vec![2, 1, 1, 1, 1]);
}

#[test]
fn group_counts_agree_with_the_tally() {
    let statuses = vec![some("Warn"), some("Warn"), None, some("Alert"), None];
    let stats = monitor_group_stats(&statuses);
    let values = &stats.status_counts.values;
    let counts = &stats.status_counts.counts;
    assert_eq!(count_of(values, counts, "Alert"), Some(stats.alerting));
    assert_eq!(count_of(values, counts, "Warn"), Some(stats.warning));
    assert_eq!(count_of(values, counts, "Unknown"), Some(2));
    assert_eq!(stats.no_data, 0);
    assert_eq!(count_of(values, counts, "No Data"), None);
}

#[test]
fn a_monitor_without_groups_counts_nothing() {
    let stats = monitor_group_stats(&vec![]);
    assert_eq!(stats.group_count, 0);
    assert!(stats.status_counts.values.is_empty());
    assert_eq!((stats.alerting, stats.warning, stats.no_data), (0, 0, 0));
}

#[test]
fn monitors_without_a_state_are_left_out_of_the_tally() {
    let states = vec![some("OK"), None, some("Alert"), some("OK"), None];
    let overview = monitors_overview(&states);
    assert_eq!(overview.total, 5);
    assert_eq!(overview.alerting, 1);
    assert_eq!(overview.state_counts.values, vec!["OK", "Alert"]);
    assert_eq!(overview.state_counts.counts, vec![2, 1]);
    assert_eq!(present_strings(&states), vec!["OK", "Alert", "OK"]);
}

#[test]
fn event_time_ranges_print_both_ends() {
    assert_eq!(time_range(1700000000, 1700003600), "1700000000 to 1700003600");
    assert_eq!(time_range(-5, 0), "-5 to 0");
}

#[test]
fn sensitive_responses_are_never_cached() {
    for tool in [
        "search_logs",
        "get_users",
        "get_events",
        "get_event",
        "create_event",
        "get_incidents",
        "get_security_rules",
    ] {
        assert_eq!(tool_cache_policy(tool), CachePolicy::Never, "{}", tool);
        assert_eq!(cache_prefix_for(tool_cache_policy(tool), true, true), None);
    }
}

#[test]
fn cached_tools_use_their_prefixes() {
    assert_eq!(tool_cache_policy("get_monitors"), CachePolicy::Store("monitors"));
    assert_eq!(tool_cache_policy("get_monitor"), CachePolicy::Store("monitor"));
    assert_eq!(
        tool_cache_policy("get_kubernetes_deployments"),
        CachePolicy::Store("kubernetes_deployments")
    );
    assert_eq!(tool_cache_policy("get_teams"), CachePolicy::Store("teams"));
    assert_eq!(tool_cache_policy("delete_monitor"), CachePolicy::Never);
    assert_eq!(tool_cache_policy("validate_api_key"), CachePolicy::Never);
    assert_eq!(tool_cache_policy("no_such_tool"), CachePolicy::Never);
    for (tool, prefix) in CACHED_TOOLS {
        assert!(TOOL_NAMES.contains(&tool), "{}", tool);
        assert_eq!(tool_cache_policy(tool), CachePolicy::Store(prefix));
    }
}

#[test]
fn start_up_flags_give_the_server_options() {
    let options = ServerOptions::from_flags(false, false, PathBuf::from("/tmp/c"), 100);
    assert_eq!(options.access_mode, AccessMode::ReadOnly);
    assert!(!options.cache.writes_enabled());
    assert_eq!(options.cache.max_bytes(), 100 * 1024 * 1024);
    assert_eq!(options.cache.root(), &PathBuf::from("/tmp/c"));

    let options = ServerOptions::from_flags(true, true, PathBuf::from("/tmp/c"), 1);
    assert_eq!(options.access_mode, AccessMode::ReadWrite);
    assert!(options.cache.writes_enabled());
    assert_eq!(options.cache.max_bytes(), 1024 * 1024);
}

#[test]
fn cache_bounds_saturate() {
    assert_eq!(cache_max_bytes(0), 0);
    assert_eq!(cache_max_bytes(3), 3 * 1048576);
    assert_eq!(cache_max_bytes(u64::MAX), u64::MAX);
    assert_eq!(cache_max_bytes(u64::MAX / 1048576), (u64::MAX / 1048576) * 1048576);
    assert_eq!(cache_max_bytes(u64::MAX / 1048576 + 1), u64::MAX);
}

fn strings(v: &[&str]) -> Vec<String> {
    v.iter().map(|s| s.to_string()).collect()
}

#[test]
fn strings_compare_like_std() {
    let words = ["", "a", "ab", "b", "Z", "é", "abc", "ab-c", "zz", "\u{1F600}"];
    for a in words {
        for b in words {
            let expected = match a.cmp(b) {
                std::cmp::Ordering::Less => StrOrder::Before,
                std::cmp::Ordering::Equal => StrOrder::Same,
                std::cmp::Ordering::Greater => StrOrder::After,
            };
            assert_eq!(compare_strs(a, b), expected, "{} {}", a, b);
        }
    }
}

#[test]
fn sorted_unique_matches_a_btree_set() {
    let input = strings(&["web", "api", "web", "db", "api", "cache"]);
    let expected: Vec<String> = input
        .iter()
        .cloned()
        .collect::<std::collections::BTreeSet<_>>()
        .into_iter()
        .collect();
    assert_eq!(sorted_unique(&input), expected);
    assert_eq!(sorted_unique(&input), strings(&["api", "cache", "db", "web"]));
    assert!(sorted_unique(&vec![]).is_empty());
}

#[test]
fn deployment_snapshot_reads_labels_and_counts_distinct_names() {
    let series = vec![
        strings(&["kube_deployment:web", "kube_namespace:prod", "kube_cluster_name:c1"]),
        strings(&["kube_deployment:api", "kube_namespace:prod"]),
        strings(&["kube_deployment:web", "kube_namespace:staging", "kube_cluster_name:c2"]),
        strings(&["other:tag"]),
    ];
    let snapshot = deployment_snapshot(&series);
    assert_eq!(snapshot.deployments.len(), 4);
    assert_eq!(snapshot.deployments[1].cluster, "unknown");
    assert_eq!(snapshot.deployments[3].deployment, "unknown");
    assert_eq!(snapshot.deployments[2].namespace, "staging");
    assert_eq!(snapshot.unique_deployment_names, strings(&["api", "unknown", "web"]));
    assert_eq!(snapshot.unique_namespaces, strings(&["prod", "staging", "unknown"]));
    assert_eq!(snapshot.summary(), "Found 3 deployments across 3 namespaces");
}

#[test]
fn an_empty_query_has_an_empty_snapshot() {
    let snapshot = deployment_snapshot(&vec![]);
    assert!(snapshot.deployments.is_empty());
    assert_eq!(snapshot.summary(), "Found 0 deployments across 0 namespaces");
}

#[test]
fn the_last_present_value_is_found() {
    assert_eq!(last_present(&vec![true, false, true, false]), Some(2));
    assert_eq!(last_present(&vec![false, false]), None);
    assert_eq!(last_present(&vec![]), None);
    assert_eq!(last_present(&vec![true]), Some(0));
}

#[test]
fn a_test_update_is_planned_in_order() {
    let changes = prepare_synthetics_update(
        Some("  New name ".to_string()),
        Some("".to_string()),
        Some(vec!["env:prod".to_string(), " ".to_string()]),
    );
    let edits = plan_test_update(
        changes,
        Some(vec!["aws:eu-central-1".to_string()]),
        Some(60),
        Some("https://example.com".to_string()),
        true,
        true,
    )
    .unwrap();
    assert_eq!(
        edits,
        vec![
            TestEdit::SetText("name", "New name".to_string()),
            TestEdit::SetList("locations", vec!["aws:eu-central-1".to_string()]),
            TestEdit::SetList("tags", vec!["env:prod".to_string()]),
            TestEdit::SetTickEvery(60),
            TestEdit::SetUrl("https://example.com".to_string()),
            TestEdit::Remove("public_id"),
            TestEdit::Remove("created_at"),
            TestEdit::Remove("modified_at"),
        ]
    );
}

#[test]
fn a_test_update_needs_the_objects_it_edits() {
    let none = || prepare_synthetics_update(None, None, None);
    assert_eq!(
        plan_test_update(none(), None, Some(60), Some("u".to_string()), false, false),
        Err(NO_OPTIONS_OBJECT)
    );
    assert_eq!(
        plan_test_update(none(), None, None, Some("u".to_string()), false, false),
        Err(NO_REQUEST_OBJECT)
    );
    assert_eq!(
        plan_test_update(none(), None, None, None, false, false),
        Ok(vec![
            TestEdit::Remove("public_id"),
            TestEdit::Remove("created_at"),
            TestEdit::Remove("modified_at"),
        ])
    );
}

#[test]
fn deployment_queries_look_back_five_minutes() {
    assert_eq!(deployment_window(1_700_000_000), (1_699_999_700, 1_700_000_000));
    assert_eq!(deployment_window(i64::MIN + 300), (i64::MIN, i64::MIN + 300));
}
