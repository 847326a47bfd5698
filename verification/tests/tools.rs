use datadog_mcp::input_validation::ValidationError;
use datadog_mcp::tool_inputs::GetKubernetesDeploymentsInput;
use datadog_mcp::tools::cache_tools::{analysis_kind, summarize_data, AnalysisKind};
use datadog_mcp::tools::dashboards::{dashboard_sample, prepare_dashboard_create};
use datadog_mcp::tools::downtimes::prepare_downtime;
use datadog_mcp::tools::events::{prepare_event, EMPTY_EVENT_TEXT, EMPTY_EVENT_TITLE};
use datadog_mcp::tools::infrastructure::{
    deployment_labels, deployments_query, find_tag_value, is_valid_namespace, KubernetesNamespace,
};
use datadog_mcp::tools::logs::log_search_limit;
use datadog_mcp::tools::metrics::{
    active_since, filter_metric_names, first_names, metadata_fields, total_points,
};
use datadog_mcp::tools::monitors::{
    group_states_param, group_status_names, monitor_deleted_summary, monitor_status,
    monitor_summary, prepare_monitor_create, prepare_monitor_search, prepare_monitor_update,
};
use datadog_mcp::tools::paging::{cleanup_hours, directory_page, incident_page_size};
use datadog_mcp::tools::synthetics::{
    locations_overview, prepare_synthetics_test, prepare_synthetics_update, require_test_ids,
    LocationInfo, NO_TEST_IDS, UNSUPPORTED_TEST_TYPE,
};
use datadog_mcp::tools::{
    count_present_eq, count_summary, flag_counts, tally, two_count_summary,
};

fn strings(v: &[&str]) -> Vec<String> {
    v.iter().map(|s| s.to_string()).collect()
}

#[test]
fn tool_inputs_test_get_kubernetes_deployments_input() {
    let with_ns = GetKubernetesDeploymentsInput {
        namespace: Some("production".to_string()),
    };
    let without_ns = GetKubernetesDeploymentsInput { namespace: None };

    assert!(with_ns.namespace.is_some());
    assert!(without_ns.namespace.is_none());
}

#[test]
fn kubernetes_namespaces_are_dns_labels() {
    assert!(KubernetesNamespace::try_from("production".to_string()).is_ok());
    assert!(KubernetesNamespace::try_from("Production".to_string()).is_err());
    assert!(KubernetesNamespace::try_from("-invalid".to_string()).is_err());
}

#[test]
fn namespace_edge_cases() {
    assert!(is_valid_namespace("a"));
    assert!(is_valid_namespace("kube-system"));
    assert!(is_valid_namespace(&"a".repeat(63)));
    assert!(!is_valid_namespace(&"a".repeat(64)));
    assert!(!is_valid_namespace(""));
    assert!(!is_valid_namespace("trailing-"));
    assert!(!is_valid_namespace("under_score"));
    assert!(!is_valid_namespace("é"));
}

#[test]
fn deployment_query_filters_by_namespace() {
    assert_eq!(
        deployments_query(None),
        "avg:kubernetes_state.deployment.replicas_desired{*} by {kube_deployment,kube_namespace,kube_cluster_name}"
    );
    let ns = KubernetesNamespace::try_from("prod".to_string()).unwrap();
    assert_eq!(ns.as_str(), "prod");
    assert_eq!(
        deployments_query(Some(&ns)),
        "avg:kubernetes_state.deployment.replicas_desired{kube_namespace:prod} by {kube_deployment,kube_namespace,kube_cluster_name}"
    );
}

#[test]
fn deployment_labels_read_the_last_matching_tag() {
    let tags = strings(&[
        "kube_deployment:web",
        "kube_namespace:a",
        "kube_namespace:b",
        "novalue",
        "kube_cluster_name:c1:east",
    ]);
    let labels = deployment_labels(&tags);
    assert_eq!(labels.deployment, "web");
    assert_eq!(labels.namespace, "b");
    assert_eq!(labels.cluster, "c1:east");
    let none = deployment_labels(&vec![]);
    assert_eq!(none.deployment, "unknown");
    assert_eq!(find_tag_value(&strings(&["k:"]), "k"), Some(String::new()));
}

#[test]
fn monitor_create_is_sanitized_then_validated() {
    let draft = prepare_monitor_create(
        "  CPU\u{7} Alert ",
        "Metric Alert",
        " avg:cpu{*} > 80 ",
        Some("  ".to_string()),
    )
    .unwrap();
    assert_eq!(draft.name, "CPU Alert");
    assert_eq!(draft.query, "avg:cpu{*} > 80");
    assert_eq!(draft.monitor_type, "Metric Alert");
    assert_eq!(draft.message, None);

    match prepare_monitor_create("   ", "bogus", "", None) {
        Err(ValidationError::EmptyField(f)) => assert_eq!(f, "name"),
        other => panic!("unexpected {:?}", other),
    }
    match prepare_monitor_create("n", "invalid_type", "", None) {
        Err(e) => assert!(e.message().contains("Invalid monitor type")),
        other => panic!("unexpected {:?}", other),
    }
    match prepare_monitor_create("n", "metric alert", " ", None) {
        Err(e) => assert!(e.message().contains("Empty")),
        other => panic!("unexpected {:?}", other),
    }
}

#[test]
fn monitor_update_and_search_are_sanitized() {
    let changes = prepare_monitor_update(Some(" x ".into()), None, Some("\u{0}".into()));
    assert_eq!(changes.name, Some("x".to_string()));
    assert_eq!(changes.query, None);
    assert_eq!(changes.message, None);
    let (q, s) = prepare_monitor_search(" tag:a ", Some(" name ".into())).unwrap();
    assert_eq!(q, "tag:a");
    assert_eq!(s, Some("name".to_string()));
    assert!(prepare_monitor_search("  ", None).is_err());
}

#[test]
fn monitor_status_labels() {
    assert_eq!(monitor_status(Some("Alert")), Some("alerting"));
    assert_eq!(monitor_status(Some("Warn")), Some("warning"));
    assert_eq!(monitor_status(Some("No Data")), Some("no_data"));
    assert_eq!(monitor_status(Some("OK")), Some("ok"));
    assert_eq!(monitor_status(Some("Ignored")), Some("ignored"));
    assert_eq!(monitor_status(Some("Skipped")), Some("skipped"));
    assert_eq!(monitor_status(Some("Odd")), Some("unknown"));
    assert_eq!(monitor_status(None), None);
}

#[test]
fn monitor_summaries() {
    assert_eq!(
        monitor_summary(Some("Test Monitor"), Some("OK")),
        "Monitor: Test Monitor - Status: OK"
    );
    assert_eq!(monitor_summary(None, None), "Monitor: Unknown - Status: Unknown");
    assert_eq!(
        monitor_deleted_summary(789),
        "Successfully deleted monitor ID: 789"
    );
    assert_eq!(group_states_param(None), Some("all".to_string()));
    assert_eq!(group_states_param(Some(vec![])), None);
    assert_eq!(
        group_states_param(Some(vec!["alert", "warn"])),
        Some("alert,warn".to_string())
    );
}

#[test]
fn group_statuses_are_tallied() {
    let statuses = vec![
        Some("Alert".to_string()),
        None,
        Some("OK".to_string()),
        Some("Alert".to_string()),
    ];
    let names = group_status_names(&statuses);
    assert_eq!(names, strings(&["Alert", "Unknown", "OK", "Alert"]));
    let t = tally(&names);
    assert_eq!(t.values, strings(&["Alert", "Unknown", "OK"]));
    assert_eq!(t.counts, vec![2, 1, 1]);
    assert_eq!(count_present_eq(&statuses, "Alert"), 2);
    assert_eq!(count_present_eq(&statuses, "Unknown"), 0);
}

#[test]
fn dashboards_are_sanitized_and_sampled() {
    let draft = prepare_dashboard_create(" Main ", "Ordered", Some(" d ".into())).unwrap();
    assert_eq!(draft.title, "Main");
    assert_eq!(draft.description, Some("d".to_string()));
    match prepare_dashboard_create("Test Dashboard", "invalid_layout", None) {
        Err(e) => assert!(e.message().contains("Invalid dashboard layout")),
        other => panic!("unexpected {:?}", other),
    }
    match prepare_dashboard_create("  ", "ordered", None) {
        Err(e) => assert!(e.message().contains("Empty")),
        other => panic!("unexpected {:?}", other),
    }
    let titles = vec![
        Some("a".to_string()),
        None,
        Some("c".to_string()),
        Some("d".to_string()),
        Some("e".to_string()),
        Some("f".to_string()),
    ];
    assert_eq!(dashboard_sample(&titles), strings(&["a", "Untitled", "c", "d", "e"]));
}

#[test]
fn events_need_title_and_text() {
    let draft = prepare_event(
        " Deploy ",
        " started ",
        Some(vec![" env:prod ".into(), "".into()]),
        Some(" info ".into()),
        None,
        None,
        None,
        None,
        Some("  ".into()),
    )
    .unwrap();
    assert_eq!(draft.title, "Deploy");
    assert_eq!(draft.text, "started");
    assert_eq!(draft.tags, Some(strings(&["env:prod"])));
    assert_eq!(draft.alert_type, Some("info".to_string()));
    assert_eq!(draft.device_name, None);
    let err = prepare_event(" ", " ", None, None, None, None, None, None, None).unwrap_err();
    assert_eq!(err, EMPTY_EVENT_TITLE);
    let err = prepare_event("t", "\u{1}", None, None, None, None, None, None, None).unwrap_err();
    assert_eq!(err, EMPTY_EVENT_TEXT);
}

#[test]
fn downtime_scope_is_cleaned_like_tags() {
    let (scope, message) = prepare_downtime(strings(&[" env:staging ", " "]), Some("m".into()));
    assert_eq!(scope, strings(&["env:staging"]));
    assert_eq!(message, Some("m".to_string()));
}

#[test]
fn log_limits() {
    assert_eq!(log_search_limit(None), Ok(100));
    assert_eq!(log_search_limit(Some(1)), Ok(1));
    assert_eq!(log_search_limit(Some(1000)), Ok(1000));
    assert!(log_search_limit(Some(0)).is_err());
    assert_eq!(
        log_search_limit(Some(1001)),
        Err("Log search limit must be between 1 and 1000".to_string())
    );
}

#[test]
fn synthetics_tests_only_of_api_type() {
    let err = prepare_synthetics_test("Browser Test", "browser", None, None, None).unwrap_err();
    assert!(err.contains("Only 'api' test type"));
    assert_eq!(err, UNSUPPORTED_TEST_TYPE);
    let draft = prepare_synthetics_test(
        " New API Test ",
        "api",
        Some("Test failed".into()),
        Some(vec!["env:prod".into()]),
        None,
    )
    .unwrap();
    assert_eq!(draft.name, "New API Test");
    assert_eq!(draft.tick_every, 300);
    assert_eq!(draft.tags, Some(strings(&["env:prod"])));
    let changes = prepare_synthetics_update(Some(" After ".into()), None, Some(vec![]));
    assert_eq!(changes.name, Some("After".to_string()));
    assert_eq!(changes.tags, Some(vec![]));
    assert_eq!(require_test_ids(0), Err(NO_TEST_IDS.to_string()));
    assert!(require_test_ids(2).is_ok());
}

#[test]
fn synthetics_locations_are_summarized() {
    let loc = |id: &str, region: Option<&str>, private: Option<bool>| LocationInfo {
        id: id.to_string(),
        region: region.map(|r| r.to_string()),
        is_private: private,
    };
    let locs = vec![
        loc("aws:eu-central-1", Some("Europe"), Some(false)),
        loc("aws:us-east-1", Some("Americas"), None),
        loc("pl:private-EU", Some("Europe"), Some(true)),
        loc("aws:EU-west-1", None, None),
    ];
    let o = locations_overview(&locs);
    assert_eq!(o.total, 4);
    assert_eq!(o.public_count, 3);
    assert_eq!(o.private_count, 1);
    assert_eq!(o.eu_locations, strings(&["aws:eu-central-1", "aws:EU-west-1"]));
    assert_eq!(o.region_names, strings(&["Europe", "Americas", "Unknown"]));
    assert_eq!(o.region_ids[0], strings(&["aws:eu-central-1"]));
    assert_eq!(o.region_ids[2], strings(&["aws:EU-west-1"]));
}

#[test]
fn metrics_helpers() {
    assert_eq!(total_points(&vec![3, 0, 4]), 7);
    let names = strings(&["system.cpu.user", "sqlserver.database.state", "SQLServer.queries.count"]);
    assert_eq!(
        filter_metric_names(names.clone(), "sqlserver"),
        strings(&["sqlserver.database.state", "SQLServer.queries.count"])
    );
    assert_eq!(first_names(&names, 2), strings(&["system.cpu.user", "sqlserver.database.state"]));
    assert_eq!(first_names(&names, 10).len(), 3);
    assert_eq!(active_since(None, 1_700_086_400), 1_700_000_000);
    assert_eq!(active_since(Some(5), 1_700_086_400), 5);
    let m = metadata_fields(None, Some("byte".into()), None);
    assert_eq!(m.description, "No description");
    assert_eq!(m.unit, "byte");
    assert_eq!(m.metric_type, "Unknown");
}

#[test]
fn analysis_helpers() {
    assert_eq!(analysis_kind(None), Ok(AnalysisKind::Summary));
    assert_eq!(analysis_kind(Some("stats")), Ok(AnalysisKind::Stats));
    assert_eq!(analysis_kind(Some("trends")), Ok(AnalysisKind::Trends));
    assert_eq!(
        analysis_kind(Some("median")),
        Err("Unknown analysis type: median".to_string())
    );
    let s = summarize_data(Some((2, vec![600, 500])));
    assert_eq!(s.data_type, "metrics");
    assert_eq!(s.record_count, 2);
    assert_eq!(s.total_data_points, Some(1100));
    assert_eq!(s.key_insights, vec!["Large dataset - consider aggregation"]);
    let s = summarize_data(None);
    assert_eq!(s.data_type, "unknown");
    assert!(s.key_insights.is_empty());
}

#[test]
fn counts_and_summaries() {
    let c = flag_counts(&vec![true, false, true]);
    assert_eq!((c.total, c.on, c.off), (3, 2, 1));
    assert_eq!(count_summary("Retrieved ", 42, " monitors"), "Retrieved 42 monitors");
    assert_eq!(
        two_count_summary("Found ", 3, " hosts (", 2, " active)"),
        "Found 3 hosts (2 active)"
    );
    assert_eq!(incident_page_size(None), 25);
    assert_eq!(directory_page(None, Some(5)), (1, 5));
    assert_eq!(cleanup_hours(None), 24);
}

#[test]
fn integration_tests_test_get_kubernetes_deployments_input() {
    let input_all = GetKubernetesDeploymentsInput { namespace: None };
    assert!(input_all.namespace.is_none());

    let input_filtered = GetKubernetesDeploymentsInput {
        namespace: Some("production".to_string()),
    };
    assert_eq!(input_filtered.namespace, Some("production".to_string()));
}

#[test]
fn a_blank_monitor_search_names_the_query() {
    match prepare_monitor_search("  \u{1}  ", Some("name".into())) {
        Err(e) => {
            assert!(matches!(e, ValidationError::EmptyField("query")));
            assert_eq!(e.message(), "Empty query is not allowed");
        }
        Ok(_) => panic!("a blank query must be refused"),
    }
}

#[test]
fn cloned_cache_stores_keep_their_settings() {
    let store = datadog_mcp::cache::CacheStore::new(std::path::PathBuf::from("/tmp/c"), 7, true);
    let copy = store.clone();
    assert_eq!(copy.root(), store.root());
    assert_eq!(copy.max_bytes(), 7);
    assert!(copy.writes_enabled());
}
