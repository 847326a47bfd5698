use datadog_mcp::ids::{DashboardId, DowntimeId, MonitorId, NotebookId, SyntheticsTestId};

#[test]
fn test_monitor_id() {
    let id = MonitorId(12345);
    assert_eq!(id.0, 12345);
    assert_eq!(id.to_string(), "12345");

    let id2: MonitorId = 67890i64.into();
    assert_eq!(id2.0, 67890);
}

#[test]
fn test_dashboard_id() {
    let id = DashboardId("abc-123-xyz".to_string());
    assert_eq!(id.0, "abc-123-xyz");
    assert_eq!(id.to_string(), "abc-123-xyz");

    let id2: DashboardId = "def-456".to_string().into();
    assert_eq!(id2.0, "def-456");
}

#[test]
fn test_downtime_id() {
    let id = DowntimeId(999);
    assert_eq!(id.0, 999);
}

#[test]
fn test_synthetics_test_id() {
    let id = SyntheticsTestId("syn-abc-123".to_string());
    assert_eq!(id.0, "syn-abc-123");
}

#[test]
fn test_equality() {
    let id1 = MonitorId(100);
    let id2 = MonitorId(100);
    let id3 = MonitorId(200);

    assert_eq!(id1, id2);
    assert_ne!(id1, id3);
}

#[test]
fn test_hash() {
    let mut set = std::collections::HashSet::new();
    set.insert(MonitorId(1));
    set.insert(MonitorId(2));
    set.insert(MonitorId(1)); // duplicate

    assert_eq!(set.len(), 2);
}

#[test]
fn numeric_ids_print_like_std() {
    for v in [0i64, 7, -7, 10, 9_999, i64::MAX, i64::MIN] {
        assert_eq!(MonitorId(v).to_string(), v.to_string());
        assert_eq!(NotebookId(v).to_string(), v.to_string());
    }
}
