//! The inputs of the tools, as plain values.
use vstd::prelude::*;
pub use crate::ids::MonitorId;

verus! {

/// Inputs of `get_metrics`.
#[derive(Debug, Clone)]
pub struct GetMetricsInput {
    /// Metric query
    pub query: String,
    /// Start timestamp (Unix epoch)
    pub from_timestamp: i64,
    /// End timestamp (Unix epoch)
    pub to_timestamp: i64,
}

/// Inputs of `search_metrics`.
#[derive(Debug, Clone)]
pub struct SearchMetricsInput {
    /// Search pattern for metric names
    pub query: String,
    /// Only metrics active since this timestamp (default: one day ago)
    pub from_timestamp: Option<i64>,
}

/// Inputs of `get_metric_metadata`.
#[derive(Debug, Clone)]
pub struct GetMetricMetadataInput {
    /// Name of the metric
    pub metric_name: String,
}

/// Inputs of `get_monitor`.
#[derive(Debug, Clone)]
pub struct GetMonitorInput {
    /// Monitor ID
    pub monitor_id: MonitorId,
}

/// Inputs of `delete_monitor`.
#[derive(Debug, Clone)]
pub struct DeleteMonitorInput {
    /// Monitor ID to delete
    pub monitor_id: MonitorId,
}

/// Inputs of `get_dashboard`.
#[derive(Debug, Clone)]
pub struct GetDashboardInput {
    /// Dashboard ID
    pub dashboard_id: String,
}

/// Inputs of `delete_dashboard`.
#[derive(Debug, Clone)]
pub struct DeleteDashboardInput {
    /// Dashboard ID
    pub dashboard_id: String,
}

/// Inputs of `search_logs`.
#[derive(Debug, Clone)]
pub struct SearchLogsInput {
    /// Log search query
    pub query: String,
    /// Start time
    pub from_time: String,
    /// End time
    pub to_time: String,
    /// Result limit
    pub limit: Option<i32>,
    /// Cursor of the page to fetch
    pub cursor: Option<String>,
}

/// Inputs of `get_events`.
#[derive(Debug, Clone)]
pub struct GetEventsInput {
    /// Start timestamp
    pub start: i64,
    /// End timestamp
    pub end: i64,
    /// Event priority filter
    pub priority: Option<String>,
    /// Event sources filter
    pub sources: Option<String>,
}

/// Inputs of `get_tags`.
#[derive(Debug, Clone)]
pub struct GetTagsInput {
    /// Tag source filter
    pub source: Option<String>,
}

/// Inputs of `create_downtime`.
#[derive(Debug, Clone)]
pub struct CreateDowntimeInput {
    /// Downtime scope
    pub scope: Vec<String>,
    /// Start timestamp
    pub start: Option<i64>,
    /// End timestamp
    pub end: Option<i64>,
    /// Downtime message
    pub message: Option<String>,
}

/// Inputs of `cancel_downtime`.
#[derive(Debug, Clone)]
pub struct CancelDowntimeInput {
    /// Downtime ID to cancel
    pub downtime_id: i64,
}

/// Inputs of `get_incidents`.
#[derive(Debug, Clone)]
pub struct GetIncidentsInput {
    /// Page size for pagination
    pub page_size: Option<i32>,
    /// Offset of the page
    pub page_offset: Option<i64>,
}

/// Inputs of `create_synthetics_test`.
#[derive(Debug, Clone)]
pub struct CreateSyntheticsTestInput {
    /// Name of the Synthetics test
    pub name: String,
    /// Type of test (currently only 'api' is supported for HTTP checks)
    pub test_type: String,
    /// URL to monitor
    pub url: String,
    /// List of location IDs (e.g., ['aws:eu-central-1'])
    pub locations: Vec<String>,
    /// Optional notification message
    pub message: Option<String>,
    /// Optional list of tags
    pub tags: Option<Vec<String>>,
    /// Test frequency in seconds (default: 300)
    pub tick_every: Option<i32>,
}

/// Inputs of `trigger_synthetics_tests`.
#[derive(Debug, Clone)]
pub struct TriggerSyntheticsTestsInput {
    /// List of Synthetics test public IDs to trigger
    pub test_ids: Vec<String>,
}

/// Inputs of `update_synthetics_test`.
#[derive(Debug, Clone)]
pub struct UpdateSyntheticsTestInput {
    /// Public ID of the test to update
    pub public_id: String,
    /// Optional new name
    pub name: Option<String>,
    /// Optional new URL
    pub url: Option<String>,
    /// Optional new locations
    pub locations: Option<Vec<String>>,
    /// Optional new message
    pub message: Option<String>,
    /// Optional new tags
    pub tags: Option<Vec<String>>,
    /// Test frequency in seconds
    pub tick_every: Option<i32>,
}

/// Inputs of `get_kubernetes_deployments`.
#[derive(Debug, Clone)]
pub struct GetKubernetesDeploymentsInput {
    /// Optional Kubernetes namespace filter
    pub namespace: Option<String>,
}

/// Inputs of `analyze_data`.
#[derive(Debug, Clone)]
pub struct AnalyzeDataInput {
    /// File path to analyze
    pub filepath: String,
    /// Analysis type: summary, stats, or trends
    pub analysis_type: Option<String>,
}

/// Inputs of `cleanup_cache`.
#[derive(Debug, Clone)]
pub struct CleanupCacheInput {
    /// Delete files older than this many hours
    pub older_than_hours: Option<u64>,
}

} // verus!
