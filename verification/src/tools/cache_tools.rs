//! Cache analysis tools: which analysis is asked for, and the summary of
//! cached metric data.
use vstd::prelude::*;
use crate::text::{push_str, str_eq};
use crate::tools::metrics::{sum_counts, total_points};

verus! {

/// The analyses that cached data can be given.
#[derive(Debug, Clone, Copy, PartialEq, Eq, Structural)]
pub enum AnalysisKind {
    Summary,
    Stats,
    Trends,
}

/// The message for an analysis type that is not known.
pub open spec fn unknown_analysis_text(t: Seq<char>) -> Seq<char> {
    "Unknown analysis type: "@ + t
}

/// The analysis that a type name selects; `summary` when none is given.
pub fn analysis_kind(analysis_type: Option<&str>) -> (r: Result<AnalysisKind, String>)
    ensures
        analysis_type is None ==> r == Ok::<AnalysisKind, String>(AnalysisKind::Summary),
        analysis_type matches Some(t) ==> {
            &&& t@ == "summary"@ ==> r == Ok::<AnalysisKind, String>(AnalysisKind::Summary)
            &&& t@ != "summary"@ && t@ == "stats"@ ==> r == Ok::<AnalysisKind, String>(
                AnalysisKind::Stats,
            )
            &&& t@ != "summary"@ && t@ != "stats"@ && t@ == "trends"@ ==> r == Ok::<
                AnalysisKind,
                String,
            >(AnalysisKind::Trends)
            &&& t@ != "summary"@ && t@ != "stats"@ && t@ != "trends"@ ==> (r matches Err(m)
                && m@ == unknown_analysis_text(t@))
        },
{
    match analysis_type {
        None => Ok(AnalysisKind::Summary),
        Some(t) => if str_eq(t, "summary") {
            Ok(AnalysisKind::Summary)
        } else if str_eq(t, "stats") {
            Ok(AnalysisKind::Stats)
        } else if str_eq(t, "trends") {
            Ok(AnalysisKind::Trends)
        } else {
            let mut m = String::new();
            push_str(&mut m, "Unknown analysis type: ");
            push_str(&mut m, t);
            assert(m@ =~= unknown_analysis_text(t@));
            Err(m)
        },
    }
}

/// Data sets with more points than this are flagged for aggregation.
pub const LARGE_DATASET_POINTS: usize = 1000;

/// The insight given for a large data set.
pub const LARGE_DATASET_INSIGHT: &'static str = "Large dataset - consider aggregation";

/// The summary of cached data.
#[derive(Debug, Clone)]
pub struct DataSummary {
    /// `metrics` for a series response, else `unknown`.
    pub data_type: &'static str,
    pub record_count: usize,
    /// Set for a series response.
    pub total_data_points: Option<usize>,
    pub key_insights: Vec<&'static str>,
}

/// Summarizes cached data. `series` holds, for a response with a `series`
/// list, the number of points of each series whose point list is a list
/// (series without one contribute no points); it is `None` for any other
/// data.
pub fn summarize_data(series: Option<(usize, Vec<usize>)>) -> (r: DataSummary)
    requires
        series matches Some((_, points)) ==> sum_counts(points@) <= usize::MAX,
    ensures
        match series {
            None => r.data_type@ == "unknown"@ && r.record_count == 0 && r.total_data_points
                is None && r.key_insights@.len() == 0,
            Some((n, points)) => {
                &&& r.data_type@ == "metrics"@
                &&& r.record_count == n
                &&& r.total_data_points == Some(sum_counts(points@) as usize)
                &&& sum_counts(points@) > LARGE_DATASET_POINTS ==> r.key_insights@ == seq![
                    LARGE_DATASET_INSIGHT,
                ]
                &&& sum_counts(points@) <= LARGE_DATASET_POINTS ==> r.key_insights@.len() == 0
            },
        },
{
    match series {
        None => DataSummary {
            data_type: "unknown",
            record_count: 0,
            total_data_points: None,
            key_insights: Vec::new(),
        },
        Some((n, points)) => {
            let total = total_points(&points);
            let mut insights: Vec<&'static str> = Vec::new();
            if total > LARGE_DATASET_POINTS {
                insights.push(LARGE_DATASET_INSIGHT);
            }
            DataSummary {
                data_type: "metrics",
                record_count: n,
                total_data_points: Some(total),
                key_insights: insights,
            }
        },
    }
}

} // verus!
