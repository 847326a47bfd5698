//! Metrics tools: counting series and points, finding metric names, and the
//! defaults of metric metadata.
use vstd::prelude::*;
use crate::sanitize::take_at_most;
use crate::text::{contains_str, has_substr, lowercase, owned, to_lowercase};

verus! {

/// Sum of a list of counts.
pub open spec fn sum_counts(v: Seq<usize>) -> nat
    decreases v.len(),
{
    if v.len() == 0 {
        0
    } else {
        sum_counts(v.drop_last()) + v.last() as nat
    }
}

/// Total number of data points over all series, given the number of points
/// of each series.
pub fn total_points(points_per_series: &Vec<usize>) -> (r: usize)
    requires
        sum_counts(points_per_series@) <= usize::MAX,
    ensures
        r == sum_counts(points_per_series@),
{
    let mut total: usize = 0;
    let mut i: usize = 0;
    while i < points_per_series.len()
        invariant
            i <= points_per_series@.len(),
            sum_counts(points_per_series@) <= usize::MAX,
            total == sum_counts(points_per_series@.take(i as int)),
        decreases points_per_series@.len() - i,
    {
        proof {
            assert(points_per_series@.take(i + 1).drop_last() =~= points_per_series@.take(
                i as int,
            ));
            lemma_sum_counts_prefix(points_per_series@, i + 1);
        }
        total = total + points_per_series[i];
        i = i + 1;
    }
    assert(points_per_series@.take(points_per_series@.len() as int) =~= points_per_series@);
    total
}

proof fn lemma_sum_counts_prefix(v: Seq<usize>, k: int)
    requires
        0 <= k <= v.len(),
    ensures
        sum_counts(v.take(k)) <= sum_counts(v),
    decreases v.len() - k,
{
    if k < v.len() {
        lemma_sum_counts_prefix(v, k + 1);
        assert(v.take(k + 1).drop_last() =~= v.take(k));
    } else {
        assert(v.take(k) =~= v);
    }
}

/// The metric names that contain the query, ignoring case.
pub open spec fn matching_metrics(names: Seq<Seq<char>>, query: Seq<char>) -> Seq<Seq<char>>
    decreases names.len(),
{
    if names.len() == 0 {
        Seq::empty()
    } else if has_substr(lowercase(names.last()), lowercase(query)) {
        matching_metrics(names.drop_last(), query).push(names.last())
    } else {
        matching_metrics(names.drop_last(), query)
    }
}

/// A metric search keeps, in order, exactly the names whose lower-cased form
/// contains the lower-cased query.
pub proof fn lemma_metric_search_ignores_case(names: Seq<Seq<char>>, query: Seq<char>)
    ensures
        matching_metrics(names, query) == names.filter(
            |n: Seq<char>| has_substr(lowercase(n), lowercase(query)),
        ),
        forall|x: Seq<char>|
            #[trigger] matching_metrics(names, query).contains(x) <==> names.contains(x)
                && has_substr(lowercase(x), lowercase(query)),
    decreases names.len(),
{
    reveal(Seq::filter);
    if names.len() > 0 {
        let rest = names.drop_last();
        lemma_metric_search_ignores_case(rest, query);
        let m = matching_metrics(names, query);
        let mr = matching_metrics(rest, query);
        assert forall|x: Seq<char>|
            #[trigger] m.contains(x) <==> names.contains(x) && has_substr(
                lowercase(x),
                lowercase(query),
            ) by {
            if m.contains(x) {
                let j = choose|j: int| 0 <= j < m.len() && m[j] == x;
                if j < mr.len() {
                    assert(mr[j] == x);
                    assert(mr.contains(x));
                    let k = choose|k: int| 0 <= k < rest.len() && rest[k] == x;
                    assert(names[k] == x);
                } else {
                    assert(names[names.len() - 1] == x);
                }
            }
            if names.contains(x) && has_substr(lowercase(x), lowercase(query)) {
                let k = choose|k: int| 0 <= k < names.len() && names[k] == x;
                if k < names.len() - 1 {
                    assert(rest[k] == x);
                    assert(rest.contains(x));
                    assert(mr.contains(x));
                    let j = choose|j: int| 0 <= j < mr.len() && mr[j] == x;
                    if has_substr(lowercase(names.last()), lowercase(query)) {
                        assert(m == mr.push(names.last()));
                        assert(m[j] == x);
                    } else {
                        assert(m[j] == x);
                    }
                } else {
                    assert(m[m.len() - 1] == x);
                }
            }
        }
    }
}

/// Keeps the metric names that contain the query, ignoring case.
pub fn filter_metric_names(names: Vec<String>, query: &str) -> (r: Vec<String>)
    ensures
        crate::sanitize::views(r@) == matching_metrics(crate::sanitize::views(names@), query@),
        crate::sanitize::views(r@) == crate::sanitize::views(names@).filter(
            |n: Seq<char>| has_substr(lowercase(n), lowercase(query@)),
        ),
{
    let q = to_lowercase(query);
    let ghost all = crate::sanitize::views(names@);
    let mut out: Vec<String> = Vec::new();
    let mut i: usize = 0;
    while i < names.len()
        invariant
            i <= names@.len(),
            q@ == lowercase(query@),
            all == crate::sanitize::views(names@),
            crate::sanitize::views(out@) == matching_metrics(all.take(i as int), query@),
        decreases names@.len() - i,
    {
        proof {
            assert(all.take(i + 1).drop_last() =~= all.take(i as int));
            assert(all.take(i + 1).last() == names@[i as int]@);
        }
        let lower = to_lowercase(names[i].as_str());
        if contains_str(lower.as_str(), q.as_str()) {
            let ghost before = out@;
            out.push(names[i].clone());
            assert(crate::sanitize::views(out@) =~= crate::sanitize::views(before).push(
                names@[i as int]@,
            ));
        }
        i = i + 1;
    }
    assert(all.take(names@.len() as int) =~= all);
    proof {
        lemma_metric_search_ignores_case(all, query@);
    }
    out
}

/// At most the first `n` names.
pub fn first_names(names: &Vec<String>, n: usize) -> (r: Vec<String>)
    ensures
        crate::sanitize::views(r@) == take_at_most(crate::sanitize::views(names@), n as nat),
{
    let k = if names.len() < n {
        names.len()
    } else {
        n
    };
    let mut out: Vec<String> = Vec::new();
    let mut i: usize = 0;
    while i < k
        invariant
            i <= k <= names@.len(),
            k == (if names@.len() < n {
                names@.len()
            } else {
                n as nat
            }),
            crate::sanitize::views(out@) == crate::sanitize::views(names@).take(i as int),
        decreases k - i,
    {
        let ghost before = out@;
        out.push(names[i].clone());
        assert(crate::sanitize::views(out@) =~= crate::sanitize::views(before).push(
            names@[i as int]@,
        ));
        assert(crate::sanitize::views(names@).take(i + 1) =~= crate::sanitize::views(names@).take(
            i as int,
        ).push(names@[i as int]@));
        i = i + 1;
    }
    assert(crate::sanitize::views(names@).take(k as int) =~= take_at_most(
        crate::sanitize::views(names@),
        n as nat,
    ));
    out
}

/// Number of metric names shown as a sample of a search.
pub const METRIC_SAMPLE_SIZE: usize = 10;

/// Seconds before now that a metric search looks back when no start is given.
pub const DEFAULT_ACTIVE_WINDOW_SECS: i64 = 86400;

/// The start of a metric search: the given timestamp, else one day before
/// `now`.
pub fn active_since(from_timestamp: Option<i64>, now: i64) -> (r: i64)
    requires
        from_timestamp is None ==> now >= i64::MIN + DEFAULT_ACTIVE_WINDOW_SECS,
    ensures
        r == match from_timestamp {
            Some(t) => t as int,
            None => now - DEFAULT_ACTIVE_WINDOW_SECS,
        },
{
    match from_timestamp {
        Some(t) => t,
        None => now - DEFAULT_ACTIVE_WINDOW_SECS,
    }
}

/// Metric metadata with defaults for what Datadog left out.
#[derive(Debug, Clone)]
pub struct MetadataFields {
    pub description: String,
    pub unit: String,
    pub metric_type: String,
}

/// Fills in `No description`, `No unit` and `Unknown` for missing metadata.
pub fn metadata_fields(
    description: Option<String>,
    unit: Option<String>,
    metric_type: Option<String>,
) -> (r: MetadataFields)
    ensures
        r.description@ == match description {
            Some(d) => d@,
            None => "No description"@,
        },
        r.unit@ == match unit {
            Some(u) => u@,
            None => "No unit"@,
        },
        r.metric_type@ == match metric_type {
            Some(t) => t@,
            None => "Unknown"@,
        },
{
    MetadataFields {
        description: match description {
            Some(d) => d,
            None => owned("No description"),
        },
        unit: match unit {
            Some(u) => u,
            None => owned("No unit"),
        },
        metric_type: match metric_type {
            Some(t) => t,
            None => owned("Unknown"),
        },
    }
}

} // verus!
