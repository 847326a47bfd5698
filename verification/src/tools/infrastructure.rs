//! Infrastructure and Kubernetes tools: namespace names, the deployment
//! query, the labels of a deployment series, and the snapshot of the
//! deployments a query returned.
use vstd::prelude::*;
use crate::sanitize::views;
use crate::text::{
    chars_of, owned, push_str, sorted_distinct_of, sorted_unique, str_eq, string_from_chars,
};
use crate::tools::{two_count_line, two_count_summary};

verus! {

/// A character allowed in a Kubernetes namespace name.
pub open spec fn namespace_char(c: char) -> bool {
    ('a' <= c <= 'z') || ('0' <= c <= '9') || c == '-'
}

/// A lowercase DNS-1123 label of at most 63 characters: lower-case letters,
/// digits and hyphens, starting and ending with a letter or digit.
pub open spec fn valid_namespace(s: Seq<char>) -> bool {
    &&& 0 < s.len() <= 63
    &&& forall|i: int| 0 <= i < s.len() ==> namespace_char(#[trigger] s[i])
    &&& s[0] != '-'
    &&& s.last() != '-'
}

/// The message for a namespace name that is not a DNS-1123 label.
pub const NAMESPACE_ERROR: &'static str = "namespace must be a valid lowercase DNS-1123 label";

/// A Kubernetes namespace name that is a valid lowercase DNS-1123 label.
#[derive(Debug, Clone, PartialEq, Eq)]
pub struct KubernetesNamespace(String);

impl KubernetesNamespace {
    /// The name.
    pub closed spec fn name(&self) -> Seq<char> {
        self.0@
    }

    /// The name.
    pub fn as_str(&self) -> (r: &str)
        ensures
            r@ == self.name(),
    {
        self.0.as_str()
    }
}

/// A namespace name is valid exactly when it has 1 to 63 characters, each a
/// lower-case ASCII letter, an ASCII digit or a hyphen, and it neither starts
/// nor ends with a hyphen.
pub proof fn lemma_namespace_labels(s: Seq<char>)
    ensures
        valid_namespace(s) <==> {
            &&& 1 <= s.len() <= 63
            &&& forall|i: int|
                0 <= i < s.len() ==> ('a' <= #[trigger] s[i] <= 'z') || ('0' <= s[i] <= '9') || s[i]
                    == '-'
            &&& s[0] != '-'
            &&& s[s.len() - 1] != '-'
        },
{
}

/// Whether `s` is a valid namespace name.
pub fn is_valid_namespace(s: &str) -> (r: bool)
    ensures
        r == valid_namespace(s@),
        r <==> {
            &&& 1 <= s@.len() <= 63
            &&& forall|i: int|
                0 <= i < s@.len() ==> ('a' <= #[trigger] s@[i] <= 'z') || ('0' <= s@[i] <= '9')
                    || s@[i] == '-'
            &&& s@[0] != '-'
            &&& s@[s@.len() - 1] != '-'
        },
{
    let v = chars_of(s);
    let n = v.len();
    if n == 0 || n > 63 {
        return false;
    }
    let mut i: usize = 0;
    while i < n
        invariant
            i <= n == v@.len(),
            v@ == s@,
            forall|j: int| 0 <= j < i ==> namespace_char(#[trigger] v@[j]),
        decreases n - i,
    {
        let c = v[i];
        if !(('a' <= c && c <= 'z') || ('0' <= c && c <= '9') || c == '-') {
            assert(!namespace_char(s@[i as int]));
            return false;
        }
        i = i + 1;
    }
    proof {
        lemma_namespace_labels(s@);
    }
    v[0] != '-' && v[n - 1] != '-'
}

impl TryFrom<String> for KubernetesNamespace {
    type Error = &'static str;

    fn try_from(value: String) -> (r: Result<Self, Self::Error>) {
        if is_valid_namespace(value.as_str()) {
            Ok(KubernetesNamespace(value))
        } else {
            Err(NAMESPACE_ERROR)
        }
    }
}

impl vstd::std_specs::convert::TryFromSpecImpl<String> for KubernetesNamespace {
    open spec fn obeys_try_from_spec() -> bool {
        true
    }

    closed spec fn try_from_spec(v: String) -> Result<Self, Self::Error> {
        if valid_namespace(v@) {
            Ok(KubernetesNamespace(v))
        } else {
            Err(NAMESPACE_ERROR)
        }
    }
}

/// Conversion from a string succeeds exactly on valid namespace names, and
/// keeps the name; otherwise it fails with `NAMESPACE_ERROR`.
pub proof fn lemma_namespace_conversion(v: String)
    ensures
        <KubernetesNamespace as vstd::std_specs::convert::TryFromSpec<String>>::obeys_try_from_spec(),
        <KubernetesNamespace as vstd::std_specs::convert::TryFromSpec<String>>::try_from_spec(v) is Ok
            <==> valid_namespace(v@),
        <KubernetesNamespace as vstd::std_specs::convert::TryFromSpec<String>>::try_from_spec(v) matches Ok(ns)
            ==> ns.name() == v@,
        !valid_namespace(v@) ==> <KubernetesNamespace as vstd::std_specs::convert::TryFromSpec<String>>::try_from_spec(v)
            == Err::<KubernetesNamespace, &'static str>(NAMESPACE_ERROR),
{
}

/// The metric query of the deployment tool: desired replicas per deployment,
/// namespace and cluster, over one namespace or all of them.
pub open spec fn deployments_query_text(namespace: Option<Seq<char>>) -> Seq<char> {
    "avg:kubernetes_state.deployment.replicas_desired{"@ + (match namespace {
        Some(ns) => "kube_namespace:"@ + ns,
        None => "*"@,
    }) + "} by {kube_deployment,kube_namespace,kube_cluster_name}"@
}

/// Builds the metric query of the deployment tool.
pub fn deployments_query(namespace: Option<&KubernetesNamespace>) -> (r: String)
    ensures
        r@ == deployments_query_text(
            match namespace {
                Some(ns) => Some(ns.name()),
                None => None,
            },
        ),
{
    let mut s = String::new();
    push_str(&mut s, "avg:kubernetes_state.deployment.replicas_desired{");
    match namespace {
        Some(ns) => {
            push_str(&mut s, "kube_namespace:");
            push_str(&mut s, ns.as_str());
        },
        None => push_str(&mut s, "*"),
    }
    push_str(&mut s, "} by {kube_deployment,kube_namespace,kube_cluster_name}");
    assert(s@ =~= deployments_query_text(
        match namespace {
            Some(ns) => Some(ns.name()),
            None => None,
        },
    ));
    s
}

/// `i` is the position of the first `:` in `t`.
pub open spec fn is_first_colon(t: Seq<char>, i: int) -> bool {
    0 <= i < t.len() && t[i] == ':' && forall|j: int| 0 <= j < i ==> t[j] != ':'
}

/// The value of the last `key:value` tag with the given key (a tag splits at
/// its first `:`).
pub open spec fn tag_value(tags: Seq<Seq<char>>, key: Seq<char>) -> Option<Seq<char>>
    decreases tags.len(),
{
    if tags.len() == 0 {
        None
    } else {
        let t = tags.last();
        if exists|i: int| is_first_colon(t, i) && t.take(i) == key {
            let i = choose|i: int| is_first_colon(t, i) && t.take(i) == key;
            Some(t.skip(i + 1))
        } else {
            tag_value(tags.drop_last(), key)
        }
    }
}

/// Splits a tag at its first `:`.
fn split_tag(t: &str) -> (r: Option<(Vec<char>, usize)>)
    ensures
        match r {
            None => forall|j: int| 0 <= j < t@.len() ==> t@[j] != ':',
            Some((v, i)) => v@ == t@ && is_first_colon(t@, i as int),
        },
{
    let v = chars_of(t);
    let mut i: usize = 0;
    while i < v.len()
        invariant
            i <= v@.len(),
            v@ == t@,
            forall|j: int| 0 <= j < i ==> v@[j] != ':',
        decreases v@.len() - i,
    {
        if v[i] == ':' {
            return Some((v, i));
        }
        i = i + 1;
    }
    None
}

proof fn lemma_first_colon_unique(t: Seq<char>, i: int, k: int)
    requires
        is_first_colon(t, i),
        is_first_colon(t, k),
    ensures
        i == k,
{
    if i < k {
        assert(t[i] != ':');
    } else if k < i {
        assert(t[k] != ':');
    }
}

/// The value of the last tag with the given key.
pub fn find_tag_value(tags: &Vec<String>, key: &str) -> (r: Option<String>)
    ensures
        match r {
            None => tag_value(crate::sanitize::views(tags@), key@) is None,
            Some(v) => tag_value(crate::sanitize::views(tags@), key@) == Some(v@),
        },
{
    let ghost all = crate::sanitize::views(tags@);
    let mut n = tags.len();
    assert(all.take(n as int) =~= all);
    while n > 0
        invariant
            n <= tags@.len(),
            all == crate::sanitize::views(tags@),
            tag_value(all, key@) == tag_value(all.take(n as int), key@),
        decreases n,
    {
        let t = &tags[n - 1];
        let ghost pre = all.take(n as int);
        proof {
            assert(pre.drop_last() =~= all.take(n - 1));
            assert(pre.last() == t@);
        }
        match split_tag(t.as_str()) {
            Some((v, i)) => {
                let k = string_from_chars(&v, 0, i);
                assert(v@.subrange(0, i as int) =~= t@.take(i as int));
                if str_eq(k.as_str(), key) {
                    let value = string_from_chars(&v, i + 1, v.len());
                    proof {
                        assert(v@.subrange(i + 1, v@.len() as int) =~= t@.skip(i + 1));
                        assert(is_first_colon(t@, i as int) && t@.take(i as int) == key@);
                        let c = choose|c: int| is_first_colon(t@, c) && t@.take(c) == key@;
                        lemma_first_colon_unique(t@, i as int, c);
                    }
                    return Some(value);
                }
                proof {
                    assert forall|c: int| is_first_colon(t@, c) implies t@.take(c) != key@ by {
                        lemma_first_colon_unique(t@, i as int, c);
                    }
                }
            },
            None => {},
        }
        n = n - 1;
    }
    None
}

/// The labels of one deployment series.
#[derive(Debug, Clone)]
pub struct DeploymentLabels {
    pub deployment: String,
    pub namespace: String,
    pub cluster: String,
}

/// The value of a tag, or `unknown` when no tag has the key.
pub open spec fn label_or_unknown(tags: Seq<Seq<char>>, key: Seq<char>) -> Seq<char> {
    match tag_value(tags, key) {
        Some(v) => v,
        None => "unknown"@,
    }
}

/// Reads the deployment, namespace and cluster of a series from its group
/// tags; each is `unknown` when absent.
pub fn deployment_labels(group_tags: &Vec<String>) -> (r: DeploymentLabels)
    ensures
        r.deployment@ == label_or_unknown(crate::sanitize::views(group_tags@), "kube_deployment"@),
        r.namespace@ == label_or_unknown(crate::sanitize::views(group_tags@), "kube_namespace"@),
        r.cluster@ == label_or_unknown(crate::sanitize::views(group_tags@), "kube_cluster_name"@),
{
    let deployment = match find_tag_value(group_tags, "kube_deployment") {
        Some(v) => v,
        None => owned("unknown"),
    };
    let namespace = match find_tag_value(group_tags, "kube_namespace") {
        Some(v) => v,
        None => owned("unknown"),
    };
    let cluster = match find_tag_value(group_tags, "kube_cluster_name") {
        Some(v) => v,
        None => owned("unknown"),
    };
    DeploymentLabels { deployment, namespace, cluster }
}

/// The label under `key` of each series, `unknown` where a series has none.
pub open spec fn labels_of(series_tags: Seq<Vec<String>>, key: Seq<char>) -> Seq<Seq<char>> {
    series_tags.map_values(|tags: Vec<String>| label_or_unknown(views(tags@), key))
}

/// The deployments a replica query returned, with the distinct deployment
/// names and namespaces among them in increasing order.
#[derive(Debug, Clone)]
pub struct DeploymentSnapshot {
    pub deployments: Vec<DeploymentLabels>,
    pub unique_deployment_names: Vec<String>,
    pub unique_namespaces: Vec<String>,
}

/// Builds the snapshot of the series of a replica query from their group
/// tags, one deployment per series.
pub fn deployment_snapshot(series_tags: &Vec<Vec<String>>) -> (r: DeploymentSnapshot)
    ensures
        r.deployments@.len() == series_tags@.len(),
        forall|i: int|
            0 <= i < series_tags@.len() ==> {
                &&& (#[trigger] r.deployments@[i]).deployment@ == labels_of(
                    series_tags@,
                    "kube_deployment"@,
                )[i]
                &&& r.deployments@[i].namespace@ == labels_of(series_tags@, "kube_namespace"@)[i]
                &&& r.deployments@[i].cluster@ == labels_of(series_tags@, "kube_cluster_name"@)[i]
            },
        sorted_distinct_of(
            views(r.unique_deployment_names@),
            labels_of(series_tags@, "kube_deployment"@),
        ),
        sorted_distinct_of(views(r.unique_namespaces@), labels_of(series_tags@, "kube_namespace"@)),
{
    let mut deployments: Vec<DeploymentLabels> = Vec::new();
    let mut names: Vec<String> = Vec::new();
    let mut namespaces: Vec<String> = Vec::new();
    let mut i: usize = 0;
    while i < series_tags.len()
        invariant
            i <= series_tags@.len(),
            deployments@.len() == i,
            forall|j: int|
                0 <= j < i ==> {
                    &&& (#[trigger] deployments@[j]).deployment@ == labels_of(
                        series_tags@,
                        "kube_deployment"@,
                    )[j]
                    &&& deployments@[j].namespace@ == labels_of(series_tags@, "kube_namespace"@)[j]
                    &&& deployments@[j].cluster@ == labels_of(
                        series_tags@,
                        "kube_cluster_name"@,
                    )[j]
                },
            views(names@) == labels_of(series_tags@, "kube_deployment"@).take(i as int),
            views(namespaces@) == labels_of(series_tags@, "kube_namespace"@).take(i as int),
        decreases series_tags@.len() - i,
    {
        let labels = deployment_labels(&series_tags[i]);
        let ghost old_names = views(names@);
        let ghost old_namespaces = views(namespaces@);
        names.push(labels.deployment.clone());
        namespaces.push(labels.namespace.clone());
        deployments.push(labels);
        proof {
            assert(views(names@) =~= old_names.push(
                labels_of(series_tags@, "kube_deployment"@)[i as int],
            ));
            assert(views(names@) =~= labels_of(series_tags@, "kube_deployment"@).take(i + 1));
            assert(views(namespaces@) =~= old_namespaces.push(
                labels_of(series_tags@, "kube_namespace"@)[i as int],
            ));
            assert(views(namespaces@) =~= labels_of(series_tags@, "kube_namespace"@).take(i + 1));
        }
        i = i + 1;
    }
    proof {
        assert(labels_of(series_tags@, "kube_deployment"@).take(i as int) =~= labels_of(
            series_tags@,
            "kube_deployment"@,
        ));
        assert(labels_of(series_tags@, "kube_namespace"@).take(i as int) =~= labels_of(
            series_tags@,
            "kube_namespace"@,
        ));
    }
    let unique_deployment_names = sorted_unique(&names);
    let unique_namespaces = sorted_unique(&namespaces);
    DeploymentSnapshot { deployments, unique_deployment_names, unique_namespaces }
}

impl DeploymentSnapshot {
    /// The summary line: how many deployments and namespaces were found.
    pub fn summary(&self) -> (r: String)
        ensures
            r@ == two_count_line(
                "Found "@,
                self.unique_deployment_names@.len(),
                " deployments across "@,
                self.unique_namespaces@.len(),
                " namespaces"@,
            ),
    {
        two_count_summary(
            "Found ",
            self.unique_deployment_names.len(),
            " deployments across ",
            self.unique_namespaces.len(),
            " namespaces",
        )
    }
}

/// Seconds of data that a deployment query looks back.
pub const DEPLOYMENT_WINDOW_SECS: i64 = 300;

/// The time range of a deployment query ending at `now`.
pub fn deployment_window(now: i64) -> (r: (i64, i64))
    requires
        now >= i64::MIN + DEPLOYMENT_WINDOW_SECS,
    ensures
        r.0 == now - DEPLOYMENT_WINDOW_SECS,
        r.1 == now,
{
    (now - DEPLOYMENT_WINDOW_SECS, now)
}

/// The position of the last value that is present, if any.
pub fn last_present(present: &Vec<bool>) -> (r: Option<usize>)
    ensures
        match r {
            None => forall|j: int| 0 <= j < present@.len() ==> !present@[j],
            Some(i) => i < present@.len() && present@[i as int] && forall|j: int|
                i < j < present@.len() ==> !present@[j],
        },
{
    let mut n = present.len();
    while n > 0
        invariant
            n <= present@.len(),
            forall|j: int| n <= j < present@.len() ==> !present@[j],
        decreases n,
    {
        if present[n - 1] {
            return Some(n - 1);
        }
        n = n - 1;
    }
    None
}

} // verus!
