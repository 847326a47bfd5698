//! The decisions of the tools, by domain: how their inputs are cleaned and
//! checked before a Datadog request, and how a response is summarized. The
//! requests themselves are made by the caller.
use vstd::prelude::*;
use crate::text::{dec_nat, push_decimal_u64, push_str, str_eq};

pub mod cache_tools;
pub mod dashboards;
pub mod downtimes;
pub mod events;
pub mod infrastructure;
pub mod logs;
pub mod metrics;
pub mod monitors;
pub mod paging;
pub mod synthetics;

verus! {

/// How many entries of `vs` equal `x`.
pub open spec fn count_eq(vs: Seq<Seq<char>>, x: Seq<char>) -> nat
    decreases vs.len(),
{
    if vs.len() == 0 {
        0
    } else {
        count_eq(vs.drop_last(), x) + if vs.last() == x {
            1nat
        } else {
            0nat
        }
    }
}

/// How many entries of `vs` are present and equal `x`.
pub open spec fn count_some_eq(vs: Seq<Option<String>>, x: Seq<char>) -> nat
    decreases vs.len(),
{
    if vs.len() == 0 {
        0
    } else {
        count_some_eq(vs.drop_last(), x) + if vs.last() matches Some(s) && s@ == x {
            1nat
        } else {
            0nat
        }
    }
}

/// How many entries of `vs` hold `true`.
pub open spec fn count_true(vs: Seq<bool>) -> nat
    decreases vs.len(),
{
    if vs.len() == 0 {
        0
    } else {
        count_true(vs.drop_last()) + if vs.last() {
            1nat
        } else {
            0nat
        }
    }
}

/// Distinct values, each with the number of times it occurs.
#[derive(Debug, Clone)]
pub struct Tally {
    pub values: Vec<String>,
    pub counts: Vec<usize>,
}

/// `x` occurs in `vs` before position `k`.
pub open spec fn occurs_before(vs: Seq<Seq<char>>, x: Seq<char>, k: int) -> bool {
    exists|m: int| 0 <= m < k && vs[m] == x
}

/// `t` holds each value of `vs` once, in order of first occurrence, with
/// the number of times it occurs.
pub open spec fn tallies(t: Tally, vs: Seq<Seq<char>>) -> bool {
    &&& t.values@.len() == t.counts@.len()
    &&& forall|i: int, j: int|
        0 <= i < j < t.values@.len() ==> (#[trigger] t.values@[i])@ != (#[trigger] t.values@[j])@
    &&& forall|i: int|
        0 <= i < t.values@.len() ==> t.counts@[i] == count_eq(vs, (#[trigger] t.values@[i])@)
            && t.counts@[i] >= 1
    &&& forall|k: int|
        0 <= k < vs.len() ==> exists|i: int|
            0 <= i < t.values@.len() && (#[trigger] t.values@[i])@ == #[trigger] vs[k]
    &&& forall|i: int, j: int, k: int|
        #![trigger vs[k], t.values@[j], t.values@[i]]
        0 <= i < j < t.values@.len() && 0 <= k < vs.len() && vs[k] == t.values@[j]@
            ==> occurs_before(vs, t.values@[i]@, k)
}

proof fn lemma_count_eq_step(vs: Seq<Seq<char>>, t: int, x: Seq<char>)
    requires
        0 <= t < vs.len(),
    ensures
        count_eq(vs.take(t + 1), x) == count_eq(vs.take(t), x) + if vs[t] == x {
            1nat
        } else {
            0nat
        },
{
    assert(vs.take(t + 1).drop_last() =~= vs.take(t));
}

proof fn lemma_count_eq_bound(vs: Seq<Seq<char>>, x: Seq<char>)
    ensures
        count_eq(vs, x) <= vs.len(),
    decreases vs.len(),
{
    if vs.len() > 0 {
        lemma_count_eq_bound(vs.drop_last(), x);
    }
}

/// Counts how often each value occurs.
#[verifier::spinoff_prover]
#[verifier::rlimit(40)]
pub fn tally(vs: &Vec<String>) -> (r: Tally)
    ensures
        tallies(r, crate::sanitize::views(vs@)),
{
    let ghost all = crate::sanitize::views(vs@);
    let mut values: Vec<String> = Vec::new();
    let mut counts: Vec<usize> = Vec::new();
    let mut t: usize = 0;
    while t < vs.len()
        invariant
            t <= vs@.len(),
            all == crate::sanitize::views(vs@),
            tallies(Tally { values, counts }, all.take(t as int)),
        decreases vs@.len() - t,
    {
        let v = &vs[t];
        let ghost pre = all.take(t as int);
        let ghost post = all.take(t + 1);
        proof {
            assert(post[t as int] == v@);
            assert forall|x: Seq<char>| #[trigger] count_eq(post, x) == count_eq(pre, x) + if v@
                == x {
                1nat
            } else {
                0nat
            } by {
                lemma_count_eq_step(all, t as int, x);
            }
            lemma_count_eq_bound(pre, v@);
        }
        let mut i: usize = 0;
        while i < values.len() && !str_eq(values[i].as_str(), v.as_str())
            invariant
                i <= values@.len(),
                forall|j: int| 0 <= j < i ==> values@[j]@ != v@,
            decreases values@.len() - i,
        {
            i = i + 1;
        }
        let ghost old_values = values@;
        let ghost old_counts = counts@;
        if i < values.len() {
            let c = counts[i];
            counts.set(i, c + 1);
            proof {
                assert forall|k: int| 0 <= k < post.len() implies exists|j: int|
                    0 <= j < values@.len() && (#[trigger] values@[j])@ == #[trigger] post[k] by {
                    if k < t {
                        assert(pre[k] == post[k]);
                    } else {
                        assert(values@[i as int]@ == post[k]);
                    }
                }
                assert(values@ == old_values);
                assert forall|a: int, b: int, k: int|
                    #![trigger post[k], values@[b], values@[a]]
                    0 <= a < b < values@.len() && 0 <= k < post.len() && post[k] == values@[b]@
                        implies occurs_before(post, values@[a]@, k) by {
                    if k < t {
                        assert(pre[k] == post[k]);
                        assert(occurs_before(pre, old_values[a]@, k));
                        let m = choose|m: int| 0 <= m < k && pre[m] == old_values[a]@;
                        assert(post[m] == pre[m]);
                    } else {
                        assert(old_counts[a] == count_eq(pre, old_values[a]@));
                        lemma_count_eq_positive_occurs(pre, old_values[a]@);
                        let m = choose|m: int| 0 <= m < pre.len() && pre[m] == old_values[a]@;
                        assert(post[m] == pre[m]);
                    }
                }
            }
        } else {
            values.push(v.clone());
            counts.push(1);
            proof {
                assert(count_eq(pre, v@) == 0) by {
                    if count_eq(pre, v@) > 0 {
                        lemma_count_eq_positive_occurs(pre, v@);
                        let k = choose|k: int| 0 <= k < pre.len() && pre[k] == v@;
                        let j = choose|j: int|
                            0 <= j < old_values.len() && (#[trigger] old_values[j])@ == pre[k];
                        assert(old_values[j]@ != v@);
                    }
                }
                assert forall|k: int| 0 <= k < post.len() implies exists|j: int|
                    0 <= j < values@.len() && (#[trigger] values@[j])@ == #[trigger] post[k] by {
                    if k < t {
                        assert(pre[k] == post[k]);
                        let j = choose|j: int|
                            0 <= j < old_values.len() && (#[trigger] old_values[j])@ == pre[k];
                        assert(values@[j] == old_values[j]);
                    } else {
                        assert(values@[old_values.len() as int]@ == post[k]);
                    }
                }
                assert forall|a: int, b: int, k: int|
                    #![trigger post[k], values@[b], values@[a]]
                    0 <= a < b < values@.len() && 0 <= k < post.len() && post[k] == values@[b]@
                        implies occurs_before(post, values@[a]@, k) by {
                    assert(values@[a] == old_values[a]);
                    if k < t {
                        assert(pre[k] == post[k]);
                        if b < old_values.len() {
                            assert(values@[b] == old_values[b]);
                            assert(occurs_before(pre, old_values[a]@, k));
                            let m = choose|m: int| 0 <= m < k && pre[m] == old_values[a]@;
                            assert(post[m] == pre[m]);
                        } else {
                            let j = choose|j: int|
                                0 <= j < old_values.len() && (#[trigger] old_values[j])@
                                    == pre[k];
                            assert(old_values[j]@ != v@);
                        }
                    } else {
                        if b < old_values.len() {
                            assert(values@[b] == old_values[b]);
                            assert(old_values[b]@ != v@);
                        }
                        assert(old_counts[a] == count_eq(pre, old_values[a]@));
                        lemma_count_eq_positive_occurs(pre, old_values[a]@);
                        let m = choose|m: int| 0 <= m < pre.len() && pre[m] == old_values[a]@;
                        assert(post[m] == pre[m]);
                    }
                }
            }
        }
        assert(tallies(Tally { values, counts }, post));
        t = t + 1;
    }
    assert(all.take(vs@.len() as int) =~= all);
    Tally { values, counts }
}

proof fn lemma_count_eq_positive_occurs(vs: Seq<Seq<char>>, x: Seq<char>)
    requires
        count_eq(vs, x) > 0,
    ensures
        exists|k: int| 0 <= k < vs.len() && vs[k] == x,
    decreases vs.len(),
{
    if vs.last() == x {
        assert(vs[vs.len() - 1] == x);
    } else {
        lemma_count_eq_positive_occurs(vs.drop_last(), x);
        let k = choose|k: int| 0 <= k < vs.drop_last().len() && vs.drop_last()[k] == x;
        assert(vs[k] == x);
    }
}

/// Counts the entries that are present and equal `x`.
pub fn count_present_eq(vs: &Vec<Option<String>>, x: &str) -> (r: usize)
    ensures
        r == count_some_eq(vs@, x@),
{
    let mut n: usize = 0;
    let mut i: usize = 0;
    while i < vs.len()
        invariant
            i <= vs@.len(),
            n == count_some_eq(vs@.take(i as int), x@),
            n <= i,
        decreases vs@.len() - i,
    {
        proof {
            assert(vs@.take(i + 1).drop_last() =~= vs@.take(i as int));
        }
        match &vs[i] {
            Some(s) => {
                if str_eq(s.as_str(), x) {
                    n = n + 1;
                }
            },
            None => {},
        }
        i = i + 1;
    }
    assert(vs@.take(vs@.len() as int) =~= vs@);
    n
}

/// Counts the entries that hold `true`.
pub fn count_flags(vs: &Vec<bool>) -> (r: usize)
    ensures
        r == count_true(vs@),
        r <= vs@.len(),
{
    let mut n: usize = 0;
    let mut i: usize = 0;
    while i < vs.len()
        invariant
            i <= vs@.len(),
            n == count_true(vs@.take(i as int)),
            n <= i,
        decreases vs@.len() - i,
    {
        proof {
            assert(vs@.take(i + 1).drop_last() =~= vs@.take(i as int));
        }
        if vs[i] {
            n = n + 1;
        }
        i = i + 1;
    }
    assert(vs@.take(vs@.len() as int) =~= vs@);
    n
}

/// Totals of a list of yes/no flags.
#[derive(Debug, Clone, Copy, PartialEq, Eq, Structural)]
pub struct FlagCounts {
    pub total: usize,
    pub on: usize,
    pub off: usize,
}

/// Counts the flags that are set and those that are not.
pub fn flag_counts(flags: &Vec<bool>) -> (r: FlagCounts)
    ensures
        r.total == flags@.len(),
        r.on == count_true(flags@),
        r.on + r.off == r.total,
{
    let on = count_flags(flags);
    FlagCounts { total: flags.len(), on, off: flags.len() - on }
}

/// A summary line that reports a number: `before`, the number in decimal,
/// then `after`.
pub open spec fn count_line(before: Seq<char>, n: nat, after: Seq<char>) -> Seq<char> {
    before + dec_nat(n) + after
}

/// Builds a summary line that reports a number.
pub fn count_summary(before: &str, n: usize, after: &str) -> (r: String)
    ensures
        r@ == count_line(before@, n as nat, after@),
{
    let mut s = String::new();
    push_str(&mut s, before);
    push_decimal_u64(&mut s, n as u64);
    push_str(&mut s, after);
    assert(s@ =~= count_line(before@, n as nat, after@));
    s
}

/// A summary line that reports two numbers.
pub open spec fn two_count_line(
    before: Seq<char>,
    n: nat,
    middle: Seq<char>,
    m: nat,
    after: Seq<char>,
) -> Seq<char> {
    before + dec_nat(n) + middle + dec_nat(m) + after
}

/// Builds a summary line that reports two numbers.
pub fn two_count_summary(before: &str, n: usize, middle: &str, m: usize, after: &str) -> (r:
    String)
    ensures
        r@ == two_count_line(before@, n as nat, middle@, m as nat, after@),
{
    let mut s = String::new();
    push_str(&mut s, before);
    push_decimal_u64(&mut s, n as u64);
    push_str(&mut s, middle);
    push_decimal_u64(&mut s, m as u64);
    push_str(&mut s, after);
    assert(s@ =~= two_count_line(before@, n as nat, middle@, m as nat, after@));
    s
}

} // verus!
