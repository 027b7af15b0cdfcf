//! Statistics of the samples of a window, taken at one moment.

use crate::window::{
    all_in_range, in_range, mean_spec, std_dev_spec, TimeSeriesData, TimeSeriesWindow, MAX_WINDOW,
};
use vstd::multiset::*;
use vstd::prelude::*;
use vstd::relations::{sorted_by, total_ordering};
use vstd::seq_lib::*;

verus! {

/// The mean, the standard deviation, the extremes and the 95th percentile of
/// some samples, in ticks.
#[derive(Clone, Copy, Debug, PartialEq, Eq, Structural)]
pub struct Statistics {
    pub mean: i64,
    pub std_dev: i64,
    pub min: i64,
    pub max: i64,
    pub percentile_95: i64,
}

/// The order in which values are sorted.
pub open spec fn ascending() -> spec_fn(i64, i64) -> bool {
    |a: i64, b: i64| a <= b
}

/// The values in ascending order.
pub open spec fn sorted_copy(values: Seq<i64>) -> Seq<i64> {
    values.sort_by(ascending())
}

/// The values of the samples, in their order.
pub open spec fn values_of(s: Seq<TimeSeriesData>) -> Seq<i64> {
    Seq::new(s.len(), |i: int| s[i].value)
}

/// Samples with the given values, all at time 0.
pub open spec fn samples_of(values: Seq<i64>) -> Seq<TimeSeriesData> {
    Seq::new(values.len(), |i: int| TimeSeriesData { timestamp: 0, value: values[i] })
}

/// The place of the 95th percentile among `n` sorted values.
pub open spec fn p95_index(n: nat) -> int {
    (95 * n as int) / 100
}

/// The statistics of some samples; `None` for no samples.
pub open spec fn statistics_of(s: Seq<TimeSeriesData>) -> Option<Statistics> {
    if s.len() == 0 {
        None
    } else {
        let sorted = sorted_copy(values_of(s));
        Some(
            Statistics {
                mean: mean_spec(s) as i64,
                std_dev: std_dev_spec(s) as i64,
                min: sorted[0],
                max: sorted[s.len() - 1],
                percentile_95: sorted[p95_index(s.len())],
            },
        )
    }
}

/// The sorted copy holds the same values, each as often, in ascending order;
/// and it is the only sequence that does.
pub proof fn lemma_sorted_copy(values: Seq<i64>, sorted: Seq<i64>)
    ensures
        sorted_copy(values).len() == values.len(),
        sorted_copy(values).to_multiset() == values.to_multiset(),
        sorted_by(sorted_copy(values), ascending()),
        sorted_by(sorted, ascending()) && sorted.to_multiset() == values.to_multiset()
            ==> sorted == sorted_copy(values),
{
    broadcast use group_to_multiset_ensures;

    values.lemma_sort_by_ensures(ascending());
    assert(sorted_copy(values).to_multiset().len() == sorted_copy(values).len());
    if sorted_by(sorted, ascending()) && sorted.to_multiset() == values.to_multiset() {
        lemma_sorted_unique(sorted, sorted_copy(values), ascending());
    }
}

/// Sorts a vector in place, in ascending order.
pub fn sort_values(v: &mut Vec<i64>)
    ensures
        final(v)@ == sorted_copy(old(v)@),
{
    broadcast use {group_to_multiset_ensures, group_multiset_axioms};

    let n = v.len();
    let mut i: usize = 1;
    while i < n
        invariant
            n == v@.len(),
            1 <= i || n == 0,
            v@.to_multiset() == old(v)@.to_multiset(),
            forall|a: int, b: int| 0 <= a < b < i && b < n ==> v@[a] <= v@[b],
        decreases n - i,
    {
        let mut j: usize = i;
        while j > 0 && v[j - 1] > v[j]
            invariant
                n == v@.len(),
                0 <= j <= i < n,
                v@.to_multiset() == old(v)@.to_multiset(),
                forall|a: int, b: int| 0 <= a < b <= i && a != j && b != j ==> v@[a] <= v@[b],
                forall|b: int| j < b <= i ==> v@[j as int] <= v@[b],
            decreases j,
        {
            let ghost before = v@;
            let lower = v[j - 1];
            let upper = v[j];
            v.set(j - 1, upper);
            v.set(j, lower);
            proof {
                let mid = before.update(j - 1, upper);
                let all = before.to_multiset();
                to_multiset_update(before, j - 1, upper);
                to_multiset_update(mid, j as int, lower);
                assert(all.count(lower) > 0 && all.count(upper) > 0) by {
                    to_multiset_contains(before, lower);
                    to_multiset_contains(before, upper);
                }
            }
            j = j - 1;
        }
        i = i + 1;
    }
    proof {
        lemma_sorted_copy(old(v)@, v@);
    }
}

impl TimeSeriesWindow {
    /// The values held, oldest first.
    pub fn values(&self) -> (v: Vec<i64>)
        ensures
            v@ == values_of(self@),
    {
        let n = self.len();
        let mut v: Vec<i64> = Vec::new();
        let mut i: usize = 0;
        while i < n
            invariant
                n == self@.len(),
                i <= n,
                v@.len() == i,
                forall|j: int| 0 <= j < i ==> v@[j] == self@[j].value,
            decreases n - i,
        {
            v.push(self.get(i).value);
            i = i + 1;
        }
        v
    }

    /// The statistics of the samples held, from a sorted copy of their
    /// values; `None` for an empty window.
    pub fn snapshot(&self) -> (r: Option<Statistics>)
        requires
            self.wf(),
        ensures
            r == statistics_of(self@),
    {
        let n = self.len();
        if n == 0 {
            return None;
        }
        let mut sorted = self.values();
        sort_values(&mut sorted);
        proof {
            lemma_sorted_copy(values_of(self@), sorted@);
            self.lemma_wf();
        }
        let at: usize = (95 * n) / 100;
        Some(
            Statistics {
                mean: self.mean(),
                std_dev: self.std_dev(),
                min: sorted[0],
                max: sorted[n - 1],
                percentile_95: sorted[at],
            },
        )
    }
}

impl Statistics {
    /// The statistics of the values; `None` for no values.
    pub fn calculate(values: &Vec<i64>) -> (r: Option<Statistics>)
        requires
            values@.len() <= MAX_WINDOW,
            forall|i: int| 0 <= i < values@.len() ==> in_range(#[trigger] values@[i]),
        ensures
            r == statistics_of(samples_of(values@)),
    {
        let n = values.len();
        if n == 0 {
            return None;
        }
        let mut window = TimeSeriesWindow::new(n);
        let mut i: usize = 0;
        while i < n
            invariant
                n == values@.len(),
                1 <= n <= MAX_WINDOW,
                i <= n,
                window.wf(),
                window.capacity() == n,
                window@ == samples_of(values@).subrange(0, i as int),
                forall|j: int| 0 <= j < values@.len() ==> in_range(#[trigger] values@[j]),
            decreases n - i,
        {
            window.push(TimeSeriesData { timestamp: 0, value: values[i] });
            i = i + 1;
        }
        assert(window@ =~= samples_of(values@));
        window.snapshot()
    }
}

/// The statistics of samples in range are themselves in range, and the
/// standard deviation is not negative.
pub proof fn lemma_statistics_in_range(s: Seq<TimeSeriesData>)
    requires
        all_in_range(s),
        0 < s.len() <= MAX_WINDOW,
    ensures
        statistics_of(s) matches Some(st) && in_range(st.mean) && in_range(st.percentile_95)
            && in_range(st.min) && in_range(st.max) && 0 <= st.std_dev,
{
    broadcast use group_to_multiset_ensures;

    let values = values_of(s);
    let sorted = sorted_copy(values);
    lemma_sorted_copy(values, sorted);
    assert forall|i: int| 0 <= i < sorted.len() implies in_range(#[trigger] sorted[i]) by {
        to_multiset_contains(values, sorted[i]);
    }
    crate::window::lemma_mean_in_range(s);
    crate::window::lemma_std_dev_bounds(s);
}

} // verus!
