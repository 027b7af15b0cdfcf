//! A rolling window of timestamped samples with running sums.
//!
//! Values are fixed-point: an `i64` number of ticks, where the caller picks
//! what one tick is worth.  All statistics are exact functions of the samples
//! that the window holds; nothing is rounded but where a result is cut to an
//! integer, and the contract says how.

use crate::arith::{abs_spec, magnitude, ratio, ratio_spec, scaled_root, scaled_root_spec, RATIO_CAP};
use std::collections::VecDeque;
use vstd::prelude::*;

verus! {

/// Largest size, in ticks, of a value that a window accepts (2^46).
pub const MAX_VALUE: i64 = 70_368_744_177_664;

/// Largest capacity that a window can have (2^16).
pub const MAX_WINDOW: usize = 65_536;

/// Largest standard deviation that can be reported.
pub const STD_DEV_CAP: u64 = 0x7FFF_FFFF_FFFF_FFFF;

/// One sample: a time in milliseconds since the Unix epoch, and a value in
/// ticks.
#[derive(Clone, Copy, Debug, PartialEq, Eq, Structural)]
pub struct TimeSeriesData {
    pub timestamp: i64,
    pub value: i64,
}

/// Whether a window accepts this value.
pub open spec fn in_range(v: i64) -> bool {
    -MAX_VALUE <= v <= MAX_VALUE
}

/// Whether every sample of the sequence holds an accepted value.
pub open spec fn all_in_range(s: Seq<TimeSeriesData>) -> bool {
    forall|i: int| 0 <= i < s.len() ==> in_range(#[trigger] s[i].value)
}

/// The sum of the values.
pub open spec fn sum_values(s: Seq<TimeSeriesData>) -> int
    decreases s.len(),
{
    if s.len() == 0 {
        0
    } else {
        sum_values(s.drop_last()) + s.last().value
    }
}

/// The sum of the squared values.
pub open spec fn sum_squares(s: Seq<TimeSeriesData>) -> int
    decreases s.len(),
{
    if s.len() == 0 {
        0
    } else {
        sum_squares(s.drop_last()) + s.last().value * s.last().value
    }
}

/// `n * sum(v^2) - sum(v)^2`: the variance times the square of the length.
pub open spec fn spread(s: Seq<TimeSeriesData>) -> int {
    s.len() * sum_squares(s) - sum_values(s) * sum_values(s)
}

/// `n * v - sum`: the distance of `v` from the mean, times the length.
pub open spec fn deviation(s: Seq<TimeSeriesData>, v: int) -> int {
    s.len() * v - sum_values(s)
}

/// The mean, cut toward zero; 0 for no samples.
pub open spec fn mean_spec(s: Seq<TimeSeriesData>) -> int {
    let total = sum_values(s);
    if s.len() == 0 {
        0
    } else if total < 0 {
        -((-total) / (s.len() as int))
    } else {
        total / (s.len() as int)
    }
}

/// The population variance, cut to an integer; 0 for no samples.
pub open spec fn variance_spec(s: Seq<TimeSeriesData>) -> int {
    if s.len() == 0 {
        0
    } else {
        spread(s) / ((s.len() * s.len()) as int)
    }
}

/// The integer part of the population standard deviation; 0 for no samples.
pub open spec fn std_dev_spec(s: Seq<TimeSeriesData>) -> int {
    if s.len() == 0 {
        0
    } else {
        scaled_root_spec(spread(s), (s.len() * s.len()) as int, STD_DEV_CAP as int)
    }
}

/// The z-score of `v` in thousandths, cut toward zero and held to
/// `RATIO_CAP` in size; 0 where the samples do not vary.
pub open spec fn z_score_spec(s: Seq<TimeSeriesData>, v: int) -> int {
    let d = deviation(s, v);
    if spread(s) == 0 {
        0
    } else {
        let k = scaled_root_spec(1_000_000 * (abs_spec(d) * abs_spec(d)), spread(s), RATIO_CAP as int);
        if d < 0 {
            -k
        } else {
            k
        }
    }
}

/// How far `v` lies from the mean, as a share of the mean in hundredths of a
/// percent, cut toward zero and held to `RATIO_CAP` in size; 0 where the mean
/// is 0.
pub open spec fn percent_from_mean_spec(s: Seq<TimeSeriesData>, v: int) -> int {
    ratio_spec(deviation(s, v), sum_values(s), 10_000)
}

/// What a window of capacity `cap` that holds `s` holds after `p` is pushed:
/// a value out of range changes nothing; a full window loses its oldest
/// sample first.
pub open spec fn push_spec(s: Seq<TimeSeriesData>, cap: nat, p: TimeSeriesData) -> Seq<
    TimeSeriesData,
> {
    if !in_range(p.value) {
        s
    } else if s.len() >= cap && s.len() > 0 {
        s.subrange(1, s.len() as int).push(p)
    } else {
        s.push(p)
    }
}

/// A push into a window that is not over its capacity never leaves it with
/// fewer samples, nor with more than its capacity.
pub proof fn lemma_push_grows(s: Seq<TimeSeriesData>, cap: nat, p: TimeSeriesData)
    requires
        1 <= cap,
        s.len() <= cap,
    ensures
        s.len() <= push_spec(s, cap, p).len() <= cap,
{
}

/// What an empty window of capacity `cap` holds after the samples of
/// `pushes` were pushed in order.
pub open spec fn after_pushes(cap: nat, pushes: Seq<TimeSeriesData>) -> Seq<TimeSeriesData>
    decreases pushes.len(),
{
    if pushes.len() == 0 {
        Seq::empty()
    } else {
        push_spec(after_pushes(cap, pushes.drop_last()), cap, pushes.last())
    }
}

pub proof fn lemma_sums_push(s: Seq<TimeSeriesData>, p: TimeSeriesData)
    ensures
        sum_values(s.push(p)) == sum_values(s) + p.value,
        sum_squares(s.push(p)) == sum_squares(s) + p.value * p.value,
{
    assert(s.push(p).drop_last() =~= s);
}

pub proof fn lemma_sums_drop_first(s: Seq<TimeSeriesData>)
    requires
        s.len() > 0,
    ensures
        sum_values(s.subrange(1, s.len() as int)) == sum_values(s) - s[0].value,
        sum_squares(s.subrange(1, s.len() as int)) == sum_squares(s) - s[0].value * s[0].value,
    decreases s.len(),
{
    let t = s.subrange(1, s.len() as int);
    if s.len() == 1 {
        assert(s.drop_last() =~= Seq::<TimeSeriesData>::empty());
        assert(t =~= Seq::<TimeSeriesData>::empty());
    } else {
        lemma_sums_drop_first(s.drop_last());
        assert(s.drop_last().subrange(1, s.len() - 1) =~= t.drop_last());
    }
}

proof fn lemma_square_bound(v: int, m: int)
    by (nonlinear_arith)
    requires
        -m <= v <= m,
    ensures
        0 <= v * v <= m * m,
{
}

/// The sums of samples in range are bounded by the length.
pub proof fn lemma_sums_bounded(s: Seq<TimeSeriesData>)
    requires
        all_in_range(s),
    ensures
        -(s.len() * MAX_VALUE) <= sum_values(s) <= s.len() * MAX_VALUE,
        0 <= sum_squares(s) <= s.len() * (MAX_VALUE * MAX_VALUE),
    decreases s.len(),
{
    if s.len() > 0 {
        lemma_sums_bounded(s.drop_last());
        lemma_square_bound(s.last().value as int, MAX_VALUE as int);
    }
}

/// `sum((v_i - x)^2)` written out: `sum(v^2) - 2 x sum(v) + n x^2`.
spec fn offset_squares(s: Seq<TimeSeriesData>, x: int) -> int {
    sum_squares(s) - 2 * x * sum_values(s) + s.len() * (x * x)
}

proof fn lemma_offset_squares_nonneg(s: Seq<TimeSeriesData>, x: int)
    ensures
        offset_squares(s, x) >= 0,
    decreases s.len(),
{
    if s.len() > 0 {
        let t = s.drop_last();
        let v = s.last().value as int;
        lemma_offset_squares_nonneg(t, x);
        assert(offset_squares(s, x) == offset_squares(t, x) + (v - x) * (v - x)) by (nonlinear_arith)
            requires
                sum_squares(s) == sum_squares(t) + v * v,
                sum_values(s) == sum_values(t) + v,
                s.len() == t.len() + 1,
                offset_squares(s, x) == sum_squares(s) - 2 * x * sum_values(s) + s.len() * (x * x),
                offset_squares(t, x) == sum_squares(t) - 2 * x * sum_values(t) + t.len() * (x * x),
        ;
        assert((v - x) * (v - x) >= 0) by (nonlinear_arith);
    }
}

/// The variance of any samples is not negative: `n * sum(v^2) >= sum(v)^2`.
pub proof fn lemma_spread_nonneg(s: Seq<TimeSeriesData>)
    ensures
        spread(s) >= 0,
    decreases s.len(),
{
    if s.len() > 0 {
        let t = s.drop_last();
        let x = s.last().value as int;
        lemma_spread_nonneg(t);
        lemma_offset_squares_nonneg(t, x);
        assert(spread(s) == spread(t) + offset_squares(t, x)) by (nonlinear_arith)
            requires
                sum_squares(s) == sum_squares(t) + x * x,
                sum_values(s) == sum_values(t) + x,
                s.len() == t.len() + 1,
                spread(s) == s.len() * sum_squares(s) - sum_values(s) * sum_values(s),
                spread(t) == t.len() * sum_squares(t) - sum_values(t) * sum_values(t),
                offset_squares(t, x) == sum_squares(t) - 2 * x * sum_values(t) + t.len() * (x * x),
        ;
    }
}

proof fn lemma_len_bounds(n: int)
    requires
        0 <= n <= MAX_WINDOW,
    ensures
        n * MAX_VALUE <= MAX_WINDOW * MAX_VALUE,
        n * (MAX_VALUE * MAX_VALUE) <= MAX_WINDOW * (MAX_VALUE * MAX_VALUE),
        n * (n * (MAX_VALUE * MAX_VALUE)) <= MAX_WINDOW * (MAX_WINDOW * (MAX_VALUE * MAX_VALUE)),
        n * n <= MAX_WINDOW * MAX_WINDOW,
        n > 0 ==> n * n > 0,
{
    assert(n * (MAX_VALUE * MAX_VALUE) <= MAX_WINDOW * (MAX_VALUE * MAX_VALUE)) by (nonlinear_arith)
        requires
            0 <= n <= MAX_WINDOW,
    ;
    assert(n * (n * (MAX_VALUE * MAX_VALUE)) <= MAX_WINDOW * (MAX_WINDOW * (MAX_VALUE * MAX_VALUE)))
        by (nonlinear_arith)
        requires
            0 <= n <= MAX_WINDOW,
            n * (MAX_VALUE * MAX_VALUE) <= MAX_WINDOW * (MAX_VALUE * MAX_VALUE),
    ;
    assert(n * n <= MAX_WINDOW * MAX_WINDOW) by (nonlinear_arith)
        requires
            0 <= n <= MAX_WINDOW,
    ;
    assert(n > 0 ==> n * n > 0) by (nonlinear_arith);
}

/// After samples in range were pushed into an empty window, the window holds
/// the most recent of them, as many as fit, oldest first: each push into a
/// full window removes exactly the sample pushed `cap` pushes before it.
pub proof fn lemma_window_holds_latest(cap: nat, pushes: Seq<TimeSeriesData>)
    requires
        cap >= 1,
        all_in_range(pushes),
    ensures
        pushes.len() <= cap ==> after_pushes(cap, pushes) == pushes,
        pushes.len() > cap ==> after_pushes(cap, pushes) == pushes.subrange(
            pushes.len() - cap,
            pushes.len() as int,
        ),
    decreases pushes.len(),
{
    if pushes.len() > 0 {
        let head = pushes.drop_last();
        lemma_window_holds_latest(cap, head);
        let before = after_pushes(cap, head);
    }
}

/// The most recent `k` samples, or all of them where there are fewer.
pub open spec fn tail(s: Seq<TimeSeriesData>, k: nat) -> Seq<TimeSeriesData> {
    if s.len() <= k {
        s
    } else {
        s.subrange(s.len() - k, s.len() as int)
    }
}

/// The largest value; 0 for no samples.
pub open spec fn max_value(s: Seq<TimeSeriesData>) -> int
    decreases s.len(),
{
    if s.len() == 0 {
        0
    } else if s.len() == 1 {
        s[0].value as int
    } else {
        let m = max_value(s.drop_last());
        if s.last().value > m {
            s.last().value as int
        } else {
            m
        }
    }
}

/// The smallest value; 0 for no samples.
pub open spec fn min_value(s: Seq<TimeSeriesData>) -> int
    decreases s.len(),
{
    if s.len() == 0 {
        0
    } else if s.len() == 1 {
        s[0].value as int
    } else {
        let m = min_value(s.drop_last());
        if s.last().value < m {
            s.last().value as int
        } else {
            m
        }
    }
}

/// The position of the largest value, the oldest where several are largest;
/// 0 for no samples.
pub open spec fn first_peak(s: Seq<TimeSeriesData>) -> int
    decreases s.len(),
{
    if s.len() <= 1 {
        0
    } else {
        let j = first_peak(s.drop_last());
        if s.last().value > s[j].value {
            s.len() - 1
        } else {
            j
        }
    }
}

/// `max_value` is a value of the sequence that none exceeds, and `min_value`
/// one that none is below.
pub proof fn lemma_extremes(s: Seq<TimeSeriesData>)
    requires
        s.len() > 0,
    ensures
        exists|i: int| 0 <= i < s.len() && s[i].value == max_value(s),
        forall|i: int| 0 <= i < s.len() ==> s[i].value <= max_value(s),
        exists|i: int| 0 <= i < s.len() && s[i].value == min_value(s),
        forall|i: int| 0 <= i < s.len() ==> s[i].value >= min_value(s),
    decreases s.len(),
{
    if s.len() == 1 {
        assert(s[0].value == min_value(s));
    } else {
        let t = s.drop_last();
        lemma_extremes(t);
        let i = choose|i: int| 0 <= i < t.len() && t[i].value == max_value(t);
        let j = choose|j: int| 0 <= j < t.len() && t[j].value == min_value(t);
        assert forall|k: int| 0 <= k < s.len() implies s[k].value <= max_value(s) by {
            if k < t.len() {
                assert(s[k] == t[k]);
            }
        }
        assert forall|k: int| 0 <= k < s.len() implies s[k].value >= min_value(s) by {
            if k < t.len() {
                assert(s[k] == t[k]);
            }
        }
    }
}

/// `first_peak` is the position of the largest value, and every value before
/// it is smaller.
pub proof fn lemma_first_peak(s: Seq<TimeSeriesData>)
    requires
        s.len() > 0,
    ensures
        0 <= first_peak(s) < s.len(),
        s[first_peak(s)].value == max_value(s),
        forall|i: int| 0 <= i < first_peak(s) ==> s[i].value < max_value(s),
    decreases s.len(),
{
    if s.len() > 1 {
        let t = s.drop_last();
        lemma_first_peak(t);
        let j = first_peak(t);
        assert forall|i: int| 0 <= i < first_peak(s) implies s[i].value < max_value(s) by {
            if i < t.len() {
                assert(s[i] == t[i]);
            }
            if s.last().value > s[j].value {
                lemma_extremes(t);
            }
        }
    }
}

/// The mean of samples in range is in range.
pub proof fn lemma_mean_in_range(s: Seq<TimeSeriesData>)
    requires
        all_in_range(s),
    ensures
        -MAX_VALUE <= mean_spec(s) <= MAX_VALUE,
{
    lemma_sums_bounded(s);
    let n = s.len() as int;
    let total = sum_values(s);
    if n > 0 {
        if total < 0 {
            assert((-total) / n <= MAX_VALUE) by (nonlinear_arith)
                requires
                    0 < n,
                    0 <= -total <= n * MAX_VALUE,
            ;
        } else {
            assert(total / n <= MAX_VALUE) by (nonlinear_arith)
                requires
                    0 < n,
                    0 <= total <= n * MAX_VALUE,
            ;
        }
    }
}

/// The standard deviation of any samples is not negative, and fits 63 bits.
pub proof fn lemma_std_dev_bounds(s: Seq<TimeSeriesData>)
    ensures
        0 <= std_dev_spec(s) <= STD_DEV_CAP,
{
    if s.len() > 0 {
        lemma_spread_nonneg(s);
        let n = s.len() as int;
        assert(n * n >= 0) by (nonlinear_arith);
        crate::arith::lemma_scaled_root_exists(spread(s), n * n, STD_DEV_CAP as int);
    }
}

/// The z-score in thousandths reaches a threshold in size exactly when the
/// value lies at least that many thousandths of a standard deviation from the
/// mean: `|n v - sum| * 1000 >= t * sqrt(n sum(v^2) - sum(v)^2)`, here with
/// both sides squared.  What is cut off never decides.
pub proof fn lemma_z_score_threshold(s: Seq<TimeSeriesData>, v: int, t: int)
    requires
        spread(s) > 0,
        0 <= t <= RATIO_CAP,
    ensures
        abs_spec(z_score_spec(s, v)) >= t <==> t * t * spread(s) <= 1_000_000 * (deviation(s, v)
            * deviation(s, v)),
{
    let d = deviation(s, v);
    let size = abs_spec(d);
    assert(size * size == d * d) by (nonlinear_arith)
        requires
            size == abs_spec(d),
    ;
    assert(size * size >= 0) by (nonlinear_arith);
    crate::arith::lemma_scaled_root_exists(1_000_000 * (size * size), spread(s), RATIO_CAP as int);
    crate::arith::lemma_scaled_root_threshold(
        1_000_000 * (size * size),
        spread(s),
        RATIO_CAP as int,
        t,
    );
}

/// Where the samples vary, the z-score in thousandths is 0 exactly when the
/// value lies less than a thousandth of a standard deviation from the mean.
/// It goes by the exact variance, not by the standard deviation cut to an
/// integer.
pub proof fn lemma_z_score_zero(s: Seq<TimeSeriesData>, v: int)
    requires
        spread(s) > 0,
    ensures
        z_score_spec(s, v) == 0 <==> 1_000_000 * (deviation(s, v) * deviation(s, v)) < spread(s),
{
    let d = deviation(s, v);
    let size = abs_spec(d);
    assert(size * size == d * d) by (nonlinear_arith)
        requires
            size == abs_spec(d),
    ;
    assert(size * size >= 0) by (nonlinear_arith);
    crate::arith::lemma_scaled_root_exists(1_000_000 * (size * size), spread(s), RATIO_CAP as int);
    crate::arith::lemma_scaled_root_threshold(
        1_000_000 * (size * size),
        spread(s),
        RATIO_CAP as int,
        1,
    );
}

/// A fixed-capacity queue of the most recent samples, with their sum and the
/// sum of their squares kept as samples come and go.
#[derive(Debug)]
pub struct TimeSeriesWindow {
    data: VecDeque<TimeSeriesData>,
    max_size: usize,
    sum: i128,
    sum_squared: u128,
}

impl View for TimeSeriesWindow {
    type V = Seq<TimeSeriesData>;

    closed spec fn view(&self) -> Seq<TimeSeriesData> {
        self.data@
    }
}

impl TimeSeriesWindow {
    /// The capacity that the window was made with.
    pub closed spec fn capacity(&self) -> nat {
        self.max_size as nat
    }

    /// The running sum, as the window keeps it.
    pub closed spec fn running_sum(&self) -> int {
        self.sum as int
    }

    /// The running sum of squares, as the window keeps it.
    pub closed spec fn running_sum_squared(&self) -> int {
        self.sum_squared as int
    }

    /// The window's invariant: at most `capacity` samples, all in range, and
    /// both running sums exact.
    pub closed spec fn wf(&self) -> bool {
        &&& 1 <= self.max_size <= MAX_WINDOW
        &&& self.data@.len() <= self.max_size
        &&& all_in_range(self.data@)
        &&& self.sum == sum_values(self.data@)
        &&& self.sum_squared == sum_squares(self.data@)
    }

    /// What the invariant says, for callers that cannot see the fields.
    pub proof fn lemma_wf(&self)
        requires
            self.wf(),
        ensures
            1 <= self.capacity() <= MAX_WINDOW,
            self@.len() <= self.capacity(),
            all_in_range(self@),
            self.running_sum() == sum_values(self@),
            self.running_sum_squared() == sum_squares(self@),
            spread(self@) >= 0,
    {
        lemma_spread_nonneg(self@);
    }

    /// An empty window that holds up to `max_size` samples.
    pub fn new(max_size: usize) -> (w: Self)
        requires
            1 <= max_size <= MAX_WINDOW,
        ensures
            w.wf(),
            w@ == Seq::<TimeSeriesData>::empty(),
            w.capacity() == max_size,
    {
        TimeSeriesWindow { data: VecDeque::with_capacity(max_size), max_size, sum: 0, sum_squared: 0 }
    }

    /// The capacity that the window was made with.
    pub fn max_size(&self) -> (n: usize)
        ensures
            n == self.capacity(),
    {
        self.max_size
    }

    /// Whether a window accepts this value.
    pub fn accepts(value: i64) -> (r: bool)
        ensures
            r == in_range(value),
    {
        -MAX_VALUE <= value && value <= MAX_VALUE
    }

    /// Appends a sample.  A full window first gives up its oldest sample.  A
    /// sample whose value is out of range is skipped.
    pub fn push(&mut self, point: TimeSeriesData)
        requires
            old(self).wf(),
        ensures
            final(self).wf(),
            final(self).capacity() == old(self).capacity(),
            final(self)@ == push_spec(old(self)@, old(self).capacity(), point),
            final(self).running_sum() == sum_values(final(self)@),
            final(self).running_sum_squared() == sum_squares(final(self)@),
    {
        if !Self::accepts(point.value) {
            return ;
        }
        if self.data.len() >= self.max_size {
            let ghost before = self.data@;
            let gone = self.data.pop_front();
            match gone {
                Some(first) => {
                    proof {
                        lemma_sums_drop_first(before);
                        lemma_square_bound(first.value as int, MAX_VALUE as int);
                        lemma_sums_bounded(self.data@);
                    }
                    let v: i128 = first.value as i128;
                    self.sum = self.sum - v;
                    self.sum_squared = self.sum_squared - (v * v) as u128;
                },
                None => {},
            }
        }
        proof {
            lemma_sums_bounded(self.data@);
            lemma_sums_push(self.data@, point);
            lemma_square_bound(point.value as int, MAX_VALUE as int);
        }
        let v: i128 = point.value as i128;
        self.sum = self.sum + v;
        self.sum_squared = self.sum_squared + (v * v) as u128;
        self.data.push_back(point);
    }

    /// The number of samples held.
    pub fn len(&self) -> (n: usize)
        ensures
            n == self@.len(),
    {
        self.data.len()
    }

    /// Whether no sample is held.
    pub fn is_empty(&self) -> (r: bool)
        ensures
            r == (self@.len() == 0),
    {
        self.data.len() == 0
    }

    /// The sum of the values held.
    pub fn sum(&self) -> (t: i128)
        requires
            self.wf(),
        ensures
            t == sum_values(self@),
            t == self.running_sum(),
    {
        self.sum
    }

    /// The sum of the squares of the values held.
    pub fn sum_squared(&self) -> (t: u128)
        requires
            self.wf(),
        ensures
            t == sum_squares(self@),
            t == self.running_sum_squared(),
    {
        self.sum_squared
    }

    /// `n * sum(v^2) - sum(v)^2` of the samples held.
    pub fn spread(&self) -> (d: u128)
        requires
            self.wf(),
        ensures
            d == spread(self@),
    {
        let n: u128 = self.data.len() as u128;
        let total: u128 = magnitude(self.sum);
        proof {
            lemma_sums_bounded(self.data@);
            lemma_spread_nonneg(self.data@);
            lemma_len_bounds(self.data@.len() as int);
            assert(n * self.sum_squared <= n * (n * (MAX_VALUE * MAX_VALUE))) by (nonlinear_arith)
                requires
                    0 <= n,
                    0 <= self.sum_squared <= n * (MAX_VALUE * MAX_VALUE),
            ;
            assert(total * total == self.sum * self.sum) by (nonlinear_arith)
                requires
                    total == abs_spec(self.sum as int),
            ;
        }
        n * self.sum_squared - total * total
    }

    /// The mean of the values held, cut toward zero; 0 for an empty window.
    pub fn mean(&self) -> (m: i64)
        requires
            self.wf(),
        ensures
            m == mean_spec(self@),
            in_range(m),
    {
        let n: usize = self.data.len();
        if n == 0 {
            return 0;
        }
        let total: u128 = magnitude(self.sum);
        proof {
            lemma_sums_bounded(self.data@);
            assert(total / (n as u128) <= MAX_VALUE) by (nonlinear_arith)
                requires
                    0 < n,
                    0 <= total <= n * MAX_VALUE,
            ;
        }
        let q: i64 = (total / (n as u128)) as i64;
        if self.sum < 0 {
            -q
        } else {
            q
        }
    }

    /// The population variance of the values held, cut to an integer; 0 for
    /// an empty window.
    pub fn variance(&self) -> (v: u128)
        requires
            self.wf(),
        ensures
            v == variance_spec(self@),
    {
        let n: u128 = self.data.len() as u128;
        if n == 0 {
            return 0;
        }
        proof {
            lemma_len_bounds(self.data@.len() as int);
        }
        self.spread() / (n * n)
    }

    /// The integer part of the population standard deviation of the values
    /// held; 0 for an empty window.
    pub fn std_dev(&self) -> (d: i64)
        requires
            self.wf(),
        ensures
            d == std_dev_spec(self@),
            d >= 0,
    {
        let n: u128 = self.data.len() as u128;
        if n == 0 {
            return 0;
        }
        proof {
            lemma_len_bounds(self.data@.len() as int);
        }
        let d: u128 = self.spread();
        let k: u64 = scaled_root(1, d, n * n, STD_DEV_CAP);
        k as i64
    }

    /// The z-score of `value` against the samples held, in thousandths, cut
    /// toward zero and held to `RATIO_CAP` in size; 0 where the samples do not
    /// vary.
    pub fn z_score(&self, value: i64) -> (z: i64)
        requires
            self.wf(),
            in_range(value),
        ensures
            z == z_score_spec(self@, value as int),
            -RATIO_CAP <= z <= RATIO_CAP,
    {
        let d: u128 = self.spread();
        if d == 0 {
            return 0;
        }
        let n: i128 = self.data.len() as i128;
        proof {
            lemma_sums_bounded(self.data@);
            assert(-(n * MAX_VALUE) <= n * value <= n * MAX_VALUE) by (nonlinear_arith)
                requires
                    0 <= n,
                    -MAX_VALUE <= value <= MAX_VALUE,
            ;
        }
        let dev: i128 = n * (value as i128) - self.sum;
        let size: u128 = magnitude(dev);
        proof {
            assert(size * size <= 0x8000_0000_0000_0000 * 0x8000_0000_0000_0000) by (nonlinear_arith)
                requires
                    0 <= size <= 0x8000_0000_0000_0000,
            ;
        }
        let k: u64 = scaled_root(1_000_000, size * size, d, RATIO_CAP as u64);
        if dev < 0 {
            -(k as i64)
        } else {
            k as i64
        }
    }

    /// How far `value` lies from the mean of the samples held, as a share of
    /// the mean in hundredths of a percent; 0 where the mean is 0.
    pub fn percent_from_mean(&self, value: i64) -> (p: i64)
        requires
            self.wf(),
            in_range(value),
        ensures
            p == percent_from_mean_spec(self@, value as int),
            -RATIO_CAP <= p <= RATIO_CAP,
    {
        let n: i128 = self.data.len() as i128;
        proof {
            lemma_sums_bounded(self.data@);
            assert(-(n * MAX_VALUE) <= n * value <= n * MAX_VALUE) by (nonlinear_arith)
                requires
                    0 <= n,
                    -MAX_VALUE <= value <= MAX_VALUE,
            ;
        }
        let dev: i128 = n * (value as i128) - self.sum;
        ratio(dev, self.sum, 10_000)
    }

    /// The largest of the most recent `k` values; 0 for an empty window.
    pub fn max_of_last(&self, k: usize) -> (m: i64)
        requires
            self.wf(),
        ensures
            m == max_value(tail(self@, k as nat)),
            in_range(m),
    {
        let n = self.data.len();
        if n == 0 || k == 0 {
            return 0;
        }
        let start: usize = if n <= k {
            0
        } else {
            n - k
        };
        let ghost t = tail(self@, k as nat);
        let mut m: i64 = self.data[start].value;
        let mut i: usize = start + 1;
        while i < n
            invariant
                self.wf(),
                n == self.data@.len(),
                start < i <= n,
                t == self.data@.subrange(start as int, n as int),
                m == max_value(t.subrange(0, i - start)),
                in_range(m),
            decreases n - i,
        {
            let v = self.data[i].value;
            proof {
                assert(t.subrange(0, i - start + 1).drop_last() =~= t.subrange(0, i - start));
            }
            if v > m {
                m = v;
            }
            i = i + 1;
        }
        assert(t.subrange(0, n - start) =~= t);
        m
    }

    /// The smallest of the most recent `k` values; 0 for an empty window.
    pub fn min_of_last(&self, k: usize) -> (m: i64)
        requires
            self.wf(),
        ensures
            m == min_value(tail(self@, k as nat)),
            in_range(m),
    {
        let n = self.data.len();
        if n == 0 || k == 0 {
            return 0;
        }
        let start: usize = if n <= k {
            0
        } else {
            n - k
        };
        let ghost t = tail(self@, k as nat);
        let mut m: i64 = self.data[start].value;
        let mut i: usize = start + 1;
        while i < n
            invariant
                self.wf(),
                n == self.data@.len(),
                start < i <= n,
                t == self.data@.subrange(start as int, n as int),
                m == min_value(t.subrange(0, i - start)),
                in_range(m),
            decreases n - i,
        {
            let v = self.data[i].value;
            proof {
                assert(t.subrange(0, i - start + 1).drop_last() =~= t.subrange(0, i - start));
            }
            if v < m {
                m = v;
            }
            i = i + 1;
        }
        assert(t.subrange(0, n - start) =~= t);
        m
    }

    /// The position, within the most recent `k` samples, of the largest value
    /// among them, the oldest where several are largest; 0 for an empty
    /// window.
    pub fn peak_of_last(&self, k: usize) -> (p: usize)
        requires
            self.wf(),
        ensures
            p == first_peak(tail(self@, k as nat)),
    {
        let n = self.data.len();
        if n == 0 || k == 0 {
            return 0;
        }
        let start: usize = if n <= k {
            0
        } else {
            n - k
        };
        let ghost t = tail(self@, k as nat);
        let mut p: usize = 0;
        let mut i: usize = start + 1;
        while i < n
            invariant
                self.wf(),
                n == self.data@.len(),
                start < i <= n,
                t == self.data@.subrange(start as int, n as int),
                p == first_peak(t.subrange(0, i - start)),
                p < i - start,
            decreases n - i,
        {
            proof {
                assert(t.subrange(0, i - start + 1).drop_last() =~= t.subrange(0, i - start));
            }
            if self.data[i].value > self.data[start + p].value {
                p = i - start;
            }
            i = i + 1;
        }
        assert(t.subrange(0, n - start) =~= t);
        p
    }

    /// The sum of the most recent `k` values.
    pub fn sum_of_last(&self, k: usize) -> (t: i128)
        requires
            self.wf(),
        ensures
            t == sum_values(tail(self@, k as nat)),
            -(MAX_WINDOW * MAX_VALUE) <= t <= MAX_WINDOW * MAX_VALUE,
    {
        let n = self.data.len();
        let start: usize = if n <= k {
            0
        } else {
            n - k
        };
        let ghost t = tail(self@, k as nat);
        let mut total: i128 = 0;
        let mut i: usize = start;
        while i < n
            invariant
                self.wf(),
                n == self.data@.len(),
                n <= MAX_WINDOW,
                start <= i <= n,
                t == self.data@.subrange(start as int, n as int),
                all_in_range(t),
                total == sum_values(t.subrange(0, i - start)),
                -((i - start) * MAX_VALUE) <= total <= (i - start) * MAX_VALUE,
            decreases n - i,
        {
            proof {
                assert(t.subrange(0, i - start + 1).drop_last() =~= t.subrange(0, i - start));
            }
            total = total + self.data[i].value as i128;
            i = i + 1;
        }
        proof {
            assert(t.subrange(0, n - start) =~= t);
        }
        total
    }

    /// The most recent sample, if there is one.
    pub fn last(&self) -> (p: Option<TimeSeriesData>)
        ensures
            match p {
                Some(d) => self@.len() > 0 && d == self@[self@.len() - 1],
                None => self@.len() == 0,
            },
    {
        let n = self.data.len();
        if n == 0 {
            None
        } else {
            Some(self.data[n - 1])
        }
    }

    /// The sample at position `i`, counted from the oldest.
    pub fn get(&self, i: usize) -> (p: TimeSeriesData)
        requires
            i < self@.len(),
        ensures
            p == self@[i as int],
    {
        self.data[i]
    }
}

} // verus!
