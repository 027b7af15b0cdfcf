//! Indicators over named windows: moving averages, bands, relative
//! strength and trend.

use crate::arith::{ratio, ratio_spec};
use crate::assoc::{
    assoc_map, has_key, lemma_assoc_get, lemma_assoc_keys, lemma_assoc_push, lemma_assoc_update,
    unique_keys,
};
use crate::window::{
    all_in_range, in_range, lemma_std_dev_bounds, mean_spec, push_spec,
    std_dev_spec, TimeSeriesData, TimeSeriesWindow, MAX_VALUE, MAX_WINDOW,
};
use vstd::prelude::*;
use vstd::string::*;

verus! {

/// Where prices are heading.
#[derive(Clone, Copy, Debug, PartialEq, Eq, Structural)]
pub enum TrendDirection {
    Up,
    Down,
    Sideways,
}

/// One, in the millionths in which weights are given.
pub const WEIGHT_ONE: i64 = 1_000_000;

/// The weighted mean of a new value and the average so far, cut toward
/// zero; the weight of the new value is in millionths.
pub open spec fn blend(alpha: int, value: int, average: int) -> int {
    let mixed = alpha * value + (WEIGHT_ONE - alpha) * average;
    if mixed < 0 {
        -((-mixed) / (WEIGHT_ONE as int))
    } else {
        mixed / (WEIGHT_ONE as int)
    }
}

/// The exponential moving average of the samples: the first value, and
/// after each further sample the blend of its value and the average so far;
/// 0 for no samples.
pub open spec fn ema_spec(s: Seq<TimeSeriesData>, alpha: int) -> int
    decreases s.len(),
{
    if s.len() == 0 {
        0
    } else if s.len() == 1 {
        s[0].value as int
    } else {
        blend(alpha, s.last().value as int, ema_spec(s.drop_last(), alpha))
    }
}

/// The sum of the rises among the first `count` changes from one sample to
/// the next.
pub open spec fn gains(s: Seq<TimeSeriesData>, count: nat) -> int
    decreases count,
{
    if count == 0 {
        0
    } else {
        let change = s[count as int].value - s[count - 1].value;
        gains(s, (count - 1) as nat) + if change > 0 {
            change
        } else {
            0
        }
    }
}

/// The sum of the falls among the first `count` changes from one sample to
/// the next.
pub open spec fn losses(s: Seq<TimeSeriesData>, count: nat) -> int
    decreases count,
{
    if count == 0 {
        0
    } else {
        let change = s[count as int].value - s[count - 1].value;
        losses(s, (count - 1) as nat) + if change > 0 {
            0
        } else {
            -change
        }
    }
}

/// The relative strength index over the first `period` changes, in
/// hundredths: 100 where nothing fell, else 100 times the share of the rises
/// in all movement; none where there are too few samples.
pub open spec fn rsi_spec(s: Seq<TimeSeriesData>, period: nat) -> Option<int> {
    if s.len() < period + 1 {
        None
    } else if losses(s, period) == 0 {
        Some(10_000)
    } else {
        Some(ratio_spec(gains(s, period), gains(s, period) + losses((s), period), 10_000))
    }
}

/// The trend over the latest three samples: up where the latest lies more
/// than 1% above the first of them, down where it lies more than 1% below,
/// else sideways; none for fewer than three samples.
pub open spec fn trend_spec(s: Seq<TimeSeriesData>) -> Option<TrendDirection> {
    if s.len() < 3 {
        None
    } else {
        let first = s[s.len() - 3].value;
        let last = s[s.len() - 1].value;
        if last * 100 > first * 101 {
            Some(TrendDirection::Up)
        } else if last * 100 < first * 99 {
            Some(TrendDirection::Down)
        } else {
            Some(TrendDirection::Sideways)
        }
    }
}

/// The bands two standard deviations below and above the mean, and the
/// mean between them.
pub open spec fn bands_spec(s: Seq<TimeSeriesData>) -> (int, int, int) {
    (mean_spec(s) - 2 * std_dev_spec(s), mean_spec(s), mean_spec(s) + 2 * std_dev_spec(s))
}

/// The moving average convergence and divergence: the difference of the
/// averages with weights 2/13 and 2/27, a fifth of it as the signal, and what
/// remains.
pub open spec fn macd_spec(s: Seq<TimeSeriesData>) -> (int, int, int) {
    let macd = ema_spec(s, 153_846) - ema_spec(s, 74_074);
    let signal = ratio_spec(macd, 5, 1);
    (macd, signal, macd - signal)
}

proof fn lemma_blend_in_range(alpha: int, value: int, average: int)
    requires
        0 <= alpha <= WEIGHT_ONE,
        -MAX_VALUE <= value <= MAX_VALUE,
        -MAX_VALUE <= average <= MAX_VALUE,
    ensures
        -MAX_VALUE <= blend(alpha, value, average) <= MAX_VALUE,
        -(WEIGHT_ONE * MAX_VALUE) <= alpha * value + (WEIGHT_ONE - alpha) * average <= WEIGHT_ONE
            * MAX_VALUE,
        -(WEIGHT_ONE * MAX_VALUE) <= alpha * value <= WEIGHT_ONE * MAX_VALUE,
        -(WEIGHT_ONE * MAX_VALUE) <= (WEIGHT_ONE - alpha) * average <= WEIGHT_ONE * MAX_VALUE,
{
    let m = MAX_VALUE as int;
    let w = WEIGHT_ONE as int;
    assert(-(alpha * m) <= alpha * value <= alpha * m) by (nonlinear_arith)
        requires
            0 <= alpha,
            -m <= value <= m,
    ;
    assert(-((w - alpha) * m) <= (w - alpha) * average <= (w - alpha) * m) by (nonlinear_arith)
        requires
            0 <= w - alpha,
            -m <= average <= m,
    ;
    assert(alpha * m + (w - alpha) * m == w * m) by (nonlinear_arith);
}

proof fn lemma_ema_in_range(s: Seq<TimeSeriesData>, alpha: int)
    requires
        all_in_range(s),
        0 <= alpha <= WEIGHT_ONE,
    ensures
        -MAX_VALUE <= ema_spec(s, alpha) <= MAX_VALUE,
    decreases s.len(),
{
    if s.len() > 1 {
        lemma_ema_in_range(s.drop_last(), alpha);
        lemma_blend_in_range(alpha, s.last().value as int, ema_spec(s.drop_last(), alpha));
    }
}

impl TimeSeriesWindow {
    /// The exponential moving average of the samples held, where the weight
    /// of each new sample is `alpha` millionths; none for an empty window.
    pub fn ema(&self, alpha: i64) -> (r: Option<i64>)
        requires
            self.wf(),
            0 <= alpha <= WEIGHT_ONE,
        ensures
            r == (if self@.len() == 0 {
                None
            } else {
                Some(ema_spec(self@, alpha as int) as i64)
            }),
            r matches Some(e) ==> in_range(e) && e == ema_spec(self@, alpha as int),
    {
        let n = self.len();
        if n == 0 {
            return None;
        }
        proof {
            self.lemma_wf();
        }
        let mut average: i64 = self.get(0).value;
        let mut i: usize = 1;
        while i < n
            invariant
                self.wf(),
                n == self@.len(),
                1 <= i <= n,
                0 <= alpha <= WEIGHT_ONE,
                all_in_range(self@),
                average == ema_spec(self@.subrange(0, i as int), alpha as int),
                in_range(average),
            decreases n - i,
        {
            let value = self.get(i).value;
            proof {
                assert(self@.subrange(0, i + 1).drop_last() =~= self@.subrange(0, i as int));
                lemma_blend_in_range(alpha as int, value as int, average as int);
            }
            let mixed: i128 = (alpha as i128) * (value as i128) + ((WEIGHT_ONE - alpha) as i128) * (
            average as i128);
            average = if mixed < 0 {
                -(((-mixed) / (WEIGHT_ONE as i128)) as i64)
            } else {
                (mixed / (WEIGHT_ONE as i128)) as i64
            };
            i = i + 1;
        }
        assert(self@.subrange(0, n as int) =~= self@);
        Some(average)
    }

    /// The relative strength index over the first `period` changes, in
    /// hundredths.
    pub fn rsi(&self, period: usize) -> (r: Option<i64>)
        requires
            self.wf(),
        ensures
            match (r, rsi_spec(self@, period as nat)) {
                (Some(x), Some(e)) => x == e,
                (None, None) => true,
                _ => false,
            },
    {
        let n = self.len();
        proof {
            self.lemma_wf();
        }
        if n < 1 || period > n - 1 {
            return None;
        }
        let mut up: i128 = 0;
        let mut down: i128 = 0;
        let mut i: usize = 0;
        while i < period
            invariant
                self.wf(),
                n == self@.len(),
                n <= MAX_WINDOW,
                i <= period < n,
                all_in_range(self@),
                up == gains(self@, i as nat),
                down == losses(self@, i as nat),
                0 <= up <= i * (2 * MAX_VALUE),
                0 <= down <= i * (2 * MAX_VALUE),
            decreases period - i,
        {
            proof {
                assert((i + 1) * (2 * MAX_VALUE) == i * (2 * MAX_VALUE) + 2 * MAX_VALUE)
                    by (nonlinear_arith);
                assert(i * (2 * MAX_VALUE) <= MAX_WINDOW * (2 * MAX_VALUE)) by (nonlinear_arith)
                    requires
                        0 <= i <= MAX_WINDOW,
                ;
            }
            let change: i128 = self.get(i + 1).value as i128 - self.get(i).value as i128;
            if change > 0 {
                up = up + change;
            } else {
                down = down - change;
            }
            i = i + 1;
        }
        if down == 0 {
            return Some(10_000);
        }
        Some(ratio(up, up + down, 10_000))
    }

    /// The trend over the latest three samples.
    pub fn trend(&self) -> (r: Option<TrendDirection>)
        requires
            self.wf(),
        ensures
            r == trend_spec(self@),
    {
        let n = self.len();
        if n < 3 {
            return None;
        }
        let first = self.get(n - 3).value;
        let last = self.get(n - 1).value;
        if (last as i128) * 100 > (first as i128) * 101 {
            Some(TrendDirection::Up)
        } else if (last as i128) * 100 < (first as i128) * 99 {
            Some(TrendDirection::Down)
        } else {
            Some(TrendDirection::Sideways)
        }
    }
}

/// One window under its name.
#[derive(Debug)]
pub struct NamedWindow {
    name: String,
    window: TimeSeriesWindow,
}

/// Keeps windows by name and computes indicators over them.
#[derive(Debug)]
pub struct MetricsCalculator {
    windows: Vec<NamedWindow>,
}

impl View for MetricsCalculator {
    type V = Map<Seq<char>, Seq<TimeSeriesData>>;

    closed spec fn view(&self) -> Map<Seq<char>, Seq<TimeSeriesData>> {
        assoc_map(self.pairs())
    }
}

impl MetricsCalculator {
    /// The names and samples, in the order in which the names came.
    pub closed spec fn pairs(&self) -> Seq<(Seq<char>, Seq<TimeSeriesData>)> {
        Seq::new(self.windows@.len(), |i: int| (self.windows@[i].name@, self.windows@[i].window@))
    }

    /// The capacity of the window of a name.
    pub closed spec fn capacity_of(&self, key: Seq<char>) -> nat {
        let i = choose|i: int| 0 <= i < self.windows@.len() && self.windows@[i].name@ == key;
        self.windows@[i].window.capacity()
    }

    /// The calculator's invariant: no name twice, and every window valid.
    pub closed spec fn valid(&self) -> bool {
        &&& unique_keys(self.pairs())
        &&& forall|i: int| 0 <= i < self.windows@.len() ==> (#[trigger] self.windows@[i]).window.wf()
    }

    /// A calculator without windows.
    pub fn new() -> (m: Self)
        ensures
            m.valid(),
            m@ == Map::<Seq<char>, Seq<TimeSeriesData>>::empty(),
    {
        MetricsCalculator { windows: Vec::new() }
    }

    fn find(&self, key: &str) -> (r: Option<usize>)
        ensures
            match r {
                Some(i) => i < self.windows@.len() && self.pairs()[i as int].0 == key@,
                None => !has_key(self.pairs(), key@),
            },
    {
        let wanted = String::from_str(key);
        let mut i: usize = 0;
        while i < self.windows.len()
            invariant
                i <= self.windows@.len(),
                wanted@ == key@,
                forall|j: int| 0 <= j < i ==> (#[trigger] self.pairs()[j]).0 != key@,
            decreases self.windows@.len() - i,
        {
            if self.windows[i].name == wanted {
                return Some(i);
            }
            i = i + 1;
        }
        None
    }

    /// Adds a sample to the window of a name, which is made first, with the
    /// given capacity, where there is none.
    pub fn add_data(&mut self, key: &str, data: TimeSeriesData, window_size: usize)
        requires
            old(self).valid(),
            1 <= window_size <= MAX_WINDOW,
        ensures
            final(self).valid(),
            final(self)@ == old(self)@.insert(
                key@,
                if old(self)@.contains_key(key@) {
                    push_spec(old(self)@[key@], old(self).capacity_of(key@), data)
                } else {
                    push_spec(Seq::empty(), window_size as nat, data)
                },
            ),
    {
        let ghost before = self.pairs();
        proof {
            lemma_assoc_keys(before, key@);
        }
        match self.find(key) {
            Some(i) => {
                proof {
                    lemma_assoc_get(before, i as int);
                    assert forall|j: int|
                        0 <= j < self.windows@.len() && self.windows@[j].name@ == key@ implies j
                        == i by {
                        if j != i {
                            assert(before[j].0 != before[i as int].0);
                        }
                    }
                }
                self.windows[i].window.push(data);
                proof {
                    let next = push_spec(before[i as int].1, old(self).capacity_of(key@), data);
                    assert(self.pairs() =~= before.update(i as int, (key@, next)));
                    lemma_assoc_update(before, i as int, next);
                }
            },
            None => {
                let mut window = TimeSeriesWindow::new(window_size);
                window.push(data);
                let ghost held = window@;
                self.windows.push(NamedWindow { name: String::from_str(key), window });
                proof {
                    assert(self.pairs() =~= before.push((key@, held)));
                    lemma_assoc_push(before, key@, held);
                }
            },
        }
    }

    /// The simple moving average of the window of a name.
    pub fn calculate_sma(&self, key: &str) -> (r: Option<i64>)
        requires
            self.valid(),
        ensures
            r == (if self@.contains_key(key@) {
                Some(mean_spec(self@[key@]) as i64)
            } else {
                None
            }),
            r matches Some(m) ==> m == mean_spec(self@[key@]),
    {
        proof {
            lemma_assoc_keys(self.pairs(), key@);
        }
        match self.find(key) {
            Some(i) => {
                proof {
                    lemma_assoc_get(self.pairs(), i as int);
                }
                Some(self.windows[i].window.mean())
            },
            None => None,
        }
    }

    /// The exponential moving average of the window of a name, where the
    /// weight of each new sample is `alpha` millionths; none where the window
    /// is missing or empty.
    pub fn calculate_ema(&self, key: &str, alpha: i64) -> (r: Option<i64>)
        requires
            self.valid(),
            0 <= alpha <= WEIGHT_ONE,
        ensures
            r == (if self@.contains_key(key@) && self@[key@].len() > 0 {
                Some(ema_spec(self@[key@], alpha as int) as i64)
            } else {
                None
            }),
            r matches Some(e) ==> e == ema_spec(self@[key@], alpha as int) && in_range(e),
    {
        proof {
            lemma_assoc_keys(self.pairs(), key@);
        }
        match self.find(key) {
            Some(i) => {
                proof {
                    lemma_assoc_get(self.pairs(), i as int);
                }
                self.windows[i].window.ema(alpha)
            },
            None => None,
        }
    }

    /// The bands two standard deviations below and above the mean of the
    /// window of a name, and the mean between them.
    pub fn calculate_bollinger_bands(&self, key: &str) -> (r: Option<(i128, i128, i128)>)
        requires
            self.valid(),
        ensures
            match r {
                Some(b) => self@.contains_key(key@) && (b.0 as int, b.1 as int, b.2 as int)
                    == bands_spec(self@[key@]),
                None => !self@.contains_key(key@),
            },
    {
        proof {
            lemma_assoc_keys(self.pairs(), key@);
        }
        match self.find(key) {
            Some(i) => {
                proof {
                    lemma_assoc_get(self.pairs(), i as int);
                }
                let mean = self.windows[i].window.mean() as i128;
                let std_dev = self.windows[i].window.std_dev() as i128;
                Some((mean - 2 * std_dev, mean, mean + 2 * std_dev))
            },
            None => None,
        }
    }

    /// The relative strength index of the window of a name over its first
    /// `period` changes, in hundredths.
    pub fn calculate_rsi(&self, key: &str, period: usize) -> (r: Option<i64>)
        requires
            self.valid(),
        ensures
            match (
                r,
                if self@.contains_key(key@) {
                    rsi_spec(self@[key@], period as nat)
                } else {
                    None
                },
            ) {
                (Some(x), Some(e)) => x == e,
                (None, None) => true,
                _ => false,
            },
    {
        proof {
            lemma_assoc_keys(self.pairs(), key@);
        }
        match self.find(key) {
            Some(i) => {
                proof {
                    lemma_assoc_get(self.pairs(), i as int);
                }
                self.windows[i].window.rsi(period)
            },
            None => None,
        }
    }

    /// The moving average convergence and divergence of the window of a
    /// name; none where the window is missing or empty.
    pub fn calculate_macd(&self, key: &str) -> (r: Option<(i64, i64, i64)>)
        requires
            self.valid(),
        ensures
            match r {
                Some(m) => self@.contains_key(key@) && self@[key@].len() > 0 && (
                    m.0 as int,
                    m.1 as int,
                    m.2 as int,
                ) == macd_spec(self@[key@]),
                None => !(self@.contains_key(key@) && self@[key@].len() > 0),
            },
    {
        let fast = self.calculate_ema(key, 153_846);
        let slow = self.calculate_ema(key, 74_074);
        match (fast, slow) {
            (Some(f), Some(s)) => {
                let macd = f - s;
                let signal = ratio(macd as i128, 5, 1);
                Some((macd, signal, macd - signal))
            },
            _ => None,
        }
    }

    /// The volatility of the window of a name: its standard deviation.
    pub fn calculate_volatility(&self, key: &str) -> (r: Option<i64>)
        requires
            self.valid(),
        ensures
            r == (if self@.contains_key(key@) {
                Some(std_dev_spec(self@[key@]) as i64)
            } else {
                None
            }),
            r matches Some(d) ==> d == std_dev_spec(self@[key@]),
    {
        proof {
            lemma_assoc_keys(self.pairs(), key@);
        }
        match self.find(key) {
            Some(i) => {
                proof {
                    lemma_assoc_get(self.pairs(), i as int);
                }
                Some(self.windows[i].window.std_dev())
            },
            None => None,
        }
    }

    /// The trend of the window of a name.
    pub fn detect_trend(&self, key: &str) -> (r: Option<TrendDirection>)
        requires
            self.valid(),
        ensures
            r == (if self@.contains_key(key@) {
                trend_spec(self@[key@])
            } else {
                None
            }),
    {
        proof {
            lemma_assoc_keys(self.pairs(), key@);
        }
        match self.find(key) {
            Some(i) => {
                proof {
                    lemma_assoc_get(self.pairs(), i as int);
                }
                self.windows[i].window.trend()
            },
            None => None,
        }
    }
}

} // verus!
