use crypto_monitor::stats::{sort_values, Statistics};
use crypto_monitor::window::{TimeSeriesData, TimeSeriesWindow, MAX_VALUE, MAX_WINDOW};

fn window_of(capacity: usize, values: &[i64]) -> TimeSeriesWindow {
    let mut w = TimeSeriesWindow::new(capacity);
    for (i, v) in values.iter().enumerate() {
        w.push(TimeSeriesData { timestamp: i as i64, value: *v });
    }
    w
}

#[test]
fn new_window_is_empty() {
    let w = TimeSeriesWindow::new(5);
    assert_eq!(w.len(), 0);
    assert!(w.is_empty());
    assert_eq!(w.max_size(), 5);
    assert_eq!(w.sum(), 0);
    assert_eq!(w.sum_squared(), 0);
    assert_eq!(w.mean(), 0);
    assert_eq!(w.std_dev(), 0);
    assert_eq!(w.variance(), 0);
    assert_eq!(w.z_score(10), 0);
    assert!(w.last().is_none());
}

#[test]
fn window_mean_of_three() {
    let w = window_of(3, &[10, 20, 30]);
    assert_eq!(w.len(), 3);
    assert!(!w.is_empty());
    assert_eq!(w.mean(), 20);
}

#[test]
fn running_sums_are_the_sums_of_what_is_held() {
    let mut w = TimeSeriesWindow::new(3);
    let pushed = [5i64, -3, 8, 13, -21, 34, 55];
    for (i, v) in pushed.iter().enumerate() {
        w.push(TimeSeriesData { timestamp: i as i64, value: *v });
        let from = (i + 1).saturating_sub(3);
        let held = &pushed[from..=i];
        assert_eq!(w.sum(), held.iter().map(|x| *x as i128).sum::<i128>());
        assert_eq!(w.sum_squared(), held.iter().map(|x| (*x as i128 * *x as i128) as u128).sum::<u128>());
    }
}

#[test]
fn push_into_a_full_window_removes_the_oldest() {
    let w = window_of(3, &[1, 2, 3, 4, 5]);
    assert_eq!(w.len(), 3);
    assert_eq!(w.get(0), TimeSeriesData { timestamp: 2, value: 3 });
    assert_eq!(w.get(1), TimeSeriesData { timestamp: 3, value: 4 });
    assert_eq!(w.get(2), TimeSeriesData { timestamp: 4, value: 5 });
    assert_eq!(w.values(), vec![3, 4, 5]);
    assert_eq!(w.last(), Some(TimeSeriesData { timestamp: 4, value: 5 }));
}

#[test]
fn window_of_capacity_one_holds_the_latest() {
    let w = window_of(1, &[7, 8, 9]);
    assert_eq!(w.values(), vec![9]);
    assert_eq!(w.sum(), 9);
    assert_eq!(w.sum_squared(), 81);
}

#[test]
fn sample_out_of_range_is_skipped() {
    let mut w = window_of(3, &[1, 2]);
    w.push(TimeSeriesData { timestamp: 9, value: MAX_VALUE + 1 });
    w.push(TimeSeriesData { timestamp: 9, value: -MAX_VALUE - 1 });
    w.push(TimeSeriesData { timestamp: 9, value: i64::MAX });
    w.push(TimeSeriesData { timestamp: 9, value: i64::MIN });
    assert_eq!(w.values(), vec![1, 2]);
    assert_eq!(w.sum(), 3);
    assert!(!TimeSeriesWindow::accepts(MAX_VALUE + 1));
    assert!(TimeSeriesWindow::accepts(MAX_VALUE));
    assert!(TimeSeriesWindow::accepts(-MAX_VALUE));
}

#[test]
fn largest_values_in_the_largest_window_do_not_overflow() {
    let mut w = TimeSeriesWindow::new(MAX_WINDOW);
    for i in 0..MAX_WINDOW {
        let v = if i % 2 == 0 { MAX_VALUE } else { -MAX_VALUE };
        w.push(TimeSeriesData { timestamp: i as i64, value: v });
    }
    assert_eq!(w.len(), MAX_WINDOW);
    assert_eq!(w.sum(), 0);
    assert_eq!(w.mean(), 0);
    assert_eq!(w.std_dev(), MAX_VALUE);
    assert_eq!(w.z_score(MAX_VALUE), 1000);
    assert_eq!(w.z_score(-MAX_VALUE), -1000);
}

#[test]
fn statistics_of_four_values() {
    let w = window_of(10, &[10, 20, 30, 40]);
    assert_eq!(w.mean(), 25);
    // variance 125, standard deviation 11.18
    assert_eq!(w.variance(), 125);
    assert_eq!(w.std_dev(), 11);
    assert_eq!(w.spread(), 2000);
    // (50 - 25) / 11.18 = 2.236
    assert_eq!(w.z_score(50), 2236);
    assert_eq!(w.z_score(0), -2236);
    assert_eq!(w.z_score(25), 0);
    // (50 - 25) / 25 = 100%
    assert_eq!(w.percent_from_mean(50), 10_000);
    assert_eq!(w.percent_from_mean(0), -10_000);
}

#[test]
fn mean_is_cut_toward_zero() {
    let w = window_of(10, &[-10, -20, -35]);
    assert_eq!(w.mean(), -21);
    let w = window_of(10, &[10, 20, 35]);
    assert_eq!(w.mean(), 21);
}

#[test]
fn z_score_is_zero_where_nothing_varies() {
    let w = window_of(10, &[7, 7, 7, 7]);
    assert_eq!(w.std_dev(), 0);
    assert_eq!(w.z_score(100), 0);
    let w = window_of(10, &[7]);
    assert_eq!(w.z_score(100), 0);
}

#[test]
fn z_score_is_exact_where_the_deviation_rounds_to_zero() {
    let w = window_of(10, &[3, 4, 5]);
    assert_eq!(w.std_dev(), 0);
    // (5 - 4) / sqrt(2/3) = 1.2247
    assert_eq!(w.z_score(5), 1224);
}

#[test]
fn percent_from_a_zero_mean_is_zero() {
    let w = window_of(10, &[-5, 5]);
    assert_eq!(w.percent_from_mean(5), 0);
}

#[test]
fn scans_of_the_latest_samples() {
    let w = window_of(10, &[5, 9, 2, 9, 4, 1]);
    assert_eq!(w.max_of_last(3), 9);
    assert_eq!(w.min_of_last(3), 1);
    assert_eq!(w.max_of_last(2), 4);
    assert_eq!(w.max_of_last(100), 9);
    assert_eq!(w.min_of_last(100), 1);
    assert_eq!(w.sum_of_last(2), 5);
    assert_eq!(w.sum_of_last(100), 30);
    assert_eq!(w.sum_of_last(0), 0);
    // the oldest of two equal peaks
    assert_eq!(w.peak_of_last(6), 1);
    assert_eq!(w.peak_of_last(4), 1);
    assert_eq!(w.peak_of_last(2), 0);
}

#[test]
fn scans_of_an_empty_window_are_zero() {
    let w = TimeSeriesWindow::new(4);
    assert_eq!(w.max_of_last(3), 0);
    assert_eq!(w.min_of_last(3), 0);
    assert_eq!(w.peak_of_last(3), 0);
    assert_eq!(w.sum_of_last(3), 0);
}

#[test]
fn sort_values_sorts() {
    let mut v = vec![5, -1, 3, 3, 0, 9, -7];
    sort_values(&mut v);
    assert_eq!(v, vec![-7, -1, 0, 3, 3, 5, 9]);
    let mut e: Vec<i64> = vec![];
    sort_values(&mut e);
    assert!(e.is_empty());
}

#[test]
fn statistics_of_no_values_is_none() {
    assert_eq!(Statistics::calculate(&vec![]), None);
    assert_eq!(TimeSeriesWindow::new(3).snapshot(), None);
}

#[test]
fn statistics_of_twenty_values() {
    let values: Vec<i64> = (1..=20).rev().collect();
    let s = Statistics::calculate(&values).unwrap();
    assert_eq!(s.min, 1);
    assert_eq!(s.max, 20);
    // floor(0.95 * 20) = 19, the last of the sorted values
    assert_eq!(s.percentile_95, 20);
    assert_eq!(s.mean, 10);
    // variance 33.25
    assert_eq!(s.std_dev, 5);
}

#[test]
fn percentile_index_is_the_floor() {
    let values: Vec<i64> = (1..=10).collect();
    // floor(0.95 * 10) = 9
    assert_eq!(Statistics::calculate(&values).unwrap().percentile_95, 10);
    let values: Vec<i64> = (1..=32).collect();
    // floor(0.95 * 32) = 30
    assert_eq!(Statistics::calculate(&values).unwrap().percentile_95, 31);
    assert_eq!(Statistics::calculate(&vec![42]).unwrap().percentile_95, 42);
}

#[test]
fn snapshot_of_a_window() {
    let w = window_of(10, &[40, 10, 30, 20]);
    let s = w.snapshot().unwrap();
    assert_eq!(s, Statistics { mean: 25, std_dev: 11, min: 10, max: 40, percentile_95: 40 });
}
