use sysmon::series::CpuDataset;
use sysmon::series::Sample;
use sysmon::series::DEFAULT_WINDOW_MS;
use sysmon::MonitorError;

fn pairs(d: &CpuDataset) -> Vec<(u64, u64)> {
    d.get_cpu_usage_as_slice()
}

#[test]
fn append_keeps_samples_in_order() {
    let mut d = CpuDataset::new();
    assert_eq!(d.update_cpu_usage(0, 1000), Ok(()));
    assert_eq!(d.update_cpu_usage(500, 1200), Ok(()));
    assert_eq!(d.update_cpu_usage(500, 900), Ok(()));
    assert_eq!(d.update_cpu_usage(1500, 4300), Ok(()));
    let p = pairs(&d);
    assert_eq!(p, vec![(0, 1000), (500, 1200), (500, 900), (1500, 4300)]);
}

#[test]
fn window_scenario_evicts_aged_sample() {
    assert_eq!(DEFAULT_WINDOW_MS, 25000);
    let mut d = CpuDataset::new();
    assert_eq!(d.update_cpu_usage(0, 10), Ok(()));
    assert_eq!(d.update_cpu_usage(5000, 20), Ok(()));
    assert_eq!(d.update_cpu_usage(26000, 30), Ok(()));
    assert_eq!(pairs(&d), vec![(5000, 20), (26000, 30)]);
}

#[test]
fn eviction_boundary_is_exclusive() {
    // age exactly the window: retained
    let mut d = CpuDataset::new();
    assert_eq!(d.update_cpu_usage(0, 10), Ok(()));
    assert_eq!(d.update_cpu_usage(25000, 20), Ok(()));
    assert_eq!(pairs(&d), vec![(0, 10), (25000, 20)]);
    // one millisecond beyond: evicted
    let mut d = CpuDataset::new();
    assert_eq!(d.update_cpu_usage(0, 10), Ok(()));
    assert_eq!(d.update_cpu_usage(25001, 20), Ok(()));
    assert_eq!(pairs(&d), vec![(25001, 20)]);
}

#[test]
fn one_append_can_evict_many() {
    let mut d = CpuDataset::new_with_window(100);
    assert_eq!(d.update_cpu_usage(0, 1), Ok(()));
    assert_eq!(d.update_cpu_usage(10, 2), Ok(()));
    assert_eq!(d.update_cpu_usage(20, 3), Ok(()));
    assert_eq!(d.update_cpu_usage(300, 4), Ok(()));
    assert_eq!(pairs(&d), vec![(300, 4)]);
}

#[test]
fn out_of_order_append_is_rejected_and_changes_nothing() {
    let mut d = CpuDataset::new();
    assert_eq!(d.update_cpu_usage(1000, 50), Ok(()));
    assert_eq!(d.update_cpu_usage(999, 60), Err(MonitorError::InvalidTimestamp));
    assert_eq!(pairs(&d), vec![(1000, 50)]);
}

#[test]
fn equal_timestamps_are_admitted() {
    let mut d = CpuDataset::new();
    assert_eq!(d.update_cpu_usage(42, 1), Ok(()));
    assert_eq!(d.update_cpu_usage(42, 2), Ok(()));
    assert_eq!(pairs(&d), vec![(42, 1), (42, 2)]);
}

#[test]
fn empty_series_has_empty_view() {
    let d = CpuDataset::new();
    assert_eq!(pairs(&d), Vec::new());
}

#[test]
fn newest_sample_is_always_last() {
    let mut d = CpuDataset::new_with_window(50);
    let mut expected_last = None;
    for t in [0u64, 10, 20, 80, 81, 200] {
        assert_eq!(d.update_cpu_usage(t, t + 1), Ok(()));
        expected_last = Some((t, t + 1));
        let p = pairs(&d);
        assert_eq!(p.last().copied(), expected_last);
        // every retained sample is within the window of the newest
        for (ts, _) in &p {
            assert!(t - ts <= 50);
        }
        // retained samples stay time-ordered
        for w in p.windows(2) {
            assert!(w[0].0 <= w[1].0);
        }
    }
}

#[test]
fn sample_equality_is_by_fields() {
    let a = Sample { timestamp_ms: 7, value: 9 };
    let b = Sample { timestamp_ms: 7, value: 9 };
    assert_eq!(a, b);
}
