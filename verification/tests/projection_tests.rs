use sysmon::project::project;
use sysmon::project::Y_AXIS_MAX;
use sysmon::series::CpuDataset;

#[test]
fn empty_series_projects_to_defined_zero_bounds() {
    let d = CpuDataset::new();
    let p = project(&d, 0);
    assert_eq!(p.ordered_pairs, Vec::new());
    assert_eq!(p.x_bounds, (0, 0));
    assert_eq!(p.x_labels, vec![0, 0, 0]);
    assert_eq!(p.y_bounds, (0, Y_AXIS_MAX));
}

#[test]
fn bounds_span_the_window_ending_now() {
    let d = CpuDataset::new();
    // before one window has elapsed, the left bound stays at the start
    let p = project(&d, 10000);
    assert_eq!(p.x_bounds, (0, 10000));
    // after that, the window slides
    let p = project(&d, 40000);
    assert_eq!(p.x_bounds, (15000, 40000));
}

#[test]
fn middle_label_is_the_midpoint_of_the_bounds() {
    let d = CpuDataset::new();
    let p = project(&d, 40000);
    assert_eq!(p.x_labels, vec![15000, 27500, 40000]);
    let p = project(&d, 10000);
    assert_eq!(p.x_labels, vec![0, 5000, 10000]);
}

#[test]
fn vertical_axis_is_fixed_for_percentages() {
    let d = CpuDataset::new();
    let p = project(&d, 123);
    assert_eq!(p.y_bounds, (0, 10000));
    assert_eq!(p.y_labels, vec![0, 2500, 5000, 7500, 10000]);
}

#[test]
fn pairs_mirror_the_buffer_and_fit_the_bounds() {
    let mut d = CpuDataset::new();
    assert_eq!(d.update_cpu_usage(0, 1050), Ok(()));
    assert_eq!(d.update_cpu_usage(9000, 9925), Ok(()));
    assert_eq!(d.update_cpu_usage(30000, 350), Ok(()));
    let p = project(&d, 30000);
    assert_eq!(p.ordered_pairs, vec![(9000, 9925), (30000, 350)]);
    for (t, _) in &p.ordered_pairs {
        assert!(p.x_bounds.0 <= *t && *t <= p.x_bounds.1);
    }
}
