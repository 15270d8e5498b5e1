use sysmon::metrics::get_avg_cpu_frequency;
use sysmon::MonitorError;

#[test]
fn average_frequency_rounds_down() {
    assert_eq!(get_avg_cpu_frequency(&vec![3600, 3400, 3501]), Ok(3500));
    assert_eq!(get_avg_cpu_frequency(&vec![1000]), Ok(1000));
    assert_eq!(get_avg_cpu_frequency(&vec![1, 2]), Ok(1));
}

#[test]
fn average_of_no_cores_is_an_explicit_error() {
    assert_eq!(
        get_avg_cpu_frequency(&Vec::new()),
        Err(MonitorError::NoCoresDetected)
    );
}

#[test]
fn average_survives_large_readings() {
    let m = u64::MAX;
    assert_eq!(get_avg_cpu_frequency(&vec![m, m, m]), Ok(m));
    assert_eq!(get_avg_cpu_frequency(&vec![m, 0]), Ok(m / 2));
}
