use nanonet_agent::window::ErrorWindow;

#[test]
fn error_stats_count_errors_and_length() {
    let mut w = ErrorWindow::new(20);
    w.record(true);
    w.record(false);
    w.record(true);
    let (errors, len) = w.error_stats();
    assert_eq!(errors, 2);
    assert_eq!(len, 3);
}

#[test]
fn empty_window_has_zero_stats() {
    let w = ErrorWindow::new(5);
    let (errors, len) = w.error_stats();
    assert_eq!(errors, 0);
    assert_eq!(len, 0);
}

#[test]
fn window_evicts_oldest_when_full() {
    // Capacity 3: recording t, f, t, t keeps [f, t, t].
    let mut w = ErrorWindow::new(3);
    w.record(true);
    w.record(false);
    w.record(true);
    w.record(true);
    let (errors, len) = w.error_stats();
    assert_eq!(len, 3);
    assert_eq!(errors, 2);
}

#[test]
fn error_rate_stays_within_percent_bounds() {
    // 100 * errors / length lies in [0, 100] because errors <= length.
    let mut w = ErrorWindow::new(4);
    for flag in [true, true, true, true, true, false] {
        w.record(flag);
        let (errors, len) = w.error_stats();
        assert!(errors <= len);
        if len > 0 {
            let rate = 100.0f32 * errors as f32 / len as f32;
            assert!((0.0..=100.0).contains(&rate));
        }
    }
}

#[test]
fn all_errors_window_reads_one_hundred_percent() {
    let mut w = ErrorWindow::new(2);
    w.record(true);
    w.record(true);
    let (errors, len) = w.error_stats();
    assert_eq!(errors, 2);
    assert_eq!(len, 2);
    assert_eq!(100 * errors / len, 100);
}
