use replicate::progress::progress_of;
use replicate::PredictionProgress;

#[test]
fn latest_progress_line_wins() {
    let logs = "starting\n20%|##|2/10\nsome output\n50%|#####|5/10\n";
    let p = progress_of(logs).unwrap();
    assert_eq!(p, PredictionProgress { percentage: 50, current: 5, total: 10 });
    assert_eq!(p.percentage as f64 / 100.0, 0.5);
}

#[test]
fn no_progress_in_empty_or_plain_logs() {
    assert!(progress_of("").is_none());
    assert!(progress_of("hello\nworld").is_none());
}

#[test]
fn progress_line_with_spaces_and_tail() {
    let p = progress_of("  75% | ███▌ | 3/4 [00:01<00:00]  \r\nnoise").unwrap();
    assert_eq!((p.percentage, p.current, p.total), (75, 3, 4));
}

#[test]
fn bar_holding_a_bar_sign() {
    let p = progress_of("10%|a|b| 1/10").unwrap();
    assert_eq!((p.percentage, p.current, p.total), (10, 1, 10));
    assert!(progress_of("10%|| 1/10").is_none());
}

#[test]
fn progress_with_overflowing_count_is_skipped() {
    let p = progress_of("30%|#|3/10\n40%|#|99999999999/10").unwrap();
    assert_eq!(p.percentage, 30);
}
