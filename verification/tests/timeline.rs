use whirled_peas::types::Act;
use whirled_peas::{act_at_time, act_progress_at_time, total_progress};

fn fx(v: f64) -> i64 {
    (v * 1_000_000.0).round() as i64
}

fn fl(v: i64) -> f64 {
    v as f64 / 1_000_000.0
}

#[test]
fn test_act_at_time() {
    assert_eq!(act_at_time(fx(0.0)), Act::Emergence);
    assert_eq!(act_at_time(fx(90.0)), Act::Emergence);
    assert_eq!(act_at_time(fx(180.0)), Act::Accumulation);
    assert_eq!(act_at_time(fx(300.0)), Act::Accumulation);
    assert_eq!(act_at_time(fx(420.0)), Act::Crescendo);
    assert_eq!(act_at_time(fx(600.0)), Act::Release);
    assert_eq!(act_at_time(fx(780.0)), Act::Transcendence);
    assert_eq!(act_at_time(fx(900.0)), Act::Transcendence);
}

#[test]
fn test_act_progress_at_time() {
    // Start of emergence
    let progress = fl(act_progress_at_time(fx(0.0)));
    assert!((progress - 0.0).abs() < 0.001);

    // Middle of emergence (90 seconds into 180-second act)
    let progress = fl(act_progress_at_time(fx(90.0)));
    assert!((progress - 0.5).abs() < 0.001);

    // End of emergence
    let progress = fl(act_progress_at_time(fx(179.9)));
    assert!(progress > 0.99);
}

#[test]
fn test_total_progress() {
    assert!((fl(total_progress(fx(0.0))) - 0.0).abs() < 0.001);
    assert!((fl(total_progress(fx(450.0))) - 0.5).abs() < 0.001);
    assert!((fl(total_progress(fx(900.0))) - 1.0).abs() < 0.001);
    assert!((fl(total_progress(fx(1000.0))) - 1.0).abs() < 0.001); // Clamped
}

#[test]
fn progress_exact_values_and_clamping() {
    assert_eq!(act_progress_at_time(fx(90.0)), fx(0.5));
    assert_eq!(act_progress_at_time(fx(240.0)), fx(0.25));
    assert_eq!(act_progress_at_time(fx(840.0)), fx(0.5));
    assert_eq!(act_progress_at_time(fx(2000.0)), fx(1.0));
    assert_eq!(act_progress_at_time(fx(-3.0)), 0);
    assert_eq!(total_progress(fx(225.0)), fx(0.25));
    assert_eq!(total_progress(fx(-1.0)), 0);
    assert_eq!(total_progress(i64::MAX), fx(1.0));
}
