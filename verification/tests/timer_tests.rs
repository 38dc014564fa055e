use pig_farm::timer::OnceTimer;
use pig_farm::timer::RepeatingTimer;

#[test]
fn once_timer_counts_up_and_clamps() {
    let mut t = OnceTimer::new(10_000);
    t.tick(4000);
    assert_eq!(t.elapsed_ms, 4000);
    assert!(!t.is_finished());
    t.tick(4000);
    assert_eq!(t.elapsed_ms, 8000);
    assert!(!t.is_finished());
    t.tick(9999);
    assert_eq!(t.elapsed_ms, 10_000);
    assert!(t.is_finished());
}

#[test]
fn once_timer_finishes_on_exact_total() {
    // 10 seconds accumulated across frames of any split finishes the timer
    let mut t = OnceTimer::new(10_000);
    t.tick(2500);
    t.tick(2500);
    t.tick(2500);
    t.tick(2499);
    assert!(!t.is_finished());
    t.tick(1);
    assert!(t.is_finished());
}

#[test]
fn repeating_timer_reports_completed_cycles() {
    let mut t = RepeatingTimer::new(200);
    assert_eq!(t.tick(199), 0);
    assert_eq!(t.elapsed_ms, 199);
    assert_eq!(t.tick(1), 1);
    assert_eq!(t.elapsed_ms, 0);
    assert_eq!(t.tick(610), 3);
    assert_eq!(t.elapsed_ms, 10);
    assert_eq!(t.interval_ms, 200);
}

#[test]
fn repeating_timer_zero_tick_completes_nothing() {
    let mut t = RepeatingTimer::new(2000);
    assert_eq!(t.tick(0), 0);
    assert_eq!(t.elapsed_ms, 0);
}
