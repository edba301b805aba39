use emp::stopwatch::Stopwatch;
use emp::time::Span;

#[test]
fn span_from_millis() {
    let s = Span::from_millis(1025);
    assert_eq!(s, Span::from_parts(1, 25_000_000));
    assert_eq!(s.as_secs(), 1);
}

#[test]
fn span_addition_carries_nanoseconds() {
    let a = Span::from_parts(1, 900_000_000);
    let b = Span::from_parts(2, 200_000_000);
    assert_eq!(a.saturating_add(&b), Span::from_parts(4, 100_000_000));
}

#[test]
fn span_addition_is_held_at_largest() {
    let a = Span::max();
    let b = Span::from_parts(0, 1);
    assert_eq!(a.saturating_add(&b), Span::max());
    assert_eq!(Span::from_parts(u64::MAX, 500_000_000).saturating_add(&Span::from_parts(0, 600_000_000)), Span::max());
}

#[test]
fn span_order() {
    assert!(Span::from_parts(1, 5).le(&Span::from_parts(1, 5)));
    assert!(Span::from_parts(1, 5).le(&Span::from_parts(2, 0)));
    assert!(!Span::from_parts(2, 0).le(&Span::from_parts(1, 999_999_999)));
    assert!(Span::zero().is_zero());
    assert!(!Span::from_parts(0, 1).is_zero());
}

#[test]
fn new_stopwatch_has_not_started() {
    let sw = Stopwatch::new();
    assert!(!sw.is_running());
    assert!(!sw.has_started());
    assert_eq!(sw.elapsed(), Span::zero());
}

#[test]
fn start_pause_resume_flags() {
    let mut sw = Stopwatch::new();
    sw.resume();
    assert!(!sw.is_running());
    sw.start();
    assert!(sw.is_running());
    assert!(sw.has_started());
    sw.pause();
    assert!(!sw.is_running());
    sw.pause();
    assert!(!sw.is_running());
}

#[test]
fn paused_reading_is_the_set_time() {
    let mut sw = Stopwatch::new();
    sw.set_time(Span::from_parts(3, 0));
    assert_eq!(sw.elapsed(), Span::from_parts(3, 0));
    assert_eq!(sw.elapsed(), Span::from_parts(3, 0));
    assert!(sw.has_started());
    sw.resume();
    assert!(sw.is_running());
}

#[test]
fn closed_segments_add_up() {
    let mut sw = Stopwatch::new();
    sw.start();
    sw.close_segment(Span::from_millis(1500));
    assert!(!sw.is_running());
    assert_eq!(sw.elapsed(), Span::from_millis(1500));
    sw.resume();
    sw.close_segment(Span::from_millis(700));
    assert_eq!(sw.elapsed(), Span::from_millis(2200));
}

#[test]
fn reading_of_running_stopwatch() {
    let mut sw = Stopwatch::new();
    sw.set_time(Span::from_parts(10, 0));
    assert_eq!(sw.elapsed_with(Span::from_parts(5, 0)), Span::from_parts(10, 0));
    sw.start();
    assert_eq!(sw.elapsed_with(Span::from_parts(5, 0)), Span::from_parts(15, 0));
    assert!(sw.elapsed().le(&Span::from_parts(3600, 0)));
    assert!(Span::from_parts(10, 0).le(&sw.elapsed()));
}

#[test]
fn reset_makes_a_fresh_stopwatch() {
    let mut sw = Stopwatch::new();
    sw.start();
    sw.close_segment(Span::from_parts(1, 0));
    sw.reset();
    assert!(!sw.has_started());
    assert!(!sw.is_running());
    assert_eq!(sw.elapsed(), Span::zero());
}

#[test]
fn started_stopwatch_stays_started_when_paused_at_zero() {
    let mut sw = Stopwatch::new();
    sw.start();
    sw.pause();
    sw.set_time(Span::zero());
    assert!(sw.has_started());
    assert!(!sw.is_running());
    sw.resume();
    assert!(sw.is_running());
    assert!(sw.has_started());
    sw.reset();
    assert!(!sw.has_started());
    sw.resume();
    assert!(!sw.is_running());
}

#[test]
fn zero_length_segment_still_counts_as_started() {
    let mut sw = Stopwatch::new();
    sw.start();
    sw.close_segment(Span::zero());
    assert!(sw.has_started());
    assert_eq!(sw.elapsed(), Span::zero());
}

#[test]
fn segments_add_up_across_pauses() {
    let mut sw = Stopwatch::new();
    sw.set_time(Span::from_millis(100));
    sw.start();
    sw.close_segment(Span::from_millis(250));
    sw.start();
    sw.close_segment(Span::from_millis(650));
    sw.resume();
    sw.close_segment(Span::from_millis(1000));
    assert_eq!(sw.elapsed(), Span::from_millis(2000));
}
