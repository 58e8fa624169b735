use metro_core::button::{ButtonEvent, ButtonState, Level};

#[test]
fn fresh_state_idles_high() {
    let s = ButtonState::new();
    assert_eq!(s.last, Level::High);
}

#[test]
fn press_and_release_report_one_edge_each() {
    let mut s = ButtonState::new();
    let (event, indicator) = s.poll(Level::Low);
    assert_eq!(event, Some(ButtonEvent::Pressed));
    assert_eq!(indicator, Level::High);
    let (event, indicator) = s.poll(Level::High);
    assert_eq!(event, Some(ButtonEvent::Released));
    assert_eq!(indicator, Level::Low);
}

#[test]
fn scenario_run_reports_two_edges() {
    // Reads High, High, Low, Low, High: pressed after the third read,
    // released after the fifth, indicator always the inverse of the read.
    let mut s = ButtonState::new();
    let reads = vec![Level::High, Level::High, Level::Low, Level::Low, Level::High];
    let (events, indicators) = s.poll_run(&reads);
    assert_eq!(
        events,
        vec![None, None, Some(ButtonEvent::Pressed), None, Some(ButtonEvent::Released)]
    );
    assert_eq!(
        indicators,
        vec![Level::Low, Level::Low, Level::High, Level::High, Level::Low]
    );
    assert_eq!(events.iter().filter(|e| e.is_some()).count(), 2);
    assert_eq!(s.last, Level::High);
}

#[test]
fn identical_reads_after_the_first_report_nothing() {
    let mut s = ButtonState::new();
    let reads = vec![Level::Low; 10];
    let (events, indicators) = s.poll_run(&reads);
    assert_eq!(events[0], Some(ButtonEvent::Pressed));
    assert!(events[1..].iter().all(|e| e.is_none()));
    assert!(indicators.iter().all(|l| *l == Level::High));
}

#[test]
fn idle_reads_report_nothing_at_all() {
    let mut s = ButtonState::new();
    let reads = vec![Level::High; 10];
    let (events, indicators) = s.poll_run(&reads);
    assert!(events.iter().all(|e| e.is_none()));
    assert!(indicators.iter().all(|l| *l == Level::Low));
}
