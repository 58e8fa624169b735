use metro_core::button::Level;
use metro_core::storage::{
    cold_start, ProbeOutcomes, StorageAction, StorageSession, Timestamp,
};

#[test]
fn absent_card_skips_the_whole_sequence() {
    // Presence-detect is pull-up, active-low: High means absent.
    let session = StorageSession::from_card_detect(Level::High);
    assert_eq!(session, StorageSession::NotPresent);
    assert_eq!(session.next_action(), None);
    let probe = ProbeOutcomes { reset_ok: true, capacity: Some(1_000_000), mount_ok: true };
    let (session, actions) = cold_start(Level::High, &probe);
    assert_eq!(session, StorageSession::NotPresent);
    assert!(actions.is_empty(), "no bus activity when no card is present");
}

#[test]
fn present_card_walks_the_full_sequence() {
    let mut session = StorageSession::from_card_detect(Level::Low);
    assert_eq!(session, StorageSession::Detected);
    assert_eq!(session.next_action(), Some(StorageAction::InitCardLowSpeed));
    session.on_card_init(true);
    assert_eq!(session, StorageSession::LowSpeedReady);
    assert_eq!(session.next_action(), Some(StorageAction::QueryCapacity));
    session.on_capacity(Some(1_000_000));
    assert_eq!(session, StorageSession::CapacityKnown(1_000_000));
    assert_eq!(session.capacity_bytes(), Some(1_000_000));
    assert_eq!(session.next_action(), Some(StorageAction::RaiseBusClock));
    session.on_clock_raised();
    assert_eq!(session, StorageSession::HighSpeedReady);
    assert_eq!(session.next_action(), Some(StorageAction::MountFirstVolume));
    session.on_mount(true);
    assert_eq!(session, StorageSession::VolumeMounted);
    assert_eq!(session.next_action(), None);
}

#[test]
fn cold_start_mounts_a_healthy_card() {
    let probe = ProbeOutcomes { reset_ok: true, capacity: Some(1_000_000), mount_ok: true };
    let (session, actions) = cold_start(Level::Low, &probe);
    assert_eq!(session, StorageSession::VolumeMounted);
    assert_eq!(
        actions,
        vec![
            StorageAction::InitCardLowSpeed,
            StorageAction::QueryCapacity,
            StorageAction::RaiseBusClock,
            StorageAction::MountFirstVolume,
        ]
    );
}

#[test]
fn failed_reset_stops_before_the_capacity_query() {
    let probe = ProbeOutcomes { reset_ok: false, capacity: Some(1_000_000), mount_ok: true };
    let (session, actions) = cold_start(Level::Low, &probe);
    assert_eq!(session, StorageSession::Failed);
    assert_eq!(actions, vec![StorageAction::InitCardLowSpeed]);
    assert_eq!(session.next_action(), None, "a failed sequence is never retried");
}

#[test]
fn failed_capacity_query_never_raises_the_clock() {
    let probe = ProbeOutcomes { reset_ok: true, capacity: None, mount_ok: true };
    let (session, actions) = cold_start(Level::Low, &probe);
    assert_eq!(session, StorageSession::Failed);
    assert_eq!(
        actions,
        vec![StorageAction::InitCardLowSpeed, StorageAction::QueryCapacity]
    );
    assert!(!actions.contains(&StorageAction::RaiseBusClock));
    assert!(!actions.contains(&StorageAction::MountFirstVolume));
}

#[test]
fn failed_mount_ends_failed() {
    let probe = ProbeOutcomes { reset_ok: true, capacity: Some(4_096), mount_ok: false };
    let (session, actions) = cold_start(Level::Low, &probe);
    assert_eq!(session, StorageSession::Failed);
    assert_eq!(actions.len(), 4);
}

#[test]
fn capacity_is_reported_only_while_known() {
    let mut session = StorageSession::Detected;
    assert_eq!(session.capacity_bytes(), None);
    session.on_card_init(true);
    session.on_capacity(Some(42));
    assert_eq!(session.capacity_bytes(), Some(42));
    session.on_clock_raised();
    assert_eq!(session.capacity_bytes(), None);
}

#[test]
fn time_source_reports_the_zero_instant() {
    let t = Timestamp::zero();
    assert_eq!(t.year_since_1970, 0);
    assert_eq!(t.zero_indexed_month, 0);
    assert_eq!(t.zero_indexed_day, 0);
    assert_eq!(t.hours, 0);
    assert_eq!(t.minutes, 0);
    assert_eq!(t.seconds, 0);
}
