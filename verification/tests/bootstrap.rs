use metro_core::bootstrap::{
    claim_board_handles, partition_handles, BootPhase, BootSequencer, BUTTON_PIN, INDICATOR_PIN,
    LED_DATA_PIN, SECONDARY_STACK_SIZE, SPI_INIT_HZ, SPI_OPERATING_HZ, STORAGE_CS_PIN,
    STORAGE_DETECT_PIN,
};
use metro_core::storage::StorageSession;

#[test]
fn board_pin_mapping_is_fixed() {
    let h = claim_board_handles();
    assert_eq!(h.indicator.pin, INDICATOR_PIN);
    assert_eq!(h.button.pin, BUTTON_PIN);
    assert_eq!(h.led_lane.pin, LED_DATA_PIN);
    assert_eq!(h.storage_detect.pin, STORAGE_DETECT_PIN);
    assert_eq!(h.storage_cs.pin, STORAGE_CS_PIN);
    assert_eq!(INDICATOR_PIN, 23);
    assert_eq!(BUTTON_PIN, 24);
    assert_eq!(LED_DATA_PIN, 25);
    assert_eq!(STORAGE_DETECT_PIN, 40);
}

#[test]
fn bus_operating_points_are_ordered() {
    assert_eq!(SPI_INIT_HZ, 400_000);
    assert_eq!(SPI_OPERATING_HZ, 16_000_000);
    assert!(SPI_INIT_HZ < SPI_OPERATING_HZ);
    assert_eq!(SECONDARY_STACK_SIZE, 4096);
}

#[test]
fn partition_moves_each_handle_to_one_owner() {
    let h = claim_board_handles();
    let (core_a, core_b, storage) = partition_handles(h);
    assert_eq!(core_a.led_lane.pin, LED_DATA_PIN);
    assert_eq!(core_b.button.pin, BUTTON_PIN);
    assert_eq!(core_b.indicator.pin, INDICATOR_PIN);
    assert_eq!(storage.detect.pin, STORAGE_DETECT_PIN);
    assert_eq!(storage.chip_select.pin, STORAGE_CS_PIN);
}

#[test]
fn bring_up_walks_its_phases_in_order() {
    let mut boot = BootSequencer::new();
    assert_eq!(boot.phase, BootPhase::PowerOn);
    boot.mark_peripherals_ready();
    assert_eq!(boot.phase, BootPhase::PeripheralsReady);
    boot.mark_secondary_stack_reserved();
    assert_eq!(boot.phase, BootPhase::SecondaryStackReserved);
    boot.mark_secondary_started();
    assert_eq!(boot.phase, BootPhase::SecondaryStarted);
    boot.mark_storage_settled(&StorageSession::NotPresent);
    assert_eq!(boot.phase, BootPhase::StorageSettled);
    boot.mark_primary_running();
    assert_eq!(boot.phase, BootPhase::PrimaryRunning);
}

#[test]
fn bring_up_continues_past_a_settled_storage_failure() {
    let mut boot = BootSequencer::new();
    boot.mark_peripherals_ready();
    boot.mark_secondary_stack_reserved();
    boot.mark_secondary_started();
    boot.mark_storage_settled(&StorageSession::Failed);
    boot.mark_primary_running();
    assert_eq!(boot.phase, BootPhase::PrimaryRunning);
}
