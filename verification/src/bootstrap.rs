//! The core partition bootstrap: the one-time bring-up that claims the
//! board's peripheral handles, splits them between the two execution
//! contexts, and orders the start of the two schedulers around the storage
//! cold-start.
//!
//! Ownership discipline is carried by moves: a `PeripheralHandle` is an
//! exclusive capability over one pin or lane, the partition consumes the
//! whole claimed set, and each context receives its share by value — no
//! handle is ever shared or duplicated, so the two contexts cannot touch
//! each other's peripherals. The bring-up steps themselves form a strictly
//! ordered, one-way progression: the secondary context's stack is reserved
//! exactly once, before that context starts, and the primary scheduler
//! starts only after the storage sequence has settled.

use vstd::prelude::*;
use crate::storage::StorageSession;

verus! {

/// Board pin of the indicator output.
pub const INDICATOR_PIN: u8 = 23;

/// Board pin of the button input (pull-up, active-low).
pub const BUTTON_PIN: u8 = 24;

/// Board pin of the LED-protocol data line.
pub const LED_DATA_PIN: u8 = 25;

/// Board pin of the storage presence-detect input (pull-up, active-low).
pub const STORAGE_DETECT_PIN: u8 = 40;

/// Board pin of the storage bus clock line.
pub const STORAGE_CLK_PIN: u8 = 34;

/// Board pin of the storage bus MOSI line.
pub const STORAGE_MOSI_PIN: u8 = 35;

/// Board pin of the storage bus MISO line.
pub const STORAGE_MISO_PIN: u8 = 36;

/// Board pin of the storage chip-select output.
pub const STORAGE_CS_PIN: u8 = 39;

/// The conservative bus clock the storage protocol's power-up timing allows.
pub const SPI_INIT_HZ: u32 = 400_000;

/// The operating bus clock, safe only after the low-speed handshake.
pub const SPI_OPERATING_HZ: u32 = 16_000_000;

/// Size, in stack units, of the fixed region reserved for the secondary
/// context's execution stack.
pub const SECONDARY_STACK_SIZE: usize = 4096;

/// An exclusive capability over one physical pin or protocol-engine lane.
/// Handles are never copied: ownership moves exactly once, at bootstrap.
#[derive(PartialEq, Eq, Structural, Debug)]
pub struct PeripheralHandle {
    pub pin: u8,
}

/// Every handle the bootstrap claims, under the board's fixed pin mapping.
#[derive(PartialEq, Eq, Structural, Debug)]
pub struct BoardHandles {
    pub indicator: PeripheralHandle,
    pub button: PeripheralHandle,
    pub led_lane: PeripheralHandle,
    pub storage_detect: PeripheralHandle,
    pub storage_clk: PeripheralHandle,
    pub storage_mosi: PeripheralHandle,
    pub storage_miso: PeripheralHandle,
    pub storage_cs: PeripheralHandle,
}

/// The share of context A (primary core): the LED-protocol lane.
#[derive(PartialEq, Eq, Structural, Debug)]
pub struct CoreAResources {
    pub led_lane: PeripheralHandle,
}

/// The share of context B (secondary core): button input and indicator
/// output.
#[derive(PartialEq, Eq, Structural, Debug)]
pub struct CoreBResources {
    pub button: PeripheralHandle,
    pub indicator: PeripheralHandle,
}

/// The handles the storage cold-start uses on the primary core before
/// context A's scheduler starts.
#[derive(PartialEq, Eq, Structural, Debug)]
pub struct StorageResources {
    pub detect: PeripheralHandle,
    pub clk: PeripheralHandle,
    pub mosi: PeripheralHandle,
    pub miso: PeripheralHandle,
    pub chip_select: PeripheralHandle,
}

/// Claims the full set of handles under the board's fixed pin mapping.
pub fn claim_board_handles() -> (h: BoardHandles)
    ensures
        h.indicator.pin == INDICATOR_PIN,
        h.button.pin == BUTTON_PIN,
        h.led_lane.pin == LED_DATA_PIN,
        h.storage_detect.pin == STORAGE_DETECT_PIN,
        h.storage_clk.pin == STORAGE_CLK_PIN,
        h.storage_mosi.pin == STORAGE_MOSI_PIN,
        h.storage_miso.pin == STORAGE_MISO_PIN,
        h.storage_cs.pin == STORAGE_CS_PIN,
{
    BoardHandles {
        indicator: PeripheralHandle { pin: INDICATOR_PIN },
        button: PeripheralHandle { pin: BUTTON_PIN },
        led_lane: PeripheralHandle { pin: LED_DATA_PIN },
        storage_detect: PeripheralHandle { pin: STORAGE_DETECT_PIN },
        storage_clk: PeripheralHandle { pin: STORAGE_CLK_PIN },
        storage_mosi: PeripheralHandle { pin: STORAGE_MOSI_PIN },
        storage_miso: PeripheralHandle { pin: STORAGE_MISO_PIN },
        storage_cs: PeripheralHandle { pin: STORAGE_CS_PIN },
    }
}

/// Partitions the claimed handles between the two contexts and the storage
/// sequence. The whole set is consumed and every handle reappears in exactly
/// one share: the split neither drops, duplicates nor invents a handle.
pub fn partition_handles(h: BoardHandles) -> (r: (CoreAResources, CoreBResources, StorageResources))
    ensures
        r.0.led_lane == h.led_lane,
        r.1.button == h.button,
        r.1.indicator == h.indicator,
        r.2.detect == h.storage_detect,
        r.2.clk == h.storage_clk,
        r.2.mosi == h.storage_mosi,
        r.2.miso == h.storage_miso,
        r.2.chip_select == h.storage_cs,
{
    let BoardHandles {
        indicator,
        button,
        led_lane,
        storage_detect,
        storage_clk,
        storage_mosi,
        storage_miso,
        storage_cs,
    } = h;
    (
        CoreAResources { led_lane },
        CoreBResources { button, indicator },
        StorageResources {
            detect: storage_detect,
            clk: storage_clk,
            mosi: storage_mosi,
            miso: storage_miso,
            chip_select: storage_cs,
        },
    )
}

/// The bring-up steps, in their one and only order.
#[derive(Clone, Copy, PartialEq, Eq, Structural, Debug)]
pub enum BootPhase {
    /// Nothing has run yet.
    PowerOn,
    /// The peripheral subsystem initialized and the handles were claimed.
    PeripheralsReady,
    /// The secondary context's fixed stack region was reserved.
    SecondaryStackReserved,
    /// Context B's scheduler runs on the secondary core.
    SecondaryStarted,
    /// The storage cold-start settled (skipped, mounted or failed).
    StorageSettled,
    /// Context A's scheduler runs on the primary core; bring-up is over.
    PrimaryRunning,
}

/// The bootstrap's progress marker. Each step's method demands the phase the
/// previous step left behind, so the steps can only be taken once and only
/// in order; there is no way back and no way around a step.
pub struct BootSequencer {
    pub phase: BootPhase,
}

impl BootSequencer {
    /// Bring-up starts at power-on.
    pub fn new() -> (s: BootSequencer)
        ensures
            s.phase == BootPhase::PowerOn,
    {
        BootSequencer { phase: BootPhase::PowerOn }
    }

    /// Marks the peripheral subsystem initialized and all handles claimed.
    pub fn mark_peripherals_ready(&mut self)
        requires
            old(self).phase == BootPhase::PowerOn,
        ensures
            final(self).phase == BootPhase::PeripheralsReady,
    {
        self.phase = BootPhase::PeripheralsReady;
    }

    /// Marks the secondary context's stack region reserved. The phase order
    /// makes this happen exactly once, and before that context starts.
    pub fn mark_secondary_stack_reserved(&mut self)
        requires
            old(self).phase == BootPhase::PeripheralsReady,
        ensures
            final(self).phase == BootPhase::SecondaryStackReserved,
    {
        self.phase = BootPhase::SecondaryStackReserved;
    }

    /// Marks context B's scheduler started on the secondary core, with its
    /// share of the handles moved into the button/indicator task.
    pub fn mark_secondary_started(&mut self)
        requires
            old(self).phase == BootPhase::SecondaryStackReserved,
        ensures
            final(self).phase == BootPhase::SecondaryStarted,
    {
        self.phase = BootPhase::SecondaryStarted;
    }

    /// Marks the storage cold-start settled. Only a session that has nothing
    /// left to do — skipped, complete or failed — lets bring-up continue.
    pub fn mark_storage_settled(&mut self, session: &StorageSession)
        requires
            old(self).phase == BootPhase::SecondaryStarted,
            (*session) is NotPresent || (*session) is VolumeMounted || (*session) is Failed,
        ensures
            final(self).phase == BootPhase::StorageSettled,
    {
        let _ = session;
        self.phase = BootPhase::StorageSettled;
    }

    /// Marks context A's scheduler started on the primary core: the last
    /// step, after which bring-up never runs again.
    pub fn mark_primary_running(&mut self)
        requires
            old(self).phase == BootPhase::StorageSettled,
        ensures
            final(self).phase == BootPhase::PrimaryRunning,
    {
        self.phase = BootPhase::PrimaryRunning;
    }
}

} // verus!
