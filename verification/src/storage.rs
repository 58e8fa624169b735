//! The storage cold-start sequence: an ordered, non-retrying handshake that
//! brings an SPI-attached card from power-up to a mounted first volume.
//!
//! The sequence runs at most once, at boot, and only when the card-detect
//! input (pull-up, active-low) reads present. Its session only ever advances:
//! low-speed bus setup and card reset, capacity query, clock raise, volume
//! mount. A failed step moves the session to `Failed`, which is terminal —
//! no step is retried, and in particular the bus is never raised to its
//! operating clock unless the low-speed capacity query succeeded first.
//!
//! The hardware work itself (configuring the bus, talking to the card) is
//! done outside; the caller performs the action this machine asks for next
//! and feeds the observed outcome back in as an event.

use vstd::prelude::*;
use crate::button::Level;

verus! {

/// Where the cold-start session stands. It moves only forward along
/// `NotPresent | Detected -> LowSpeedReady -> CapacityKnown -> HighSpeedReady
/// -> VolumeMounted`, falling to the terminal `Failed` when a step fails.
#[derive(Clone, Copy, PartialEq, Eq, Structural, Debug)]
pub enum StorageSession {
    /// Card-detect read absent; the sequence is skipped entirely.
    NotPresent,
    /// Card-detect read present; nothing has touched the bus yet.
    Detected,
    /// The bus runs at the conservative init clock and the card reset at it.
    LowSpeedReady,
    /// The card reported its byte capacity.
    CapacityKnown(u64),
    /// The bus was raised to its operating clock.
    HighSpeedReady,
    /// The first logical volume opened; the sequence is complete.
    VolumeMounted,
    /// A step failed; the sequence never recovers or retries.
    Failed,
}

/// The hardware step the session asks its caller to perform next.
#[derive(Clone, Copy, PartialEq, Eq, Structural, Debug)]
pub enum StorageAction {
    /// Configure the bus at the init clock and reset the card over it.
    InitCardLowSpeed,
    /// Ask the card for its byte capacity.
    QueryCapacity,
    /// Reconfigure the same bus to the operating clock.
    RaiseBusClock,
    /// Open logical volume index 0 from the card's partition table.
    MountFirstVolume,
}

/// The observed outcome of a hardware step, fed back into the session.
#[derive(Clone, Copy, PartialEq, Eq, Structural, Debug)]
pub enum StorageEvent {
    /// Low-speed setup finished; the payload says whether the card reset.
    CardInit(bool),
    /// The capacity query succeeded with this many bytes.
    CapacityRead(u64),
    /// The capacity query failed.
    CapacityFailed,
    /// The bus now runs at the operating clock.
    ClockRaised,
    /// The volume open finished; the payload says whether it succeeded.
    MountResult(bool),
}

/// How one event moves the session. An event that does not belong to the
/// session's current step moves nothing: the machine never retries and
/// never steps backward.
pub open spec fn step_spec(s: StorageSession, e: StorageEvent) -> StorageSession {
    match (s, e) {
        (StorageSession::Detected, StorageEvent::CardInit(ok)) => if ok {
            StorageSession::LowSpeedReady
        } else {
            StorageSession::Failed
        },
        (StorageSession::LowSpeedReady, StorageEvent::CapacityRead(b)) => StorageSession::CapacityKnown(
            b,
        ),
        (StorageSession::LowSpeedReady, StorageEvent::CapacityFailed) => StorageSession::Failed,
        (StorageSession::CapacityKnown(_), StorageEvent::ClockRaised) => StorageSession::HighSpeedReady,
        (StorageSession::HighSpeedReady, StorageEvent::MountResult(ok)) => if ok {
            StorageSession::VolumeMounted
        } else {
            StorageSession::Failed
        },
        _ => s,
    }
}

/// The step the session waits for, if any. `NotPresent`, `VolumeMounted`
/// and `Failed` ask for nothing: they are terminal.
pub open spec fn next_action_spec(s: StorageSession) -> Option<StorageAction> {
    match s {
        StorageSession::NotPresent => None,
        StorageSession::Detected => Some(StorageAction::InitCardLowSpeed),
        StorageSession::LowSpeedReady => Some(StorageAction::QueryCapacity),
        StorageSession::CapacityKnown(_) => Some(StorageAction::RaiseBusClock),
        StorageSession::HighSpeedReady => Some(StorageAction::MountFirstVolume),
        StorageSession::VolumeMounted => None,
        StorageSession::Failed => None,
    }
}

/// How far along the one-way progression a session stands.
pub open spec fn session_rank(s: StorageSession) -> int {
    match s {
        StorageSession::NotPresent => 0,
        StorageSession::Detected => 1,
        StorageSession::LowSpeedReady => 2,
        StorageSession::CapacityKnown(_) => 3,
        StorageSession::HighSpeedReady => 4,
        StorageSession::VolumeMounted => 5,
        StorageSession::Failed => 6,
    }
}

/// The session after feeding a whole run of events, oldest first.
pub open spec fn run(s0: StorageSession, events: Seq<StorageEvent>) -> StorageSession
    decreases events.len(),
{
    if events.len() == 0 {
        s0
    } else {
        step_spec(run(s0, events.drop_last()), events.last())
    }
}

/// The session the sequence starts in, from the presence-detect level
/// (pull-up, active-low: present when low).
pub open spec fn start_session(detect: Level) -> StorageSession {
    if detect is Low {
        StorageSession::Detected
    } else {
        StorageSession::NotPresent
    }
}

/// Whether a session got past the low-speed capacity query.
pub open spec fn past_capacity_query(s: StorageSession) -> bool {
    ||| s is CapacityKnown
    ||| s is HighSpeedReady
    ||| s is VolumeMounted
}

impl StorageSession {
    /// Reads the presence-detect level (pull-up, active-low: present when
    /// low) into the session's starting point.
    pub fn from_card_detect(detect: Level) -> (s: StorageSession)
        ensures
            s == start_session(detect),
            detect is Low ==> s is Detected,
            detect is High ==> s is NotPresent,
    {
        match detect {
            Level::Low => StorageSession::Detected,
            Level::High => StorageSession::NotPresent,
        }
    }

    /// The hardware step to perform next, or nothing when the session is
    /// terminal.
    pub fn next_action(&self) -> (a: Option<StorageAction>)
        ensures
            a == next_action_spec(*self),
    {
        match *self {
            StorageSession::Detected => Some(StorageAction::InitCardLowSpeed),
            StorageSession::LowSpeedReady => Some(StorageAction::QueryCapacity),
            StorageSession::CapacityKnown(_) => Some(StorageAction::RaiseBusClock),
            StorageSession::HighSpeedReady => Some(StorageAction::MountFirstVolume),
            _ => None,
        }
    }

    /// Feeds back the outcome of the low-speed setup: the session advances
    /// to `LowSpeedReady` exactly when the card reset succeeded.
    pub fn on_card_init(&mut self, reset_ok: bool)
        requires
            (*old(self)) is Detected,
        ensures
            *final(self) == step_spec(*old(self), StorageEvent::CardInit(reset_ok)),
            reset_ok ==> (*final(self)) is LowSpeedReady,
            !reset_ok ==> (*final(self)) is Failed,
    {
        *self = if reset_ok {
            StorageSession::LowSpeedReady
        } else {
            StorageSession::Failed
        };
    }

    /// Feeds back the capacity query's result: the byte count when it
    /// succeeded, or nothing, which fails the sequence for good.
    pub fn on_capacity(&mut self, bytes: Option<u64>)
        requires
            (*old(self)) is LowSpeedReady,
        ensures
            (match bytes {
                Some(b) => *final(self) == step_spec(*old(self), StorageEvent::CapacityRead(b))
                    && *final(self) == StorageSession::CapacityKnown(b),
                None => *final(self) == step_spec(*old(self), StorageEvent::CapacityFailed)
                    && (*final(self)) is Failed,
            }),
    {
        *self = match bytes {
            Some(b) => StorageSession::CapacityKnown(b),
            None => StorageSession::Failed,
        };
    }

    /// Feeds back that the bus now runs at the operating clock. Only a
    /// session whose capacity query succeeded may raise the clock.
    pub fn on_clock_raised(&mut self)
        requires
            (*old(self)) is CapacityKnown,
        ensures
            *final(self) == step_spec(*old(self), StorageEvent::ClockRaised),
            (*final(self)) is HighSpeedReady,
    {
        *self = StorageSession::HighSpeedReady;
    }

    /// Feeds back the outcome of opening volume index 0.
    pub fn on_mount(&mut self, ok: bool)
        requires
            (*old(self)) is HighSpeedReady,
        ensures
            *final(self) == step_spec(*old(self), StorageEvent::MountResult(ok)),
            ok ==> (*final(self)) is VolumeMounted,
            !ok ==> (*final(self)) is Failed,
    {
        *self = if ok {
            StorageSession::VolumeMounted
        } else {
            StorageSession::Failed
        };
    }

    /// The capacity the card reported, while the session holds it.
    pub fn capacity_bytes(&self) -> (b: Option<u64>)
        ensures
            (match *self {
                StorageSession::CapacityKnown(n) => b == Some(n),
                _ => b is None,
            }),
    {
        match *self {
            StorageSession::CapacityKnown(n) => Some(n),
            _ => None,
        }
    }
}

/// The session only advances: an event either moves nothing or moves the
/// session strictly forward, and a terminal session never moves at all.
pub proof fn lemma_session_advances(s: StorageSession, e: StorageEvent)
    ensures
        step_spec(s, e) == s || session_rank(step_spec(s, e)) > session_rank(s),
        s is NotPresent || s is VolumeMounted || s is Failed ==> step_spec(s, e) == s,
{
}

/// Step ordering: a run gets past the capacity query only through a
/// successful capacity read taken in `LowSpeedReady`. The bus clock is
/// therefore never raised, and no mount attempted, before a successful
/// low-speed capacity query.
pub proof fn lemma_capacity_read_precedes_high_speed(
    s0: StorageSession,
    events: Seq<StorageEvent>,
)
    requires
        !past_capacity_query(s0),
    ensures
        past_capacity_query(run(s0, events)) ==> exists|j: int|
            0 <= j < events.len() && (#[trigger] events[j]) is CapacityRead && run(
                s0,
                events.take(j),
            ) is LowSpeedReady,
    decreases events.len(),
{
    if events.len() > 0 && past_capacity_query(run(s0, events)) {
        let prefix = events.drop_last();
        lemma_capacity_read_precedes_high_speed(s0, prefix);
        if past_capacity_query(run(s0, prefix)) {
            let j = choose|j: int|
                0 <= j < prefix.len() && (#[trigger] prefix[j]) is CapacityRead && run(
                    s0,
                    prefix.take(j),
                ) is LowSpeedReady;
            assert(events.take(j) =~= prefix.take(j));
            assert(events[j] is CapacityRead);
        } else {
            let j = prefix.len() as int;
            assert(events.take(j) =~= prefix);
            assert(events[j] is CapacityRead);
        }
    }
}

/// The failure side of the step ordering: a run that never sees a
/// successful capacity read never gets past the query, so it is never asked
/// to raise the bus clock or to mount the volume.
pub proof fn lemma_no_capacity_read_no_high_speed(s0: StorageSession, events: Seq<StorageEvent>)
    requires
        !past_capacity_query(s0),
        forall|j: int| 0 <= j < events.len() ==> !((#[trigger] events[j]) is CapacityRead),
    ensures
        !past_capacity_query(run(s0, events)),
        next_action_spec(run(s0, events)) != Some(StorageAction::RaiseBusClock),
        next_action_spec(run(s0, events)) != Some(StorageAction::MountFirstVolume),
    decreases events.len(),
{
    if events.len() > 0 {
        let prefix = events.drop_last();
        assert(forall|j: int| 0 <= j < prefix.len() ==> prefix[j] == events[j]);
        lemma_no_capacity_read_no_high_speed(s0, prefix);
    }
}

/// The outcomes the cold-start hardware steps would report, gathered so the
/// whole boot-time sequence can be driven in one call.
#[derive(Clone, Copy, PartialEq, Eq, Debug)]
pub struct ProbeOutcomes {
    /// Whether the card reset at the init clock.
    pub reset_ok: bool,
    /// The byte capacity the card reported, if the query succeeded.
    pub capacity: Option<u64>,
    /// Whether volume index 0 opened.
    pub mount_ok: bool,
}

/// The session the cold-start sequence ends in, given the presence-detect
/// level and the hardware outcomes.
pub open spec fn cold_start_session(detect: Level, probe: ProbeOutcomes) -> StorageSession {
    if detect is High {
        StorageSession::NotPresent
    } else if !probe.reset_ok {
        StorageSession::Failed
    } else {
        match probe.capacity {
            None => StorageSession::Failed,
            Some(_) => if probe.mount_ok {
                StorageSession::VolumeMounted
            } else {
                StorageSession::Failed
            },
        }
    }
}

/// The hardware steps the cold-start sequence performs, in order: none at
/// all when no card is present, and never a clock raise or mount after an
/// earlier step failed.
pub open spec fn cold_start_actions(detect: Level, probe: ProbeOutcomes) -> Seq<StorageAction> {
    if detect is High {
        Seq::empty()
    } else if !probe.reset_ok {
        seq![StorageAction::InitCardLowSpeed]
    } else {
        match probe.capacity {
            None => seq![StorageAction::InitCardLowSpeed, StorageAction::QueryCapacity],
            Some(_) => seq![
                StorageAction::InitCardLowSpeed,
                StorageAction::QueryCapacity,
                StorageAction::RaiseBusClock,
                StorageAction::MountFirstVolume,
            ],
        }
    }
}

/// The outcome events the cold-start hardware steps report, in order.
pub open spec fn cold_start_events(detect: Level, probe: ProbeOutcomes) -> Seq<StorageEvent> {
    if detect is High {
        Seq::empty()
    } else if !probe.reset_ok {
        seq![StorageEvent::CardInit(false)]
    } else {
        match probe.capacity {
            None => seq![StorageEvent::CardInit(true), StorageEvent::CapacityFailed],
            Some(b) => seq![
                StorageEvent::CardInit(true),
                StorageEvent::CapacityRead(b),
                StorageEvent::ClockRaised,
                StorageEvent::MountResult(probe.mount_ok),
            ],
        }
    }
}

/// The one-shot cold-start driver agrees with the event machine: feeding
/// the reported events through `step_spec`, from the session the detect
/// level starts, ends in the very session the driver returns.
pub proof fn lemma_cold_start_matches_run(detect: Level, probe: ProbeOutcomes)
    ensures
        run(start_session(detect), cold_start_events(detect, probe)) == cold_start_session(
            detect,
            probe,
        ),
{
    reveal_with_fuel(run, 6);
    let evs = cold_start_events(detect, probe);
    if detect is Low && probe.reset_ok {
        match probe.capacity {
            None => {
                assert(evs.drop_last() =~= seq![StorageEvent::CardInit(true)]);
                assert(seq![StorageEvent::CardInit(true)].drop_last()
                    =~= Seq::<StorageEvent>::empty());
            },
            Some(b) => {
                let e0 = StorageEvent::CardInit(true);
                let e1 = StorageEvent::CapacityRead(b);
                let e2 = StorageEvent::ClockRaised;
                assert(evs.drop_last() =~= seq![e0, e1, e2]);
                assert(seq![e0, e1, e2].drop_last() =~= seq![e0, e1]);
                assert(seq![e0, e1].drop_last() =~= seq![e0]);
                assert(seq![e0].drop_last() =~= Seq::<StorageEvent>::empty());
            },
        }
    } else if detect is Low {
        assert(evs.drop_last() =~= Seq::<StorageEvent>::empty());
    }
}

/// Runs the whole cold-start sequence against the given step outcomes,
/// returning the final session and the hardware steps performed, in order.
pub fn cold_start(detect: Level, probe: &ProbeOutcomes) -> (r: (StorageSession, Vec<StorageAction>))
    ensures
        r.0 == cold_start_session(detect, *probe),
        r.1@ == cold_start_actions(detect, *probe),
{
    let mut actions: Vec<StorageAction> = Vec::new();
    let mut session = StorageSession::from_card_detect(detect);
    if matches!(session, StorageSession::Detected) {
        actions.push(StorageAction::InitCardLowSpeed);
        session.on_card_init(probe.reset_ok);
        if matches!(session, StorageSession::LowSpeedReady) {
            actions.push(StorageAction::QueryCapacity);
            session.on_capacity(probe.capacity);
            if matches!(session, StorageSession::CapacityKnown(_)) {
                actions.push(StorageAction::RaiseBusClock);
                session.on_clock_raised();
                actions.push(StorageAction::MountFirstVolume);
                session.on_mount(probe.mount_ok);
            }
        }
    }
    proof {
        assert(actions@ =~= cold_start_actions(detect, *probe));
    }
    (session, actions)
}

/// A wall-clock timestamp in the shape the storage library's volume manager
/// expects from its time source.
#[derive(Clone, Copy, PartialEq, Eq, Structural, Debug)]
pub struct Timestamp {
    pub year_since_1970: u8,
    pub zero_indexed_month: u8,
    pub zero_indexed_day: u8,
    pub hours: u8,
    pub minutes: u8,
    pub seconds: u8,
}

impl Timestamp {
    /// The timestamp the runtime always reports: the board has no real-time
    /// clock, so its time source stands at the zero instant.
    pub fn zero() -> (t: Timestamp)
        ensures
            t == (Timestamp {
                year_since_1970: 0,
                zero_indexed_month: 0,
                zero_indexed_day: 0,
                hours: 0,
                minutes: 0,
                seconds: 0,
            }),
    {
        Timestamp {
            year_since_1970: 0,
            zero_indexed_month: 0,
            zero_indexed_day: 0,
            hours: 0,
            minutes: 0,
            seconds: 0,
        }
    }
}

} // verus!
