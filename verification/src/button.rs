//! The button/indicator task logic for context B.
//!
//! The task busy-polls one digital input wired pull-up and active-low: the
//! idle level is `High`, a press reads `Low`. Each poll compares the fresh
//! read with the last one, reports an edge event exactly when they differ,
//! and drives the indicator output to the logical inverse of the read.

use vstd::prelude::*;

verus! {

/// A digital line level.
#[derive(Clone, Copy, PartialEq, Eq, Structural, Debug)]
pub enum Level {
    Low,
    High,
}

/// An edge on the button line. With the pull-up wiring, a falling edge is a
/// press and a rising edge a release.
#[derive(Clone, Copy, PartialEq, Eq, Structural, Debug)]
pub enum ButtonEvent {
    Pressed,
    Released,
}

/// The event a poll reports: an edge exactly when the fresh read differs
/// from the last one, named after the level the line moved to.
pub open spec fn edge_event(last: Level, current: Level) -> Option<ButtonEvent> {
    if current == last {
        None
    } else if current is Low {
        Some(ButtonEvent::Pressed)
    } else {
        Some(ButtonEvent::Released)
    }
}

/// The indicator level for a button read: the logical inverse, so the
/// indicator is active exactly while the button is pressed.
pub open spec fn indicator_level(current: Level) -> Level {
    if current is Low {
        Level::High
    } else {
        Level::Low
    }
}

/// The read that precedes read `k` of `reads`: the read before it, or the
/// initial debounced level for the first read.
pub open spec fn prior_read(init: Level, reads: Seq<Level>, k: int) -> Level {
    if k == 0 {
        init
    } else {
        reads[k - 1]
    }
}

/// The events reported over a whole run of reads, one slot per read.
pub open spec fn run_events(init: Level, reads: Seq<Level>) -> Seq<Option<ButtonEvent>> {
    Seq::new(reads.len(), |k: int| edge_event(prior_read(init, reads, k), reads[k]))
}

/// The indicator levels driven over a whole run of reads.
pub open spec fn run_indicator(reads: Seq<Level>) -> Seq<Level> {
    Seq::new(reads.len(), |k: int| indicator_level(reads[k]))
}

/// The button task's whole mutable state: the last observed level. The line
/// idles `High`, so a fresh state starts there.
pub struct ButtonState {
    pub last: Level,
}

impl ButtonState {
    /// A fresh state at the idle (not pressed) level.
    pub fn new() -> (s: ButtonState)
        ensures
            s.last == Level::High,
    {
        ButtonState { last: Level::High }
    }

    /// One poll: reports the edge event for the fresh read, remembers the
    /// read, and returns the indicator level to drive.
    pub fn poll(&mut self, current: Level) -> (r: (Option<ButtonEvent>, Level))
        ensures
            r.0 == edge_event(old(self).last, current),
            r.1 == indicator_level(current),
            final(self).last == current,
    {
        let event: Option<ButtonEvent> = if current != self.last {
            match current {
                Level::Low => Some(ButtonEvent::Pressed),
                Level::High => Some(ButtonEvent::Released),
            }
        } else {
            None
        };
        self.last = current;
        let indicator = match current {
            Level::Low => Level::High,
            Level::High => Level::Low,
        };
        (event, indicator)
    }

    /// Polls a whole run of reads in order, collecting the reported events
    /// (one slot per read) and the indicator levels driven.
    pub fn poll_run(&mut self, reads: &Vec<Level>) -> (r: (
        Vec<Option<ButtonEvent>>,
        Vec<Level>,
    ))
        ensures
            r.0@ == run_events(old(self).last, reads@),
            r.1@ == run_indicator(reads@),
            final(self).last == prior_read(old(self).last, reads@, reads@.len() as int),
    {
        let mut events: Vec<Option<ButtonEvent>> = Vec::new();
        let mut indicators: Vec<Level> = Vec::new();
        let mut k: usize = 0;
        while k < reads.len()
            invariant
                k <= reads@.len(),
                events@.len() == k,
                indicators@.len() == k,
                self.last == prior_read(old(self).last, reads@, k as int),
                forall|m: int| 0 <= m < k ==> events@[m] == run_events(old(self).last, reads@)[m],
                forall|m: int| 0 <= m < k ==> indicators@[m] == run_indicator(reads@)[m],
            decreases reads@.len() - k,
        {
            let (event, indicator) = self.poll(reads[k]);
            events.push(event);
            indicators.push(indicator);
            k = k + 1;
        }
        proof {
            assert(events@ =~= run_events(old(self).last, reads@));
            assert(indicators@ =~= run_indicator(reads@));
        }
        (events, indicators)
    }
}

/// Debounce law: over any run of reads, an edge event is reported at a poll
/// if and only if that read differs from the immediately preceding one (or,
/// for the first read, from the initial level); identical consecutive reads
/// report nothing.
pub proof fn lemma_debounce(init: Level, reads: Seq<Level>, k: int)
    requires
        0 <= k < reads.len(),
    ensures
        run_events(init, reads)[k] is Some <==> reads[k] != prior_read(init, reads, k),
        reads[k] == prior_read(init, reads, k) ==> run_events(init, reads)[k] is None,
{
}

/// Mirroring law: at every poll of a run, the indicator is driven to the
/// logical inverse of that poll's read — active exactly while pressed.
pub proof fn lemma_indicator_mirrors(reads: Seq<Level>, k: int)
    requires
        0 <= k < reads.len(),
    ensures
        run_indicator(reads)[k] == indicator_level(reads[k]),
        run_indicator(reads)[k] is High <==> reads[k] is Low,
{
}

} // verus!
