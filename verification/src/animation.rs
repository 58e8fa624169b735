//! The animation driver state: an endless, periodic sequence of pixel frames.
//!
//! Context A owns one `AnimationState` and steps it once per timer tick. Each
//! step fills the pixel buffer with the wheel colors for the current frame
//! phase and then advances the phase, which wraps after 256 * 3 frames. The
//! caller submits the filled buffer to the LED-protocol lane between steps.

use vstd::prelude::*;
use vstd::arithmetic::div_mod::{lemma_add_mod_noop, lemma_multiply_divide_lt};
use crate::color::{Rgb8, wheel, wheel_rgb};

verus! {

/// The frame phase counter wraps after 256 * 3 frames.
pub const PHASE_WRAP: u16 = 768;

/// The largest pixel count the phase arithmetic supports exactly.
pub const MAX_LEDS: usize = 256;

/// Milliseconds between two frames.
pub const FRAME_INTERVAL_MS: u64 = 25;

/// The wheel phase shown by pixel `i` of `n` at frame phase `j`: the pixels
/// are spread evenly over the wheel and the whole pattern is shifted by `j`.
pub open spec fn pixel_phase(i: int, n: int, j: int) -> int {
    (i * 256 / n + j) % 256
}

/// The frame phase that follows `j`.
pub open spec fn next_phase(j: int) -> int {
    (j + 1) % (PHASE_WRAP as int)
}

/// The frame phase reached after `k` ticks from `j0`.
pub open spec fn phase_after(j0: int, k: nat) -> int
    decreases k,
{
    if k == 0 {
        j0
    } else {
        next_phase(phase_after(j0, (k - 1) as nat))
    }
}

/// The frame shown at phase `j` on `n` pixels.
pub open spec fn frame_spec(j: int, n: nat) -> Seq<Rgb8> {
    Seq::new(n, |i: int| wheel_rgb(pixel_phase(i, n as int, j) as u8))
}

/// Computes the wheel phase of pixel `i` of `n` at frame phase `j`.
pub fn pixel_phase_at(i: usize, n: usize, j: u16) -> (p: u8)
    requires
        0 < n <= MAX_LEDS,
        i < n,
        j < PHASE_WRAP,
    ensures
        p == pixel_phase(i as int, n as int, j as int),
{
    proof {
        lemma_multiply_divide_lt((i as int) * 256, n as int, 256);
    }
    (((i * 256 / n) as u16 + j) % 256) as u8
}

/// The animation driver's whole mutable state: the frame phase counter and
/// the pixel buffer of the frame most recently computed.
pub struct AnimationState {
    pub phase: u16,
    pub pixels: Vec<Rgb8>,
}

impl AnimationState {
    /// The state is well formed: the phase is below its wrap point and the
    /// pixel count is fixed, positive and within the supported range.
    pub open spec fn wf(self) -> bool {
        &&& self.phase < PHASE_WRAP
        &&& 0 < self.pixels.len() <= MAX_LEDS
    }

    /// A fresh driver state: phase zero, all pixels dark.
    pub fn new(num_leds: usize) -> (s: AnimationState)
        requires
            0 < num_leds <= MAX_LEDS,
        ensures
            s.wf(),
            s.phase == 0,
            s.pixels@ == Seq::new(num_leds as nat, |i: int| (Rgb8 { r: 0, g: 0, b: 0 })),
    {
        let mut pixels: Vec<Rgb8> = Vec::new();
        let mut k: usize = 0;
        while k < num_leds
            invariant
                k <= num_leds,
                pixels@.len() == k,
                forall|i: int| 0 <= i < k ==> pixels@[i] == (Rgb8 { r: 0, g: 0, b: 0 }),
            decreases num_leds - k,
        {
            pixels.push(Rgb8 { r: 0, g: 0, b: 0 });
            k = k + 1;
        }
        proof {
            assert(pixels@ =~= Seq::new(num_leds as nat, |i: int| (Rgb8 { r: 0, g: 0, b: 0 })));
        }
        AnimationState { phase: 0, pixels }
    }

    /// One animation tick: fills the buffer with the frame for the current
    /// phase, then advances the phase by one, wrapping at `PHASE_WRAP`.
    pub fn step(&mut self)
        requires
            old(self).wf(),
        ensures
            final(self).wf(),
            final(self).pixels@ == frame_spec(old(self).phase as int, old(self).pixels@.len()),
            final(self).pixels@.len() == old(self).pixels@.len(),
            final(self).phase == next_phase(old(self).phase as int),
    {
        let n = self.pixels.len();
        let mut i: usize = 0;
        while i < n
            invariant
                i <= n,
                0 < n <= MAX_LEDS,
                self.phase == old(self).phase,
                self.phase < PHASE_WRAP,
                self.pixels@.len() == n,
                forall|k: int| 0 <= k < i ==> self.pixels@[k] == frame_spec(
                    old(self).phase as int,
                    n as nat,
                )[k],
            decreases n - i,
        {
            let p = pixel_phase_at(i, n, self.phase);
            self.pixels[i] = wheel(p);
            i = i + 1;
        }
        proof {
            assert(self.pixels@ =~= frame_spec(old(self).phase as int, n as nat));
        }
        self.phase = if self.phase >= PHASE_WRAP - 1 {
            0
        } else {
            self.phase + 1
        };
    }
}

/// Frame ordering: each tick moves the phase to the next value; phases
/// strictly increase, and no phase repeats, until the counter wraps from its
/// last value back to zero.
pub proof fn lemma_phase_order(j: u16)
    requires
        j < PHASE_WRAP,
    ensures
        next_phase(j as int) != j,
        j < PHASE_WRAP - 1 ==> next_phase(j as int) == j + 1,
        j == PHASE_WRAP - 1 ==> next_phase(j as int) == 0,
{
}

/// After `k` ticks from phase `j0`, the phase is `(j0 + k) % PHASE_WRAP`.
pub proof fn lemma_phase_after(j0: int, k: nat)
    requires
        0 <= j0 < PHASE_WRAP,
    ensures
        phase_after(j0, k) == (j0 + k) % (PHASE_WRAP as int),
    decreases k,
{
    if k == 0 {
        assert(j0 % (PHASE_WRAP as int) == j0);
    } else {
        lemma_phase_after(j0, (k - 1) as nat);
        lemma_add_mod_noop(j0 + k - 1, 1, PHASE_WRAP as int);
        assert((j0 + k - 1) % (PHASE_WRAP as int) % (PHASE_WRAP as int) == (j0 + k - 1) % (
        PHASE_WRAP as int));
    }
}

} // verus!
