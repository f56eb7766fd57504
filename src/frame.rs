use vstd::prelude::*;

verus! {

/// Frames drawn per second.
pub const FRAMES_PER_SECOND: u32 = 30;

/// Frames per logic tick.
pub const FRAMES_PER_TICK: u32 = 10;

/// Nanoseconds to wait between two frames.
pub const FRAME_NANOS: u32 = 1_000_000_000 / FRAMES_PER_SECOND;

/// Counts frames and reports every `FRAMES_PER_TICK`-th one as a tick.
pub struct FrameClock {
    pub frame_counter: u32,
}

/// Counter after one more frame, and whether that frame ticks.
pub open spec fn frame_step(counter: nat) -> (nat, bool) {
    if counter + 1 == FRAMES_PER_TICK {
        (0, true)
    } else {
        ((counter + 1) as nat, false)
    }
}

impl FrameClock {
    pub open spec fn wf(&self) -> bool {
        self.frame_counter < FRAMES_PER_TICK
    }

    pub fn new() -> (r: FrameClock)
        ensures
            r.frame_counter == 0,
            r.wf(),
    {
        FrameClock { frame_counter: 0 }
    }

    /// Counts one frame; returns whether the game should advance by a tick
    /// now, in which case the counter starts over at zero.
    pub fn on_frame(&mut self) -> (tick: bool)
        requires
            old(self).wf(),
        ensures
            final(self).wf(),
            (final(self).frame_counter as nat, tick) == frame_step(old(self).frame_counter as nat),
    {
        self.frame_counter = self.frame_counter + 1;
        if self.frame_counter == FRAMES_PER_TICK {
            self.frame_counter = 0;
            true
        } else {
            false
        }
    }
}

/// Counter after `n` more frames, and how many of them ticked.
pub open spec fn frames(counter: nat, n: nat) -> (nat, nat)
    decreases n,
{
    if n == 0 {
        (counter, 0)
    } else {
        let (c, t) = frame_step(counter);
        let (c2, ticks) = frames(c, (n - 1) as nat);
        (c2, ticks + if t { 1nat } else { 0nat })
    }
}

/// Starting from counter `c`, `n` frames leave the counter at `(c + n) % 10`
/// and tick `(c + n) / 10` times: exactly one tick in every ten frames, on the
/// frame that brings the counter to ten.
pub proof fn lemma_frames(c: nat, n: nat)
    requires
        c < FRAMES_PER_TICK,
    ensures
        frames(c, n) == ((c + n) % FRAMES_PER_TICK as nat, (c + n) / FRAMES_PER_TICK as nat),
    decreases n,
{
    if n > 0 {
        let (c1, t) = frame_step(c);
        lemma_frames(c1, (n - 1) as nat);
    }
}

} // verus!
