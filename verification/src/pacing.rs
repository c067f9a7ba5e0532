//! Pacing of the simulation: the display runs at one rate, the snake moves
//! at a fraction of it.

use vstd::prelude::*;
use crate::game_context::GameContext;

verus! {

/// Frames of the display per tick of the simulation.
pub const FRAMES_PER_TICK: u32 = 10;

/// Counts frames and picks out every `period`-th of them.
pub struct TickDivider {
    period: u32,
    count: u32,
}

impl TickDivider {
    #[verifier::type_invariant]
    spec fn in_period(&self) -> bool {
        self.count < self.period
    }

    /// How many frames make one tick. At least one.
    pub closed spec fn period(&self) -> nat {
        self.period as nat
    }

    /// How many frames have passed since the last tick. Less than the
    /// period.
    pub closed spec fn count(&self) -> nat {
        self.count as nat
    }

    /// A divider that picks out every `period`-th frame, or `None` when
    /// `period` is zero.
    pub fn new(period: u32) -> (divider: Option<TickDivider>)
        ensures
            divider is Some <==> period >= 1,
            divider is Some ==> divider.unwrap().period() == period && divider.unwrap().count()
                == 0,
    {
        if period == 0 {
            None
        } else {
            Some(TickDivider { period, count: 0 })
        }
    }

    /// A divider that picks out every `FRAMES_PER_TICK`-th frame.
    pub fn every_tenth() -> (divider: TickDivider)
        ensures
            divider.period() == FRAMES_PER_TICK,
            divider.count() == 0,
    {
        TickDivider { period: FRAMES_PER_TICK, count: 0 }
    }

    /// Counts one frame and tells whether it is one to tick on: the
    /// `period`-th since the last such frame. The count then starts again.
    pub fn frame(&mut self) -> (tick: bool)
        ensures
            old(self).count() < old(self).period(),
            tick == (old(self).count() + 1 == old(self).period()),
            final(self).period() == old(self).period(),
            final(self).count() == if tick {
                0
            } else {
                old(self).count() + 1
            },
    {
        proof {
            use_type_invariant(&*self);
        }
        if self.count + 1 == self.period {
            self.count = 0;
            true
        } else {
            self.count = self.count + 1;
            false
        }
    }
}

impl GameContext {
    /// One frame of the game loop: the end-of-game test, and on every
    /// `period`-th frame one tick after it.
    pub fn run_frame(&mut self, divider: &mut TickDivider)
        ensures
            final(self)@.wf(),
            final(divider).period() == old(divider).period(),
            old(divider).count() + 1 == old(divider).period() ==> final(divider).count() == 0
                && old(self)@.checked().may_tick_to(final(self)@),
            old(divider).count() + 1 != old(divider).period() ==> final(divider).count() == old(
                divider,
            ).count() + 1 && final(self)@ == old(self)@.checked(),
    {
        self.check_game_over_conditions();
        if divider.frame() {
            self.update();
        }
    }
}

} // verus!
