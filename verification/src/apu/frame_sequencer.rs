//! 512 Hz frame sequencer (length / sweep / envelope clocks).

use vstd::prelude::*;
use vstd::arithmetic::div_mod::lemma_fundamental_div_mod_converse;

verus! {

/// T-cycles per frame-sequencer step (512 Hz on a 4 MiHz clock).
pub const FRAME_STEP_CYCLES: u32 = 8192;

/// Clocks delivered by one frame-sequencer step.
#[derive(Debug, Clone, Copy, Default, PartialEq, Eq)]
pub struct FrameEvents {
    pub length: bool,
    pub sweep: bool,
    pub envelope: bool,
}

/// Clocks of step `step` (0–7): length on even steps, sweep on 2 and 6,
/// envelope on 7.
pub open spec fn spec_events(step: int) -> FrameEvents {
    if step == 0 || step == 4 {
        FrameEvents { length: true, sweep: false, envelope: false }
    } else if step == 2 || step == 6 {
        FrameEvents { length: true, sweep: true, envelope: false }
    } else if step == 7 {
        FrameEvents { length: false, sweep: false, envelope: true }
    } else {
        FrameEvents { length: false, sweep: false, envelope: false }
    }
}

pub struct FrameSequencer {
    /// Counts T-cycles toward the next 512 Hz step (8192 T).
    timer: u32,
    step: u8,
}

impl FrameSequencer {
    #[verifier::type_invariant]
    spec fn inv(self) -> bool {
        self.timer < 8192 && self.step < 8
    }

    /// Cycles counted toward the next step.
    pub closed spec fn timer_view(self) -> u32 {
        self.timer
    }

    /// Step that the next expiry runs (0–7).
    pub closed spec fn step_view(self) -> u8 {
        self.step
    }

    pub fn new() -> (s: Self)
        ensures
            s.timer_view() == 0,
            s.step_view() == 0,
    {
        Self { timer: 0, step: 0 }
    }

    pub fn reset(&mut self)
        ensures
            final(self).timer_view() == 0,
            final(self).step_view() == 0,
    {
        proof {
            use_type_invariant(&*self);
        }
        self.timer = 0;
        self.step = 0;
    }

    pub fn step_index(&self) -> (r: u8)
        ensures
            r == self.step_view(),
            r < 8,
    {
        proof {
            use_type_invariant(self);
        }
        self.step
    }

    pub fn set_step_index(&mut self, step: u8)
        ensures
            final(self).step_view() == step % 8,
            final(self).timer_view() == old(self).timer_view(),
    {
        proof {
            use_type_invariant(&*self);
        }
        self.step = step % 8;
    }

    /// True if the *next* frame-sequencer step will clock length (for obscure
    /// NRx4 trigger timing).
    pub fn next_frame_will_length(&self) -> (r: bool)
        ensures
            r == ((self.step_view() + 1) % 8 % 2 == 0),
    {
        proof {
            use_type_invariant(self);
        }
        let next: u8 = (self.step + 1) % 8;
        next % 2 == 0
    }

    /// Advance by `t_cycles`; returns the clocks of every step that expired, in order.
    pub fn tick(&mut self, t_cycles: u32) -> (events: Vec<FrameEvents>)
        requires
            old(self).timer_view() + t_cycles <= u32::MAX,
        ensures
            ({
                let total = old(self).timer_view() + t_cycles;
                let n = total / 8192;
                &&& events@.len() == n
                &&& forall|i: int| 0 <= i < n ==> #[trigger] events@[i] == spec_events((old(self).step_view() + i) % 8)
                &&& final(self).timer_view() == total % 8192
                &&& final(self).step_view() == (old(self).step_view() + n) % 8
            }),
    {
        proof {
            use_type_invariant(&*self);
        }
        let ghost step0: int = self.step as int;
        let ghost total: int = self.timer + t_cycles;
        let mut events: Vec<FrameEvents> = Vec::new();
        let mut timer: u32 = self.timer + t_cycles;
        let mut step: u8 = self.step;
        while timer >= 8192
            invariant
                timer + 8192 * events@.len() == total,
                step < 8,
                step == (step0 + events@.len()) % 8,
                forall|i: int| 0 <= i < events@.len() ==> #[trigger] events@[i] == spec_events((step0 + i) % 8),
            decreases timer,
        {
            timer = timer - 8192;
            let ev: FrameEvents = match step {
                0 | 4 => FrameEvents { length: true, sweep: false, envelope: false },
                2 | 6 => FrameEvents { length: true, sweep: true, envelope: false },
                7 => FrameEvents { length: false, sweep: false, envelope: true },
                _ => FrameEvents { length: false, sweep: false, envelope: false },
            };
            events.push(ev);
            step = (step + 1) % 8;
        }
        proof {
            lemma_fundamental_div_mod_converse(total, 8192, events@.len() as int, timer as int);
        }
        self.timer = timer;
        self.step = step;
        events
    }
}

/// A full frame of 8 × 8192 cycles runs exactly eight steps, one of each
/// kind in order from the current step, and leaves the timer and step where
/// they were.
pub proof fn lemma_full_frame(timer: u32, step: u8)
    requires
        timer < 8192,
        step < 8,
    ensures
        (timer + 65536) / 8192 == 8,
        (timer + 65536) % 8192 == timer,
        (step + 8) % 8 == step,
        forall|i: int| 0 <= i < 8 ==> #[trigger] spec_events((step + i) % 8) == spec_events((step + i + 8) % 8),
{
}

} // verus!
