//! The divider and the TIMA interval timer.

use vstd::prelude::*;

verus! {

/// Value of the internal divider counter once the boot ROM has run.
pub const DIV_AFTER_BIOS: u16 = 0xABCC;

/// The interval timer: a 16-bit divider whose high byte is DIV, and the
/// TIMA/TMA/TAC registers.
#[derive(Clone, Copy, Debug)]
pub struct Timer {
    /// Internal 16-bit divider; DIV is its high byte.
    pub div: u16,
    /// Timer counter, incremented on a falling edge of the selected input.
    pub tima: u8,
    /// Value TIMA is reloaded with when it overflows.
    pub tma: u8,
    /// Timer control: bit 2 enables TIMA, bits 0-1 select the input bit.
    pub tac: u8,
    /// Mask of the divider bit that TAC currently selects; kept in step
    /// with TAC by `update`.
    pub input_mask: u16,
}

/// The weight of the divider bit that TAC bits 0-1 select as TIMA's input
/// (bit 9, 3, 5, 7 for 4096, 262144, 65536, 16384 Hz).
pub open spec fn input_mask_of(tac: u8) -> u16 {
    if tac % 4 == 0 {
        0x200
    } else if tac % 4 == 1 {
        0x08
    } else if tac % 4 == 2 {
        0x20
    } else {
        0x80
    }
}

/// Whether TAC bit 2 (timer enable) is set.
pub open spec fn timer_enabled(tac: u8) -> bool {
    (tac / 4) % 2 == 1
}

/// The signal whose falling edge increments TIMA: TAC bit 2 AND the
/// selected divider bit.
pub open spec fn timer_input(div: u16, tac: u8) -> bool {
    timer_enabled(tac) && (div / input_mask_of(tac)) % 2 == 1
}

impl Timer {
    pub open spec fn wf(&self) -> bool {
        self.input_mask == input_mask_of(self.tac)
    }

    /// DIV as the program reads it at FF04.
    pub open spec fn div_reg(&self) -> u8 {
        (self.div / 256) as u8
    }

    /// The timer after one T-cycle, and the IF register with the Timer
    /// request raised on a TIMA overflow.
    pub open spec fn tick(self, if_: u8) -> (Timer, u8) {
        let div = self.div.wrapping_add(1);
        let fell = timer_input(self.div, self.tac) && !timer_input(div, self.tac);
        if fell && self.tima == 0xFF {
            (Timer { div, tima: self.tma, ..self }, if_ | 0x04)
        } else if fell {
            (Timer { div, tima: (self.tima + 1) as u8, ..self }, if_)
        } else {
            (Timer { div, ..self }, if_)
        }
    }

    /// The timer and IF after `n` T-cycles.
    pub open spec fn run(self, if_: u8, n: nat) -> (Timer, u8)
        decreases n,
    {
        if n == 0 {
            (self, if_)
        } else {
            let (t, f) = self.run(if_, (n - 1) as nat);
            t.tick(f)
        }
    }

    /// Power-on state, with the divider as the boot ROM leaves it.
    pub fn new() -> (r: Timer)
        ensures
            r.wf(),
            r.div == DIV_AFTER_BIOS,
            r.tima == 0,
            r.tma == 0,
            r.tac == 0,
    {
        Timer { div: DIV_AFTER_BIOS, tima: 0, tma: 0, tac: 0, input_mask: 0x200 }
    }

    /// Re-derives the selected input bit from TAC.
    pub fn update(&mut self)
        ensures
            final(self).wf(),
            final(self).div == old(self).div,
            final(self).tima == old(self).tima,
            final(self).tma == old(self).tma,
            final(self).tac == old(self).tac,
    {
        let sel = self.tac % 4;
        self.input_mask = if sel == 0 {
            0x200
        } else if sel == 1 {
            0x08
        } else if sel == 2 {
            0x20
        } else {
            0x80
        };
    }

    /// Writes TAC; only its low three bits exist.
    pub fn write_tac(&mut self, val: u8)
        ensures
            final(self).wf(),
            final(self).tac == val % 8,
            final(self).div == old(self).div,
            final(self).tima == old(self).tima,
            final(self).tma == old(self).tma,
    {
        self.tac = val % 8;
        self.update();
    }

    /// Any write to DIV clears the whole internal divider.
    pub fn reset_div(&mut self)
        requires
            old(self).wf(),
        ensures
            *final(self) == (Timer { div: 0, ..*old(self) }),
    {
        self.div = 0;
    }

    /// Advances the timer by one T-cycle.
    fn tick_once(&mut self, if_: &mut u8)
        requires
            old(self).wf(),
        ensures
            final(self).wf(),
            (*final(self), *final(if_)) == old(self).tick(*old(if_)),
    {
        let div = self.div.wrapping_add(1);
        let on = (self.tac / 4) % 2 == 1;
        let was = on && (self.div / self.input_mask) % 2 == 1;
        let now = on && (div / self.input_mask) % 2 == 1;
        self.div = div;
        if was && !now {
            if self.tima == 0xFF {
                self.tima = self.tma;
                *if_ = *if_ | 0x04;
            } else {
                self.tima = self.tima + 1;
            }
        }
    }

    /// Advances the timer by `ticks` T-cycles, raising the Timer request in
    /// `if_` on each TIMA overflow.
    pub fn step(&mut self, ticks: u32, if_: &mut u8)
        requires
            old(self).wf(),
        ensures
            final(self).wf(),
            (*final(self), *final(if_)) == old(self).run(*old(if_), ticks as nat),
    {
        let mut i: u32 = 0;
        while i < ticks
            invariant
                i <= ticks,
                self.wf(),
                (*self, *if_) == old(self).run(*old(if_), i as nat),
            decreases ticks - i,
        {
            self.tick_once(if_);
            i = i + 1;
        }
    }

    /// Puts the divider where the boot ROM leaves it.
    pub fn reset_bios_skip(&mut self)
        ensures
            *final(self) == (Timer { div: DIV_AFTER_BIOS, ..*old(self) }),
    {
        self.div = DIV_AFTER_BIOS;
    }

    /// Reads DIV (FF04).
    pub fn read_div(&self) -> (r: u8)
        ensures
            r == self.div_reg(),
    {
        (self.div / 256) as u8
    }
}

/// After a write to DIV, the divider counts up from zero: `n` T-cycles later
/// (fewer than 65536) it holds `n`, so DIV reads `n / 256`.
pub proof fn lemma_div_counts_from_zero(t: Timer, if_: u8, n: nat)
    requires
        n < 0x10000,
    ensures
        (Timer { div: 0, ..t }).run(if_, n).0.div == n,
        (Timer { div: 0, ..t }).run(if_, n).0.div_reg() == n / 256,
    decreases n,
{
    if n > 0 {
        lemma_div_counts_from_zero(t, if_, (n - 1) as nat);
    }
}

/// Running the timer for `a` then `b` T-cycles is running it for `a + b`.
pub proof fn lemma_run_split(t: Timer, if_: u8, a: nat, b: nat)
    ensures
        t.run(if_, a + b) == t.run(if_, a).0.run(t.run(if_, a).1, b),
    decreases b,
{
    if b > 0 {
        lemma_run_split(t, if_, a, (b - 1) as nat);
        assert((a + b - 1) as nat == a + (b - 1) as nat);
    }
}

/// After a write to DIV, DIV counts up from zero across any two timer runs
/// of `a` and `b` T-cycles (together fewer than 65536): it then reads
/// `(a + b) / 256`.
pub proof fn lemma_div_counts_across_runs(t: Timer, if_: u8, a: nat, b: nat)
    requires
        a + b < 0x10000,
    ensures
        ({
            let (t1, f1) = (Timer { div: 0, ..t }).run(if_, a);
            t1.run(f1, b).0.div_reg() == (a + b) / 256
        }),
{
    lemma_run_split(Timer { div: 0, ..t }, if_, a, b);
    lemma_div_counts_from_zero(t, if_, a + b);
}

} // verus!
