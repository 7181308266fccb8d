use vstd::prelude::*;
use crate::interrupt::{InterruptHandlerThing, TIMER_BIT, requested};

verus! {

pub const DIV_ADDR: usize = 0xFF04;
pub const TIMA_ADDR: usize = 0xFF05;
pub const TMA_ADDR: usize = 0xFF06;
pub const TAC_ADDR: usize = 0xFF07;

/// The timer peripheral. DIV is the high byte of the 16-bit divider
/// `div_ctr`; TIMA counts falling edges of the AND signal (see `and_signal`);
/// when it rolls over it reads 0 for four T-cycles, and is then reloaded from
/// TMA while the Timer interrupt is requested.
#[derive(Debug, Clone, Copy, PartialEq, Eq, Structural)]
pub struct Timer {
    pub div_ctr: u16,
    pub tma: u8,
    pub tac: u8,
    pub tima: u8,
    pub tima_overflow_pending: bool,
    pub tima_overflow_tcycles: u8,
}

impl Timer {
    /// A reload is pending exactly while its countdown runs, and TIMA reads 0
    /// during it.
    pub open spec fn wf(self) -> bool {
        if self.tima_overflow_pending {
            self.tima == 0 && 1 <= self.tima_overflow_tcycles <= 4
        } else {
            self.tima_overflow_tcycles == 0
        }
    }
}

/// The divider bit that TAC's clock select watches: 00 -> 9, 01 -> 3,
/// 10 -> 5, 11 -> 7.
pub open spec fn divider_bit(tac: u8) -> u16 {
    if tac & 3 == 0 {
        9
    } else if tac & 3 == 1 {
        3
    } else if tac & 3 == 2 {
        5
    } else {
        7
    }
}

/// bit(div, F) AND enable_bit(TAC).
pub open spec fn and_signal(div: u16, tac: u8) -> bool {
    (div >> divider_bit(tac)) & 1 == 1 && (tac >> 2) & 1 == 1
}

pub open spec fn timer_enabled(tac: u8) -> bool {
    tac & 4 != 0
}

/// TIMA incremented once; on a roll-over to 0 the four-T-cycle reload is armed.
pub open spec fn incremented(t: Timer) -> Timer {
    if t.tima == 0xFF {
        Timer { tima: 0, tima_overflow_pending: true, tima_overflow_tcycles: 4, ..t }
    } else {
        Timer { tima: (t.tima + 1) as u8, ..t }
    }
}

/// The increment rule: TIMA counts a falling edge of the AND signal while the
/// timer is enabled and no reload is pending.
pub open spec fn on_edge(t: Timer, enabled: bool, old_and: bool, new_and: bool) -> Timer {
    if enabled && old_and && !new_and && !t.tima_overflow_pending {
        incremented(t)
    } else {
        t
    }
}

/// One T-cycle: the timer after it, and whether it requests the Timer
/// interrupt.
pub open spec fn t_cycle(t: Timer) -> (Timer, bool) {
    let old_and = and_signal(t.div_ctr, t.tac);
    let div: u16 = if t.div_ctr == 0xFFFF {
        0
    } else {
        (t.div_ctr + 1) as u16
    };
    let t1 = Timer { div_ctr: div, ..t };
    let new_and = and_signal(div, t.tac);
    let (t2, fired) = if t1.tima_overflow_pending {
        if t1.tima_overflow_tcycles == 1 {
            (Timer { tima: t1.tma, tima_overflow_pending: false, tima_overflow_tcycles: 0, ..t1 }, true)
        } else {
            (Timer { tima_overflow_tcycles: (t1.tima_overflow_tcycles - 1) as u8, ..t1 }, false)
        }
    } else {
        (t1, false)
    };
    (on_edge(t2, timer_enabled(t.tac), old_and, new_and), fired)
}

/// Timer and interrupt controller after `n` T-cycles.
pub open spec fn run_tcycles(t: Timer, i: InterruptHandlerThing, n: nat) -> (Timer, InterruptHandlerThing)
    decreases n,
{
    if n == 0 {
        (t, i)
    } else {
        let (t1, fired) = t_cycle(t);
        let i1 = if fired {
            requested(i, TIMER_BIT)
        } else {
            i
        };
        run_tcycles(t1, i1, (n - 1) as nat)
    }
}

/// A write to DIV: the divider restarts from 0, which may be a falling edge.
pub open spec fn after_div_write(t: Timer) -> Timer {
    on_edge(
        Timer { div_ctr: 0, ..t },
        timer_enabled(t.tac),
        and_signal(t.div_ctr, t.tac),
        and_signal(0, t.tac),
    )
}

/// A write to TAC: the new control value, where the change of selected bit or
/// of enable may be a falling edge.
pub open spec fn after_tac_write(t: Timer, v: u8) -> Timer {
    on_edge(
        Timer { tac: v, ..t },
        timer_enabled(t.tac),
        and_signal(t.div_ctr, t.tac),
        and_signal(t.div_ctr, v),
    )
}

/// A write to TIMA: the value is kept and a pending reload is cancelled.
pub open spec fn after_tima_write(t: Timer, v: u8) -> Timer {
    Timer { tima: v, tima_overflow_pending: false, tima_overflow_tcycles: 0, ..t }
}

/// DIV as the bus shows it: the high byte of the divider.
pub open spec fn div_of(t: Timer) -> u8 {
    ((t.div_ctr >> 8) & 0xFF) as u8
}

impl Timer {
    pub fn new() -> (r: Self)
        ensures
            r == (Timer {
                div_ctr: 0,
                tma: 0,
                tac: 0,
                tima: 0,
                tima_overflow_pending: false,
                tima_overflow_tcycles: 0,
            }),
            r.wf(),
    {
        Timer {
            div_ctr: 0,
            tma: 0,
            tac: 0,
            tima: 0,
            tima_overflow_pending: false,
            tima_overflow_tcycles: 0,
        }
    }

    pub fn get_div(&self) -> (r: u8)
        ensures
            r == div_of(*self),
    {
        ((self.div_ctr >> 8) & 0xFF) as u8
    }

    fn and_result(&self) -> (r: bool)
        ensures
            r == and_signal(self.div_ctr, self.tac),
    {
        let bit: u16 = if self.tac & 3 == 0 {
            9
        } else if self.tac & 3 == 1 {
            3
        } else if self.tac & 3 == 2 {
            5
        } else {
            7
        };
        (self.div_ctr >> bit) & 1 == 1 && (self.tac >> 2) & 1 == 1
    }

    /// Counts one edge of the AND signal (see `on_edge`).
    fn count_edge(&mut self, enabled: bool, old_and: bool, new_and: bool)
        requires
            old(self).wf(),
        ensures
            *final(self) == on_edge(*old(self), enabled, old_and, new_and),
            final(self).wf(),
    {
        if enabled && old_and && !new_and && !self.tima_overflow_pending {
            if self.tima == 0xFF {
                self.tima = 0;
                self.tima_overflow_pending = true;
                self.tima_overflow_tcycles = 4;
            } else {
                self.tima = self.tima + 1;
            }
        }
    }

    pub fn write_div(&mut self)
        requires
            old(self).wf(),
        ensures
            *final(self) == after_div_write(*old(self)),
            final(self).wf(),
    {
        let enabled = self.tac & 4 != 0;
        let old_and_result = self.and_result();
        self.div_ctr = 0;
        let new_and_result = self.and_result();
        self.count_edge(enabled, old_and_result, new_and_result);
    }

    pub fn write_tac(&mut self, val: u8)
        requires
            old(self).wf(),
        ensures
            *final(self) == after_tac_write(*old(self), val),
            final(self).wf(),
    {
        let old_enable = self.tac & 4 != 0;
        let old_and_result = self.and_result();
        self.tac = val;
        let new_and_result = self.and_result();
        self.count_edge(old_enable, old_and_result, new_and_result);
    }

    pub fn write_tima(&mut self, val: u8)
        ensures
            *final(self) == after_tima_write(*old(self), val),
            final(self).wf(),
    {
        self.tima = val;
        self.tima_overflow_pending = false;
        self.tima_overflow_tcycles = 0;
    }

    /// One T-cycle (see `t_cycle`); returns whether the Timer interrupt is due.
    fn t_cycle(&mut self) -> (fired: bool)
        requires
            old(self).wf(),
        ensures
            (*final(self), fired) == t_cycle(*old(self)),
            final(self).wf(),
    {
        let enabled = self.tac & 4 != 0;
        let old_and_result = self.and_result();
        self.div_ctr = self.div_ctr.wrapping_add(1);
        let new_and_result = self.and_result();
        let mut fired = false;
        if self.tima_overflow_pending {
            self.tima_overflow_tcycles = self.tima_overflow_tcycles - 1;
            if self.tima_overflow_tcycles == 0 {
                self.tima = self.tma;
                self.tima_overflow_pending = false;
                fired = true;
            }
        }
        self.count_edge(enabled, old_and_result, new_and_result);
        fired
    }

    /// Advances the timer by `mcycles` machine cycles (four T-cycles each),
    /// requesting the Timer interrupt from `interrupts` at each reload.
    pub fn tick(&mut self, mcycles: u8, interrupts: &mut InterruptHandlerThing)
        requires
            old(self).wf(),
        ensures
            (*final(self), *final(interrupts)) == run_tcycles(*old(self), *old(interrupts), 4 * mcycles as nat),
            final(self).wf(),
    {
        let tcycles: u16 = 4 * (mcycles as u16);
        let mut k: u16 = 0;
        while k < tcycles
            invariant
                self.wf(),
                k <= tcycles,
                tcycles == 4 * mcycles,
                run_tcycles(*old(self), *old(interrupts), 4 * mcycles as nat) == run_tcycles(
                    *self,
                    *interrupts,
                    (tcycles - k) as nat,
                ),
            decreases tcycles - k,
        {
            let fired = self.t_cycle();
            if fired {
                interrupts.req_timer();
            }
            k = k + 1;
        }
    }
}

} // verus!
