use vstd::prelude::*;
use crate::cpu::CycleType;
use crate::irq::{Interrupt, IrqHandler, MachineIrqHandler};
use crate::memory::Memory;

verus! {

/// Increments an outer count by one every `period` cycles.
#[derive(Copy, Clone)]
pub struct TimerClock {
    pub period: CycleType,
    pub counter: CycleType,
}

impl TimerClock {
    /// The clock is consistent: a positive period and a remainder below it.
    pub open spec fn wf(&self) -> bool {
        0 < self.period <= 0x10000 && self.counter < self.period
    }

    pub fn with_period(period: CycleType) -> (r: TimerClock)
        requires
            0 < period <= 0x10000,
        ensures
            r.period == period && r.counter == 0,
            r.wf(),
    {
        TimerClock { period, counter: 0 }
    }

    /// Change the period; the remainder restarts from zero.
    pub fn set_period(&mut self, period: CycleType)
        requires
            0 < period <= 0x10000,
        ensures
            final(self).period == period && final(self).counter == 0,
    {
        self.period = period;
        self.counter = 0;
    }

    pub fn reset(&mut self)
        ensures
            final(self).period == old(self).period && final(self).counter == 0,
    {
        self.counter = 0;
    }

    /// Add `cycles` and return how many whole periods were completed.
    pub fn update(&mut self, cycles: CycleType) -> (r: CycleType)
        requires
            old(self).wf(),
        ensures
            final(self).wf(),
            final(self).period == old(self).period,
            r as nat == (old(self).counter as nat + cycles as nat) / old(self).period as nat,
            final(self).counter as nat == (old(self).counter as nat + cycles as nat) % old(
                self,
            ).period as nat,
    {
        let p = self.period;
        let q = cycles / p;
        assert(cycles % p < p);
        let s = self.counter + cycles % p;
        proof {
            let c = self.counter as nat;
            let t = cycles as nat;
            let pn = p as nat;
            vstd::arithmetic::div_mod::lemma_fundamental_div_mod(t as int, pn as int);
            vstd::arithmetic::div_mod::lemma_fundamental_div_mod((c + t) as int, pn as int);
            vstd::arithmetic::div_mod::lemma_fundamental_div_mod(s as int, pn as int);
            assert(s as nat / pn <= 1) by {
                vstd::arithmetic::div_mod::lemma_div_is_ordered(s as int, 2 * pn as int - 1, pn as int);
                vstd::arithmetic::div_mod::lemma_div_multiples_vanish_fancy(1, pn as int - 1, pn as int);
            }
            let qq = q as int;
            let sq = s as int / pn as int;
            let sr = s as int % pn as int;
            assert((c + t) as int == (qq + sq) * pn as int + sr) by (nonlinear_arith)
                requires
                    t as int == pn as int * qq + t as int % pn as int,
                    s as int == c as int + t as int % pn as int,
                    s as int == pn as int * sq + sr,
            ;
            vstd::arithmetic::div_mod::lemma_fundamental_div_mod_converse((c + t) as int, pn as int, qq + sq, sr);
        }
        proof {
            if p >= 2 {
                vstd::arithmetic::div_mod::lemma_div_is_ordered_by_denominator(cycles as int, 2, p as int);
            }
        }
        self.counter = s % p;
        q + s / p
    }
}

/// The number of machine cycles per TIMA increment for the TAC clock select.
pub open spec fn tima_period(control: u8) -> CycleType {
    let sel = control % 4;
    if sel == 0 {
        1024
    } else if sel == 1 {
        16
    } else if sel == 2 {
        64
    } else {
        256
    }
}

/// TIMA after `n` increments from `counter`, reloading `modulo` on each
/// overflow, and whether an overflow happened.
pub open spec fn tima_run(counter: u8, modulo: u8, n: nat) -> (u8, bool)
    decreases n,
{
    if n == 0 {
        (counter, false)
    } else {
        let (c, o) = tima_run(counter, modulo, (n - 1) as nat);
        if c == 255 {
            (modulo, true)
        } else {
            ((c + 1) as u8, o)
        }
    }
}

/// The divider (DIV) and the programmable timer (TIMA, TMA, TAC).
pub struct Timers {
    /// 0xFF04 DIV: incremented every 256 machine cycles; any write clears it.
    divider: u8,
    divider_clock: TimerClock,
    /// 0xFF05 TIMA: incremented at the rate TAC selects; reloaded from TMA
    /// and a Timer interrupt requested when it overflows.
    counter: u8,
    /// 0xFF06 TMA.
    modulo: u8,
    modulo_clock: TimerClock,
    /// 0xFF07 TAC: bit 2 enables TIMA, bits 1-0 select its rate.
    control: u8,
}

impl Timers {
    /// DIV.
    pub closed spec fn div(&self) -> u8 {
        self.divider
    }

    /// The cycles counted towards the next DIV increment.
    pub closed spec fn div_phase(&self) -> CycleType {
        self.divider_clock.counter
    }

    /// TIMA.
    pub closed spec fn tima(&self) -> u8 {
        self.counter
    }

    /// TMA.
    pub closed spec fn tma(&self) -> u8 {
        self.modulo
    }

    /// TAC.
    pub closed spec fn tac(&self) -> u8 {
        self.control
    }

    /// The cycles counted towards the next TIMA increment.
    pub closed spec fn tima_phase(&self) -> CycleType {
        self.modulo_clock.counter
    }

    /// Both clocks are consistent and TIMA's runs at the rate TAC selects.
    #[verifier::type_invariant]
    closed spec fn wf(&self) -> bool {
        &&& self.divider_clock.wf()
        &&& self.divider_clock.period == 256
        &&& self.modulo_clock.wf()
        &&& self.modulo_clock.period == tima_period(self.control)
    }

    pub fn new() -> (r: Timers)
        ensures
            r.div() == 0 && r.tima() == 0 && r.tma() == 0 && r.tac() == 0,
            r.div_phase() == 0 && r.tima_phase() == 0,
    {
        Timers {
            divider: 0,
            divider_clock: TimerClock::with_period(256),
            counter: 0,
            modulo: 0,
            modulo_clock: TimerClock::with_period(1024),
            control: 0,
        }
    }

    /// Advance both timers by `ticks` machine cycles. Each TIMA overflow
    /// reloads TMA; if any happened, a Timer interrupt is requested.
    /// `post` and `post_irq` are these timers and `irq` after `ticks`
    /// machine cycles: DIV counts every 256 cycles; when enabled, TIMA counts
    /// at the rate TAC selects, each overflow reloading TMA, and a Timer
    /// interrupt is requested if any overflow happened.
    pub open spec fn cycled(
        &self,
        ticks: CycleType,
        irq: MachineIrqHandler,
        post: Timers,
        post_irq: MachineIrqHandler,
    ) -> bool {
        &&& post.tma() == self.tma() && post.tac() == self.tac()
        &&& post.div() as nat == (self.div() as nat + (self.div_phase() as nat + ticks as nat) / 256) % 256
        &&& post.div_phase() as nat == (self.div_phase() as nat + ticks as nat) % 256
        &&& self.tac() & 0x04 == 0 ==> post.tima() == self.tima() && post.tima_phase() == self.tima_phase()
            && post_irq == irq
        &&& self.tac() & 0x04 != 0 ==> {
            let n = (self.tima_phase() as nat + ticks as nat) / tima_period(self.tac()) as nat;
            let (c, o) = tima_run(self.tima(), self.tma(), n);
            &&& post.tima() == c
            &&& post.tima_phase() as nat == (self.tima_phase() as nat + ticks as nat) % tima_period(
                self.tac(),
            ) as nat
            &&& post_irq.ie_reg == irq.ie_reg
            &&& post_irq.if_reg == if o {
                irq.if_reg | 0x04
            } else {
                irq.if_reg
            }
        }
    }

    pub fn cycle(&mut self, ticks: CycleType, irq_handler: &mut MachineIrqHandler)
        ensures
            old(self).cycled(ticks, *old(irq_handler), *final(self), *final(irq_handler)),
    {
        proof {
            use_type_invariant(&*self);
        }
        let mut divider_clock = self.divider_clock;
        let d = divider_clock.update(ticks);
        self.divider_clock = divider_clock;
        self.divider = ((self.divider as u64 + d % 256) % 256) as u8;
        proof {
            vstd::arithmetic::div_mod::lemma_add_mod_noop(old(self).divider as int, d as int, 256);
            vstd::arithmetic::div_mod::lemma_mod_twice(d as int, 256);
        }
        if self.control & 0x04 != 0 {
            let mut modulo_clock = self.modulo_clock;
            let n = modulo_clock.update(ticks);
            self.modulo_clock = modulo_clock;
            let ghost c0 = self.counter;
            let ghost if0 = irq_handler.if_reg;
            let ghost t1 = *self;
            let mut overflowed = false;
            let mut i: u64 = 0;
            while i < n
                invariant
                    i <= n,
                    self.wf(),
                    *self == (Timers { counter: self.counter, ..t1 }),
                    (self.counter, overflowed) == tima_run(c0, self.modulo, i as nat),
                    irq_handler.ie_reg == old(irq_handler).ie_reg,
                    irq_handler.if_reg == if overflowed {
                        if0 | 0x04
                    } else {
                        if0
                    },
                    if0 == old(irq_handler).if_reg,
                decreases n - i,
            {
                if self.counter == 255 {
                    self.counter = self.modulo;
                    irq_handler.request_interrupt(Interrupt::Timer);
                    assert((if0 | 0x04) | 0x04 == if0 | 0x04) by (bit_vector);
                    overflowed = true;
                } else {
                    self.counter = self.counter + 1;
                }
                i = i + 1;
            }
        }
    }
}

/// The observable timer state: DIV, TIMA, TMA, TAC, and the cycles counted
/// towards the next DIV and TIMA increments.
pub type TimerState = (u8, u8, u8, u8, CycleType, CycleType);

impl Timers {
    /// This timer block's observable state.
    pub open spec fn state(&self) -> TimerState {
        (self.div(), self.tima(), self.tma(), self.tac(), self.div_phase(), self.tima_phase())
    }
}

/// The timer state after a write of `byte` at `address`: any write to DIV
/// clears it; TIMA and TMA take the byte; a TAC write that changes the
/// clock select restarts the TIMA prescaler and reloads TIMA from TMA.
pub open spec fn timers_after_write(t: TimerState, address: u16, byte: u8) -> TimerState {
    let (div, tima, tma, tac, div_phase, tima_phase) = t;
    if address == 0xFF04 {
        (0, tima, tma, tac, 0, tima_phase)
    } else if address == 0xFF05 {
        (div, byte, tma, tac, div_phase, tima_phase)
    } else if address == 0xFF06 {
        (div, tima, byte, tac, div_phase, tima_phase)
    } else if address == 0xFF07 {
        if tac % 4 != byte % 4 {
            (div, tma, tma, byte, div_phase, 0)
        } else {
            (div, tima, tma, byte, div_phase, tima_phase)
        }
    } else {
        t
    }
}

impl Memory for Timers {
    open spec fn read_value(&self, address: u16) -> u8 {
        if address == 0xFF04 {
            self.div()
        } else if address == 0xFF05 {
            self.tima()
        } else if address == 0xFF06 {
            self.tma()
        } else if address == 0xFF07 {
            self.tac()
        } else {
            0
        }
    }

    open spec fn written(&self, address: u16, byte: u8, post: Timers) -> bool {
        post.state() == timers_after_write(self.state(), address, byte)
    }

    fn read_byte(&mut self, address: u16) -> (r: u8) {
        match address {
            0xFF04 => self.divider,
            0xFF05 => self.counter,
            0xFF06 => self.modulo,
            0xFF07 => self.control,
            _ => 0,
        }
    }

    fn write_byte(&mut self, address: u16, byte: u8) {
        proof {
            use_type_invariant(&*self);
        }
        match address {
            0xFF04 => {
                self.divider = 0;
                self.divider_clock = TimerClock { counter: 0, ..self.divider_clock };
            },
            0xFF05 => {
                self.counter = byte;
            },
            0xFF06 => {
                self.modulo = byte;
            },
            0xFF07 => {
                if self.control % 4 != byte % 4 {
                    let period: CycleType = match byte % 4 {
                        0 => 1024,
                        1 => 16,
                        2 => 64,
                        _ => 256,
                    };
                    *self = Timers {
                        control: byte,
                        counter: self.modulo,
                        modulo_clock: TimerClock { period, counter: 0 },
                        ..*self
                    };
                } else {
                    self.control = byte;
                }
            },
            _ => {},
        }
    }
}

} // verus!
