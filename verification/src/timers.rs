//! The timer/divider subsystem: a free-running divider byte advanced every
//! 256 accumulated cycles, and a programmable counter advanced every
//! control-selected period while enabled, which requests an interrupt when it
//! overflows and reloads from the modulo register.

use vstd::prelude::*;

verus! {

/// The timer state as the contracts speak of it: the two visible bytes, the
/// two internal sub-cycle accumulators, the reload value and the control byte.
pub struct TimersView {
    pub divider: u8,
    pub div_acc: nat,
    pub counter: u8,
    pub modulo: u8,
    pub timer_acc: nat,
    pub control: u8,
}

/// Bit 2 of the control byte enables the programmable counter.
pub open spec fn spec_timer_enabled(control: u8) -> bool {
    control & 0b100 == 0b100
}

/// The counting period in cycles, selected by the control byte's low two bits.
pub open spec fn spec_timer_period(control: u8) -> nat {
    if control & 0b11 == 0b00 {
        1024
    } else if control & 0b11 == 0b01 {
        16
    } else if control & 0b11 == 0b10 {
        64
    } else {
        256
    }
}

/// The divider byte and its accumulator after the accumulator is drained:
/// the divider rolls forward once per 256 accumulated cycles, wrapping
/// silently, and the remainder below 256 stays in the accumulator.
pub open spec fn spec_div_run(divider: u8, acc: nat) -> (u8, nat)
    decreases acc,
{
    if acc < 256 {
        (divider, acc)
    } else {
        spec_div_run((((divider + 1) as nat % 256) as u8), (acc - 256) as nat)
    }
}

/// Counter, accumulator and interrupt request after the counter's accumulator
/// is drained: the counter rolls forward once per `period` accumulated cycles;
/// on a wrap past 0xFF it reloads from `modulo` and the interrupt is
/// requested.
pub open spec fn spec_timer_run(counter: u8, modulo: u8, acc: nat, period: nat) -> (u8, nat, bool)
    decreases acc,
{
    if period == 0 || acc < period {
        (counter, acc, false)
    } else {
        let wrapped = counter == 0xFF;
        let next = if wrapped {
            modulo
        } else {
            (counter + 1) as u8
        };
        let (c, a, w) = spec_timer_run(next, modulo, (acc - period) as nat, period);
        (c, a, wrapped || w)
    }
}

/// The timer/divider subsystem's registers and internal accumulators.
pub struct Timers {
    divider: u8,
    internal_divider: usize,
    timer_counter: u8,
    timer_modulo: u8,
    internal_timer: usize,
    timer_control: u8,
}

impl View for Timers {
    type V = TimersView;

    closed spec fn view(&self) -> TimersView {
        TimersView {
            divider: self.divider,
            div_acc: self.internal_divider as nat,
            counter: self.timer_counter,
            modulo: self.timer_modulo,
            timer_acc: self.internal_timer as nat,
            control: self.timer_control,
        }
    }
}

/// The power-on timer state: everything zero.
pub open spec fn spec_timers_new() -> TimersView {
    TimersView { divider: 0, div_acc: 0, counter: 0, modulo: 0, timer_acc: 0, control: 0 }
}

impl Timers {
    pub fn new() -> (r: Timers)
        ensures
            r@ == spec_timers_new(),
    {
        Timers {
            divider: 0,
            internal_divider: 0,
            timer_counter: 0,
            timer_modulo: 0,
            internal_timer: 0,
            timer_control: 0,
        }
    }

    /// Accumulate `ticks` consumed cycles. The divider always rolls forward
    /// once per 256 accumulated cycles; the programmable counter rolls
    /// forward once per selected period only while enabled, reloading from
    /// the modulo register on overflow. Returns whether any overflow
    /// requested an interrupt during this call.
    pub fn tick(&mut self, ticks: usize) -> (interrupt: bool)
        requires
            old(self)@.div_acc + ticks <= usize::MAX,
            old(self)@.timer_acc + ticks <= usize::MAX,
        ensures
            ({
                let t = old(self)@;
                let u = final(self)@;
                let (d, da) = spec_div_run(t.divider, (t.div_acc + ticks) as nat);
                &&& u.divider == d
                &&& u.div_acc == da
                &&& u.modulo == t.modulo
                &&& u.control == t.control
                &&& if spec_timer_enabled(t.control) {
                    let (c, ta, w) = spec_timer_run(
                        t.counter,
                        t.modulo,
                        (t.timer_acc + ticks) as nat,
                        spec_timer_period(t.control),
                    );
                    u.counter == c && u.timer_acc == ta && interrupt == w
                } else {
                    u.counter == t.counter && u.timer_acc == t.timer_acc && !interrupt
                }
            }),
    {
        let mut interrupt = false;
        self.internal_divider += ticks;

        let ghost div_target = spec_div_run(old(self)@.divider, (old(self)@.div_acc + ticks) as nat);
        while self.internal_divider >= 256
            invariant
                spec_div_run(self.divider, self.internal_divider as nat) == div_target,
                self.timer_counter == old(self).timer_counter,
                self.timer_modulo == old(self).timer_modulo,
                self.internal_timer == old(self).internal_timer,
                self.timer_control == old(self).timer_control,
            decreases self.internal_divider,
        {
            self.divider = self.divider.wrapping_add(1);
            self.internal_divider -= 256;
        }

        let ghost div_after = self.divider;
        let ghost div_acc_after = self.internal_divider;
        if self.timer_control & 0b100 == 0b100 {
            self.internal_timer += ticks;

            let timer_period: usize = if self.timer_control & 0b11 == 0b00 {
                1024
            } else if self.timer_control & 0b11 == 0b01 {
                16
            } else if self.timer_control & 0b11 == 0b10 {
                64
            } else {
                256
            };
            let ghost timer_target = spec_timer_run(
                old(self)@.counter,
                old(self)@.modulo,
                (old(self)@.timer_acc + ticks) as nat,
                spec_timer_period(old(self)@.control),
            );
            while self.internal_timer >= timer_period
                invariant
                    timer_period == spec_timer_period(self.timer_control),
                    self.timer_modulo == old(self).timer_modulo,
                    self.timer_control == old(self).timer_control,
                    self.divider == div_after,
                    self.internal_divider == div_acc_after,
                    ({
                        let (c, a, w) = spec_timer_run(
                            self.timer_counter,
                            self.timer_modulo,
                            self.internal_timer as nat,
                            timer_period as nat,
                        );
                        timer_target == (c, a, interrupt || w)
                    }),
                decreases self.internal_timer,
            {
                let wrapped = self.timer_counter == 0xFF;
                self.timer_counter = self.timer_counter.wrapping_add(1);
                self.internal_timer -= timer_period;

                if wrapped {
                    self.timer_counter = self.timer_modulo;
                    interrupt = true;
                }
            }
        }

        interrupt
    }

    /// A write to the divider's mapped register: it resets only the divider's
    /// internal accumulator, not the counter.
    pub fn reset_div(&mut self)
        ensures
            final(self)@ == (TimersView { div_acc: 0, ..old(self)@ }),
    {
        self.internal_divider = 0;
    }

    pub fn get_divider(&self) -> (r: u8)
        ensures
            r == self@.divider,
    {
        self.divider
    }

    pub fn set_counter(&mut self, byte: u8)
        ensures
            final(self)@ == (TimersView { counter: byte, ..old(self)@ }),
    {
        self.timer_counter = byte;
    }

    pub fn get_counter(&self) -> (r: u8)
        ensures
            r == self@.counter,
    {
        self.timer_counter
    }

    pub fn set_tma(&mut self, byte: u8)
        ensures
            final(self)@ == (TimersView { modulo: byte, ..old(self)@ }),
    {
        self.timer_modulo = byte;
    }

    pub fn get_tma(&self) -> (r: u8)
        ensures
            r == self@.modulo,
    {
        self.timer_modulo
    }

    pub fn set_tac(&mut self, byte: u8)
        ensures
            final(self)@ == (TimersView { control: byte, ..old(self)@ }),
    {
        self.timer_control = byte;
    }

    pub fn get_tac(&self) -> (r: u8)
        ensures
            r == self@.control,
    {
        self.timer_control
    }
}

} // verus!
