//! The divider and the programmable counter, both driven by the dot clock.

use vstd::prelude::*;
use crate::cpu::interrupts::{Interrupts, TIMER_INTERRUPT_BIT};

verus! {

pub const DIVIDE_REGISTER_ADDRESS: u16 = 0xFF04;

pub const TIMER_COUNTER_ADDRESS: u16 = 0xFF05;

pub const TIMER_MODULO_ADDRESS: u16 = 0xFF06;

pub const TIMER_CONTROL_ADDRESS: u16 = 0xFF07;

#[derive(Clone, Copy, Debug, Hash, PartialEq, Eq, Structural)]
pub struct Timers {
    pub divide_register: u8,
    /// Dots counted towards the next increment of the divider.
    pub divide_register_dots: u16,
    /// A write to the divider resets it only once the writing instruction's
    /// dots have been counted.
    pub divide_register_to_be_reset: bool,
    pub timer_counter: u8,
    /// Dots counted towards the next increment of the counter.
    pub timer_counter_dots: u16,
    /// The counter has overflowed to zero and starts again from the modulo
    /// with the next dot.
    pub timer_counter_to_be_reloaded: bool,
    pub timer_modulo: u8,
    pub timer_control: u8,
}

impl Timers {
    pub open spec fn spec_new() -> Timers {
        Timers {
            divide_register: 0,
            divide_register_dots: 0,
            divide_register_to_be_reset: false,
            timer_counter: 0,
            timer_counter_dots: 0,
            timer_counter_to_be_reloaded: false,
            timer_modulo: 0,
            timer_control: 0,
        }
    }

    /// Dots per increment of the counter, selected by the two low bits of the
    /// control register.
    pub open spec fn spec_threshold(self) -> u16 {
        let rate = self.timer_control & 0x3;
        if rate == 0 {
            1024
        } else if rate == 1 {
            16
        } else if rate == 2 {
            64
        } else {
            256
        }
    }

    /// Whether bit 2 of the control register lets the counter run.
    pub open spec fn spec_enabled(self) -> bool {
        self.timer_control & 0b100 != 0
    }

    /// The divider part of one dot.
    pub open spec fn spec_tick_divider(self) -> Timers {
        if self.divide_register_dots.wrapping_add(1) == 256 {
            Timers {
                divide_register_dots: 0,
                divide_register: self.divide_register.wrapping_add(1),
                ..self
            }
        } else {
            Timers { divide_register_dots: self.divide_register_dots.wrapping_add(1), ..self }
        }
    }

    /// The timers once a reload that is due has been made: the counter
    /// starts again from the modulo register.
    pub open spec fn spec_reload(self) -> Timers {
        if self.timer_counter_to_be_reloaded {
            Timers {
                timer_counter: self.timer_modulo,
                timer_counter_to_be_reloaded: false,
                ..self
            }
        } else {
            self
        }
    }

    /// Whether this dot is one at which the counter goes up.
    pub open spec fn spec_counts(self) -> bool {
        &&& self.spec_enabled()
        &&& self.timer_counter_dots.wrapping_add(1) == self.spec_threshold()
    }

    /// Whether this dot makes the counter overflow: the counter goes up, and
    /// it stood at 255, after a reload that was due.
    pub open spec fn spec_overflows(self) -> bool {
        &&& self.spec_counts()
        &&& self.spec_reload().timer_counter == 255
    }

    /// The counting of one dot. On overflow the counter is left at zero and a
    /// reload is due.
    pub open spec fn spec_count(self) -> Timers {
        if !self.spec_enabled() {
            self
        } else if self.timer_counter_dots.wrapping_add(1) != self.spec_threshold() {
            Timers { timer_counter_dots: self.timer_counter_dots.wrapping_add(1), ..self }
        } else if self.timer_counter == 255 {
            Timers {
                timer_counter_dots: 0,
                timer_counter: 0,
                timer_counter_to_be_reloaded: true,
                ..self
            }
        } else {
            Timers {
                timer_counter_dots: 0,
                timer_counter: (self.timer_counter + 1) as u8,
                ..self
            }
        }
    }

    /// The counter part of one dot: a reload that is due from the dot before
    /// is made first, then the dot is counted. A counter that overflows reads
    /// zero until the next dot.
    pub open spec fn spec_tick_counter(self) -> Timers {
        self.spec_reload().spec_count()
    }

    /// The timers after one dot.
    pub open spec fn spec_tick(self) -> Timers {
        self.spec_tick_divider().spec_tick_counter()
    }

    /// The interrupt controller after one dot of these timers: an overflow of
    /// the counter requests the timer interrupt once, in the dot of the
    /// overflow; the reload in the dot after requests nothing.
    pub open spec fn spec_tick_interrupts(self, interrupts: Interrupts) -> Interrupts {
        if self.spec_overflows() {
            interrupts.spec_request(TIMER_INTERRUPT_BIT)
        } else {
            interrupts
        }
    }

    /// The timers after `dots` dots, before a pending divider reset is applied.
    pub open spec fn spec_run(self, dots: nat) -> Timers
        decreases dots,
    {
        if dots == 0 {
            self
        } else {
            self.spec_tick().spec_run((dots - 1) as nat)
        }
    }

    /// The interrupt controller after `dots` dots of these timers.
    pub open spec fn spec_run_interrupts(self, interrupts: Interrupts, dots: nat) -> Interrupts
        decreases dots,
    {
        if dots == 0 {
            interrupts
        } else {
            self.spec_tick().spec_run_interrupts(
                self.spec_tick_interrupts(interrupts),
                (dots - 1) as nat,
            )
        }
    }

    /// A pending reset of the divider, applied.
    pub open spec fn spec_settle(self) -> Timers {
        if self.divide_register_to_be_reset {
            Timers { divide_register_to_be_reset: false, divide_register: 0, ..self }
        } else {
            self
        }
    }

    /// The timers after the dots of one instruction.
    pub open spec fn spec_ticks(self, dots: u8) -> Timers {
        self.spec_run(dots as nat).spec_settle()
    }

    pub open spec fn spec_read_u8(self, address: u16) -> u8 {
        if address == DIVIDE_REGISTER_ADDRESS {
            self.divide_register
        } else if address == TIMER_COUNTER_ADDRESS {
            self.timer_counter
        } else if address == TIMER_MODULO_ADDRESS {
            self.timer_modulo
        } else {
            self.timer_control
        }
    }

    pub open spec fn spec_write_u8(self, address: u16, value: u8) -> Timers {
        if address == DIVIDE_REGISTER_ADDRESS {
            Timers { divide_register_to_be_reset: true, ..self }
        } else if address == TIMER_COUNTER_ADDRESS {
            Timers { timer_counter: value, ..self }
        } else if address == TIMER_MODULO_ADDRESS {
            Timers { timer_modulo: value, ..self }
        } else {
            Timers { timer_control: value, ..self }
        }
    }

    pub fn new() -> (timers: Self)
        ensures
            timers == Self::spec_new(),
    {
        Timers {
            divide_register: 0,
            divide_register_to_be_reset: false,
            divide_register_dots: 0,
            timer_counter: 0,
            timer_counter_dots: 0,
            timer_counter_to_be_reloaded: false,
            timer_modulo: 0,
            timer_control: 0,
        }
    }

    pub fn get_timer_counter_threshold(&self) -> (threshold: u16)
        ensures
            threshold == self.spec_threshold(),
    {
        let rate = self.timer_control & 0x3;
        if rate == 0 {
            1024
        } else if rate == 1 {
            16
        } else if rate == 2 {
            64
        } else {
            256
        }
    }

    pub fn tick(&mut self, interrupts: &mut Interrupts)
        ensures
            *final(self) == old(self).spec_tick(),
            *final(interrupts) == old(self).spec_tick_interrupts(*old(interrupts)),
    {
        self.divide_register_dots = self.divide_register_dots.wrapping_add(1);
        if self.divide_register_dots == 256 {
            self.divide_register_dots = 0;
            self.divide_register = self.divide_register.wrapping_add(1);
        }
        // A counter that overflowed in the dot before starts again from the
        // modulo now.
        if self.timer_counter_to_be_reloaded {
            self.timer_counter_to_be_reloaded = false;
            self.timer_counter = self.timer_modulo;
        }
        if (self.timer_control & 0b100) != 0 {
            self.timer_counter_dots = self.timer_counter_dots.wrapping_add(1);
            if self.timer_counter_dots == self.get_timer_counter_threshold() {
                self.timer_counter_dots = 0;
                self.timer_counter = self.timer_counter.wrapping_add(1);
                if self.timer_counter == 0 {
                    self.timer_counter_to_be_reloaded = true;
                    interrupts.request_interrupt(TIMER_INTERRUPT_BIT);
                }
            }
        }
    }

    pub fn ticks(&mut self, interrupts: &mut Interrupts, dots: u8)
        ensures
            *final(self) == old(self).spec_ticks(dots),
            *final(interrupts) == old(self).spec_run_interrupts(*old(interrupts), dots as nat),
    {
        let mut done: u8 = 0;
        while done < dots
            invariant
                done <= dots,
                self.spec_run((dots - done) as nat) == old(self).spec_run(dots as nat),
                self.spec_run_interrupts(*interrupts, (dots - done) as nat) == old(
                    self,
                ).spec_run_interrupts(*old(interrupts), dots as nat),
            decreases dots - done,
        {
            self.tick(interrupts);
            done = done + 1;
        }
        if self.divide_register_to_be_reset {
            self.divide_register_to_be_reset = false;
            self.divide_register = 0;
        }
    }

    pub fn read_u8(&self, address: u16) -> (value: u8)
        requires
            DIVIDE_REGISTER_ADDRESS <= address <= TIMER_CONTROL_ADDRESS,
        ensures
            value == self.spec_read_u8(address),
    {
        if address == DIVIDE_REGISTER_ADDRESS {
            self.divide_register
        } else if address == TIMER_COUNTER_ADDRESS {
            self.timer_counter
        } else if address == TIMER_MODULO_ADDRESS {
            self.timer_modulo
        } else {
            self.timer_control
        }
    }

    pub fn write_u8(&mut self, address: u16, value: u8)
        requires
            DIVIDE_REGISTER_ADDRESS <= address <= TIMER_CONTROL_ADDRESS,
        ensures
            *final(self) == old(self).spec_write_u8(address, value),
    {
        if address == DIVIDE_REGISTER_ADDRESS {
            // The reset waits for the end of the instruction that asked for it:
            // the dots of that instruction are still counted first.
            self.divide_register_to_be_reset = true;
        } else if address == TIMER_COUNTER_ADDRESS {
            self.timer_counter = value;
        } else if address == TIMER_MODULO_ADDRESS {
            self.timer_modulo = value;
        } else {
            self.timer_control = value;
        }
    }
}


/// One dot requests the timer interrupt exactly when the counter overflows,
/// and then the counter reads zero and a reload is due; a dot without
/// overflow leaves the interrupt controller as it was. The dot after an
/// overflow makes the reload, and requests nothing for it, whatever the
/// modulo is. While the counter is stopped it does not count, and the divider
/// counts on all the same.
pub proof fn lemma_timer_overflow(timers: Timers, interrupts: Interrupts)
    ensures
        timers.spec_overflows() ==> {
            &&& timers.spec_tick().timer_counter == 0
            &&& timers.spec_tick().timer_counter_to_be_reloaded
            &&& timers.spec_tick().timer_counter_dots == 0
            &&& timers.spec_tick_interrupts(interrupts) == interrupts.spec_request(
                TIMER_INTERRUPT_BIT,
            )
        },
        !timers.spec_overflows() ==> timers.spec_tick_interrupts(interrupts) == interrupts
            && !timers.spec_tick().timer_counter_to_be_reloaded,
        timers.timer_counter_to_be_reloaded && !timers.spec_counts() ==> {
            &&& timers.spec_tick().timer_counter == timers.timer_modulo
            &&& !timers.spec_tick().timer_counter_to_be_reloaded
            &&& timers.spec_tick_interrupts(interrupts) == interrupts
        },
        !timers.timer_counter_to_be_reloaded && !timers.spec_counts()
            ==> timers.spec_tick().timer_counter == timers.timer_counter,
        !timers.timer_counter_to_be_reloaded && timers.spec_counts() && timers.timer_counter < 255
            ==> timers.spec_tick().timer_counter == timers.timer_counter + 1,
        timers.spec_tick().timer_modulo == timers.timer_modulo,
        timers.spec_tick().timer_control == timers.timer_control,
        timers.spec_tick().divide_register == timers.spec_tick_divider().divide_register,
        timers.divide_register_dots == 255 ==> timers.spec_tick().divide_register
            == timers.divide_register.wrapping_add(1) && timers.spec_tick().divide_register_dots
            == 0,
        timers.divide_register_dots < 255 ==> timers.spec_tick().divide_register
            == timers.divide_register,
{
}

/// Running for `first` dots and then for `then` more is running for both.
pub proof fn lemma_run_split(timers: Timers, interrupts: Interrupts, first: nat, then: nat)
    ensures
        timers.spec_run(first + then) == timers.spec_run(first).spec_run(then),
        timers.spec_run_interrupts(interrupts, first + then) == timers.spec_run(
            first,
        ).spec_run_interrupts(timers.spec_run_interrupts(interrupts, first), then),
    decreases first,
{
    if first > 0 {
        lemma_run_split(
            timers.spec_tick(),
            timers.spec_tick_interrupts(interrupts),
            (first - 1) as nat,
            then,
        );
        assert(first + then - 1 == (first - 1) as nat + then);
    }
}

/// While the dots counted stay below the rate, a running counter with no
/// reload due keeps its value, and nothing is requested.
pub proof fn lemma_run_below_rate(timers: Timers, interrupts: Interrupts, dots: nat)
    requires
        timers.spec_enabled(),
        !timers.timer_counter_to_be_reloaded,
        timers.timer_counter_dots + dots < timers.spec_threshold(),
    ensures
        timers.spec_run(dots).timer_counter == timers.timer_counter,
        timers.spec_run(dots).timer_counter_dots == timers.timer_counter_dots + dots,
        timers.spec_run(dots).timer_modulo == timers.timer_modulo,
        timers.spec_run(dots).timer_control == timers.timer_control,
        !timers.spec_run(dots).timer_counter_to_be_reloaded,
        timers.spec_run_interrupts(interrupts, dots) == interrupts,
    decreases dots,
{
    if dots > 0 {
        lemma_run_below_rate(timers.spec_tick(), interrupts, (dots - 1) as nat);
    }
}

/// A running counter at 255 overflows with the dot that completes its rate:
/// after that dot it reads zero, and the timer interrupt has been requested.
/// After one dot more it holds the modulo, and the interrupt has been
/// requested that once and not again, whatever the modulo is.
pub proof fn lemma_overflow_then_reload(timers: Timers, interrupts: Interrupts)
    requires
        timers.spec_enabled(),
        !timers.timer_counter_to_be_reloaded,
        timers.timer_counter == 255,
        timers.timer_counter_dots < timers.spec_threshold(),
    ensures
        ({
            let dots = (timers.spec_threshold() - timers.timer_counter_dots) as nat;
            &&& timers.spec_run(dots).timer_counter == 0
            &&& timers.spec_run(dots).timer_counter_to_be_reloaded
            &&& timers.spec_run_interrupts(interrupts, dots) == interrupts.spec_request(
                TIMER_INTERRUPT_BIT,
            )
            &&& timers.spec_run(dots + 1).timer_counter == timers.timer_modulo
            &&& !timers.spec_run(dots + 1).timer_counter_to_be_reloaded
            &&& timers.spec_run_interrupts(interrupts, dots + 1) == interrupts.spec_request(
                TIMER_INTERRUPT_BIT,
            )
        }),
{
    let dots = (timers.spec_threshold() - timers.timer_counter_dots) as nat;
    let before = (dots - 1) as nat;
    lemma_run_below_rate(timers, interrupts, before);
    let ready = timers.spec_run(before);
    let overflowed = ready.spec_tick();
    let requested = ready.spec_tick_interrupts(interrupts);
    lemma_timer_overflow(ready, interrupts);
    lemma_timer_overflow(overflowed, requested);
    // One dot after `before` dots.
    lemma_run_split(timers, interrupts, before, 1);
    assert(ready.spec_run(1) == overflowed) by {
        assert(overflowed.spec_run(0) == overflowed);
    }
    assert(ready.spec_run_interrupts(interrupts, 1) == requested) by {
        assert(overflowed.spec_run_interrupts(requested, 0) == requested);
    }
    assert(before + 1 == dots);
    // Two dots after `before` dots.
    lemma_run_split(timers, interrupts, before, 2);
    assert(ready.spec_run(2) == overflowed.spec_tick()) by {
        assert(overflowed.spec_run(1) == overflowed.spec_tick().spec_run(0));
    }
    assert(ready.spec_run_interrupts(interrupts, 2) == overflowed.spec_tick_interrupts(
        requested,
    )) by {
        assert(overflowed.spec_run_interrupts(requested, 1)
            == overflowed.spec_tick().spec_run_interrupts(
            overflowed.spec_tick_interrupts(requested),
            0,
        ));
    }
    assert(before + 2 == dots + 1);
}

/// A write to the divider does not reset it at once: the dots of the writing
/// instruction are counted first, and the divider is zero after them.
pub proof fn lemma_divider_reset_is_deferred(timers: Timers, value: u8, dots: u8)
    ensures
        timers.spec_write_u8(DIVIDE_REGISTER_ADDRESS, value).divide_register
            == timers.divide_register,
        timers.spec_write_u8(DIVIDE_REGISTER_ADDRESS, value).spec_ticks(dots).divide_register == 0,
        !timers.spec_write_u8(DIVIDE_REGISTER_ADDRESS, value).spec_ticks(
            dots,
        ).divide_register_to_be_reset,
{
    let written = timers.spec_write_u8(DIVIDE_REGISTER_ADDRESS, value);
    lemma_run_keeps_pending_reset(written, dots as nat);
}

/// Running the timers neither sets nor clears a pending reset of the divider.
pub proof fn lemma_run_keeps_pending_reset(timers: Timers, dots: nat)
    ensures
        timers.spec_run(dots).divide_register_to_be_reset == timers.divide_register_to_be_reset,
    decreases dots,
{
    if dots > 0 {
        lemma_run_keeps_pending_reset(timers.spec_tick(), (dots - 1) as nat);
    }
}

} // verus!
