//! The system timer: DIV, TIMA, TMA and TAC at 0xFF04-0xFF07.
//!
//! A 16-bit counter advances by one per T-cycle; the visible DIV register is
//! its upper byte. TIMA increments on every falling edge of the selected
//! counter bit ANDed with the TAC enable bit, so clearing the counter by a
//! DIV write, or rewriting TAC, can itself produce an increment. When TIMA
//! overflows it stays 0x00 for four T-cycles, then reloads from TMA and
//! raises the timer interrupt; a TIMA write inside that window cancels both.

use vstd::prelude::*;

verus! {

#[derive(Clone, Copy, PartialEq, Eq, Structural, Debug)]
pub struct Timer {
    /// Internal 16-bit counter; DIV is its upper byte.
    pub div: u16,
    pub tima: u8,
    pub tma: u8,
    /// Control register; the upper five bits always read as one.
    pub tac: u8,
    /// The selected-and-enabled counter bit after the last step, for
    /// falling-edge detection.
    pub last_counter_bit: bool,
    /// The clock this timer has been caught up to.
    pub last_clock_count: u64,
    /// T-cycles left until the pending TIMA reload; 0 means none pending.
    pub loading: u8,
}

/// Which bit of the internal counter feeds TIMA, from TAC bits 0-1:
/// rates 4096, 262144, 65536 and 16384 Hz.
pub open spec fn spec_selected_shift(tac: u8) -> u16 {
    match tac & 3 {
        0 => 9,
        1 => 3,
        2 => 5,
        _ => 7,
    }
}

/// The level feeding TIMA's edge detector: the selected counter bit ANDed
/// with the TAC enable bit.
pub open spec fn spec_counter_bit(div: u16, tac: u8) -> bool {
    (tac & 4) != 0 && ((div >> spec_selected_shift(tac)) & 1) == 1
}

/// TIMA increment; on overflow the register stays 0 and a reload is
/// scheduled four T-cycles ahead.
pub open spec fn spec_tima_inc(t: Timer) -> Timer {
    if t.tima == 0xFF {
        Timer { tima: 0, loading: 4, ..t }
    } else {
        Timer { tima: (t.tima + 1) as u8, ..t }
    }
}

/// Install a new counter value and control byte, incrementing TIMA if the
/// selected-and-enabled bit falls.
pub open spec fn spec_edge_update(t: Timer, div2: u16, tac2: u8) -> Timer {
    let bit = spec_counter_bit(div2, tac2);
    let t2 = if t.last_counter_bit && !bit {
        spec_tima_inc(t)
    } else {
        t
    };
    Timer { div: div2, tac: tac2, last_counter_bit: bit, ..t2 }
}

/// One step of the reload countdown: when it reaches zero TIMA is reloaded
/// from TMA and the timer interrupt is raised.
pub open spec fn spec_loading_step(t: Timer) -> (Timer, bool) {
    if t.loading == 0 {
        (t, false)
    } else if t.loading == 1 {
        (Timer { tima: t.tma, loading: 0, ..t }, true)
    } else {
        (Timer { loading: (t.loading - 1) as u8, ..t }, false)
    }
}

pub open spec fn spec_div_inc(div: u16) -> u16 {
    if div == 0xFFFF {
        0
    } else {
        (div + 1) as u16
    }
}

/// One T-cycle: the reload countdown runs, then the counter advances and
/// the edge detector fires.
pub open spec fn spec_timer_cycle(t: Timer) -> (Timer, bool) {
    let (t1, irq) = spec_loading_step(t);
    let t2 = spec_edge_update(t1, spec_div_inc(t.div), t.tac);
    (Timer { last_clock_count: (t.last_clock_count + 1) as u64, ..t2 }, irq)
}

/// Catch the timer up to `clock`, one T-cycle at a time; the flag is true
/// if any cycle raised the timer interrupt.
pub open spec fn spec_timer_run(t: Timer, clock: u64) -> (Timer, bool)
    decreases clock - t.last_clock_count,
{
    if clock <= t.last_clock_count {
        (t, false)
    } else {
        let (t1, i1) = spec_timer_cycle(t);
        let (t2, i2) = spec_timer_run(t1, clock);
        (t2, i1 || i2)
    }
}

/// The visible value of register `address` (0xFF04-0xFF07, low byte).
pub open spec fn spec_timer_read(t: Timer, address: u8) -> u8 {
    match address {
        0x04 => (t.div >> 8) as u8,
        0x05 => t.tima,
        0x06 => t.tma,
        _ => t.tac | 0xF8,
    }
}

/// The effect of a register write (0xFF04-0xFF07, low byte).
pub open spec fn spec_timer_write(t: Timer, address: u8, value: u8) -> Timer {
    match address {
        0x04 => spec_edge_update(t, 0, t.tac),
        0x05 => Timer { tima: value, loading: 0, ..t },
        0x06 => Timer { tma: value, ..t },
        _ => spec_edge_update(t, t.div, value | 0xF8),
    }
}

impl Timer {
    /// Timer at power-on, boot ROM still running.
    pub open spec fn spec_new() -> Timer {
        Timer {
            div: 0,
            tima: 0,
            tma: 0,
            tac: 0xF8,
            last_counter_bit: false,
            last_clock_count: 0,
            loading: 0,
        }
    }

    /// Timer state of the documented post-boot fingerprint.
    pub open spec fn spec_after_boot(clock_count: u64) -> Timer {
        Timer {
            div: 0xabcc,
            tima: 0x00,
            tma: 0x00,
            tac: 0xf8,
            last_counter_bit: false,
            last_clock_count: clock_count,
            loading: 0,
        }
    }

    pub fn new() -> (r: Timer)
        ensures
            r == Timer::spec_new(),
    {
        Timer {
            div: 0,
            tima: 0,
            tma: 0,
            tac: 0xF8,
            last_counter_bit: false,
            last_clock_count: 0,
            loading: 0,
        }
    }

    pub fn after_boot(clock_count: u64) -> (r: Timer)
        ensures
            r == Timer::spec_after_boot(clock_count),
    {
        Timer {
            div: 0xabcc,
            tima: 0x00,
            tma: 0x00,
            tac: 0xf8,
            last_counter_bit: false,
            last_clock_count: clock_count,
            loading: 0,
        }
    }

    fn counter_bit(&self, div: u16, tac: u8) -> (r: bool)
        ensures
            r == spec_counter_bit(div, tac),
    {
        let shift: u16 = match tac & 3 {
            0 => 9,
            1 => 3,
            2 => 5,
            _ => 7,
        };
        (tac & 4) != 0 && ((div >> shift) & 1) == 1
    }

    /// Increment TIMA, scheduling the overflow reload.
    fn tima_inc(&mut self)
        ensures
            *final(self) == spec_tima_inc(*old(self)),
    {
        if self.tima == 0xFF {
            self.tima = 0;
            self.loading = 4;
        } else {
            self.tima = self.tima + 1;
        }
    }

    /// Install a new counter value and control byte, running the falling
    /// edge detector.
    fn edge_update(&mut self, div2: u16, tac2: u8)
        ensures
            *final(self) == spec_edge_update(*old(self), div2, tac2),
    {
        let bit = self.counter_bit(div2, tac2);
        if self.last_counter_bit && !bit {
            self.tima_inc();
        }
        self.div = div2;
        self.tac = tac2;
        self.last_counter_bit = bit;
    }

    /// One T-cycle of the timer; true when the interrupt is raised.
    fn cycle(&mut self) -> (irq: bool)
        requires
            old(self).last_clock_count < u64::MAX,
        ensures
            (*final(self), irq) == spec_timer_cycle(*old(self)),
    {
        let mut irq = false;
        if self.loading > 0 {
            if self.loading == 1 {
                self.tima = self.tma;
                self.loading = 0;
                irq = true;
            } else {
                self.loading = self.loading - 1;
            }
        }
        let div2 = if self.div == 0xFFFF {
            0
        } else {
            self.div + 1
        };
        let tac = self.tac;
        self.edge_update(div2, tac);
        self.last_clock_count = self.last_clock_count + 1;
        irq
    }

    /// Catch up to `clock_count`; true when any cycle raised the timer
    /// interrupt.
    pub fn update(&mut self, clock_count: u64) -> (irq: bool)
        requires
            old(self).last_clock_count <= clock_count,
        ensures
            (*final(self), irq) == spec_timer_run(*old(self), clock_count),
            final(self).last_clock_count == clock_count,
    {
        let mut irq = false;
        proof {
            lemma_timer_run_clock(*self, clock_count);
        }
        while self.last_clock_count < clock_count
            invariant
                self.last_clock_count <= clock_count,
                spec_timer_run(*old(self), clock_count).0 == spec_timer_run(*self, clock_count).0,
                spec_timer_run(*old(self), clock_count).1 == (irq || spec_timer_run(
                    *self,
                    clock_count,
                ).1),
            decreases clock_count - self.last_clock_count,
        {
            let step_irq = self.cycle();
            irq = irq || step_irq;
        }
        irq
    }

    /// The visible value of register 0xFF04-0xFF07 (low byte of address).
    pub fn read(&self, address: u8) -> (r: u8)
        requires
            0x04 <= address <= 0x07,
        ensures
            r == spec_timer_read(*self, address),
    {
        match address {
            0x04 => (self.div >> 8) as u8,
            0x05 => self.tima,
            0x06 => self.tma,
            _ => self.tac | 0xF8,
        }
    }

    /// Write register 0xFF04-0xFF07 (low byte of address).
    pub fn write(&mut self, address: u8, value: u8)
        requires
            0x04 <= address <= 0x07,
        ensures
            *final(self) == spec_timer_write(*old(self), address, value),
    {
        match address {
            0x04 => {
                let tac = self.tac;
                self.edge_update(0, tac);
            },
            0x05 => {
                self.tima = value;
                self.loading = 0;
            },
            0x06 => {
                self.tma = value;
            },
            _ => {
                let div = self.div;
                self.edge_update(div, value | 0xF8);
            },
        }
    }
}

/// A caught-up timer reports the clock it was run to.
pub proof fn lemma_timer_run_clock(t: Timer, clock: u64)
    requires
        t.last_clock_count <= clock,
    ensures
        spec_timer_run(t, clock).0.last_clock_count == clock,
    decreases clock - t.last_clock_count,
{
    if clock > t.last_clock_count {
        lemma_timer_run_clock(spec_timer_cycle(t).0, clock);
    }
}

} // verus!
