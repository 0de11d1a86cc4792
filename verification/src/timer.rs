//! The timer: DIV, which advances every 256 CPU cycles, and TIMA, which
//! advances at the rate TAC selects, reloads from TMA on overflow, and raises
//! the timer interrupt.

use vstd::prelude::*;

verus! {

/// CPU cycles per DIV increment.
pub const DIV_PERIOD: u64 = 256;

/// CPU cycles per TIMA tick for the two low TAC bits.
pub open spec fn tac_period(tac: u8) -> u64 {
    match tac % 4 {
        0 => 1024,
        1 => 16,
        2 => 64,
        _ => 256,
    }
}

pub struct Timer {
    /// 0xFF04: DIV.
    pub divider_register: u8,
    /// 0xFF05: TIMA.
    pub timer_counter: u8,
    /// 0xFF06: TMA.
    pub timer_modulo: u8,
    /// 0xFF07: TAC, stored masked to its three low bits.
    pub timer_control: u8,
    /// Bit 2 of TAC.
    pub timer_enabled: bool,
    /// CPU cycles per TIMA tick, from bits 1..0 of TAC.
    pub timer_clock_select: u64,
    /// CPU cycles accumulated toward the next DIV increment.
    pub divi_tank: u64,
    /// CPU cycles accumulated toward the next TIMA tick.
    pub tima_tank: u64,
    /// The timer interrupt request: bit 2 of IF.
    pub interrupt: bool,
}

/// TIMA after `t` ticks: each tick increments, and an overflow reloads TMA
/// and marks an interrupt.
pub open spec fn tima_after(tima: u8, tma: u8, t: nat) -> u8 {
    if t == 0 {
        tima
    } else if tima + t <= 255 {
        (tima + t) as u8
    } else {
        (tma + ((t - (256 - tima)) % (256 - tma))) as u8
    }
}

/// Whether any of `t` ticks from `tima` overflows.
pub open spec fn tima_overflows(tima: u8, t: nat) -> bool {
    tima + t > 255
}

pub open spec fn timer_run_spec(t: Timer, cycles: u64) -> Timer {
    let div_total = t.divi_tank + cycles;
    let with_div = Timer {
        divider_register: ((t.divider_register + div_total / 256) % 256) as u8,
        divi_tank: (div_total % 256) as u64,
        ..t
    };
    if t.timer_enabled {
        let tima_total = t.tima_tank + cycles;
        let ticks = tima_total / (tac_period(t.timer_control) as int);
        Timer {
            timer_counter: tima_after(t.timer_counter, t.timer_modulo, ticks as nat),
            tima_tank: (tima_total % (tac_period(t.timer_control) as int)) as u64,
            interrupt: t.interrupt || tima_overflows(t.timer_counter, ticks as nat),
            ..with_div
        }
    } else {
        with_div
    }
}

pub open spec fn timer_read_spec(t: Timer, addr: u16) -> u8 {
    if addr == 0xFF04 {
        t.divider_register
    } else if addr == 0xFF05 {
        t.timer_counter
    } else if addr == 0xFF06 {
        t.timer_modulo
    } else if addr == 0xFF07 {
        t.timer_control
    } else {
        0xFF
    }
}

pub open spec fn timer_write_spec(t: Timer, addr: u16, v: u8) -> Timer {
    if addr == 0xFF04 {
        Timer { divider_register: 0, ..t }
    } else if addr == 0xFF05 {
        Timer { timer_counter: v, ..t }
    } else if addr == 0xFF06 {
        Timer { timer_modulo: v, ..t }
    } else if addr == 0xFF07 {
        Timer {
            timer_control: (v % 8) as u8,
            timer_enabled: v / 4 % 2 == 1,
            timer_clock_select: tac_period(v),
            ..t
        }
    } else {
        t
    }
}

/// The clock-select field always matches the stored TAC bits, and the tanks
/// never hold a whole period.
pub open spec fn timer_wf(t: Timer) -> bool {
    t.timer_control < 8 && t.timer_clock_select == tac_period(t.timer_control) && t.divi_tank < 256
        && t.tima_tank < 1024
}

impl Timer {
    pub fn new() -> (r: Timer)
        ensures
            timer_wf(r),
            r.divider_register == 0 && r.timer_counter == 0 && r.timer_modulo == 0
                && r.timer_control == 0,
            !r.timer_enabled && !r.interrupt,
            r.divi_tank == 0 && r.tima_tank == 0,
    {
        Timer {
            divider_register: 0,
            timer_counter: 0,
            timer_modulo: 0,
            timer_control: 0,
            timer_enabled: false,
            timer_clock_select: 1024,
            divi_tank: 0,
            tima_tank: 0,
            interrupt: false,
        }
    }

    pub fn read(&self, address: u16) -> (r: u8)
        ensures
            r == timer_read_spec(*self, address),
    {
        match address {
            0xFF04 => self.divider_register,
            0xFF05 => self.timer_counter,
            0xFF06 => self.timer_modulo,
            0xFF07 => self.timer_control,
            _ => 0xFF,
        }
    }

    pub fn write(&mut self, address: u16, value: u8)
        requires
            timer_wf(*old(self)),
        ensures
            *final(self) == timer_write_spec(*old(self), address, value),
            timer_wf(*final(self)),
    {
        match address {
            0xFF04 => {
                self.divider_register = 0;
            },
            0xFF05 => {
                self.timer_counter = value;
            },
            0xFF06 => {
                self.timer_modulo = value;
            },
            0xFF07 => {
                self.timer_control = value % 8;
                self.timer_enabled = value / 4 % 2 == 1;
                self.timer_clock_select = match value % 4 {
                    0 => 1024,
                    1 => 16,
                    2 => 64,
                    _ => 256,
                };
                proof {
                    assert(value % 8 % 4 == value % 4) by (nonlinear_arith);
                }
            },
            _ => {
            },
        }
    }

    /// Advance the timer by the given CPU cycles.
    pub fn run(&mut self, cpu_cycles: u64)
        requires
            timer_wf(*old(self)),
            cpu_cycles <= 0x1000_0000,
        ensures
            *final(self) == timer_run_spec(*old(self), cpu_cycles),
            timer_wf(*final(self)),
    {
        let div_total: u64 = self.divi_tank + cpu_cycles;
        self.divider_register = ((self.divider_register as u64 + div_total / 256) % 256) as u8;
        self.divi_tank = div_total % 256;
        if self.timer_enabled {
            let period: u64 = self.timer_clock_select;
            let tima_total: u64 = self.tima_tank + cpu_cycles;
            let ticks: u64 = tima_total / period;
            self.tima_tank = tima_total % period;
            if ticks > 0 {
                let t = self.timer_counter as u64;
                if t + ticks <= 255 {
                    self.timer_counter = (t + ticks) as u8;
                } else {
                    let tma = self.timer_modulo as u64;
                    self.timer_counter = (tma + ((ticks - (256 - t)) % (256 - tma))) as u8;
                    self.interrupt = true;
                }
            }
        }
    }
}

} // verus!
