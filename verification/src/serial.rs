//! The serial port: the SB and SC registers round-trip, the link cable
//! itself carries nothing.

use vstd::prelude::*;

verus! {

/// CPU cycles per serial tick.
pub const SERIAL_PERIOD: u64 = 512;

pub struct Serial {
    /// 0xFF01: SB, the transfer data register.
    pub serial_transfer_data: u8,
    /// 0xFF02: SC, the transfer control register.
    pub serial_transfer_control: u8,
    /// The serial interrupt request: bit 3 of IF. Never raised here, since no
    /// transfer completes without a peer.
    pub interrupt: bool,
    /// CPU cycles accumulated toward the next serial tick.
    pub tick_tank: u64,
}

pub open spec fn serial_read_spec(s: Serial, addr: u16) -> u8 {
    if addr == 0xFF01 {
        s.serial_transfer_data
    } else if addr == 0xFF02 {
        s.serial_transfer_control
    } else {
        0xFF
    }
}

pub open spec fn serial_write_spec(s: Serial, addr: u16, v: u8) -> Serial {
    if addr == 0xFF01 {
        Serial { serial_transfer_data: v, ..s }
    } else if addr == 0xFF02 {
        Serial { serial_transfer_control: v, ..s }
    } else {
        s
    }
}

pub open spec fn serial_run_spec(s: Serial, cycles: u64) -> Serial {
    Serial { tick_tank: ((s.tick_tank + cycles) % 512) as u64, ..s }
}

impl Serial {
    pub fn new() -> (r: Serial)
        ensures
            r.serial_transfer_data == 0 && r.serial_transfer_control == 0,
            !r.interrupt,
            r.tick_tank == 0,
    {
        Serial {
            serial_transfer_data: 0,
            serial_transfer_control: 0,
            interrupt: false,
            tick_tank: 0,
        }
    }

    pub fn read(&self, address: u16) -> (r: u8)
        ensures
            r == serial_read_spec(*self, address),
    {
        match address {
            0xFF01 => self.serial_transfer_data,
            0xFF02 => self.serial_transfer_control,
            _ => 0xFF,
        }
    }

    pub fn write(&mut self, address: u16, value: u8)
        ensures
            *final(self) == serial_write_spec(*old(self), address, value),
    {
        match address {
            0xFF01 => {
                self.serial_transfer_data = value;
            },
            0xFF02 => {
                self.serial_transfer_control = value;
            },
            _ => {
            },
        }
    }

    /// Advance the port by the given CPU cycles; no transfer takes place.
    pub fn run(&mut self, cpu_cycles: u64)
        requires
            old(self).tick_tank < 512,
            cpu_cycles <= 0x1000_0000,
        ensures
            *final(self) == serial_run_spec(*old(self), cpu_cycles),
            final(self).tick_tank < 512,
    {
        self.tick_tank = (self.tick_tank + cpu_cycles) % 512;
    }
}

} // verus!
