//! The STAT register (0xFF41): the interrupt-source enables and the
//! coincidence bit written by the PPU, together with the current mode in its
//! two low bits.

use vstd::prelude::*;

use crate::enums::Mode;
use crate::enums::mode_bits;
use crate::lcdc::bit_at;

verus! {

#[derive(Clone, Copy, PartialEq, Eq, Structural, Debug)]
pub struct LCDS {
    /// Bits 2 through 6 of STAT: the enables and the coincidence flag.
    pub value: u8,
    /// The PPU mode reported in bits 1..0.
    pub mode: Mode,
}

/// The byte a STAT read returns: the stored bits 2..6 with the mode in the
/// two low bits.
pub open spec fn lcds_read_spec(s: LCDS) -> u8 {
    (s.value / 4 * 4 + mode_bits(s.mode)) as u8
}

impl LCDS {
    pub fn new() -> (r: LCDS)
        ensures
            r.value == 0,
            r.mode == Mode::Mode0,
    {
        LCDS { value: 0, mode: Mode::Mode0 }
    }

    pub fn read(&self) -> (r: u8)
        ensures
            r == lcds_read_spec(*self),
    {
        self.value / 4 * 4 + match self.mode {
            Mode::Mode0 => 0,
            Mode::Mode1 => 1,
            Mode::Mode2 => 2,
            Mode::Mode3 => 3,
        }
    }

    /// A write lands in the enable bits; the coincidence flag and the mode
    /// stay with the PPU.
    pub fn write(&mut self, value: u8)
        ensures
            *final(self) == (LCDS {
                value: (value / 8 % 16 * 8 + old(self).value % 8) as u8,
                ..*old(self)
            }),
    {
        self.value = value / 8 % 16 * 8 + self.value % 8;
    }

    /// Report the mode the PPU entered.
    pub fn set_mode(&mut self, mode: Mode)
        ensures
            *final(self) == (LCDS { mode, ..*old(self) }),
    {
        self.mode = mode;
    }

    /// Set or clear the coincidence flag, bit 2.
    pub fn set_coincidence(&mut self, on: bool)
        ensures
            *final(self) == (LCDS {
                value: (old(self).value / 8 * 8 + (if on {
                    4int
                } else {
                    0int
                }) + old(self).value % 4) as u8,
                ..*old(self)
            }),
    {
        if on {
            self.value = self.value / 8 * 8 + 4 + self.value % 4;
        } else {
            self.value = self.value / 8 * 8 + self.value % 4;
        }
    }

    /// Bit 6: the LYC coincidence interrupt enable.
    pub fn lyc_interrupt(&self) -> (r: bool)
        ensures
            r == bit_at(self.value, 64),
    {
        self.value / 64 % 2 == 1
    }

    /// Bit 5: the mode 2 (OAM search) interrupt enable.
    pub fn mode_2_oam_interrupt(&self) -> (r: bool)
        ensures
            r == bit_at(self.value, 32),
    {
        self.value / 32 % 2 == 1
    }

    /// Bit 4: the mode 1 (VBlank) interrupt enable.
    pub fn mode_1_v_blank_interrupt(&self) -> (r: bool)
        ensures
            r == bit_at(self.value, 16),
    {
        self.value / 16 % 2 == 1
    }

    /// Bit 3: the mode 0 (HBlank) interrupt enable.
    pub fn mode_0_h_blank_interrupt(&self) -> (r: bool)
        ensures
            r == bit_at(self.value, 8),
    {
        self.value / 8 % 2 == 1
    }

    /// Bit 2: the coincidence flag.
    pub fn coincidence_flag(&self) -> (r: bool)
        ensures
            r == bit_at(self.value, 4),
    {
        self.value / 4 % 2 == 1
    }

    /// The current PPU mode.
    pub fn mode_flag(&self) -> (r: Mode)
        ensures
            r == self.mode,
    {
        self.mode
    }
}

} // verus!
