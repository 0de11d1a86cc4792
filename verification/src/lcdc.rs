//! The LCDC register (0xFF40): the LCD control byte and the fields decoded
//! from its bits.

use vstd::prelude::*;

verus! {

/// Bit `n` of a register byte, for a literal power of two `p == 2^n`.
pub open spec fn bit_at(v: u8, p: u8) -> bool {
    v / p % 2 == 1
}

#[derive(Clone, Copy, PartialEq, Eq, Structural, Debug)]
pub struct LCDC {
    pub value: u8,
}

impl LCDC {
    pub fn new() -> (r: LCDC)
        ensures
            r.value == 0,
    {
        LCDC { value: 0 }
    }

    pub fn read(&self) -> (r: u8)
        ensures
            r == self.value,
    {
        self.value
    }

    pub fn write(&mut self, value: u8)
        ensures
            final(self).value == value,
    {
        self.value = value;
    }

    /// Bit 7: whether the LCD and the PPU run at all.
    pub fn lcd_display_enable(&self) -> (r: bool)
        ensures
            r == bit_at(self.value, 128),
    {
        self.value / 128 % 2 == 1
    }

    /// Bit 6: the address range of the window tile map.
    pub fn window_tile_map_display_select(&self) -> (r: (u16, u16))
        ensures
            r == (if bit_at(self.value, 64) {
                (0x9C00u16, 0x9FFFu16)
            } else {
                (0x9800u16, 0x9BFFu16)
            }),
    {
        if self.value / 64 % 2 == 1 {
            (0x9C00, 0x9FFF)
        } else {
            (0x9800, 0x9BFF)
        }
    }

    /// Bit 5: whether the window is drawn.
    pub fn window_display_enable(&self) -> (r: bool)
        ensures
            r == bit_at(self.value, 32),
    {
        self.value / 32 % 2 == 1
    }

    /// Bit 4: the address range the background and window take tile data
    /// from.
    pub fn bg_window_tile_data_select(&self) -> (r: (u16, u16))
        ensures
            r == (if bit_at(self.value, 16) {
                (0x8000u16, 0x8FFFu16)
            } else {
                (0x8800u16, 0x97FFu16)
            }),
    {
        if self.value / 16 % 2 == 1 {
            (0x8000, 0x8FFF)
        } else {
            (0x8800, 0x97FF)
        }
    }

    /// Bit 3: the address range of the background tile map.
    pub fn bg_tile_map_display_select(&self) -> (r: (u16, u16))
        ensures
            r == (if bit_at(self.value, 8) {
                (0x9C00u16, 0x9FFFu16)
            } else {
                (0x9800u16, 0x9BFFu16)
            }),
    {
        if self.value / 8 % 2 == 1 {
            (0x9C00, 0x9FFF)
        } else {
            (0x9800, 0x9BFF)
        }
    }

    /// Bit 2: the sprite dimensions, 8 by 8 or 8 by 16.
    pub fn obj_size(&self) -> (r: (u8, u8))
        ensures
            r == (if bit_at(self.value, 4) {
                (8u8, 16u8)
            } else {
                (8u8, 8u8)
            }),
    {
        if self.value / 4 % 2 == 1 {
            (8, 16)
        } else {
            (8, 8)
        }
    }

    /// Bit 1: whether sprites are drawn.
    pub fn obj_display_enable(&self) -> (r: bool)
        ensures
            r == bit_at(self.value, 2),
    {
        self.value / 2 % 2 == 1
    }

    /// Bit 0: whether the background is drawn.
    pub fn bg_display(&self) -> (r: bool)
        ensures
            r == bit_at(self.value, 1),
    {
        self.value % 2 == 1
    }
}

} // verus!
