//! Sprite descriptors: the four-byte OAM entries and their flag byte.

use vstd::prelude::*;

use crate::lcdc::bit_at;

verus! {

/// The flag byte of an OAM entry.
#[derive(Clone, Copy, PartialEq, Eq, Structural, Debug)]
pub struct OAMFlags {
    /// Bit 7: the sprite hides behind background colours 1 through 3.
    pub priority: bool,
    /// Bit 6: vertical mirror.
    pub flip_y: bool,
    /// Bit 5: horizontal mirror.
    pub flip_x: bool,
    /// Bit 4: which object palette colours the sprite.
    pub palette: bool,
}

/// One sprite: a four-byte entry of the OAM table.
#[derive(Clone, Copy, PartialEq, Eq, Structural, Debug)]
pub struct OAMEntry {
    /// Screen row plus 16.
    pub y: u8,
    /// Screen column plus 8.
    pub x: u8,
    pub tile_number: u8,
    pub flags: OAMFlags,
}

/// The entry encoded by four OAM bytes.
pub open spec fn oam_entry_spec(y: u8, x: u8, tile: u8, flags: u8) -> OAMEntry {
    OAMEntry {
        y,
        x,
        tile_number: tile,
        flags: OAMFlags {
            priority: bit_at(flags, 128),
            flip_y: bit_at(flags, 64),
            flip_x: bit_at(flags, 32),
            palette: bit_at(flags, 16),
        },
    }
}

impl OAMEntry {
    /// Decode a four-byte OAM record.
    pub fn from_bytes(y: u8, x: u8, tile: u8, flags: u8) -> (r: OAMEntry)
        ensures
            r == oam_entry_spec(y, x, tile, flags),
    {
        OAMEntry {
            y,
            x,
            tile_number: tile,
            flags: OAMFlags {
                priority: flags / 128 % 2 == 1,
                flip_y: flags / 64 % 2 == 1,
                flip_x: flags / 32 % 2 == 1,
                palette: flags / 16 % 2 == 1,
            },
        }
    }
}

} // verus!
