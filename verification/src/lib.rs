//! A verified core of a Game Boy (DMG) emulator: the Sharp LR35902 CPU, the
//! memory-mapped I/O fabric, bank-switched cartridge controllers, the pixel
//! processing unit, and the timer, serial, and joypad devices.
//!
//! The crate holds no host I/O: ROM bytes come in as plain vectors, rendered
//! frames leave as vectors of 2-bit colour indices, and host input arrives as
//! a set of pressed buttons.

pub mod cartridge;
pub mod enums;
pub mod instructions;
pub mod joypad;
pub mod lcdc;
pub mod lcds;
pub mod mbc;
pub mod mmu;
pub mod oam;
pub mod ppu;
pub mod registers;
pub mod serial;
pub mod sound;
pub mod timer;
pub mod util;
pub mod z80;
