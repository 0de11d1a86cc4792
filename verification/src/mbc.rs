//! Memory bank controllers: the cartridge-resident chips that map the two
//! ROM windows (0x0000-0x3FFF and 0x4000-0x7FFF) and the external RAM window
//! (0xA000-0xBFFF) onto the raw ROM image and the cartridge RAM.

use vstd::prelude::*;

use crate::cartridge::Cartridge;
use crate::cartridge::valid_rom;
use crate::util::zero_vec;

verus! {

pub const RAM_BANK_SIZE: usize = 0x2000;

/// The RAM size codes the cartridge header defines; any other code is a
/// fatal initialization error for a controller with external RAM.
pub open spec fn valid_ram_size_code(ram_size: u8) -> bool {
    ram_size == 0 || ram_size == 2 || ram_size == 3 || ram_size == 4 || ram_size == 5
}

/// External RAM banks for a defined RAM size code of the cartridge header.
pub open spec fn ram_banks(ram_size: u8) -> nat {
    match ram_size {
        0 => 0,
        2 => 1,
        3 => 4,
        4 => 16,
        5 => 8,
        _ => 0,
    }
}

/// Check a header's RAM size code against the defined table.
pub fn is_valid_ram_size_code(ram_size: u8) -> (r: bool)
    ensures
        r == valid_ram_size_code(ram_size),
{
    ram_size == 0 || ram_size == 2 || ram_size == 3 || ram_size == 4 || ram_size == 5
}

/// Allocate the external RAM that a cartridge's RAM size code asks for,
/// zero-filled; a code outside the header's table is a fatal error the
/// caller must have rejected.
pub fn create_ram(ram_size: u8) -> (r: Vec<u8>)
    requires
        valid_ram_size_code(ram_size),
    ensures
        r@.len() == ram_banks(ram_size) * RAM_BANK_SIZE,
        forall|i: int| 0 <= i < r@.len() ==> r@[i] == 0u8,
{
    let banks: usize = if ram_size == 0 {
        0
    } else if ram_size == 2 {
        1
    } else if ram_size == 3 {
        4
    } else if ram_size == 4 {
        16
    } else {
        8
    };
    zero_vec(banks * RAM_BANK_SIZE)
}

// ------------------------------------------------------------------
// MBC0: plain ROM pass-through, no external RAM.
// ------------------------------------------------------------------
pub struct MBC0 {
    pub cartridge: Cartridge,
}

pub ghost struct Mbc0View {
    pub rom: Seq<u8>,
}

impl View for MBC0 {
    type V = Mbc0View;

    open spec fn view(&self) -> Mbc0View {
        Mbc0View { rom: self.cartridge.rom@ }
    }
}

pub open spec fn mbc0_read(v: Mbc0View, addr: u16) -> u8 {
    if addr < 0x8000 {
        v.rom[addr as int]
    } else {
        0xFF
    }
}

impl MBC0 {
    pub fn new(cartridge: Cartridge) -> (r: MBC0)
        ensures
            r@.rom == cartridge.rom@,
    {
        MBC0 { cartridge }
    }

    pub fn read(&self, address: u16) -> (r: u8)
        requires
            valid_rom(self@.rom),
        ensures
            r == mbc0_read(self@, address),
    {
        if address < 0x8000 {
            self.cartridge.rom[address as usize]
        } else {
            0xFF
        }
    }

    /// MBC0 has no control registers: every write is absorbed.
    pub fn write(&mut self, address: u16, value: u8)
        ensures
            *final(self) == *old(self),
    {
    }
}

// ------------------------------------------------------------------
// MBC1: 5-bit and 2-bit bank latches with a mode switch.
// ------------------------------------------------------------------
pub struct MBC1 {
    pub cartridge: Cartridge,
    pub bank1: u8,
    pub bank2: u8,
    pub mode: u8,
    pub ram: Vec<u8>,
    pub ram_enabled: bool,
}

pub ghost struct Mbc1View {
    pub rom: Seq<u8>,
    pub ram: Seq<u8>,
    pub bank1: u8,
    pub bank2: u8,
    pub mode: u8,
    pub ram_enabled: bool,
}

impl View for MBC1 {
    type V = Mbc1View;

    open spec fn view(&self) -> Mbc1View {
        Mbc1View {
            rom: self.cartridge.rom@,
            ram: self.ram@,
            bank1: self.bank1,
            bank2: self.bank2,
            mode: self.mode,
            ram_enabled: self.ram_enabled,
        }
    }
}

/// The ROM bank that reads of 0x4000-0x7FFF go through: the two latches
/// joined, with a zero low latch corrected to one.
pub open spec fn mbc1_effective_bank(bank1: u8, bank2: u8) -> int {
    bank2 * 32 + (if bank1 % 32 == 0 {
        1int
    } else {
        (bank1 % 32) as int
    })
}

/// The external RAM index for an access at `addr`: direct in mode 0,
/// selected by the high latch in mode 1.
pub open spec fn mbc1_ram_index(v: Mbc1View, addr: u16) -> int {
    if v.mode == 0 {
        (addr % 0x2000) as int
    } else {
        v.bank2 * 0x2000 + addr % 0x2000
    }
}

pub open spec fn mbc1_read(v: Mbc1View, addr: u16) -> u8 {
    if addr < 0x4000 {
        if v.mode == 0 {
            v.rom[addr as int]
        } else {
            v.rom[(v.bank2 * 32 * 0x4000 + addr) % (v.rom.len() as int)]
        }
    } else if addr < 0x8000 {
        v.rom[(mbc1_effective_bank(v.bank1, v.bank2) * 0x4000 + addr % 0x4000) % (
        v.rom.len() as int)]
    } else if 0xA000 <= addr < 0xC000 {
        if v.ram_enabled && mbc1_ram_index(v, addr) < v.ram.len() {
            v.ram[mbc1_ram_index(v, addr)]
        } else {
            0xFF
        }
    } else {
        0xFF
    }
}

pub open spec fn mbc1_write(v: Mbc1View, addr: u16, value: u8) -> Mbc1View {
    if addr < 0x2000 {
        Mbc1View { ram_enabled: value % 16 == 0x0A, ..v }
    } else if addr < 0x4000 {
        Mbc1View {
            bank1: if value % 32 == 0 {
                1u8
            } else {
                (value % 32) as u8
            },
            ..v
        }
    } else if addr < 0x6000 {
        Mbc1View { bank2: (value % 4) as u8, ..v }
    } else if addr < 0x8000 {
        Mbc1View { mode: (value % 2) as u8, ..v }
    } else if 0xA000 <= addr < 0xC000 {
        if v.ram_enabled && mbc1_ram_index(v, addr) < v.ram.len() {
            Mbc1View { ram: v.ram.update(mbc1_ram_index(v, addr), value), ..v }
        } else {
            v
        }
    } else {
        v
    }
}

impl MBC1 {
    pub fn new(cartridge: Cartridge) -> (r: MBC1)
        requires
            cartridge.wf(),
            valid_ram_size_code(cartridge.ram_size),
        ensures
            r@.rom == cartridge.rom@,
            r@.bank1 == 1 && r@.bank2 == 0 && r@.mode == 0 && !r@.ram_enabled,
            r@.ram.len() == ram_banks(cartridge.ram_size) * RAM_BANK_SIZE,
    {
        let ram = create_ram(cartridge.ram_size());
        MBC1 { cartridge, bank1: 1, bank2: 0, mode: 0, ram, ram_enabled: false }
    }

    pub fn read(&self, address: u16) -> (r: u8)
        requires
            valid_rom(self@.rom),
        ensures
            r == mbc1_read(self@, address),
    {
        let rom_len: usize = self.cartridge.rom.len();
        if address < 0x4000 {
            if self.mode == 0 {
                self.cartridge.rom[address as usize]
            } else {
                self.cartridge.rom[((self.bank2 as usize) * 32 * 0x4000 + address as usize)
                    % rom_len]
            }
        } else if address < 0x8000 {
            let bank: usize = (self.bank2 as usize) * 32 + (if self.bank1 % 32 == 0 {
                1
            } else {
                (self.bank1 % 32) as usize
            });
            self.cartridge.rom[(bank * 0x4000 + (address as usize) % 0x4000) % rom_len]
        } else if 0xA000 <= address && address < 0xC000 {
            let idx: usize = if self.mode == 0 {
                (address as usize) % 0x2000
            } else {
                (self.bank2 as usize) * 0x2000 + (address as usize) % 0x2000
            };
            if self.ram_enabled && idx < self.ram.len() {
                self.ram[idx]
            } else {
                0xFF
            }
        } else {
            0xFF
        }
    }

    pub fn write(&mut self, address: u16, value: u8)
        ensures
            final(self)@ == mbc1_write(old(self)@, address, value),
    {
        if address < 0x2000 {
            self.ram_enabled = value % 16 == 0x0A;
        } else if address < 0x4000 {
            self.bank1 = if value % 32 == 0 {
                1
            } else {
                value % 32
            };
        } else if address < 0x6000 {
            self.bank2 = value % 4;
        } else if address < 0x8000 {
            self.mode = value % 2;
        } else if 0xA000 <= address && address < 0xC000 {
            let idx: usize = if self.mode == 0 {
                (address as usize) % 0x2000
            } else {
                (self.bank2 as usize) * 0x2000 + (address as usize) % 0x2000
            };
            if self.ram_enabled && idx < self.ram.len() {
                self.ram.set(idx, value);
            }
        }
    }
}

// ------------------------------------------------------------------
// MBC2: a single selector register and 512 nibbles of internal RAM.
// ------------------------------------------------------------------
pub struct MBC2 {
    pub cartridge: Cartridge,
    pub rom_bank: u8,
    pub ram: Vec<u8>,
    pub ram_enabled: bool,
}

pub ghost struct Mbc2View {
    pub rom: Seq<u8>,
    pub ram: Seq<u8>,
    pub rom_bank: u8,
    pub ram_enabled: bool,
}

impl View for MBC2 {
    type V = Mbc2View;

    open spec fn view(&self) -> Mbc2View {
        Mbc2View {
            rom: self.cartridge.rom@,
            ram: self.ram@,
            rom_bank: self.rom_bank,
            ram_enabled: self.ram_enabled,
        }
    }
}

pub open spec fn mbc2_read(v: Mbc2View, addr: u16) -> u8 {
    if addr < 0x4000 {
        v.rom[addr as int]
    } else if addr < 0x8000 {
        v.rom[(v.rom_bank * 0x4000 + addr % 0x4000) % (v.rom.len() as int)]
    } else if 0xA000 <= addr < 0xC000 {
        if v.ram_enabled {
            v.ram[(addr % 512) as int]
        } else {
            0xFF
        }
    } else {
        0xFF
    }
}

pub open spec fn mbc2_write(v: Mbc2View, addr: u16, value: u8) -> Mbc2View {
    if addr < 0x4000 {
        if addr / 256 % 2 == 1 {
            Mbc2View {
                rom_bank: if value % 16 == 0 {
                    1u8
                } else {
                    (value % 16) as u8
                },
                ..v
            }
        } else {
            Mbc2View { ram_enabled: value % 16 == 0x0A, ..v }
        }
    } else if 0xA000 <= addr < 0xC000 {
        if v.ram_enabled && v.ram.len() == 512 {
            Mbc2View { ram: v.ram.update((addr % 512) as int, (value % 16) as u8), ..v }
        } else {
            v
        }
    } else {
        v
    }
}

impl MBC2 {
    pub fn new(cartridge: Cartridge) -> (r: MBC2)
        ensures
            r@.rom == cartridge.rom@,
            r@.rom_bank == 1 && !r@.ram_enabled,
            r@.ram.len() == 512,
    {
        let ram = zero_vec(512);
        MBC2 { cartridge, rom_bank: 1, ram, ram_enabled: false }
    }

    pub fn read(&self, address: u16) -> (r: u8)
        requires
            valid_rom(self@.rom),
            self@.ram.len() == 512,
        ensures
            r == mbc2_read(self@, address),
    {
        if address < 0x4000 {
            self.cartridge.rom[address as usize]
        } else if address < 0x8000 {
            self.cartridge.rom[((self.rom_bank as usize) * 0x4000 + (address as usize) % 0x4000)
                % self.cartridge.rom.len()]
        } else if 0xA000 <= address && address < 0xC000 {
            if self.ram_enabled {
                self.ram[(address as usize) % 512]
            } else {
                0xFF
            }
        } else {
            0xFF
        }
    }

    pub fn write(&mut self, address: u16, value: u8)
        ensures
            final(self)@ == mbc2_write(old(self)@, address, value),
    {
        if address < 0x4000 {
            if address / 256 % 2 == 1 {
                self.rom_bank = if value % 16 == 0 {
                    1
                } else {
                    value % 16
                };
            } else {
                self.ram_enabled = value % 16 == 0x0A;
            }
        } else if 0xA000 <= address && address < 0xC000 {
            if self.ram_enabled && self.ram.len() == 512 {
                self.ram.set((address as usize) % 512, value % 16);
            }
        }
    }
}

// ------------------------------------------------------------------
// MBC3: a 7-bit ROM bank, a RAM/RTC selector, and opaque RTC registers.
// ------------------------------------------------------------------
pub struct MBC3 {
    pub cartridge: Cartridge,
    pub rom_bank: u8,
    pub ram_select: u8,
    pub ram: Vec<u8>,
    pub rtc: Vec<u8>,
    pub ram_enabled: bool,
}

pub ghost struct Mbc3View {
    pub rom: Seq<u8>,
    pub ram: Seq<u8>,
    pub rtc: Seq<u8>,
    pub rom_bank: u8,
    pub ram_select: u8,
    pub ram_enabled: bool,
}

impl View for MBC3 {
    type V = Mbc3View;

    open spec fn view(&self) -> Mbc3View {
        Mbc3View {
            rom: self.cartridge.rom@,
            ram: self.ram@,
            rtc: self.rtc@,
            rom_bank: self.rom_bank,
            ram_select: self.ram_select,
            ram_enabled: self.ram_enabled,
        }
    }
}

pub open spec fn mbc3_ram_index(v: Mbc3View, addr: u16) -> int {
    v.ram_select * 0x2000 + addr % 0x2000
}

pub open spec fn mbc3_read(v: Mbc3View, addr: u16) -> u8 {
    if addr < 0x4000 {
        v.rom[addr as int]
    } else if addr < 0x8000 {
        v.rom[((if v.rom_bank % 128 == 0 {
            1int
        } else {
            (v.rom_bank % 128) as int
        }) * 0x4000 + addr % 0x4000) % (v.rom.len() as int)]
    } else if 0xA000 <= addr < 0xC000 {
        if !v.ram_enabled {
            0xFF
        } else if v.ram_select <= 3 && mbc3_ram_index(v, addr) < v.ram.len() {
            v.ram[mbc3_ram_index(v, addr)]
        } else if 0x08 <= v.ram_select <= 0x0C && v.rtc.len() == 5 {
            v.rtc[v.ram_select - 8]
        } else {
            0xFF
        }
    } else {
        0xFF
    }
}

pub open spec fn mbc3_write(v: Mbc3View, addr: u16, value: u8) -> Mbc3View {
    if addr < 0x2000 {
        Mbc3View { ram_enabled: value % 16 == 0x0A, ..v }
    } else if addr < 0x4000 {
        Mbc3View {
            rom_bank: if value % 128 == 0 {
                1u8
            } else {
                (value % 128) as u8
            },
            ..v
        }
    } else if addr < 0x6000 {
        Mbc3View { ram_select: value, ..v }
    } else if addr < 0x8000 {
        v
    } else if 0xA000 <= addr < 0xC000 {
        if !v.ram_enabled {
            v
        } else if v.ram_select <= 3 && mbc3_ram_index(v, addr) < v.ram.len() {
            Mbc3View { ram: v.ram.update(mbc3_ram_index(v, addr), value), ..v }
        } else if 0x08 <= v.ram_select <= 0x0C && v.rtc.len() == 5 {
            Mbc3View { rtc: v.rtc.update(v.ram_select - 8, value), ..v }
        } else {
            v
        }
    } else {
        v
    }
}

impl MBC3 {
    pub fn new(cartridge: Cartridge) -> (r: MBC3)
        requires
            cartridge.wf(),
            valid_ram_size_code(cartridge.ram_size),
        ensures
            r@.rom == cartridge.rom@,
            r@.rom_bank == 1 && r@.ram_select == 0 && !r@.ram_enabled,
            r@.ram.len() == ram_banks(cartridge.ram_size) * RAM_BANK_SIZE,
            r@.rtc.len() == 5,
    {
        let ram = create_ram(cartridge.ram_size());
        let rtc = zero_vec(5);
        MBC3 { cartridge, rom_bank: 1, ram_select: 0, ram, rtc, ram_enabled: false }
    }

    pub fn read(&self, address: u16) -> (r: u8)
        requires
            valid_rom(self@.rom),
        ensures
            r == mbc3_read(self@, address),
    {
        if address < 0x4000 {
            self.cartridge.rom[address as usize]
        } else if address < 0x8000 {
            let bank: usize = if self.rom_bank % 128 == 0 {
                1
            } else {
                (self.rom_bank % 128) as usize
            };
            self.cartridge.rom[(bank * 0x4000 + (address as usize) % 0x4000)
                % self.cartridge.rom.len()]
        } else if 0xA000 <= address && address < 0xC000 {
            let idx: usize = (self.ram_select as usize) * 0x2000 + (address as usize) % 0x2000;
            if !self.ram_enabled {
                0xFF
            } else if self.ram_select <= 3 && idx < self.ram.len() {
                self.ram[idx]
            } else if 0x08 <= self.ram_select && self.ram_select <= 0x0C && self.rtc.len() == 5 {
                self.rtc[(self.ram_select - 8) as usize]
            } else {
                0xFF
            }
        } else {
            0xFF
        }
    }

    pub fn write(&mut self, address: u16, value: u8)
        ensures
            final(self)@ == mbc3_write(old(self)@, address, value),
    {
        if address < 0x2000 {
            self.ram_enabled = value % 16 == 0x0A;
        } else if address < 0x4000 {
            self.rom_bank = if value % 128 == 0 {
                1
            } else {
                value % 128
            };
        } else if address < 0x6000 {
            self.ram_select = value;
        } else if address < 0x8000 {
            // The RTC latch sequence: the clock itself is out of scope.
        } else if 0xA000 <= address && address < 0xC000 {
            let idx: usize = (self.ram_select as usize) * 0x2000 + (address as usize) % 0x2000;
            if !self.ram_enabled {
            } else if self.ram_select <= 3 && idx < self.ram.len() {
                self.ram.set(idx, value);
            } else if 0x08 <= self.ram_select && self.ram_select <= 0x0C && self.rtc.len() == 5 {
                self.rtc.set((self.ram_select - 8) as usize, value);
            }
        }
    }
}

// ------------------------------------------------------------------
// MBC5: a 9-bit ROM bank split over two registers.
// ------------------------------------------------------------------
pub struct MBC5 {
    pub cartridge: Cartridge,
    pub bank1: u8,
    pub bank2: u8,
    pub ram: Vec<u8>,
    pub ram_bank: u8,
    pub ram_enabled: bool,
    pub rumble: bool,
}

pub ghost struct Mbc5View {
    pub rom: Seq<u8>,
    pub ram: Seq<u8>,
    pub bank1: u8,
    pub bank2: u8,
    pub ram_bank: u8,
    pub ram_enabled: bool,
    pub rumble: bool,
}

impl View for MBC5 {
    type V = Mbc5View;

    open spec fn view(&self) -> Mbc5View {
        Mbc5View {
            rom: self.cartridge.rom@,
            ram: self.ram@,
            bank1: self.bank1,
            bank2: self.bank2,
            ram_bank: self.ram_bank,
            ram_enabled: self.ram_enabled,
            rumble: self.rumble,
        }
    }
}

pub open spec fn mbc5_ram_index(v: Mbc5View, addr: u16) -> int {
    v.ram_bank * 0x2000 + addr % 0x2000
}

pub open spec fn mbc5_read(v: Mbc5View, addr: u16) -> u8 {
    if addr < 0x4000 {
        v.rom[addr as int]
    } else if addr < 0x8000 {
        v.rom[((v.bank2 * 256 + v.bank1) * 0x4000 + addr % 0x4000) % (v.rom.len() as int)]
    } else if 0xA000 <= addr < 0xC000 {
        if v.ram_enabled && mbc5_ram_index(v, addr) < v.ram.len() {
            v.ram[mbc5_ram_index(v, addr)]
        } else {
            0xFF
        }
    } else {
        0xFF
    }
}

pub open spec fn mbc5_write(v: Mbc5View, addr: u16, value: u8) -> Mbc5View {
    if addr < 0x2000 {
        Mbc5View { ram_enabled: value == 0x0A, ..v }
    } else if addr < 0x3000 {
        Mbc5View { bank1: value, ..v }
    } else if addr < 0x4000 {
        Mbc5View { bank2: (value % 2) as u8, ..v }
    } else if addr < 0x6000 {
        Mbc5View { ram_bank: (value % 4) as u8, rumble: value / 4 % 2 == 1, ..v }
    } else if 0xA000 <= addr < 0xC000 {
        if v.ram_enabled && mbc5_ram_index(v, addr) < v.ram.len() {
            Mbc5View { ram: v.ram.update(mbc5_ram_index(v, addr), value), ..v }
        } else {
            v
        }
    } else {
        v
    }
}

impl MBC5 {
    pub fn new(cartridge: Cartridge) -> (r: MBC5)
        requires
            cartridge.wf(),
            valid_ram_size_code(cartridge.ram_size),
        ensures
            r@.rom == cartridge.rom@,
            r@.bank1 == 1 && r@.bank2 == 0 && r@.ram_bank == 0 && !r@.ram_enabled && !r@.rumble,
            r@.ram.len() == ram_banks(cartridge.ram_size) * RAM_BANK_SIZE,
    {
        let ram = create_ram(cartridge.ram_size());
        MBC5 { cartridge, bank1: 1, bank2: 0, ram, ram_bank: 0, ram_enabled: false, rumble: false }
    }

    pub fn read(&self, address: u16) -> (r: u8)
        requires
            valid_rom(self@.rom),
        ensures
            r == mbc5_read(self@, address),
    {
        if address < 0x4000 {
            self.cartridge.rom[address as usize]
        } else if address < 0x8000 {
            let bank: usize = (self.bank2 as usize) * 256 + self.bank1 as usize;
            self.cartridge.rom[(bank * 0x4000 + (address as usize) % 0x4000)
                % self.cartridge.rom.len()]
        } else if 0xA000 <= address && address < 0xC000 {
            let idx: usize = (self.ram_bank as usize) * 0x2000 + (address as usize) % 0x2000;
            if self.ram_enabled && idx < self.ram.len() {
                self.ram[idx]
            } else {
                0xFF
            }
        } else {
            0xFF
        }
    }

    pub fn write(&mut self, address: u16, value: u8)
        ensures
            final(self)@ == mbc5_write(old(self)@, address, value),
    {
        if address < 0x2000 {
            self.ram_enabled = value == 0x0A;
        } else if address < 0x3000 {
            self.bank1 = value;
        } else if address < 0x4000 {
            self.bank2 = value % 2;
        } else if address < 0x6000 {
            self.ram_bank = value % 4;
            self.rumble = value / 4 % 2 == 1;
        } else if 0xA000 <= address && address < 0xC000 {
            let idx: usize = (self.ram_bank as usize) * 0x2000 + (address as usize) % 0x2000;
            if self.ram_enabled && idx < self.ram.len() {
                self.ram.set(idx, value);
            }
        }
    }
}

// ------------------------------------------------------------------
// The controller chosen by the cartridge-type header byte.
// ------------------------------------------------------------------
pub enum Mbc {
    Mbc0(MBC0),
    Mbc1(MBC1),
    Mbc2(MBC2),
    Mbc3(MBC3),
    Mbc5(MBC5),
}

pub ghost enum MbcView {
    Mbc0(Mbc0View),
    Mbc1(Mbc1View),
    Mbc2(Mbc2View),
    Mbc3(Mbc3View),
    Mbc5(Mbc5View),
}

impl View for Mbc {
    type V = MbcView;

    open spec fn view(&self) -> MbcView {
        match self {
            Mbc::Mbc0(m) => MbcView::Mbc0(m@),
            Mbc::Mbc1(m) => MbcView::Mbc1(m@),
            Mbc::Mbc2(m) => MbcView::Mbc2(m@),
            Mbc::Mbc3(m) => MbcView::Mbc3(m@),
            Mbc::Mbc5(m) => MbcView::Mbc5(m@),
        }
    }
}

pub open spec fn mbc_wf(v: MbcView) -> bool {
    match v {
        MbcView::Mbc0(m) => valid_rom(m.rom),
        MbcView::Mbc1(m) => valid_rom(m.rom),
        MbcView::Mbc2(m) => valid_rom(m.rom) && m.ram.len() == 512,
        MbcView::Mbc3(m) => valid_rom(m.rom),
        MbcView::Mbc5(m) => valid_rom(m.rom),
    }
}

pub open spec fn mbc_read(v: MbcView, addr: u16) -> u8 {
    match v {
        MbcView::Mbc0(m) => mbc0_read(m, addr),
        MbcView::Mbc1(m) => mbc1_read(m, addr),
        MbcView::Mbc2(m) => mbc2_read(m, addr),
        MbcView::Mbc3(m) => mbc3_read(m, addr),
        MbcView::Mbc5(m) => mbc5_read(m, addr),
    }
}

pub open spec fn mbc_write(v: MbcView, addr: u16, value: u8) -> MbcView {
    match v {
        MbcView::Mbc0(m) => MbcView::Mbc0(m),
        MbcView::Mbc1(m) => MbcView::Mbc1(mbc1_write(m, addr, value)),
        MbcView::Mbc2(m) => MbcView::Mbc2(mbc2_write(m, addr, value)),
        MbcView::Mbc3(m) => MbcView::Mbc3(mbc3_write(m, addr, value)),
        MbcView::Mbc5(m) => MbcView::Mbc5(mbc5_write(m, addr, value)),
    }
}

/// A write keeps a controller well formed: the ROM never changes and the RAM
/// keeps its length.
pub broadcast proof fn lemma_mbc_write_wf(v: MbcView, addr: u16, value: u8)
    requires
        mbc_wf(v),
    ensures
        #![trigger mbc_write(v, addr, value)]
        mbc_wf(mbc_write(v, addr, value)),
{
}

/// Cartridge-type header bytes that select an implemented controller.
pub open spec fn supported_cartridge_type(t: u8) -> bool {
    t == 0x00 || (0x01 <= t <= 0x03) || (0x05 <= t <= 0x06) || (0x0F <= t <= 0x13) || (0x19 <= t
        <= 0x1E)
}

/// Cartridge types whose controller allocates external RAM from the
/// header's RAM size code.
pub open spec fn uses_external_ram(t: u8) -> bool {
    (0x01 <= t <= 0x03) || (0x0F <= t <= 0x13) || (0x19 <= t <= 0x1E)
}

/// A header the crate can initialise from: an implemented controller, and a
/// defined RAM size code wherever the controller allocates external RAM.
pub open spec fn supported_cartridge(cartridge: Cartridge) -> bool {
    supported_cartridge_type(cartridge.cartridge_type) && (uses_external_ram(
        cartridge.cartridge_type,
    ) ==> valid_ram_size_code(cartridge.ram_size))
}

impl Mbc {
    pub fn read(&self, address: u16) -> (r: u8)
        requires
            mbc_wf(self@),
        ensures
            r == mbc_read(self@, address),
    {
        match self {
            Mbc::Mbc0(m) => m.read(address),
            Mbc::Mbc1(m) => m.read(address),
            Mbc::Mbc2(m) => m.read(address),
            Mbc::Mbc3(m) => m.read(address),
            Mbc::Mbc5(m) => m.read(address),
        }
    }

    pub fn write(&mut self, address: u16, value: u8)
        ensures
            final(self)@ == mbc_write(old(self)@, address, value),
    {
        match self {
            Mbc::Mbc0(m) => m.write(address, value),
            Mbc::Mbc1(m) => m.write(address, value),
            Mbc::Mbc2(m) => m.write(address, value),
            Mbc::Mbc3(m) => m.write(address, value),
            Mbc::Mbc5(m) => m.write(address, value),
        }
    }
}

/// Build the controller that the cartridge header selects; `None` exactly
/// when the type is not an implemented controller, or the controller has
/// external RAM and the RAM size code is not one the header defines: both
/// fatal initialization errors for the caller.
pub fn from(cartridge: Cartridge) -> (r: Option<Mbc>)
    requires
        cartridge.wf(),
    ensures
        r is Some <==> supported_cartridge(cartridge),
        r is Some ==> mbc_wf(r->0@),
        cartridge.cartridge_type == 0x00 ==> (r->0@ matches MbcView::Mbc0(m) && m.rom
            == cartridge.rom@),
        r is Some && 0x01 <= cartridge.cartridge_type <= 0x03 ==> (r->0@ matches MbcView::Mbc1(m)
            && m.rom == cartridge.rom@ && m.bank1 == 1 && m.bank2 == 0 && m.mode == 0
            && !m.ram_enabled && m.ram.len() == ram_banks(cartridge.ram_size) * RAM_BANK_SIZE),
        0x05 <= cartridge.cartridge_type <= 0x06 ==> (r->0@ matches MbcView::Mbc2(m) && m.rom
            == cartridge.rom@ && m.rom_bank == 1 && !m.ram_enabled && m.ram.len() == 512),
        r is Some && 0x0F <= cartridge.cartridge_type <= 0x13 ==> (r->0@ matches MbcView::Mbc3(m)
            && m.rom == cartridge.rom@ && m.rom_bank == 1 && m.ram_select == 0 && !m.ram_enabled
            && m.ram.len() == ram_banks(cartridge.ram_size) * RAM_BANK_SIZE && m.rtc.len() == 5),
        r is Some && 0x19 <= cartridge.cartridge_type <= 0x1E ==> (r->0@ matches MbcView::Mbc5(m)
            && m.rom == cartridge.rom@ && m.bank1 == 1 && m.bank2 == 0 && m.ram_bank == 0
            && !m.ram_enabled && m.ram.len() == ram_banks(cartridge.ram_size) * RAM_BANK_SIZE),
{
    let t = cartridge.cartridge_type();
    if t == 0x00 {
        Some(Mbc::Mbc0(MBC0::new(cartridge)))
    } else if 0x05 <= t && t <= 0x06 {
        Some(Mbc::Mbc2(MBC2::new(cartridge)))
    } else if !(0x01 <= t && t <= 0x03) && !(0x0F <= t && t <= 0x13) && !(0x19 <= t && t
        <= 0x1E) {
        None
    } else if !is_valid_ram_size_code(cartridge.ram_size()) {
        None
    } else if 0x01 <= t && t <= 0x03 {
        Some(Mbc::Mbc1(MBC1::new(cartridge)))
    } else if 0x0F <= t && t <= 0x13 {
        Some(Mbc::Mbc3(MBC3::new(cartridge)))
    } else {
        Some(Mbc::Mbc5(MBC5::new(cartridge)))
    }
}

/// Selecting banks on MBC1 and then reading the switchable window hits the
/// bank ((bank2 << 5) | bank1), with a zero bank1 corrected to one: for any
/// latch writes b1, b2 and mode m, the byte read at 0x4000 + off is the ROM
/// byte of that bank.
pub proof fn lemma_mbc1_bank_selection(v: Mbc1View, b1: u8, b2: u8, m: u8, off: u16)
    requires
        off < 0x4000,
    ensures
        ({
            let w = mbc1_write(
                mbc1_write(mbc1_write(v, 0x2000, b1), 0x4000, b2),
                0x6000,
                m,
            );
            mbc1_read(w, (0x4000 + off) as u16) == w.rom[((b2 % 4) * 32 * 0x4000 + (if b1 % 32 == 0 {
                1int
            } else {
                (b1 % 32) as int
            }) * 0x4000 + off) % (w.rom.len() as int)]
        }),
{
}

} // verus!
