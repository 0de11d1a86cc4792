//! The cartridge: the raw ROM image together with the header fields the rest
//! of the system reads from it.

use vstd::prelude::*;

use crate::util::is_pow2;
use crate::util::is_power_of_two;

verus! {

/// A ROM image is valid when it covers the whole header and its size is a
/// power of two between 32 KiB and 8 MiB.
pub open spec fn valid_rom(rom: Seq<u8>) -> bool {
    0x8000 <= rom.len() <= 0x800000 && is_pow2(rom.len())
}

pub struct Cartridge {
    pub rom: Vec<u8>,
    /// Header byte 0x0143: colour-machine flag.
    pub cgb_flag: u8,
    /// Header byte 0x0147: selects the memory bank controller.
    pub cartridge_type: u8,
    /// Header byte 0x0148: the ROM size code.
    pub rom_size: u8,
    /// Header byte 0x0149: the external RAM size code.
    pub ram_size: u8,
    /// Header byte 0x014D.
    pub header_checksum: u8,
}

impl Cartridge {
    pub open spec fn wf(&self) -> bool {
        valid_rom(self.rom@) && self.cgb_flag == self.rom@[0x0143]
            && self.cartridge_type == self.rom@[0x0147] && self.rom_size == self.rom@[0x0148]
            && self.ram_size == self.rom@[0x0149] && self.header_checksum == self.rom@[0x014D]
    }

    /// Wrap a ROM image, extracting the header fields.
    pub fn new(data: Vec<u8>) -> (r: Cartridge)
        requires
            valid_rom(data@),
        ensures
            r.wf(),
            r.rom@ == data@,
    {
        let cgb_flag = data[0x0143];
        let cartridge_type = data[0x0147];
        let rom_size = data[0x0148];
        let ram_size = data[0x0149];
        let header_checksum = data[0x014D];
        Cartridge { rom: data, cgb_flag, cartridge_type, rom_size, ram_size, header_checksum }
    }

    /// Wrap a ROM image, rejecting one whose size is not a power of two
    /// between 32 KiB and 8 MiB.
    pub fn load(data: Vec<u8>) -> (r: Option<Cartridge>)
        ensures
            r is Some <==> valid_rom(data@),
            r is Some ==> r->0.wf() && r->0.rom@ == data@,
    {
        if data.len() < 0x8000 || data.len() > 0x800000 || !is_power_of_two(data.len()) {
            return None;
        }
        Some(Cartridge::new(data))
    }

    /// The cartridge-type header byte.
    pub fn cartridge_type(&self) -> (r: u8)
        ensures
            r == self.cartridge_type,
    {
        self.cartridge_type
    }

    /// The ROM size code of the header.
    pub fn rom_size(&self) -> (r: u8)
        ensures
            r == self.rom_size,
    {
        self.rom_size
    }

    /// The RAM size code of the header.
    pub fn ram_size(&self) -> (r: u8)
        ensures
            r == self.ram_size,
    {
        self.ram_size
    }

    /// The title field of the header: the bytes at 0x0134 through 0x0142.
    pub fn title(&self) -> (r: Vec<u8>)
        requires
            self.wf(),
        ensures
            r@ == self.rom@.subrange(0x0134, 0x0143),
    {
        let mut v: Vec<u8> = Vec::new();
        let mut k: usize = 0x0134;
        while k < 0x0143
            invariant
                self.wf(),
                0x0134 <= k <= 0x0143,
                v@ == self.rom@.subrange(0x0134, k as int),
            decreases 0x0143 - k,
        {
            v.push(self.rom[k]);
            proof {
                assert(v@ =~= self.rom@.subrange(0x0134, k + 1));
            }
            k = k + 1;
        }
        v
    }
}

} // verus!
