//! The APU as an opaque register bank: the audio registers at 0xFF10-0xFF26
//! and the wave pattern RAM at 0xFF30-0xFF3F hold their bytes verbatim for
//! read-back; no sound is synthesised.

use vstd::prelude::*;

use crate::util::zero_vec;

verus! {

pub struct Sound {
    /// The bytes of 0xFF10 through 0xFF26, in address order.
    pub regs: Vec<u8>,
    /// The wave pattern RAM: 0xFF30 through 0xFF3F.
    pub wave: Vec<u8>,
}

pub ghost struct SoundView {
    pub regs: Seq<u8>,
    pub wave: Seq<u8>,
}

impl View for Sound {
    type V = SoundView;

    open spec fn view(&self) -> SoundView {
        SoundView { regs: self.regs@, wave: self.wave@ }
    }
}

pub open spec fn sound_wf(v: SoundView) -> bool {
    v.regs.len() == 0x17 && v.wave.len() == 16
}

pub open spec fn sound_read_spec(v: SoundView, addr: u16) -> u8 {
    if 0xFF10 <= addr < 0xFF27 {
        v.regs[addr - 0xFF10]
    } else if 0xFF30 <= addr < 0xFF40 {
        v.wave[addr - 0xFF30]
    } else {
        0xFF
    }
}

pub open spec fn sound_write_spec(v: SoundView, addr: u16, value: u8) -> SoundView {
    if 0xFF10 <= addr < 0xFF27 {
        SoundView { regs: v.regs.update(addr - 0xFF10, value), ..v }
    } else if 0xFF30 <= addr < 0xFF40 {
        SoundView { wave: v.wave.update(addr - 0xFF30, value), ..v }
    } else {
        v
    }
}

impl Sound {
    pub fn new() -> (r: Sound)
        ensures
            sound_wf(r@),
            forall|i: int| 0 <= i < 0x17 ==> r@.regs[i] == 0u8,
            forall|i: int| 0 <= i < 16 ==> r@.wave[i] == 0u8,
    {
        Sound { regs: zero_vec(0x17), wave: zero_vec(16) }
    }

    pub fn read(&self, address: u16) -> (r: u8)
        requires
            sound_wf(self@),
        ensures
            r == sound_read_spec(self@, address),
    {
        if 0xFF10 <= address && address < 0xFF27 {
            self.regs[(address - 0xFF10) as usize]
        } else if 0xFF30 <= address && address < 0xFF40 {
            self.wave[(address - 0xFF30) as usize]
        } else {
            0xFF
        }
    }

    pub fn write(&mut self, address: u16, value: u8)
        requires
            sound_wf(old(self)@),
        ensures
            final(self)@ == sound_write_spec(old(self)@, address, value),
            sound_wf(final(self)@),
    {
        if 0xFF10 <= address && address < 0xFF27 {
            self.regs.set((address - 0xFF10) as usize, value);
        } else if 0xFF30 <= address && address < 0xFF40 {
            self.wave.set((address - 0xFF30) as usize, value);
        }
    }
}

} // verus!
