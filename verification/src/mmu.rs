//! The MMU: the 16-bit address decoder that owns work RAM, high RAM, the IE
//! register and every device, dispatches each byte access to its owner,
//! aggregates the interrupt-request flags, performs OAM DMA, and fans CPU
//! cycles out to the devices.

use vstd::prelude::*;

use crate::cartridge::Cartridge;
use crate::joypad::Buttons;
use crate::joypad::Joypad;
use crate::joypad::joypad_read_spec;
use crate::joypad::joypad_set_spec;
use crate::joypad::joypad_write_spec;
use crate::mbc;
use crate::mbc::Mbc;
use crate::mbc::MbcView;
use crate::mbc::mbc_read;
use crate::mbc::mbc_wf;
use crate::mbc::mbc_write;
use crate::mbc::ram_banks;
use crate::ppu::PPU;
use crate::ppu::PpuView;
use crate::ppu::ppu_read_spec;
use crate::ppu::ppu_run_spec;
use crate::ppu::ppu_wf;
use crate::ppu::ppu_write_spec;
use crate::serial::Serial;
use crate::serial::serial_read_spec;
use crate::serial::serial_run_spec;
use crate::serial::serial_write_spec;
use crate::sound::Sound;
use crate::sound::SoundView;
use crate::sound::sound_read_spec;
use crate::sound::sound_wf;
use crate::sound::sound_write_spec;
use crate::timer::Timer;
use crate::timer::timer_read_spec;
use crate::timer::timer_run_spec;
use crate::timer::timer_wf;
use crate::timer::timer_write_spec;
use crate::util::zero_vec;

verus! {

pub const W_RAM_SIZE: usize = 0x2000;

pub const H_RAM_SIZE: usize = 0x7F;

pub struct MMU {
    pub mbc: Mbc,
    pub ppu: PPU,
    pub apu: Sound,
    pub timer: Timer,
    pub joypad: Joypad,
    pub serial: Serial,
    pub w_ram: Vec<u8>,
    pub h_ram: Vec<u8>,
    /// The IE register at 0xFFFF.
    pub interrupt_enable: u8,
    /// Cycles an OAM DMA has queued for the CPU to consume.
    pub dma_pending: u64,
}

pub ghost struct MmuView {
    pub mbc: MbcView,
    pub ppu: PpuView,
    pub apu: SoundView,
    pub timer: Timer,
    pub joypad: Joypad,
    pub serial: Serial,
    pub w_ram: Seq<u8>,
    pub h_ram: Seq<u8>,
    pub ie: u8,
    pub dma_pending: u64,
}

impl View for MMU {
    type V = MmuView;

    open spec fn view(&self) -> MmuView {
        MmuView {
            mbc: self.mbc@,
            ppu: self.ppu@,
            apu: self.apu@,
            timer: self.timer,
            joypad: self.joypad,
            serial: self.serial,
            w_ram: self.w_ram@,
            h_ram: self.h_ram@,
            ie: self.interrupt_enable,
            dma_pending: self.dma_pending,
        }
    }
}

pub open spec fn mmu_wf(v: MmuView) -> bool {
    mbc_wf(v.mbc) && ppu_wf(v.ppu) && sound_wf(v.apu) && timer_wf(v.timer) && v.serial.tick_tank
        < 512 && v.w_ram.len() == W_RAM_SIZE && v.h_ram.len() == H_RAM_SIZE
}

/// The IF register at 0xFF0F, derived from the device interrupt booleans:
/// bit 0 VBlank, bit 1 STAT, bit 2 timer, bit 3 serial, bit 4 joypad.
pub open spec fn interrupt_flag_spec(v: MmuView) -> u8 {
    ((if v.ppu.vblank_interrupt {
        1int
    } else {
        0int
    }) + (if v.ppu.stat_interrupt {
        2int
    } else {
        0int
    }) + (if v.timer.interrupt {
        4int
    } else {
        0int
    }) + (if v.serial.interrupt {
        8int
    } else {
        0int
    }) + (if v.joypad.interrupt {
        16int
    } else {
        0int
    })) as u8
}

/// A write to 0xFF0F distributes the five low bits back into the devices.
pub open spec fn interrupt_flag_write_spec(v: MmuView, value: u8) -> MmuView {
    MmuView {
        ppu: PpuView {
            vblank_interrupt: value % 2 == 1,
            stat_interrupt: value / 2 % 2 == 1,
            ..v.ppu
        },
        timer: Timer { interrupt: value / 4 % 2 == 1, ..v.timer },
        serial: Serial { interrupt: value / 8 % 2 == 1, ..v.serial },
        joypad: Joypad { interrupt: value / 16 % 2 == 1, ..v.joypad },
        ..v
    }
}

pub open spec fn mmu_read_spec(v: MmuView, addr: u16) -> u8 {
    if addr < 0x8000 {
        mbc_read(v.mbc, addr)
    } else if addr < 0xA000 {
        ppu_read_spec(v.ppu, addr)
    } else if addr < 0xC000 {
        mbc_read(v.mbc, addr)
    } else if addr < 0xFE00 {
        // Work RAM and its echo both land on the same 8 KiB.
        v.w_ram[(addr % 0x2000) as int]
    } else if addr < 0xFEA0 {
        ppu_read_spec(v.ppu, addr)
    } else if addr < 0xFF00 {
        0xFF
    } else if addr == 0xFF00 {
        joypad_read_spec(v.joypad)
    } else if 0xFF01 <= addr <= 0xFF02 {
        serial_read_spec(v.serial, addr)
    } else if 0xFF04 <= addr <= 0xFF07 {
        timer_read_spec(v.timer, addr)
    } else if addr == 0xFF0F {
        interrupt_flag_spec(v)
    } else if (0xFF10 <= addr <= 0xFF26) || (0xFF30 <= addr <= 0xFF3F) {
        sound_read_spec(v.apu, addr)
    } else if 0xFF40 <= addr <= 0xFF4B {
        ppu_read_spec(v.ppu, addr)
    } else if 0xFF80 <= addr <= 0xFFFE {
        v.h_ram[addr - 0xFF80]
    } else if addr == 0xFFFF {
        v.ie
    } else {
        0xFF
    }
}

/// The OAM table that a DMA from source page `src` loads: the 160 bytes read
/// through the map at `src .. src + 0xA0`.
pub open spec fn dma_oam_spec(v: MmuView, src: u16) -> Seq<u8> {
    Seq::new(0xA0, |i: int| mmu_read_spec(v, (src + i) as u16))
}

pub open spec fn mmu_write_spec(v: MmuView, addr: u16, value: u8) -> MmuView {
    if addr < 0x8000 {
        MmuView { mbc: mbc_write(v.mbc, addr, value), ..v }
    } else if addr < 0xA000 {
        MmuView { ppu: ppu_write_spec(v.ppu, addr, value), ..v }
    } else if addr < 0xC000 {
        MmuView { mbc: mbc_write(v.mbc, addr, value), ..v }
    } else if addr < 0xFE00 {
        MmuView { w_ram: v.w_ram.update((addr % 0x2000) as int, value), ..v }
    } else if addr < 0xFEA0 {
        MmuView { ppu: ppu_write_spec(v.ppu, addr, value), ..v }
    } else if addr < 0xFF00 {
        v
    } else if addr == 0xFF00 {
        MmuView { joypad: joypad_write_spec(v.joypad, value), ..v }
    } else if 0xFF01 <= addr <= 0xFF02 {
        MmuView { serial: serial_write_spec(v.serial, addr, value), ..v }
    } else if 0xFF04 <= addr <= 0xFF07 {
        MmuView { timer: timer_write_spec(v.timer, addr, value), ..v }
    } else if addr == 0xFF0F {
        interrupt_flag_write_spec(v, value)
    } else if (0xFF10 <= addr <= 0xFF26) || (0xFF30 <= addr <= 0xFF3F) {
        MmuView { apu: sound_write_spec(v.apu, addr, value), ..v }
    } else if addr == 0xFF46 {
        MmuView {
            ppu: PpuView { oam: dma_oam_spec(v, (value * 256) as u16), ..v.ppu },
            dma_pending: if v.dma_pending <= 0xFFFF_FFFF_FFFF_FD7F {
                (v.dma_pending + 640) as u64
            } else {
                0xFFFF_FFFF_FFFF_FFFFu64
            },
            ..v
        }
    } else if 0xFF40 <= addr <= 0xFF4B {
        MmuView { ppu: ppu_write_spec(v.ppu, addr, value), ..v }
    } else if 0xFF80 <= addr <= 0xFFFE {
        MmuView { h_ram: v.h_ram.update(addr - 0xFF80, value), ..v }
    } else if addr == 0xFFFF {
        MmuView { ie: value, ..v }
    } else {
        v
    }
}

pub open spec fn mmu_read_word_spec(v: MmuView, addr: u16) -> u16 {
    (mmu_read_spec(v, addr) + 256 * mmu_read_spec(v, ((addr + 1) % 0x10000) as u16)) as u16
}

pub open spec fn mmu_write_word_spec(v: MmuView, addr: u16, value: u16) -> MmuView {
    mmu_write_spec(
        mmu_write_spec(v, addr, (value % 256) as u8),
        ((addr + 1) % 0x10000) as u16,
        (value / 256) as u8,
    )
}

/// The cycle fan-out after one CPU step: the PPU runs at four dots per CPU
/// cycle, the timer and serial port at one.
pub open spec fn mmu_run_spec(v: MmuView, cpu_cycles: u64) -> MmuView {
    MmuView {
        ppu: ppu_run_spec(v.ppu, (cpu_cycles * 4) as u64),
        timer: timer_run_spec(v.timer, cpu_cycles),
        serial: serial_run_spec(v.serial, cpu_cycles),
        ..v
    }
}

impl MMU {
    /// Build the fabric for a cartridge, devices reset and the I/O registers
    /// holding their post-boot values.
    pub fn new(cartridge: Cartridge) -> (r: MMU)
        requires
            cartridge.wf(),
            mbc::supported_cartridge(cartridge),
        ensures
            mmu_wf(r@),
            r@.ie == 0 && r@.dma_pending == 0,
            forall|i: int| 0 <= i < W_RAM_SIZE ==> r@.w_ram[i] == 0u8,
            forall|i: int| 0 <= i < H_RAM_SIZE ==> r@.h_ram[i] == 0u8,
            r@.timer == (Timer {
                divider_register: 0,
                timer_counter: 0,
                timer_modulo: 0,
                timer_control: 0,
                timer_enabled: false,
                timer_clock_select: 1024,
                divi_tank: 0,
                tima_tank: 0,
                interrupt: false,
            }),
            r@.serial == (Serial {
                serial_transfer_data: 0,
                serial_transfer_control: 0,
                interrupt: false,
                tick_tank: 0,
            }),
            r@.joypad == (Joypad {
                bit_5: true,
                bit_4: true,
                bit_3: true,
                bit_2: true,
                bit_1: true,
                bit_0: true,
                interrupt: false,
            }),
            r@.ppu.lcdc == 0x91 && r@.ppu.bgp == 0xFC && r@.ppu.obp0 == 0xFF && r@.ppu.obp1
                == 0xFF,
            r@.ppu.scy == 0 && r@.ppu.scx == 0 && r@.ppu.ly == 0 && r@.ppu.lyc == 0 && r@.ppu.wy
                == 0 && r@.ppu.wx == 0,
            r@.ppu.clock == 0 && r@.ppu.frames == 0 && r@.ppu.mode
                == crate::enums::Mode::Mode0 && r@.ppu.lcds.value == 0,
            !r@.ppu.vblank_interrupt && !r@.ppu.stat_interrupt,
            forall|i: int| 0 <= i < 0x2000 ==> r@.ppu.vram[i] == 0u8,
            forall|i: int| 0 <= i < 0xA0 ==> r@.ppu.oam[i] == 0u8,
            forall|i: int|
                0 <= i < 160 * 144 ==> r@.ppu.fb[i] == 0u8,
            r@.apu.regs =~= seq![
                0x80u8, 0xBF, 0xF3, 0x00, 0xBF, 0x00, 0x3F, 0x00, 0x00, 0xBF, 0x7F, 0xFF, 0x9F,
                0x00, 0xBF, 0x00, 0xFF, 0x00, 0x00, 0xBF, 0x77, 0xF3, 0xF1,
            ],
            cartridge.cartridge_type == 0x00 ==> (r@.mbc matches MbcView::Mbc0(m) && m.rom
                == cartridge.rom@),
            0x01 <= cartridge.cartridge_type <= 0x03 ==> (r@.mbc matches MbcView::Mbc1(m) && m.rom
                == cartridge.rom@ && m.bank1 == 1 && m.bank2 == 0 && m.mode == 0 && !m.ram_enabled
                && m.ram.len() == ram_banks(cartridge.ram_size) * 0x2000),
            0x05 <= cartridge.cartridge_type <= 0x06 ==> (r@.mbc matches MbcView::Mbc2(m) && m.rom
                == cartridge.rom@ && m.rom_bank == 1 && !m.ram_enabled),
            0x0F <= cartridge.cartridge_type <= 0x13 ==> (r@.mbc matches MbcView::Mbc3(m) && m.rom
                == cartridge.rom@ && m.rom_bank == 1 && m.ram_select == 0 && !m.ram_enabled),
            0x19 <= cartridge.cartridge_type <= 0x1E ==> (r@.mbc matches MbcView::Mbc5(m) && m.rom
                == cartridge.rom@ && m.bank1 == 1 && m.bank2 == 0 && m.ram_bank == 0
                && !m.ram_enabled),
    {
        let controller = match mbc::from(cartridge) {
            Some(c) => c,
            None => {
                // Unreachable: the cartridge type is supported by precondition.
                proof {
                    assert(false);
                }
                unreached()
            },
        };
        let mut ppu = PPU::new();
        ppu.write(0xFF40, 0x91);
        ppu.write(0xFF42, 0x00);
        ppu.write(0xFF43, 0x00);
        ppu.write(0xFF45, 0x00);
        ppu.write(0xFF47, 0xFC);
        ppu.write(0xFF48, 0xFF);
        ppu.write(0xFF49, 0xFF);
        ppu.write(0xFF4A, 0x00);
        ppu.write(0xFF4B, 0x00);
        let mut apu = Sound::new();
        apu.write(0xFF10, 0x80);
        apu.write(0xFF11, 0xBF);
        apu.write(0xFF12, 0xF3);
        apu.write(0xFF14, 0xBF);
        apu.write(0xFF16, 0x3F);
        apu.write(0xFF17, 0x00);
        apu.write(0xFF19, 0xBF);
        apu.write(0xFF1A, 0x7F);
        apu.write(0xFF1B, 0xFF);
        apu.write(0xFF1C, 0x9F);
        apu.write(0xFF1E, 0xBF);
        apu.write(0xFF20, 0xFF);
        apu.write(0xFF21, 0x00);
        apu.write(0xFF22, 0x00);
        apu.write(0xFF23, 0xBF);
        apu.write(0xFF24, 0x77);
        apu.write(0xFF25, 0xF3);
        apu.write(0xFF26, 0xF1);
        proof {
            assert(apu@.regs =~= seq![
                0x80u8, 0xBF, 0xF3, 0x00, 0xBF, 0x00, 0x3F, 0x00, 0x00, 0xBF, 0x7F, 0xFF, 0x9F,
                0x00, 0xBF, 0x00, 0xFF, 0x00, 0x00, 0xBF, 0x77, 0xF3, 0xF1,
            ]);
        }
        MMU {
            mbc: controller,
            ppu,
            apu,
            timer: Timer::new(),
            joypad: Joypad::new(),
            serial: Serial::new(),
            w_ram: zero_vec(W_RAM_SIZE),
            h_ram: zero_vec(H_RAM_SIZE),
            interrupt_enable: 0,
            dma_pending: 0,
        }
    }

    fn interrupt_flag_read(&self) -> (r: u8)
        ensures
            r == interrupt_flag_spec(self@),
    {
        let mut result: u8 = 0;
        if self.ppu.vblank_interrupt {
            result = result + 1;
        }
        if self.ppu.stat_interrupt {
            result = result + 2;
        }
        if self.timer.interrupt {
            result = result + 4;
        }
        if self.serial.interrupt {
            result = result + 8;
        }
        if self.joypad.interrupt {
            result = result + 16;
        }
        result
    }

    fn interrupt_flag_write(&mut self, value: u8)
        ensures
            final(self)@ == interrupt_flag_write_spec(old(self)@, value),
    {
        self.ppu.vblank_interrupt = value % 2 == 1;
        self.ppu.stat_interrupt = value / 2 % 2 == 1;
        self.timer.interrupt = value / 4 % 2 == 1;
        self.serial.interrupt = value / 8 % 2 == 1;
        self.joypad.interrupt = value / 16 % 2 == 1;
    }

    /// Read one byte anywhere in the 16-bit address space.
    pub fn read(&self, address: u16) -> (r: u8)
        requires
            mmu_wf(self@),
        ensures
            r == mmu_read_spec(self@, address),
    {
        if address < 0x8000 {
            self.mbc.read(address)
        } else if address < 0xA000 {
            self.ppu.read(address)
        } else if address < 0xC000 {
            self.mbc.read(address)
        } else if address < 0xFE00 {
            self.w_ram[(address as usize) % 0x2000]
        } else if address < 0xFEA0 {
            self.ppu.read(address)
        } else if address < 0xFF00 {
            0xFF
        } else if address == 0xFF00 {
            self.joypad.read()
        } else if 0xFF01 <= address && address <= 0xFF02 {
            self.serial.read(address)
        } else if 0xFF04 <= address && address <= 0xFF07 {
            self.timer.read(address)
        } else if address == 0xFF0F {
            self.interrupt_flag_read()
        } else if (0xFF10 <= address && address <= 0xFF26) || (0xFF30 <= address && address
            <= 0xFF3F) {
            self.apu.read(address)
        } else if 0xFF40 <= address && address <= 0xFF4B {
            self.ppu.read(address)
        } else if 0xFF80 <= address && address <= 0xFFFE {
            self.h_ram[(address - 0xFF80) as usize]
        } else if address == 0xFFFF {
            self.interrupt_enable
        } else {
            0xFF
        }
    }

    /// Copy 160 bytes from page `value` into OAM and queue the DMA cycle
    /// charge.
    fn dma_transfer(&mut self, value: u8)
        requires
            mmu_wf(old(self)@),
        ensures
            final(self)@ == (MmuView {
                ppu: PpuView { oam: dma_oam_spec(old(self)@, (value * 256) as u16), ..old(self)@.ppu },
                dma_pending: if old(self)@.dma_pending <= 0xFFFF_FFFF_FFFF_FD7F {
                    (old(self)@.dma_pending + 640) as u64
                } else {
                    0xFFFF_FFFF_FFFF_FFFFu64
                },
                ..old(self)@
            }),
            mmu_wf(final(self)@),
    {
        let src: u16 = (value as u16) * 256;
        let mut bytes: Vec<u8> = Vec::new();
        let mut i: usize = 0;
        while i < 0xA0
            invariant
                mmu_wf(self@),
                *self == *old(self),
                i == bytes@.len() <= 0xA0,
                src == value * 256,
                forall|j: int| 0 <= j < i ==> bytes@[j] == mmu_read_spec(self@, (src + j) as u16),
            decreases 0xA0 - i,
        {
            let b = self.read(src + i as u16);
            bytes.push(b);
            i = i + 1;
        }
        proof {
            assert(bytes@ =~= dma_oam_spec(self@, src));
        }
        self.ppu.dma_transfer(&bytes);
        self.dma_pending = if self.dma_pending <= 0xFFFF_FFFF_FFFF_FD7F {
            self.dma_pending + 640
        } else {
            0xFFFF_FFFF_FFFF_FFFF
        };
    }

    /// Write one byte anywhere in the 16-bit address space.
    #[verifier::rlimit(60)]
    pub fn write(&mut self, address: u16, value: u8)
        requires
            mmu_wf(old(self)@),
        ensures
            final(self)@ == mmu_write_spec(old(self)@, address, value),
            mmu_wf(final(self)@),
    {
        if address < 0x8000 {
            self.mbc.write(address, value);
        } else if address < 0xA000 {
            self.ppu.write(address, value);
        } else if address < 0xC000 {
            self.mbc.write(address, value);
        } else if address < 0xFE00 {
            self.w_ram.set((address as usize) % 0x2000, value);
        } else if address < 0xFEA0 {
            self.ppu.write(address, value);
        } else if address < 0xFF00 {
        } else if address == 0xFF00 {
            self.joypad.write(value);
        } else if 0xFF01 <= address && address <= 0xFF02 {
            self.serial.write(address, value);
        } else if 0xFF04 <= address && address <= 0xFF07 {
            self.timer.write(address, value);
        } else if address == 0xFF0F {
            self.interrupt_flag_write(value);
        } else if (0xFF10 <= address && address <= 0xFF26) || (0xFF30 <= address && address
            <= 0xFF3F) {
            self.apu.write(address, value);
        } else if address == 0xFF46 {
            self.dma_transfer(value);
        } else if 0xFF40 <= address && address <= 0xFF4B {
            self.ppu.write(address, value);
        } else if 0xFF80 <= address && address <= 0xFFFE {
            self.h_ram.set((address - 0xFF80) as usize, value);
        } else if address == 0xFFFF {
            self.interrupt_enable = value;
        }
    }

    /// Read a little-endian 16-bit word, the second byte wrapping around the
    /// address space.
    pub fn read_word(&self, address: u16) -> (r: u16)
        requires
            mmu_wf(self@),
        ensures
            r == mmu_read_word_spec(self@, address),
    {
        let lower = self.read(address);
        let upper = self.read(address.wrapping_add(1));
        (lower as u16) + 256 * (upper as u16)
    }

    /// Write a little-endian 16-bit word, low byte first.
    #[verifier::rlimit(100)]
    #[verifier::spinoff_prover]
    pub fn write_word(&mut self, address: u16, value: u16)
        requires
            mmu_wf(old(self)@),
        ensures
            final(self)@ == mmu_write_word_spec(old(self)@, address, value),
            mmu_wf(final(self)@),
    {
        let lo: u8 = (value % 256) as u8;
        let hi: u8 = (value / 256) as u8;
        self.write(address, lo);
        proof {
            assert(self@ == mmu_write_spec(old(self)@, address, lo));
        }
        let second: u16 = address.wrapping_add(1);
        self.write(second, hi);
        proof {
            assert(self@ == mmu_write_spec(
                mmu_write_spec(old(self)@, address, lo),
                second,
                hi,
            ));
        }
    }

    /// Fan one CPU step's cycles out to the devices.
    pub fn run(&mut self, cpu_cycles: u64)
        requires
            mmu_wf(old(self)@),
            cpu_cycles <= 0x10_0000,
        ensures
            final(self)@ == mmu_run_spec(old(self)@, cpu_cycles),
            mmu_wf(final(self)@),
    {
        self.ppu.run(cpu_cycles * 4);
        self.timer.run(cpu_cycles);
        self.serial.run(cpu_cycles);
    }

    /// Hand the host's pressed buttons to the joypad matrix.
    pub fn set_buttons(&mut self, pressed: Buttons)
        ensures
            final(self)@ == (MmuView {
                joypad: joypad_set_spec(old(self)@.joypad, pressed),
                ..old(self)@
            }),
    {
        self.joypad.set_buttons(pressed);
    }

    /// Take the cycles a DMA has queued, leaving none pending.
    pub fn take_dma_cycles(&mut self) -> (r: u64)
        ensures
            r == old(self)@.dma_pending,
            final(self)@ == (MmuView { dma_pending: 0, ..old(self)@ }),
    {
        let c = self.dma_pending;
        self.dma_pending = 0;
        c
    }

    /// The rendered frame: 160 by 144 2-bit colours, rows top to bottom.
    pub fn frame(&self) -> (r: &Vec<u8>)
        ensures
            r@ == self@.ppu.fb,
    {
        &self.ppu.framebuffer
    }

    /// How many frames the PPU has completed.
    pub fn frames(&self) -> (r: u64)
        ensures
            r == self@.ppu.frames,
    {
        self.ppu.frames
    }
}

/// Word writes read back: storing a word anywhere in work RAM, its echo, or
/// high RAM and reading it back at the same address yields the value, for
/// every address whose second byte stays inside those regions.
#[verifier::rlimit(100)]
#[verifier::spinoff_prover]
pub proof fn lemma_word_round_trip(v: MmuView, addr: u16, value: u16)
    requires
        mmu_wf(v),
        (0xC000 <= addr <= 0xFDFE) || (0xFF80 <= addr <= 0xFFFE),
    ensures
        mmu_read_word_spec(mmu_write_word_spec(v, addr, value), addr) == value,
{
}

} // verus!
