//! The LR35902 CPU core: the register file and status, the interrupt-master
//! latch, and the arithmetic, stack and control-flow primitives every opcode
//! builds on. The opcode tables themselves live in the instructions module.

use vstd::prelude::*;

use crate::enums::IME;
use crate::enums::Status;
use crate::mmu::MMU;
use crate::mmu::mmu_read_spec;
use crate::mmu::mmu_wf;
use crate::mmu::MmuView;
use crate::mmu::mmu_run_spec;
use crate::mmu::mmu_write_word_spec;
use crate::mmu::mmu_write_spec;
use crate::mmu::interrupt_flag_spec;
use crate::enums::ime_advance;
use crate::instructions::cb_cycles;
use crate::instructions::cb_effect;
use crate::instructions::primary_cycles;
use crate::instructions::primary_effect;
use crate::registers::Registers;
use crate::registers::c_flag;
use crate::registers::compose_flags;
use crate::registers::flags_byte;
use crate::registers::h_flag;
use crate::registers::n_flag;
use crate::registers::z_flag;

verus! {

/// A 16-bit wrap of any integer.
pub open spec fn wrap16(x: int) -> u16 {
    (x % 0x10000) as u16
}

/// An 8-bit wrap of any integer.
pub open spec fn wrap8(x: int) -> u8 {
    (x % 0x100) as u8
}

/// The signed value of a displacement byte.
pub open spec fn sext8(s: u8) -> int {
    if s < 128 {
        s as int
    } else {
        s - 256
    }
}

/// 2^b for a bit number below eight.
pub open spec fn pow2_bit(b: u8) -> u8 {
    if b == 0 {
        1
    } else if b == 1 {
        2
    } else if b == 2 {
        4
    } else if b == 3 {
        8
    } else if b == 4 {
        16
    } else if b == 5 {
        32
    } else if b == 6 {
        64
    } else {
        128
    }
}

// ------------------------------------------------------------------
// The per-operation register-file transformations of the ALU.
// ------------------------------------------------------------------
/// ADD A,t.
pub open spec fn add8_spec(rg: Registers, t: u8) -> Registers {
    Registers {
        a: wrap8(rg.a + t),
        f: flags_byte((rg.a + t) % 256 == 0, false, rg.a % 16 + t % 16 > 15, rg.a + t > 255),
        ..rg
    }
}

/// ADC A,t: ADD with the carry flag added in.
pub open spec fn adc8_spec(rg: Registers, t: u8) -> Registers {
    let cin = if c_flag(rg.f) {
        1int
    } else {
        0int
    };
    Registers {
        a: wrap8(rg.a + t + cin),
        f: flags_byte(
            (rg.a + t + cin) % 256 == 0,
            false,
            rg.a % 16 + t % 16 + cin > 15,
            rg.a + t + cin > 255,
        ),
        ..rg
    }
}

pub open spec fn sub8_val(a: u8, t: u8) -> u8 {
    (if a >= t {
        a - t
    } else {
        a + 256 - t
    }) as u8
}

/// SUB t.
pub open spec fn sub8_spec(rg: Registers, t: u8) -> Registers {
    Registers {
        a: sub8_val(rg.a, t),
        f: flags_byte(rg.a == t, true, rg.a % 16 < t % 16, rg.a < t),
        ..rg
    }
}

/// SBC A,t: SUB with the carry flag borrowed in.
pub open spec fn sbc8_spec(rg: Registers, t: u8) -> Registers {
    let cin = if c_flag(rg.f) {
        1int
    } else {
        0int
    };
    Registers {
        a: wrap8(rg.a - t - cin + 512),
        f: flags_byte(
            (rg.a - t - cin + 512) % 256 == 0,
            true,
            rg.a % 16 < t % 16 + cin,
            rg.a < t + cin,
        ),
        ..rg
    }
}

/// CP t: the flags of SUB, A untouched.
pub open spec fn cp_spec(rg: Registers, t: u8) -> Registers {
    Registers { f: flags_byte(rg.a == t, true, rg.a % 16 < t % 16, rg.a < t), ..rg }
}

pub open spec fn inc8_val(x: u8) -> u8 {
    wrap8(x + 1)
}

/// The flags INC r leaves: carry untouched.
pub open spec fn inc8_flags(f: u8, x: u8) -> u8 {
    flags_byte(x == 255, false, x % 16 == 15, c_flag(f))
}

pub open spec fn dec8_val(x: u8) -> u8 {
    wrap8(x - 1 + 256)
}

/// The flags DEC r leaves: carry untouched.
pub open spec fn dec8_flags(f: u8, x: u8) -> u8 {
    flags_byte(x == 1, true, x % 16 == 0, c_flag(f))
}

/// AND t.
pub open spec fn and_spec(rg: Registers, t: u8) -> Registers {
    Registers { a: rg.a & t, f: flags_byte((rg.a & t) == 0, false, true, false), ..rg }
}

/// OR t.
pub open spec fn or_spec(rg: Registers, t: u8) -> Registers {
    Registers { a: rg.a | t, f: flags_byte((rg.a | t) == 0, false, false, false), ..rg }
}

/// XOR t.
pub open spec fn xor_spec(rg: Registers, t: u8) -> Registers {
    Registers { a: rg.a ^ t, f: flags_byte((rg.a ^ t) == 0, false, false, false), ..rg }
}

/// ADD HL,v: the 16-bit sum; Z untouched, H from bit 11, C from bit 15.
pub open spec fn add16_flags(f: u8, s: u16, t: u16) -> u8 {
    flags_byte(z_flag(f), false, s % 0x1000 + t % 0x1000 > 0xFFF, s + t > 0xFFFF)
}

/// ADD SP,s8 and LD HL,SP+s8: flags from the low byte of SP and the raw
/// displacement byte; Z and N clear.
pub open spec fn add16_imm_flags(s: u16, t: u8) -> u8 {
    flags_byte(false, false, s % 16 + t % 16 > 15, s % 256 + t > 255)
}

// Rotates and shifts: the rotated value and the carry shifted out.
pub open spec fn rlc_val(v: u8) -> u8 {
    ((v % 128) * 2 + v / 128) as u8
}

pub open spec fn rlc_carry(v: u8) -> bool {
    v / 128 == 1
}

pub open spec fn rrc_val(v: u8) -> u8 {
    (v / 2 + (v % 2) * 128) as u8
}

pub open spec fn rrc_carry(v: u8) -> bool {
    v % 2 == 1
}

pub open spec fn rl_val(v: u8, cin: bool) -> u8 {
    ((v % 128) * 2 + (if cin {
        1int
    } else {
        0int
    })) as u8
}

pub open spec fn rr_val(v: u8, cin: bool) -> u8 {
    (v / 2 + (if cin {
        128int
    } else {
        0int
    })) as u8
}

pub open spec fn sla_val(v: u8) -> u8 {
    ((v % 128) * 2) as u8
}

pub open spec fn sra_val(v: u8) -> u8 {
    (v / 2 + (v / 128) * 128) as u8
}

pub open spec fn srl_val(v: u8) -> u8 {
    v / 2
}

pub open spec fn swap_val(v: u8) -> u8 {
    ((v % 16) * 16 + v / 16) as u8
}

/// The flags every CB rotate and shift leaves: Z from the result, N and H
/// clear, C as shifted out.
pub open spec fn rot_flags(val: u8, carry: bool) -> u8 {
    flags_byte(val == 0, false, false, carry)
}

/// SET b of v.
pub open spec fn set_bit_spec(v: u8, b: u8) -> u8 {
    if v / pow2_bit(b) % 2 == 1 {
        v
    } else {
        (v + pow2_bit(b)) as u8
    }
}

/// RES b of v.
pub open spec fn res_bit_spec(v: u8, b: u8) -> u8 {
    if v / pow2_bit(b) % 2 == 1 {
        (v - pow2_bit(b)) as u8
    } else {
        v
    }
}

/// DAA: the decimal adjust of A after a BCD addition or subtraction.
pub open spec fn daa_spec(rg: Registers) -> Registers {
    if !n_flag(rg.f) {
        let carry = c_flag(rg.f) || rg.a > 0x99;
        let a1 = if carry {
            wrap8(rg.a + 0x60)
        } else {
            rg.a
        };
        let a2 = if h_flag(rg.f) || rg.a % 16 > 9 {
            wrap8(a1 + 0x06)
        } else {
            a1
        };
        Registers { a: a2, f: flags_byte(a2 == 0, false, false, carry), ..rg }
    } else {
        let a1 = if c_flag(rg.f) {
            wrap8(rg.a - 0x60 + 256)
        } else {
            rg.a
        };
        let a2 = if h_flag(rg.f) {
            wrap8(a1 - 0x06 + 256)
        } else {
            a1
        };
        Registers { a: a2, f: flags_byte(a2 == 0, true, false, c_flag(rg.f)), ..rg }
    }
}

// ------------------------------------------------------------------
// The CPU.
// ------------------------------------------------------------------
pub struct Z80 {
    pub mmu: MMU,
    pub registers: Registers,
    pub status: Status,
    pub ime: IME,
    /// Total cycles consumed since reset.
    pub clock: u64,
    /// Set by opcode 0xCB: the next fetched byte indexes the CB table.
    pub use_cb_table: bool,
}

/// The mathematical state of the whole machine: the CPU registers and
/// latches over the view of the memory fabric. Every step-level contract
/// speaks of this view.
pub ghost struct CpuView {
    pub mmu: MmuView,
    pub registers: Registers,
    pub status: Status,
    pub ime: IME,
    pub clock: u64,
    pub use_cb_table: bool,
}

impl View for Z80 {
    type V = CpuView;

    open spec fn view(&self) -> CpuView {
        CpuView {
            mmu: self.mmu@,
            registers: self.registers,
            status: self.status,
            ime: self.ime,
            clock: self.clock,
            use_cb_table: self.use_cb_table,
        }
    }
}

pub open spec fn cpu_wf(c: Z80) -> bool {
    mmu_wf(c.mmu@)
}

/// The parts of the CPU an operation on registers alone leaves untouched.
pub open spec fn ctrl_unchanged(a: Z80, b: Z80) -> bool {
    b.status == a.status && b.ime == a.ime && b.clock == a.clock && b.use_cb_table
        == a.use_cb_table
}

impl Z80 {
    /// A CPU in the post-boot state, wired to the given memory fabric.
    pub fn new(mmu: MMU) -> (r: Z80)
        ensures
            r.mmu == mmu,
            r.registers.a == 0x01 && r.registers.f == 0xB0,
            r.registers.b == 0x00 && r.registers.c == 0x13,
            r.registers.d == 0x00 && r.registers.e == 0xD8,
            r.registers.h == 0x01 && r.registers.l == 0x4D,
            r.registers.pc == 0x0100 && r.registers.sp == 0xFFFE,
            r.status == Status::RUNNING,
            r.ime == IME::Disabled,
            r.clock == 0,
            !r.use_cb_table,
    {
        Z80 {
            mmu,
            registers: Registers::new(),
            status: Status::RUNNING,
            ime: IME::Disabled,
            clock: 0,
            use_cb_table: false,
        }
    }

    // --------------------------------------------------------------
    // Fetching.
    // --------------------------------------------------------------
    /// Fetch the byte at PC and advance PC, wrapping.
    pub fn byte(&mut self) -> (r: u8)
        requires
            cpu_wf(*old(self)),
        ensures
            r == mmu_read_spec(old(self).mmu@, old(self).registers.pc),
            *final(self) == (Z80 {
                registers: (Registers {
                    pc: wrap16(old(self).registers.pc + 1),
                    ..old(self).registers
                }),
                ..*old(self)
            }),
            cpu_wf(*final(self)),
    {
        let next_byte = self.mmu.read(self.registers.pc);
        self.registers.pc = self.registers.pc.wrapping_add(1);
        next_byte
    }

    /// Fetch a little-endian word at PC and advance PC by two.
    pub fn word(&mut self) -> (r: u16)
        requires
            cpu_wf(*old(self)),
        ensures
            r == mmu_read_spec(old(self).mmu@, old(self).registers.pc) + 256 * mmu_read_spec(
                old(self).mmu@,
                wrap16(old(self).registers.pc + 1),
            ),
            *final(self) == (Z80 {
                registers: (Registers {
                    pc: wrap16(old(self).registers.pc + 2),
                    ..old(self).registers
                }),
                ..*old(self)
            }),
            cpu_wf(*final(self)),
    {
        let lower = self.byte();
        let upper = self.byte();
        Z80::u16_from_u8(upper, lower)
    }

    // --------------------------------------------------------------
    // The stack.
    // --------------------------------------------------------------
    /// Push a word: SP moves down two, then the word is stored low byte
    /// first.
    #[verifier::rlimit(60)]
    pub fn push_sp(&mut self, v: u16)
        requires
            cpu_wf(*old(self)),
        ensures
            final(self).mmu@ == mmu_write_word_spec(
                old(self).mmu@,
                wrap16(old(self).registers.sp - 2 + 0x10000),
                v,
            ),
            final(self).registers == (Registers {
                sp: wrap16(old(self).registers.sp - 2 + 0x10000),
                ..old(self).registers
            }),
            ctrl_unchanged(*old(self), *final(self)),
            cpu_wf(*final(self)),
    {
        self.registers.sp = self.registers.sp.wrapping_sub(2);
        self.mmu.write_word(self.registers.sp, v);
    }

    /// Pop a word: read low byte first, then SP moves up two.
    pub fn pop_sp(&mut self) -> (r: u16)
        requires
            cpu_wf(*old(self)),
        ensures
            r == mmu_read_spec(old(self).mmu@, old(self).registers.sp) + 256 * mmu_read_spec(
                old(self).mmu@,
                wrap16(old(self).registers.sp + 1),
            ),
            *final(self) == (Z80 {
                registers: (Registers {
                    sp: wrap16(old(self).registers.sp + 2),
                    ..old(self).registers
                }),
                ..*old(self)
            }),
            cpu_wf(*final(self)),
    {
        let value = self.mmu.read_word(self.registers.sp);
        self.registers.sp = self.registers.sp.wrapping_add(2);
        value
    }

    // --------------------------------------------------------------
    // Control flow.
    // --------------------------------------------------------------
    /// CALL: push the current PC and jump.
    pub fn call(&mut self, addr: u16)
        requires
            cpu_wf(*old(self)),
        ensures
            final(self).mmu@ == mmu_write_word_spec(
                old(self).mmu@,
                wrap16(old(self).registers.sp - 2 + 0x10000),
                old(self).registers.pc,
            ),
            final(self).registers == (Registers {
                sp: wrap16(old(self).registers.sp - 2 + 0x10000),
                pc: addr,
                ..old(self).registers
            }),
            ctrl_unchanged(*old(self), *final(self)),
            cpu_wf(*final(self)),
    {
        self.push_sp(self.registers.pc);
        self.registers.pc = addr;
    }

    /// RST: a CALL to a fixed vector.
    pub fn rst(&mut self, rst: u16)
        requires
            cpu_wf(*old(self)),
        ensures
            final(self).mmu@ == mmu_write_word_spec(
                old(self).mmu@,
                wrap16(old(self).registers.sp - 2 + 0x10000),
                old(self).registers.pc,
            ),
            final(self).registers == (Registers {
                sp: wrap16(old(self).registers.sp - 2 + 0x10000),
                pc: rst,
                ..old(self).registers
            }),
            ctrl_unchanged(*old(self), *final(self)),
            cpu_wf(*final(self)),
    {
        self.call(rst);
    }

    /// RET: pop the return address into PC.
    pub fn ret(&mut self)
        requires
            cpu_wf(*old(self)),
        ensures
            *final(self) == (Z80 {
                registers: (Registers {
                    pc: (mmu_read_spec(old(self).mmu@, old(self).registers.sp) + 256
                        * mmu_read_spec(
                        old(self).mmu@,
                        wrap16(old(self).registers.sp + 1),
                    )) as u16,
                    sp: wrap16(old(self).registers.sp + 2),
                    ..old(self).registers
                }),
                ..*old(self)
            }),
            cpu_wf(*final(self)),
    {
        let value = self.pop_sp();
        self.registers.pc = value;
    }

    /// JR by a raw displacement byte, interpreted as signed.
    pub fn jr_d8(&mut self, s: u8)
        ensures
            *final(self) == (Z80 {
                registers: (Registers {
                    pc: wrap16(old(self).registers.pc + sext8(s) + 0x10000),
                    ..old(self).registers
                }),
                ..*old(self)
            }),
    {
        let d: i32 = self.registers.pc as i32 + s as i32 - (if s >= 128 {
            256
        } else {
            0
        });
        let w: i32 = if d < 0 {
            d + 0x10000
        } else if d >= 0x10000 {
            d - 0x10000
        } else {
            d
        };
        self.registers.pc = w as u16;
    }

    /// DAA: decimal-adjust A after a BCD addition or subtraction.
    pub fn daa_apply(&mut self)
        ensures
            *final(self) == (Z80 { registers: daa_spec(old(self).registers), ..*old(self) }),
    {
        let a0 = self.registers.a;
        if !self.registers.is_subtraction() {
            let carry = self.registers.is_full_carry() || a0 > 0x99;
            let a1: u8 = if carry {
                ((a0 as u16 + 0x60) % 256) as u8
            } else {
                a0
            };
            let a2: u8 = if self.registers.is_half_carry() || a0 % 16 > 9 {
                ((a1 as u16 + 0x06) % 256) as u8
            } else {
                a1
            };
            self.registers.a = a2;
            self.registers.f = compose_flags(a2 == 0, false, false, carry);
        } else {
            let carry = self.registers.is_full_carry();
            let a1: u8 = if carry {
                ((a0 as u16 + 256 - 0x60) % 256) as u8
            } else {
                a0
            };
            let a2: u8 = if self.registers.is_half_carry() {
                ((a1 as u16 + 256 - 0x06) % 256) as u8
            } else {
                a1
            };
            self.registers.a = a2;
            self.registers.f = compose_flags(a2 == 0, true, false, carry);
        }
    }

    /// JR: move PC by a signed displacement.
    pub fn jr(&mut self, s: i8)
        ensures
            *final(self) == (Z80 {
                registers: (Registers {
                    pc: wrap16(old(self).registers.pc + (s as int) + 0x10000),
                    ..old(self).registers
                }),
                ..*old(self)
            }),
    {
        let d: i32 = self.registers.pc as i32 + s as i32;
        let w: i32 = if d < 0 {
            d + 0x10000
        } else if d >= 0x10000 {
            d - 0x10000
        } else {
            d
        };
        self.registers.pc = w as u16;
    }

    // --------------------------------------------------------------
    // The IME latch and the run status.
    // --------------------------------------------------------------
    /// Whether interrupts are serviced right now.
    pub fn is_ime(&self) -> (r: bool)
        ensures
            r == (self.ime == IME::Enabled),
    {
        matches!(self.ime, IME::Enabled)
    }

    /// EI: ask for interrupts after the following instruction.
    pub fn set_ime(&mut self)
        ensures
            *final(self) == (Z80 { ime: IME::OneCycleDelay, ..*old(self) }),
    {
        self.ime = IME::OneCycleDelay;
    }

    /// DI: disable interrupts at once.
    pub fn unset_ime(&mut self)
        ensures
            *final(self) == (Z80 { ime: IME::Disabled, ..*old(self) }),
    {
        self.ime = IME::Disabled;
    }

    /// STOP: halt the clocks and reset DIV.
    pub fn stop(&mut self)
        requires
            cpu_wf(*old(self)),
        ensures
            final(self).mmu@ == crate::mmu::mmu_write_spec(old(self).mmu@, 0xFF04, 0),
            final(self).registers == old(self).registers,
            final(self).status == Status::STOPPED,
            final(self).ime == old(self).ime,
            final(self).clock == old(self).clock,
            final(self).use_cb_table == old(self).use_cb_table,
            cpu_wf(*final(self)),
    {
        self.mmu.write(0xFF04, 0);
        self.status = Status::STOPPED;
    }

    /// HALT: wait for an interrupt request.
    pub fn halt(&mut self)
        ensures
            *final(self) == (Z80 { status: Status::HALTED, ..*old(self) }),
    {
        self.status = Status::HALTED;
    }

    // --------------------------------------------------------------
    // Conversions and register pairs.
    // --------------------------------------------------------------
    /// Join a high and a low byte into a word.
    pub fn u16_from_u8(x: u8, y: u8) -> (r: u16)
        ensures
            r == x * 256 + y,
    {
        (x as u16) * 256 + (y as u16)
    }

    /// Split a word into its high and low bytes.
    pub fn u8_pair(x: u16) -> (r: (u8, u8))
        ensures
            r.0 == x / 256,
            r.1 == x % 256,
    {
        ((x / 256) as u8, (x % 256) as u8)
    }

    pub fn get_af(&self) -> (r: u16)
        ensures
            r == self.registers.a * 256 + self.registers.f,
    {
        self.registers.get_af()
    }

    pub fn set_af(&mut self, x: u16)
        ensures
            *final(self) == (Z80 {
                registers: (Registers {
                    a: (x / 256) as u8,
                    f: (x % 256) as u8,
                    ..old(self).registers
                }),
                ..*old(self)
            }),
    {
        self.registers.set_af(x);
    }

    pub fn get_bc(&self) -> (r: u16)
        ensures
            r == self.registers.b * 256 + self.registers.c,
    {
        self.registers.get_bc()
    }

    pub fn set_bc(&mut self, x: u16)
        ensures
            *final(self) == (Z80 {
                registers: (Registers {
                    b: (x / 256) as u8,
                    c: (x % 256) as u8,
                    ..old(self).registers
                }),
                ..*old(self)
            }),
    {
        self.registers.set_bc(x);
    }

    pub fn get_de(&self) -> (r: u16)
        ensures
            r == self.registers.d * 256 + self.registers.e,
    {
        self.registers.get_de()
    }

    pub fn set_de(&mut self, x: u16)
        ensures
            *final(self) == (Z80 {
                registers: (Registers {
                    d: (x / 256) as u8,
                    e: (x % 256) as u8,
                    ..old(self).registers
                }),
                ..*old(self)
            }),
    {
        self.registers.set_de(x);
    }

    pub fn get_hl(&self) -> (r: u16)
        ensures
            r == self.registers.h * 256 + self.registers.l,
    {
        self.registers.get_hl()
    }

    pub fn set_hl(&mut self, x: u16)
        ensures
            *final(self) == (Z80 {
                registers: (Registers {
                    h: (x / 256) as u8,
                    l: (x % 256) as u8,
                    ..old(self).registers
                }),
                ..*old(self)
            }),
    {
        self.registers.set_hl(x);
    }

    // --------------------------------------------------------------
    // Flag accessors, delegating to the register file.
    // --------------------------------------------------------------
    pub fn set_zero(&mut self)
        ensures
            *final(self) == (Z80 {
                registers: (Registers {
                    f: (old(self).registers.f % 128 + 128) as u8,
                    ..old(self).registers
                }),
                ..*old(self)
            }),
    {
        self.registers.set_zero();
    }

    pub fn unset_zero(&mut self)
        ensures
            *final(self) == (Z80 {
                registers: (Registers {
                    f: (old(self).registers.f % 128) as u8,
                    ..old(self).registers
                }),
                ..*old(self)
            }),
    {
        self.registers.unset_zero();
    }

    pub fn is_zero(&self) -> (r: bool)
        ensures
            r == z_flag(self.registers.f),
    {
        self.registers.is_zero()
    }

    pub fn set_subtraction(&mut self)
        ensures
            n_flag(final(self).registers.f),
            z_flag(final(self).registers.f) == z_flag(old(self).registers.f),
            h_flag(final(self).registers.f) == h_flag(old(self).registers.f),
            c_flag(final(self).registers.f) == c_flag(old(self).registers.f),
            *final(self) == (Z80 {
                registers: (Registers { f: final(self).registers.f, ..old(self).registers }),
                ..*old(self)
            }),
    {
        self.registers.set_subtraction();
    }

    pub fn unset_subtraction(&mut self)
        ensures
            !n_flag(final(self).registers.f),
            z_flag(final(self).registers.f) == z_flag(old(self).registers.f),
            h_flag(final(self).registers.f) == h_flag(old(self).registers.f),
            c_flag(final(self).registers.f) == c_flag(old(self).registers.f),
            *final(self) == (Z80 {
                registers: (Registers { f: final(self).registers.f, ..old(self).registers }),
                ..*old(self)
            }),
    {
        self.registers.unset_subtraction();
    }

    pub fn is_subtraction(&self) -> (r: bool)
        ensures
            r == n_flag(self.registers.f),
    {
        self.registers.is_subtraction()
    }

    pub fn set_half_carry(&mut self)
        ensures
            h_flag(final(self).registers.f),
            z_flag(final(self).registers.f) == z_flag(old(self).registers.f),
            n_flag(final(self).registers.f) == n_flag(old(self).registers.f),
            c_flag(final(self).registers.f) == c_flag(old(self).registers.f),
            *final(self) == (Z80 {
                registers: (Registers { f: final(self).registers.f, ..old(self).registers }),
                ..*old(self)
            }),
    {
        self.registers.set_half_carry();
    }

    pub fn unset_half_carry(&mut self)
        ensures
            !h_flag(final(self).registers.f),
            z_flag(final(self).registers.f) == z_flag(old(self).registers.f),
            n_flag(final(self).registers.f) == n_flag(old(self).registers.f),
            c_flag(final(self).registers.f) == c_flag(old(self).registers.f),
            *final(self) == (Z80 {
                registers: (Registers { f: final(self).registers.f, ..old(self).registers }),
                ..*old(self)
            }),
    {
        self.registers.unset_half_carry();
    }

    pub fn is_half_carry(&self) -> (r: bool)
        ensures
            r == h_flag(self.registers.f),
    {
        self.registers.is_half_carry()
    }

    pub fn set_full_carry(&mut self)
        ensures
            c_flag(final(self).registers.f),
            z_flag(final(self).registers.f) == z_flag(old(self).registers.f),
            n_flag(final(self).registers.f) == n_flag(old(self).registers.f),
            h_flag(final(self).registers.f) == h_flag(old(self).registers.f),
            *final(self) == (Z80 {
                registers: (Registers { f: final(self).registers.f, ..old(self).registers }),
                ..*old(self)
            }),
    {
        self.registers.set_full_carry();
    }

    pub fn unset_full_carry(&mut self)
        ensures
            !c_flag(final(self).registers.f),
            z_flag(final(self).registers.f) == z_flag(old(self).registers.f),
            n_flag(final(self).registers.f) == n_flag(old(self).registers.f),
            h_flag(final(self).registers.f) == h_flag(old(self).registers.f),
            *final(self) == (Z80 {
                registers: (Registers { f: final(self).registers.f, ..old(self).registers }),
                ..*old(self)
            }),
    {
        self.registers.unset_full_carry();
    }

    pub fn is_full_carry(&self) -> (r: bool)
        ensures
            r == c_flag(self.registers.f),
    {
        self.registers.is_full_carry()
    }

    // --------------------------------------------------------------
    // The ALU.
    // --------------------------------------------------------------
    /// Add two bytes, setting Z, clearing N, H from the low nibbles, C from
    /// the full sum.
    pub fn add_8(&mut self, s: u8, t: u8) -> (r: u8)
        ensures
            r == wrap8(s + t),
            *final(self) == (Z80 {
                registers: (Registers {
                    f: flags_byte((s + t) % 256 == 0, false, s % 16 + t % 16 > 15, s + t > 255),
                    ..old(self).registers
                }),
                ..*old(self)
            }),
    {
        let result: u8 = ((s as u16 + t as u16) % 256) as u8;
        self.registers.f = compose_flags(
            result == 0,
            false,
            s % 16 + t % 16 > 15,
            (s as u16) + (t as u16) > 255,
        );
        result
    }

    /// ADC: add the operand and the carry flag into A.
    pub fn adc_8(&mut self, s: u8)
        ensures
            *final(self) == (Z80 {
                registers: adc8_spec(old(self).registers, s),
                ..*old(self)
            }),
    {
        let cin: u16 = if self.registers.is_full_carry() {
            1
        } else {
            0
        };
        let a = self.registers.a;
        let total: u16 = a as u16 + s as u16 + cin;
        let result: u8 = (total % 256) as u8;
        self.registers.f = compose_flags(
            result == 0,
            false,
            (a % 16) as u16 + (s % 16) as u16 + cin > 15,
            total > 255,
        );
        self.registers.a = result;
    }

    /// Subtract two bytes, setting Z and N, H and C from the borrows.
    pub fn sub_8(&mut self, s: u8, t: u8) -> (r: u8)
        ensures
            r == sub8_val(s, t),
            *final(self) == (Z80 {
                registers: (Registers {
                    f: flags_byte(s == t, true, s % 16 < t % 16, s < t),
                    ..old(self).registers
                }),
                ..*old(self)
            }),
    {
        let result: u8 = if s >= t {
            s - t
        } else {
            ((s as u16 + 256) - t as u16) as u8
        };
        self.registers.f = compose_flags(s == t, true, s % 16 < t % 16, s < t);
        result
    }

    /// SBC: subtract the operand and the carry flag from A.
    pub fn sbc_8(&mut self, s: u8)
        ensures
            *final(self) == (Z80 {
                registers: sbc8_spec(old(self).registers, s),
                ..*old(self)
            }),
    {
        let cin: u16 = if self.registers.is_full_carry() {
            1
        } else {
            0
        };
        let a = self.registers.a;
        let result: u8 = (((a as u16 + 512) - s as u16 - cin) % 256) as u8;
        self.registers.f = compose_flags(
            result == 0,
            true,
            ((a % 16) as u16) < (s % 16) as u16 + cin,
            (a as u16) < s as u16 + cin,
        );
        self.registers.a = result;
    }

    /// INC for a byte: carry is untouched.
    pub fn inc_8(&mut self, s: u8) -> (r: u8)
        ensures
            r == inc8_val(s),
            *final(self) == (Z80 {
                registers: (Registers {
                    f: inc8_flags(old(self).registers.f, s),
                    ..old(self).registers
                }),
                ..*old(self)
            }),
    {
        let result: u8 = s.wrapping_add(1);
        let carry = self.registers.is_full_carry();
        self.registers.f = compose_flags(s == 255, false, s % 16 == 15, carry);
        result
    }

    /// DEC for a byte: carry is untouched.
    pub fn dec_8(&mut self, s: u8) -> (r: u8)
        ensures
            r == dec8_val(s),
            *final(self) == (Z80 {
                registers: (Registers {
                    f: dec8_flags(old(self).registers.f, s),
                    ..old(self).registers
                }),
                ..*old(self)
            }),
    {
        let result: u8 = s.wrapping_sub(1);
        let carry = self.registers.is_full_carry();
        self.registers.f = compose_flags(s == 1, true, s % 16 == 0, carry);
        result
    }

    /// INC for a pair: no flags.
    pub fn inc_16(&mut self, s: u16) -> (r: u16)
        ensures
            r == wrap16(s + 1),
            *final(self) == *old(self),
    {
        s.wrapping_add(1)
    }

    /// DEC for a pair: no flags.
    pub fn dec_16(&mut self, s: u16) -> (r: u16)
        ensures
            r == wrap16(s - 1 + 0x10000),
            *final(self) == *old(self),
    {
        s.wrapping_sub(1)
    }

    /// ADD for pairs: Z untouched, N clear, H from bit 11, C from bit 15.
    pub fn add_16(&mut self, s: u16, t: u16) -> (r: u16)
        ensures
            r == wrap16(s + t),
            *final(self) == (Z80 {
                registers: (Registers {
                    f: add16_flags(old(self).registers.f, s, t),
                    ..old(self).registers
                }),
                ..*old(self)
            }),
    {
        let result: u16 = s.wrapping_add(t);
        let z = self.registers.is_zero();
        self.registers.f = compose_flags(
            z,
            false,
            s % 0x1000 + t % 0x1000 > 0xFFF,
            (s as u32) + (t as u32) > 0xFFFF,
        );
        result
    }

    /// ADD SP,s8 and LD HL,SP+s8: the signed sum, flags from the unsigned
    /// low bytes, Z and N clear.
    pub fn add_16_immediate(&mut self, s: u16, t: u8) -> (r: u16)
        ensures
            r == wrap16(s + sext8(t) + 0x10000),
            *final(self) == (Z80 {
                registers: (Registers { f: add16_imm_flags(s, t), ..old(self).registers }),
                ..*old(self)
            }),
    {
        let d: i32 = s as i32 + t as i32 - (if t >= 128 {
            256
        } else {
            0
        });
        let w: i32 = if d < 0 {
            d + 0x10000
        } else if d >= 0x10000 {
            d - 0x10000
        } else {
            d
        };
        self.registers.f = compose_flags(
            false,
            false,
            s % 16 + (t % 16) as u16 > 15,
            s % 256 + t as u16 > 255,
        );
        w as u16
    }

    /// AND into A: H set, C clear.
    pub fn and(&mut self, t: u8)
        ensures
            *final(self) == (Z80 {
                registers: and_spec(old(self).registers, t),
                ..*old(self)
            }),
    {
        self.registers.a = self.registers.a & t;
        self.registers.f = compose_flags(self.registers.a == 0, false, true, false);
    }

    /// OR into A: N, H, C clear.
    pub fn or(&mut self, t: u8)
        ensures
            *final(self) == (Z80 { registers: or_spec(old(self).registers, t), ..*old(self) }),
    {
        self.registers.a = self.registers.a | t;
        self.registers.f = compose_flags(self.registers.a == 0, false, false, false);
    }

    /// XOR into A: N, H, C clear.
    pub fn xor(&mut self, t: u8)
        ensures
            *final(self) == (Z80 { registers: xor_spec(old(self).registers, t), ..*old(self) }),
    {
        self.registers.a = self.registers.a ^ t;
        self.registers.f = compose_flags(self.registers.a == 0, false, false, false);
    }

    /// CP: the flags of a subtraction from A, A untouched.
    pub fn cp(&mut self, t: u8)
        ensures
            *final(self) == (Z80 { registers: cp_spec(old(self).registers, t), ..*old(self) }),
    {
        let a = self.registers.a;
        self.registers.f = compose_flags(a == t, true, a % 16 < t % 16, a < t);
    }

    /// SWAP: exchange the nibbles; only Z can set.
    pub fn swap(&mut self, s: u8) -> (r: u8)
        ensures
            r == swap_val(s),
            *final(self) == (Z80 {
                registers: (Registers {
                    f: rot_flags(swap_val(s), false),
                    ..old(self).registers
                }),
                ..*old(self)
            }),
    {
        let result: u8 = (s % 16) * 16 + s / 16;
        self.registers.f = compose_flags(result == 0, false, false, false);
        result
    }

    /// BIT: Z holds the complement of the tested bit; H set, C untouched.
    pub fn bit(&mut self, s: u8, b: u8)
        requires
            b < 8,
        ensures
            *final(self) == (Z80 {
                registers: (Registers {
                    f: flags_byte(
                        s / pow2_bit(b) % 2 == 0,
                        false,
                        true,
                        c_flag(old(self).registers.f),
                    ),
                    ..old(self).registers
                }),
                ..*old(self)
            }),
    {
        let mask = Z80::bit_mask(b);
        let z = s / mask % 2 == 0;
        let carry = self.registers.is_full_carry();
        self.registers.f = compose_flags(z, false, true, carry);
    }

    /// 2^b for a bit number.
    pub fn bit_mask(b: u8) -> (r: u8)
        requires
            b < 8,
        ensures
            r == pow2_bit(b),
            r > 0,
    {
        match b {
            0 => 1,
            1 => 2,
            2 => 4,
            3 => 8,
            4 => 16,
            5 => 32,
            6 => 64,
            _ => 128,
        }
    }

    /// RLC: rotate left through itself; C takes the old bit 7.
    pub fn rlc(&mut self, v: u8) -> (r: u8)
        ensures
            r == rlc_val(v),
            *final(self) == (Z80 {
                registers: (Registers {
                    f: rot_flags(rlc_val(v), rlc_carry(v)),
                    ..old(self).registers
                }),
                ..*old(self)
            }),
    {
        let result: u8 = (v % 128) * 2 + v / 128;
        self.registers.f = compose_flags(result == 0, false, false, v / 128 == 1);
        result
    }

    /// RRC: rotate right through itself; C takes the old bit 0.
    pub fn rrc(&mut self, v: u8) -> (r: u8)
        ensures
            r == rrc_val(v),
            *final(self) == (Z80 {
                registers: (Registers {
                    f: rot_flags(rrc_val(v), rrc_carry(v)),
                    ..old(self).registers
                }),
                ..*old(self)
            }),
    {
        let result: u8 = v / 2 + (v % 2) * 128;
        self.registers.f = compose_flags(result == 0, false, false, v % 2 == 1);
        result
    }

    /// RL: rotate left through the carry flag.
    pub fn rl(&mut self, v: u8) -> (r: u8)
        ensures
            r == rl_val(v, c_flag(old(self).registers.f)),
            *final(self) == (Z80 {
                registers: (Registers {
                    f: rot_flags(rl_val(v, c_flag(old(self).registers.f)), rlc_carry(v)),
                    ..old(self).registers
                }),
                ..*old(self)
            }),
    {
        let cin: u8 = if self.registers.is_full_carry() {
            1
        } else {
            0
        };
        let result: u8 = (v % 128) * 2 + cin;
        self.registers.f = compose_flags(result == 0, false, false, v / 128 == 1);
        result
    }

    /// RR: rotate right through the carry flag.
    pub fn rr(&mut self, v: u8) -> (r: u8)
        ensures
            r == rr_val(v, c_flag(old(self).registers.f)),
            *final(self) == (Z80 {
                registers: (Registers {
                    f: rot_flags(rr_val(v, c_flag(old(self).registers.f)), rrc_carry(v)),
                    ..old(self).registers
                }),
                ..*old(self)
            }),
    {
        let cin: u8 = if self.registers.is_full_carry() {
            128
        } else {
            0
        };
        let result: u8 = v / 2 + cin;
        self.registers.f = compose_flags(result == 0, false, false, v % 2 == 1);
        result
    }

    /// SLA: shift left, bit 0 cleared.
    pub fn sla(&mut self, v: u8) -> (r: u8)
        ensures
            r == sla_val(v),
            *final(self) == (Z80 {
                registers: (Registers {
                    f: rot_flags(sla_val(v), rlc_carry(v)),
                    ..old(self).registers
                }),
                ..*old(self)
            }),
    {
        let result: u8 = (v % 128) * 2;
        self.registers.f = compose_flags(result == 0, false, false, v / 128 == 1);
        result
    }

    /// SRA: shift right, bit 7 kept.
    pub fn sra(&mut self, v: u8) -> (r: u8)
        ensures
            r == sra_val(v),
            *final(self) == (Z80 {
                registers: (Registers {
                    f: rot_flags(sra_val(v), rrc_carry(v)),
                    ..old(self).registers
                }),
                ..*old(self)
            }),
    {
        let result: u8 = v / 2 + (v / 128) * 128;
        self.registers.f = compose_flags(result == 0, false, false, v % 2 == 1);
        result
    }

    /// SRL: shift right, bit 7 cleared.
    pub fn srl(&mut self, v: u8) -> (r: u8)
        ensures
            r == srl_val(v),
            *final(self) == (Z80 {
                registers: (Registers {
                    f: rot_flags(srl_val(v), rrc_carry(v)),
                    ..old(self).registers
                }),
                ..*old(self)
            }),
    {
        let result: u8 = v / 2;
        self.registers.f = compose_flags(result == 0, false, false, v % 2 == 1);
        result
    }

    /// SET b of v.
    pub fn set_bit(&mut self, v: u8, b: u8) -> (r: u8)
        requires
            b < 8,
        ensures
            r == set_bit_spec(v, b),
            *final(self) == *old(self),
    {
        let mask = Z80::bit_mask(b);
        if v / mask % 2 == 1 {
            v
        } else {
            v + mask
        }
    }

    /// RES b of v.
    pub fn res_bit(&mut self, v: u8, b: u8) -> (r: u8)
        requires
            b < 8,
        ensures
            r == res_bit_spec(v, b),
            *final(self) == *old(self),
    {
        let mask = Z80::bit_mask(b);
        if v / mask % 2 == 1 {
            v - mask
        } else {
            v
        }
    }

    // --------------------------------------------------------------
    // The step loop.
    // --------------------------------------------------------------
    /// Perform exactly one of interrupt dispatch, a HALT or STOP tick, or
    /// one instruction, and return the cycles consumed.
    ///
    /// In order: the IME latch advances one stage; with interrupts enabled
    /// and a request pending, the lowest pending line is serviced for 20
    /// cycles (its IF bit cleared, IME disabled, PC pushed and vectored);
    /// otherwise a halted or stopped CPU ticks for 4 cycles, resuming when a
    /// request is pending regardless of IME; otherwise one opcode is fetched
    /// and executed for its documented cycle count, zero marking an opcode
    /// the tables do not define.
    #[verifier::rlimit(100)]
    #[verifier::spinoff_prover]
    pub fn step(&mut self) -> (r: u64)
        requires
            cpu_wf(*old(self)),
        ensures
            cpu_wf(*final(self)),
            r == step_cycles(old(self)@),
            final(self)@ == step_effect(old(self)@),
    {
        self.ime = match self.ime {
            IME::OneCycleDelay => IME::ReadyToEnable,
            IME::ReadyToEnable => IME::Enabled,
            IME::Enabled => IME::Enabled,
            IME::Disabled => IME::Disabled,
        };
        let iflags = self.mmu.read(0xFF0F);
        let ie = self.mmu.read(0xFFFF);
        let p0 = iflags % 2 == 1 && ie % 2 == 1;
        let p1 = iflags / 2 % 2 == 1 && ie / 2 % 2 == 1;
        let p2 = iflags / 4 % 2 == 1 && ie / 4 % 2 == 1;
        let p3 = iflags / 8 % 2 == 1 && ie / 8 % 2 == 1;
        let p4 = iflags / 16 % 2 == 1 && ie / 16 % 2 == 1;
        let pending = p0 || p1 || p2 || p3 || p4;
        if matches!(self.ime, IME::Enabled) && pending {
            self.service_interrupt();
            return 20;
        }
        if !matches!(self.status, Status::RUNNING) {
            if pending {
                self.status = Status::RUNNING;
            }
            return 4;
        }
        let opcode = self.byte();
        self.call_instruction(opcode)
    }

    /// Dispatch the lowest pending interrupt line: clear its IF bit,
    /// disable IME, push PC and jump to its vector.
    #[verifier::rlimit(100)]
    #[verifier::spinoff_prover]
    fn service_interrupt(&mut self)
        requires
            cpu_wf(*old(self)),
            any_irq_pending(old(self).mmu@),
        ensures
            cpu_wf(*final(self)),
            final(self).ime == IME::Disabled,
            final(self).status == Status::RUNNING,
            final(self).use_cb_table == old(self).use_cb_table,
            final(self).clock == old(self).clock,
            final(self).registers == (Registers {
                pc: irq_vector(old(self).mmu@),
                sp: wrap16(old(self).registers.sp - 2 + 0x10000),
                ..old(self).registers
            }),
            final(self).mmu@ == mmu_write_word_spec(
                mmu_write_spec(
                    old(self).mmu@,
                    0xFF0F,
                    (interrupt_flag_spec(old(self).mmu@) - irq_mask(old(self).mmu@)) as u8,
                ),
                wrap16(old(self).registers.sp - 2 + 0x10000),
                old(self).registers.pc,
            ),
    {
        let iflags = self.mmu.read(0xFF0F);
        let ie = self.mmu.read(0xFFFF);
        let p0 = iflags % 2 == 1 && ie % 2 == 1;
        let p1 = iflags / 2 % 2 == 1 && ie / 2 % 2 == 1;
        let p2 = iflags / 4 % 2 == 1 && ie / 4 % 2 == 1;
        let p3 = iflags / 8 % 2 == 1 && ie / 8 % 2 == 1;
        let vector: u16 = if p0 {
            0x40
        } else if p1 {
            0x48
        } else if p2 {
            0x50
        } else if p3 {
            0x58
        } else {
            0x60
        };
        let mask: u8 = if p0 {
            1
        } else if p1 {
            2
        } else if p2 {
            4
        } else if p3 {
            8
        } else {
            16
        };
        self.mmu.write(0xFF0F, iflags - mask);
        self.ime = IME::Disabled;
        self.status = Status::RUNNING;
        self.call(vector);
    }

    /// Run up to `steps` CPU steps: each iteration performs one step,
    /// consumes any queued DMA charge, advances the clock by the cycles and
    /// fans them out to the devices; a step returning the zero-cycle fault
    /// of an undefined opcode stops the loop.
    #[verifier::rlimit(100)]
    #[verifier::spinoff_prover]
    pub fn run(&mut self, steps: u64)
        requires
            cpu_wf(*old(self)),
        ensures
            cpu_wf(*final(self)),
            final(self)@ == run_spec(old(self)@, steps),
    {
        let mut n: u64 = 0;
        let mut faulted: bool = false;
        while n < steps && !faulted
            invariant
                cpu_wf(*self),
                n <= steps,
                run_spec(old(self)@, steps) == (if faulted {
                    self@
                } else {
                    run_spec(self@, (steps - n) as u64)
                }),
            decreases steps - n,
        {
            let ghost prev = self@;
            let cycles = self.step();
            if cycles == 0 {
                proof {
                    assert(run_spec(prev, (steps - n) as u64) == step_effect(prev));
                }
                faulted = true;
            } else {
                let dma = self.mmu.take_dma_cycles();
                let total: u64 = if cycles <= 0x1000 && dma <= 0x10000 {
                    cycles + dma
                } else {
                    0x1000
                };
                self.clock = if self.clock <= 0xFFFF_FFFF_FFF0_0000 {
                    self.clock + total
                } else {
                    self.clock
                };
                self.mmu.run(total);
                proof {
                    assert(self@ == run_step_spec(prev));
                    assert(run_spec(prev, (steps - n) as u64) == run_spec(
                        run_step_spec(prev),
                        (steps - n - 1) as u64,
                    ));
                }
            }
            n = n + 1;
        }
    }
}

/// Whether a step from this state dispatches an interrupt: the advanced IME
/// latch reads Enabled and some line is both requested and enabled.
pub open spec fn step_services(v: CpuView) -> bool {
    ime_advance(v.ime) == IME::Enabled && any_irq_pending(v.mmu)
}

/// The cycles one step consumes: 20 to dispatch an interrupt, 4 for a HALT
/// or STOP tick, else the fetched opcode's documented table entry (zero for
/// an opcode the tables do not define).
pub open spec fn step_cycles(v: CpuView) -> u64 {
    if step_services(v) {
        20
    } else if v.status != Status::RUNNING {
        4
    } else {
        let opcode = mmu_read_spec(v.mmu, v.registers.pc);
        if v.use_cb_table {
            cb_cycles(opcode)
        } else {
            primary_cycles(opcode, v.registers.f)
        }
    }
}

/// The whole-machine effect of one step: interrupt dispatch (IF bit
/// cleared, IME disabled, PC pushed and vectored), a HALT or STOP tick
/// (resume when a request is pending), or one fetched opcode's table
/// effect, the IME latch having advanced one stage first.
pub open spec fn step_effect(v: CpuView) -> CpuView {
    if step_services(v) {
        CpuView {
            ime: IME::Disabled,
            status: Status::RUNNING,
            registers: (Registers {
                pc: irq_vector(v.mmu),
                sp: wrap16(v.registers.sp - 2 + 0x10000),
                ..v.registers
            }),
            mmu: mmu_write_word_spec(
                mmu_write_spec(
                    v.mmu,
                    0xFF0F,
                    (interrupt_flag_spec(v.mmu) - irq_mask(v.mmu)) as u8,
                ),
                wrap16(v.registers.sp - 2 + 0x10000),
                v.registers.pc,
            ),
            ..v
        }
    } else if v.status != Status::RUNNING {
        CpuView {
            ime: ime_advance(v.ime),
            status: if any_irq_pending(v.mmu) {
                Status::RUNNING
            } else {
                v.status
            },
            ..v
        }
    } else {
        let opcode = mmu_read_spec(v.mmu, v.registers.pc);
        let fetched = CpuView {
            ime: ime_advance(v.ime),
            registers: (Registers { pc: wrap16(v.registers.pc + 1), ..v.registers }),
            ..v
        };
        if v.use_cb_table {
            cb_effect(CpuView { use_cb_table: false, ..fetched }, opcode)
        } else {
            primary_effect(fetched, opcode)
        }
    }
}

/// One iteration of the run loop after its step: the queued DMA charge is
/// consumed, the clock advances by the cycles, and the devices run them.
pub open spec fn run_step_spec(v: CpuView) -> CpuView {
    let s = step_effect(v);
    let cycles = step_cycles(v);
    let dma = s.mmu.dma_pending;
    let total = if cycles <= 0x1000 && dma <= 0x10000 {
        (cycles + dma) as u64
    } else {
        0x1000u64
    };
    CpuView {
        mmu: mmu_run_spec(MmuView { dma_pending: 0, ..s.mmu }, total),
        clock: if s.clock <= 0xFFFF_FFFF_FFF0_0000 {
            (s.clock + total) as u64
        } else {
            s.clock
        },
        ..s
    }
}

/// The run loop: up to `steps` iterations of step plus fan-out, stopping
/// after a step that returns the zero-cycle fault.
pub open spec fn run_spec(v: CpuView, steps: u64) -> CpuView
    decreases steps,
{
    if steps == 0 {
        v
    } else if step_cycles(v) == 0 {
        step_effect(v)
    } else {
        run_spec(run_step_spec(v), (steps - 1) as u64)
    }
}

/// Whether interrupt line `d` (a power of two mask) is both requested in IF
/// and enabled in IE.
pub open spec fn irq_line(v: crate::mmu::MmuView, d: u8) -> bool {
    interrupt_flag_spec(v) / d % 2 == 1 && v.ie / d % 2 == 1
}

/// Whether any interrupt line is pending.
pub open spec fn any_irq_pending(v: crate::mmu::MmuView) -> bool {
    irq_line(v, 1) || irq_line(v, 2) || irq_line(v, 4) || irq_line(v, 8) || irq_line(v, 16)
}

/// The handler address of the lowest pending line.
pub open spec fn irq_vector(v: crate::mmu::MmuView) -> u16 {
    if irq_line(v, 1) {
        0x40
    } else if irq_line(v, 2) {
        0x48
    } else if irq_line(v, 4) {
        0x50
    } else if irq_line(v, 8) {
        0x58
    } else {
        0x60
    }
}

/// The IF bit of the lowest pending line.
pub open spec fn irq_mask(v: crate::mmu::MmuView) -> u8 {
    if irq_line(v, 1) {
        1
    } else if irq_line(v, 2) {
        2
    } else if irq_line(v, 4) {
        4
    } else if irq_line(v, 8) {
        8
    } else {
        16
    }
}

/// The one-instruction delay of EI: the latch EI leaves does not read
/// Enabled at the next step boundary, so that step fetches and executes an
/// instruction, and only the step after it can service an interrupt.
pub proof fn lemma_ime_delay()
    ensures
        ime_advance(IME::OneCycleDelay) != IME::Enabled,
        ime_advance(ime_advance(IME::OneCycleDelay)) == IME::Enabled,
{
}

/// The EI delay, end to end over the step transition: from the state EI
/// leaves (latch one stage behind) with a request pending, a step does not
/// service but fetches and executes the following instruction; and from any
/// state that instruction leaves with the latch advanced on its course and
/// the request still pending - `step_effect` gives exactly such a state for
/// every opcode that touches neither the latch nor IF - the step after it
/// dispatches the interrupt.
pub proof fn lemma_ei_delay_two_steps(v: CpuView, v1: CpuView)
    requires
        v.ime == IME::OneCycleDelay,
        v.status == Status::RUNNING,
        any_irq_pending(v.mmu),
        v1.ime == IME::ReadyToEnable,
        any_irq_pending(v1.mmu),
    ensures
        !step_services(v),
        step_services(v1),
{
}

/// Push then pop round-trips: pushing a word with SP inside work RAM, its
/// echo or high RAM stores it where the following pop reads it back, and
/// the pop restores SP. With SP in the ROM window the controller absorbs
/// the store, as on hardware, so the round trip holds only over RAM.
#[verifier::rlimit(100)]
#[verifier::spinoff_prover]
pub proof fn lemma_push_pop_round_trip(v: crate::mmu::MmuView, sp: u16, val: u16)
    requires
        crate::mmu::mmu_wf(v),
        (0xC002 <= sp <= 0xFE00) || (0xFF82 <= sp <= 0xFFFF),
    ensures
        ({
            let a = wrap16(sp - 2 + 0x10000);
            let w = mmu_write_word_spec(v, a, val);
            crate::mmu::mmu_read_word_spec(w, a) == val && wrap16(a + 2) == sp
        }),
{
}

} // verus!
