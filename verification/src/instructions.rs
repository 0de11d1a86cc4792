//! The two opcode tables of the LR35902: every primary and every
//! CB-prefixed instruction as one method over the CPU, each with its exact
//! effect on registers, flags and memory, and the dispatcher that selects
//! the table and accounts the documented cycle count.

use vstd::prelude::*;

use crate::enums::IME;
use crate::enums::Status;
use crate::mmu::mmu_read_spec;
use crate::mmu::mmu_write_spec;
use crate::mmu::mmu_write_word_spec;
use crate::registers::Registers;
use crate::registers::c_flag;
use crate::registers::compose_flags;
use crate::registers::flags_byte;
use crate::registers::z_flag;
use crate::z80::CpuView;
use crate::z80::Z80;
use crate::z80::add16_flags;
use crate::z80::add16_imm_flags;
use crate::z80::add8_spec;
use crate::z80::adc8_spec;
use crate::z80::and_spec;
use crate::z80::cp_spec;
use crate::z80::cpu_wf;
use crate::z80::ctrl_unchanged;
use crate::z80::daa_spec;
use crate::z80::dec8_flags;
use crate::z80::dec8_val;
use crate::z80::inc8_flags;
use crate::z80::inc8_val;
use crate::z80::or_spec;
use crate::z80::pow2_bit;
use crate::z80::res_bit_spec;
use crate::z80::rl_val;
use crate::z80::rlc_carry;
use crate::z80::rlc_val;
use crate::z80::rot_flags;
use crate::z80::rr_val;
use crate::z80::rrc_carry;
use crate::z80::rrc_val;
use crate::z80::sbc8_spec;
use crate::z80::set_bit_spec;
use crate::z80::sext8;
use crate::z80::sla_val;
use crate::z80::sra_val;
use crate::z80::srl_val;
use crate::z80::sub8_spec;
use crate::z80::swap_val;
use crate::z80::wrap16;
use crate::z80::xor_spec;

verus! {

/// The documented cycle count of each primary-table opcode; conditional
/// branches consult the flags, and an opcode the table does not define
/// costs zero, the fault marker.
pub open spec fn primary_cycles(code: u8, f: u8) -> u64 {
    match code {
        0x00 => 4,
        0x01 => 12,
        0x02 => 8,
        0x03 => 8,
        0x04 => 4,
        0x05 => 4,
        0x06 => 8,
        0x07 => 4,
        0x08 => 20,
        0x09 => 8,
        0x0A => 8,
        0x0B => 8,
        0x0C => 4,
        0x0D => 4,
        0x0E => 8,
        0x0F => 4,
        0x10 => 4,
        0x11 => 12,
        0x12 => 8,
        0x13 => 8,
        0x14 => 4,
        0x15 => 4,
        0x16 => 8,
        0x17 => 4,
        0x18 => 12,
        0x19 => 8,
        0x1A => 8,
        0x1B => 8,
        0x1C => 4,
        0x1D => 4,
        0x1E => 8,
        0x1F => 4,
        0x20 => if !z_flag(f) {
            12
        } else {
            8
        },
        0x21 => 12,
        0x22 => 8,
        0x23 => 8,
        0x24 => 4,
        0x25 => 4,
        0x26 => 8,
        0x27 => 4,
        0x28 => if z_flag(f) {
            12
        } else {
            8
        },
        0x29 => 8,
        0x2A => 8,
        0x2B => 8,
        0x2C => 4,
        0x2D => 4,
        0x2E => 8,
        0x2F => 4,
        0x30 => if !c_flag(f) {
            12
        } else {
            8
        },
        0x31 => 12,
        0x32 => 8,
        0x33 => 8,
        0x34 => 12,
        0x35 => 12,
        0x36 => 12,
        0x37 => 4,
        0x38 => if c_flag(f) {
            12
        } else {
            8
        },
        0x39 => 8,
        0x3A => 8,
        0x3B => 8,
        0x3C => 4,
        0x3D => 4,
        0x3E => 8,
        0x3F => 4,
        0x40 => 4,
        0x41 => 4,
        0x42 => 4,
        0x43 => 4,
        0x44 => 4,
        0x45 => 4,
        0x46 => 8,
        0x47 => 4,
        0x48 => 4,
        0x49 => 4,
        0x4A => 4,
        0x4B => 4,
        0x4C => 4,
        0x4D => 4,
        0x4E => 8,
        0x4F => 4,
        0x50 => 4,
        0x51 => 4,
        0x52 => 4,
        0x53 => 4,
        0x54 => 4,
        0x55 => 4,
        0x56 => 8,
        0x57 => 4,
        0x58 => 4,
        0x59 => 4,
        0x5A => 4,
        0x5B => 4,
        0x5C => 4,
        0x5D => 4,
        0x5E => 8,
        0x5F => 4,
        0x60 => 4,
        0x61 => 4,
        0x62 => 4,
        0x63 => 4,
        0x64 => 4,
        0x65 => 4,
        0x66 => 8,
        0x67 => 4,
        0x68 => 4,
        0x69 => 4,
        0x6A => 4,
        0x6B => 4,
        0x6C => 4,
        0x6D => 4,
        0x6E => 8,
        0x6F => 4,
        0x70 => 8,
        0x71 => 8,
        0x72 => 8,
        0x73 => 8,
        0x74 => 8,
        0x75 => 8,
        0x76 => 4,
        0x77 => 8,
        0x78 => 4,
        0x79 => 4,
        0x7A => 4,
        0x7B => 4,
        0x7C => 4,
        0x7D => 4,
        0x7E => 8,
        0x7F => 4,
        0x80 => 4,
        0x81 => 4,
        0x82 => 4,
        0x83 => 4,
        0x84 => 4,
        0x85 => 4,
        0x86 => 8,
        0x87 => 4,
        0x88 => 4,
        0x89 => 4,
        0x8A => 4,
        0x8B => 4,
        0x8C => 4,
        0x8D => 4,
        0x8E => 8,
        0x8F => 4,
        0x90 => 4,
        0x91 => 4,
        0x92 => 4,
        0x93 => 4,
        0x94 => 4,
        0x95 => 4,
        0x96 => 8,
        0x97 => 4,
        0x98 => 4,
        0x99 => 4,
        0x9A => 4,
        0x9B => 4,
        0x9C => 4,
        0x9D => 4,
        0x9E => 8,
        0x9F => 4,
        0xA0 => 4,
        0xA1 => 4,
        0xA2 => 4,
        0xA3 => 4,
        0xA4 => 4,
        0xA5 => 4,
        0xA6 => 8,
        0xA7 => 4,
        0xA8 => 4,
        0xA9 => 4,
        0xAA => 4,
        0xAB => 4,
        0xAC => 4,
        0xAD => 4,
        0xAE => 8,
        0xAF => 4,
        0xB0 => 4,
        0xB1 => 4,
        0xB2 => 4,
        0xB3 => 4,
        0xB4 => 4,
        0xB5 => 4,
        0xB6 => 8,
        0xB7 => 4,
        0xB8 => 4,
        0xB9 => 4,
        0xBA => 4,
        0xBB => 4,
        0xBC => 4,
        0xBD => 4,
        0xBE => 8,
        0xBF => 4,
        0xC0 => if !z_flag(f) {
            20
        } else {
            8
        },
        0xC1 => 12,
        0xC2 => if !z_flag(f) {
            16
        } else {
            12
        },
        0xC3 => 16,
        0xC4 => if !z_flag(f) {
            24
        } else {
            12
        },
        0xC5 => 16,
        0xC6 => 8,
        0xC7 => 16,
        0xC8 => if z_flag(f) {
            20
        } else {
            8
        },
        0xC9 => 16,
        0xCA => if z_flag(f) {
            16
        } else {
            12
        },
        0xCB => 4,
        0xCC => if z_flag(f) {
            24
        } else {
            12
        },
        0xCD => 24,
        0xCE => 8,
        0xCF => 16,
        0xD0 => if !c_flag(f) {
            20
        } else {
            8
        },
        0xD1 => 12,
        0xD2 => if !c_flag(f) {
            16
        } else {
            12
        },
        0xD4 => if !c_flag(f) {
            24
        } else {
            12
        },
        0xD5 => 16,
        0xD6 => 8,
        0xD7 => 16,
        0xD8 => if c_flag(f) {
            20
        } else {
            8
        },
        0xD9 => 16,
        0xDA => if c_flag(f) {
            16
        } else {
            12
        },
        0xDC => if c_flag(f) {
            24
        } else {
            12
        },
        0xDE => 8,
        0xDF => 16,
        0xE0 => 12,
        0xE1 => 12,
        0xE2 => 8,
        0xE5 => 16,
        0xE6 => 8,
        0xE7 => 16,
        0xE8 => 16,
        0xE9 => 4,
        0xEA => 16,
        0xEE => 8,
        0xEF => 16,
        0xF0 => 12,
        0xF1 => 12,
        0xF2 => 8,
        0xF3 => 4,
        0xF5 => 16,
        0xF6 => 8,
        0xF7 => 16,
        0xF8 => 12,
        0xF9 => 8,
        0xFA => 16,
        0xFB => 4,
        0xFE => 8,
        0xFF => 16,
        _ => 0,
    }
}

/// The documented cycle count of each CB-table opcode: eight for a
/// register target, sixteen for (HL), twelve for BIT n, (HL).
pub open spec fn cb_cycles(code: u8) -> u64 {
    if code % 8 == 6 {
        if 0x40 <= code < 0x80 {
            12
        } else {
            16
        }
    } else {
        8
    }
}

/// The machine-state effect of one primary-table opcode, executed with PC
/// already past the opcode byte; an opcode the table does not define
/// leaves the state unchanged.
#[verifier::opaque]
pub open spec fn primary_effect(v: CpuView, code: u8) -> CpuView {
    match code {
        0x00 => v,
        0x01 => (CpuView { registers: (Registers { c: mmu_read_spec(v.mmu, v.registers.pc), b: mmu_read_spec(v.mmu, wrap16(v.registers.pc + 1)), pc: wrap16(v.registers.pc + 2), ..v.registers }), ..v }),
        0x02 => (CpuView { mmu: mmu_write_spec(v.mmu, ((v.registers.b) * 256 + (v.registers.c)) as u16, v.registers.a), ..v }),
        0x03 => (CpuView { registers: (Registers { b: ((wrap16(((v.registers.b) * 256 + (v.registers.c)) as u16 + 1)) / 256) as u8, c: ((wrap16(((v.registers.b) * 256 + (v.registers.c)) as u16 + 1)) % 256) as u8, ..v.registers }), ..v }),
        0x04 => (CpuView { registers: (Registers { b: inc8_val(v.registers.b), f: inc8_flags(v.registers.f, v.registers.b), ..v.registers }), ..v }),
        0x05 => (CpuView { registers: (Registers { b: dec8_val(v.registers.b), f: dec8_flags(v.registers.f, v.registers.b), ..v.registers }), ..v }),
        0x06 => (CpuView { registers: (Registers { b: mmu_read_spec(v.mmu, v.registers.pc), pc: wrap16(v.registers.pc + 1), ..v.registers }), ..v }),
        0x07 => (CpuView { registers: (Registers { a: rlc_val(v.registers.a), f: flags_byte(false, false, false, rlc_carry(v.registers.a)), ..v.registers }), ..v }),
        0x08 => (CpuView { registers: (Registers { pc: wrap16(v.registers.pc + 2), ..v.registers }), mmu: mmu_write_word_spec(v.mmu, ((mmu_read_spec(v.mmu, v.registers.pc)) + 256 * (mmu_read_spec(v.mmu, wrap16(v.registers.pc + 1)))) as u16, v.registers.sp), ..v }),
        0x09 => (CpuView { registers: (Registers { h: ((wrap16(((v.registers.h) * 256 + (v.registers.l)) as u16 + ((v.registers.b) * 256 + (v.registers.c)) as u16)) / 256) as u8, l: ((wrap16(((v.registers.h) * 256 + (v.registers.l)) as u16 + ((v.registers.b) * 256 + (v.registers.c)) as u16)) % 256) as u8, f: add16_flags(v.registers.f, ((v.registers.h) * 256 + (v.registers.l)) as u16, ((v.registers.b) * 256 + (v.registers.c)) as u16), ..v.registers }), ..v }),
        0x0A => (CpuView { registers: (Registers { a: mmu_read_spec(v.mmu, ((v.registers.b) * 256 + (v.registers.c)) as u16), ..v.registers }), ..v }),
        0x0B => (CpuView { registers: (Registers { b: ((wrap16(((v.registers.b) * 256 + (v.registers.c)) as u16 - 1 + 0x10000)) / 256) as u8, c: ((wrap16(((v.registers.b) * 256 + (v.registers.c)) as u16 - 1 + 0x10000)) % 256) as u8, ..v.registers }), ..v }),
        0x0C => (CpuView { registers: (Registers { c: inc8_val(v.registers.c), f: inc8_flags(v.registers.f, v.registers.c), ..v.registers }), ..v }),
        0x0D => (CpuView { registers: (Registers { c: dec8_val(v.registers.c), f: dec8_flags(v.registers.f, v.registers.c), ..v.registers }), ..v }),
        0x0E => (CpuView { registers: (Registers { c: mmu_read_spec(v.mmu, v.registers.pc), pc: wrap16(v.registers.pc + 1), ..v.registers }), ..v }),
        0x0F => (CpuView { registers: (Registers { a: rrc_val(v.registers.a), f: flags_byte(false, false, false, rrc_carry(v.registers.a)), ..v.registers }), ..v }),
        0x10 => (CpuView { mmu: mmu_write_spec(v.mmu, 0xFF04, 0), status: Status::STOPPED, ..v }),
        0x11 => (CpuView { registers: (Registers { e: mmu_read_spec(v.mmu, v.registers.pc), d: mmu_read_spec(v.mmu, wrap16(v.registers.pc + 1)), pc: wrap16(v.registers.pc + 2), ..v.registers }), ..v }),
        0x12 => (CpuView { mmu: mmu_write_spec(v.mmu, ((v.registers.d) * 256 + (v.registers.e)) as u16, v.registers.a), ..v }),
        0x13 => (CpuView { registers: (Registers { d: ((wrap16(((v.registers.d) * 256 + (v.registers.e)) as u16 + 1)) / 256) as u8, e: ((wrap16(((v.registers.d) * 256 + (v.registers.e)) as u16 + 1)) % 256) as u8, ..v.registers }), ..v }),
        0x14 => (CpuView { registers: (Registers { d: inc8_val(v.registers.d), f: inc8_flags(v.registers.f, v.registers.d), ..v.registers }), ..v }),
        0x15 => (CpuView { registers: (Registers { d: dec8_val(v.registers.d), f: dec8_flags(v.registers.f, v.registers.d), ..v.registers }), ..v }),
        0x16 => (CpuView { registers: (Registers { d: mmu_read_spec(v.mmu, v.registers.pc), pc: wrap16(v.registers.pc + 1), ..v.registers }), ..v }),
        0x17 => (CpuView { registers: (Registers { a: rl_val(v.registers.a, c_flag(v.registers.f)), f: flags_byte(false, false, false, rlc_carry(v.registers.a)), ..v.registers }), ..v }),
        0x18 => (CpuView { registers: (Registers { pc: wrap16(wrap16(v.registers.pc + 1) + sext8(mmu_read_spec(v.mmu, v.registers.pc)) + 0x10000), ..v.registers }), ..v }),
        0x19 => (CpuView { registers: (Registers { h: ((wrap16(((v.registers.h) * 256 + (v.registers.l)) as u16 + ((v.registers.d) * 256 + (v.registers.e)) as u16)) / 256) as u8, l: ((wrap16(((v.registers.h) * 256 + (v.registers.l)) as u16 + ((v.registers.d) * 256 + (v.registers.e)) as u16)) % 256) as u8, f: add16_flags(v.registers.f, ((v.registers.h) * 256 + (v.registers.l)) as u16, ((v.registers.d) * 256 + (v.registers.e)) as u16), ..v.registers }), ..v }),
        0x1A => (CpuView { registers: (Registers { a: mmu_read_spec(v.mmu, ((v.registers.d) * 256 + (v.registers.e)) as u16), ..v.registers }), ..v }),
        0x1B => (CpuView { registers: (Registers { d: ((wrap16(((v.registers.d) * 256 + (v.registers.e)) as u16 - 1 + 0x10000)) / 256) as u8, e: ((wrap16(((v.registers.d) * 256 + (v.registers.e)) as u16 - 1 + 0x10000)) % 256) as u8, ..v.registers }), ..v }),
        0x1C => (CpuView { registers: (Registers { e: inc8_val(v.registers.e), f: inc8_flags(v.registers.f, v.registers.e), ..v.registers }), ..v }),
        0x1D => (CpuView { registers: (Registers { e: dec8_val(v.registers.e), f: dec8_flags(v.registers.f, v.registers.e), ..v.registers }), ..v }),
        0x1E => (CpuView { registers: (Registers { e: mmu_read_spec(v.mmu, v.registers.pc), pc: wrap16(v.registers.pc + 1), ..v.registers }), ..v }),
        0x1F => (CpuView { registers: (Registers { a: rr_val(v.registers.a, c_flag(v.registers.f)), f: flags_byte(false, false, false, rrc_carry(v.registers.a)), ..v.registers }), ..v }),
        0x20 => (CpuView { registers: (Registers { pc: (if !z_flag(v.registers.f) { wrap16(wrap16(v.registers.pc + 1) + sext8(mmu_read_spec(v.mmu, v.registers.pc)) + 0x10000) } else { wrap16(v.registers.pc + 1) }), ..v.registers }), ..v }),
        0x21 => (CpuView { registers: (Registers { l: mmu_read_spec(v.mmu, v.registers.pc), h: mmu_read_spec(v.mmu, wrap16(v.registers.pc + 1)), pc: wrap16(v.registers.pc + 2), ..v.registers }), ..v }),
        0x22 => (CpuView { registers: (Registers { h: ((wrap16(((v.registers.h) * 256 + (v.registers.l)) as u16 + 1)) / 256) as u8, l: ((wrap16(((v.registers.h) * 256 + (v.registers.l)) as u16 + 1)) % 256) as u8, ..v.registers }), mmu: mmu_write_spec(v.mmu, ((v.registers.h) * 256 + (v.registers.l)) as u16, v.registers.a), ..v }),
        0x23 => (CpuView { registers: (Registers { h: ((wrap16(((v.registers.h) * 256 + (v.registers.l)) as u16 + 1)) / 256) as u8, l: ((wrap16(((v.registers.h) * 256 + (v.registers.l)) as u16 + 1)) % 256) as u8, ..v.registers }), ..v }),
        0x24 => (CpuView { registers: (Registers { h: inc8_val(v.registers.h), f: inc8_flags(v.registers.f, v.registers.h), ..v.registers }), ..v }),
        0x25 => (CpuView { registers: (Registers { h: dec8_val(v.registers.h), f: dec8_flags(v.registers.f, v.registers.h), ..v.registers }), ..v }),
        0x26 => (CpuView { registers: (Registers { h: mmu_read_spec(v.mmu, v.registers.pc), pc: wrap16(v.registers.pc + 1), ..v.registers }), ..v }),
        0x27 => (CpuView { registers: daa_spec(v.registers), ..v }),
        0x28 => (CpuView { registers: (Registers { pc: (if z_flag(v.registers.f) { wrap16(wrap16(v.registers.pc + 1) + sext8(mmu_read_spec(v.mmu, v.registers.pc)) + 0x10000) } else { wrap16(v.registers.pc + 1) }), ..v.registers }), ..v }),
        0x29 => (CpuView { registers: (Registers { h: ((wrap16(((v.registers.h) * 256 + (v.registers.l)) as u16 + ((v.registers.h) * 256 + (v.registers.l)) as u16)) / 256) as u8, l: ((wrap16(((v.registers.h) * 256 + (v.registers.l)) as u16 + ((v.registers.h) * 256 + (v.registers.l)) as u16)) % 256) as u8, f: add16_flags(v.registers.f, ((v.registers.h) * 256 + (v.registers.l)) as u16, ((v.registers.h) * 256 + (v.registers.l)) as u16), ..v.registers }), ..v }),
        0x2A => (CpuView { registers: (Registers { a: mmu_read_spec(v.mmu, ((v.registers.h) * 256 + (v.registers.l)) as u16), h: ((wrap16(((v.registers.h) * 256 + (v.registers.l)) as u16 + 1)) / 256) as u8, l: ((wrap16(((v.registers.h) * 256 + (v.registers.l)) as u16 + 1)) % 256) as u8, ..v.registers }), ..v }),
        0x2B => (CpuView { registers: (Registers { h: ((wrap16(((v.registers.h) * 256 + (v.registers.l)) as u16 - 1 + 0x10000)) / 256) as u8, l: ((wrap16(((v.registers.h) * 256 + (v.registers.l)) as u16 - 1 + 0x10000)) % 256) as u8, ..v.registers }), ..v }),
        0x2C => (CpuView { registers: (Registers { l: inc8_val(v.registers.l), f: inc8_flags(v.registers.f, v.registers.l), ..v.registers }), ..v }),
        0x2D => (CpuView { registers: (Registers { l: dec8_val(v.registers.l), f: dec8_flags(v.registers.f, v.registers.l), ..v.registers }), ..v }),
        0x2E => (CpuView { registers: (Registers { l: mmu_read_spec(v.mmu, v.registers.pc), pc: wrap16(v.registers.pc + 1), ..v.registers }), ..v }),
        0x2F => (CpuView { registers: (Registers { a: (255 - v.registers.a) as u8, f: flags_byte(z_flag(v.registers.f), true, true, c_flag(v.registers.f)), ..v.registers }), ..v }),
        0x30 => (CpuView { registers: (Registers { pc: (if !c_flag(v.registers.f) { wrap16(wrap16(v.registers.pc + 1) + sext8(mmu_read_spec(v.mmu, v.registers.pc)) + 0x10000) } else { wrap16(v.registers.pc + 1) }), ..v.registers }), ..v }),
        0x31 => (CpuView { registers: (Registers { sp: (mmu_read_spec(v.mmu, v.registers.pc) + 256 * mmu_read_spec(v.mmu, wrap16(v.registers.pc + 1))) as u16, pc: wrap16(v.registers.pc + 2), ..v.registers }), ..v }),
        0x32 => (CpuView { registers: (Registers { h: ((wrap16(((v.registers.h) * 256 + (v.registers.l)) as u16 - 1 + 0x10000)) / 256) as u8, l: ((wrap16(((v.registers.h) * 256 + (v.registers.l)) as u16 - 1 + 0x10000)) % 256) as u8, ..v.registers }), mmu: mmu_write_spec(v.mmu, ((v.registers.h) * 256 + (v.registers.l)) as u16, v.registers.a), ..v }),
        0x33 => (CpuView { registers: (Registers { sp: wrap16(v.registers.sp + 1), ..v.registers }), ..v }),
        0x34 => (CpuView { registers: (Registers { f: inc8_flags(v.registers.f, mmu_read_spec(v.mmu, ((v.registers.h) * 256 + (v.registers.l)) as u16)), ..v.registers }), mmu: mmu_write_spec(v.mmu, ((v.registers.h) * 256 + (v.registers.l)) as u16, inc8_val(mmu_read_spec(v.mmu, ((v.registers.h) * 256 + (v.registers.l)) as u16))), ..v }),
        0x35 => (CpuView { registers: (Registers { f: dec8_flags(v.registers.f, mmu_read_spec(v.mmu, ((v.registers.h) * 256 + (v.registers.l)) as u16)), ..v.registers }), mmu: mmu_write_spec(v.mmu, ((v.registers.h) * 256 + (v.registers.l)) as u16, dec8_val(mmu_read_spec(v.mmu, ((v.registers.h) * 256 + (v.registers.l)) as u16))), ..v }),
        0x36 => (CpuView { registers: (Registers { pc: wrap16(v.registers.pc + 1), ..v.registers }), mmu: mmu_write_spec(v.mmu, ((v.registers.h) * 256 + (v.registers.l)) as u16, mmu_read_spec(v.mmu, v.registers.pc)), ..v }),
        0x37 => (CpuView { registers: (Registers { f: flags_byte(z_flag(v.registers.f), false, false, true), ..v.registers }), ..v }),
        0x38 => (CpuView { registers: (Registers { pc: (if c_flag(v.registers.f) { wrap16(wrap16(v.registers.pc + 1) + sext8(mmu_read_spec(v.mmu, v.registers.pc)) + 0x10000) } else { wrap16(v.registers.pc + 1) }), ..v.registers }), ..v }),
        0x39 => (CpuView { registers: (Registers { h: ((wrap16(((v.registers.h) * 256 + (v.registers.l)) as u16 + v.registers.sp)) / 256) as u8, l: ((wrap16(((v.registers.h) * 256 + (v.registers.l)) as u16 + v.registers.sp)) % 256) as u8, f: add16_flags(v.registers.f, ((v.registers.h) * 256 + (v.registers.l)) as u16, v.registers.sp), ..v.registers }), ..v }),
        0x3A => (CpuView { registers: (Registers { a: mmu_read_spec(v.mmu, ((v.registers.h) * 256 + (v.registers.l)) as u16), h: ((wrap16(((v.registers.h) * 256 + (v.registers.l)) as u16 - 1 + 0x10000)) / 256) as u8, l: ((wrap16(((v.registers.h) * 256 + (v.registers.l)) as u16 - 1 + 0x10000)) % 256) as u8, ..v.registers }), ..v }),
        0x3B => (CpuView { registers: (Registers { sp: wrap16(v.registers.sp - 1 + 0x10000), ..v.registers }), ..v }),
        0x3C => (CpuView { registers: (Registers { a: inc8_val(v.registers.a), f: inc8_flags(v.registers.f, v.registers.a), ..v.registers }), ..v }),
        0x3D => (CpuView { registers: (Registers { a: dec8_val(v.registers.a), f: dec8_flags(v.registers.f, v.registers.a), ..v.registers }), ..v }),
        0x3E => (CpuView { registers: (Registers { a: mmu_read_spec(v.mmu, v.registers.pc), pc: wrap16(v.registers.pc + 1), ..v.registers }), ..v }),
        0x3F => (CpuView { registers: (Registers { f: flags_byte(z_flag(v.registers.f), false, false, !c_flag(v.registers.f)), ..v.registers }), ..v }),
        0x40 => (CpuView { registers: (Registers { b: v.registers.b, ..v.registers }), ..v }),
        0x41 => (CpuView { registers: (Registers { b: v.registers.c, ..v.registers }), ..v }),
        0x42 => (CpuView { registers: (Registers { b: v.registers.d, ..v.registers }), ..v }),
        0x43 => (CpuView { registers: (Registers { b: v.registers.e, ..v.registers }), ..v }),
        0x44 => (CpuView { registers: (Registers { b: v.registers.h, ..v.registers }), ..v }),
        0x45 => (CpuView { registers: (Registers { b: v.registers.l, ..v.registers }), ..v }),
        0x46 => (CpuView { registers: (Registers { b: mmu_read_spec(v.mmu, ((v.registers.h) * 256 + (v.registers.l)) as u16), ..v.registers }), ..v }),
        0x47 => (CpuView { registers: (Registers { b: v.registers.a, ..v.registers }), ..v }),
        0x48 => (CpuView { registers: (Registers { c: v.registers.b, ..v.registers }), ..v }),
        0x49 => (CpuView { registers: (Registers { c: v.registers.c, ..v.registers }), ..v }),
        0x4A => (CpuView { registers: (Registers { c: v.registers.d, ..v.registers }), ..v }),
        0x4B => (CpuView { registers: (Registers { c: v.registers.e, ..v.registers }), ..v }),
        0x4C => (CpuView { registers: (Registers { c: v.registers.h, ..v.registers }), ..v }),
        0x4D => (CpuView { registers: (Registers { c: v.registers.l, ..v.registers }), ..v }),
        0x4E => (CpuView { registers: (Registers { c: mmu_read_spec(v.mmu, ((v.registers.h) * 256 + (v.registers.l)) as u16), ..v.registers }), ..v }),
        0x4F => (CpuView { registers: (Registers { c: v.registers.a, ..v.registers }), ..v }),
        0x50 => (CpuView { registers: (Registers { d: v.registers.b, ..v.registers }), ..v }),
        0x51 => (CpuView { registers: (Registers { d: v.registers.c, ..v.registers }), ..v }),
        0x52 => (CpuView { registers: (Registers { d: v.registers.d, ..v.registers }), ..v }),
        0x53 => (CpuView { registers: (Registers { d: v.registers.e, ..v.registers }), ..v }),
        0x54 => (CpuView { registers: (Registers { d: v.registers.h, ..v.registers }), ..v }),
        0x55 => (CpuView { registers: (Registers { d: v.registers.l, ..v.registers }), ..v }),
        0x56 => (CpuView { registers: (Registers { d: mmu_read_spec(v.mmu, ((v.registers.h) * 256 + (v.registers.l)) as u16), ..v.registers }), ..v }),
        0x57 => (CpuView { registers: (Registers { d: v.registers.a, ..v.registers }), ..v }),
        0x58 => (CpuView { registers: (Registers { e: v.registers.b, ..v.registers }), ..v }),
        0x59 => (CpuView { registers: (Registers { e: v.registers.c, ..v.registers }), ..v }),
        0x5A => (CpuView { registers: (Registers { e: v.registers.d, ..v.registers }), ..v }),
        0x5B => (CpuView { registers: (Registers { e: v.registers.e, ..v.registers }), ..v }),
        0x5C => (CpuView { registers: (Registers { e: v.registers.h, ..v.registers }), ..v }),
        0x5D => (CpuView { registers: (Registers { e: v.registers.l, ..v.registers }), ..v }),
        0x5E => (CpuView { registers: (Registers { e: mmu_read_spec(v.mmu, ((v.registers.h) * 256 + (v.registers.l)) as u16), ..v.registers }), ..v }),
        0x5F => (CpuView { registers: (Registers { e: v.registers.a, ..v.registers }), ..v }),
        0x60 => (CpuView { registers: (Registers { h: v.registers.b, ..v.registers }), ..v }),
        0x61 => (CpuView { registers: (Registers { h: v.registers.c, ..v.registers }), ..v }),
        0x62 => (CpuView { registers: (Registers { h: v.registers.d, ..v.registers }), ..v }),
        0x63 => (CpuView { registers: (Registers { h: v.registers.e, ..v.registers }), ..v }),
        0x64 => (CpuView { registers: (Registers { h: v.registers.h, ..v.registers }), ..v }),
        0x65 => (CpuView { registers: (Registers { h: v.registers.l, ..v.registers }), ..v }),
        0x66 => (CpuView { registers: (Registers { h: mmu_read_spec(v.mmu, ((v.registers.h) * 256 + (v.registers.l)) as u16), ..v.registers }), ..v }),
        0x67 => (CpuView { registers: (Registers { h: v.registers.a, ..v.registers }), ..v }),
        0x68 => (CpuView { registers: (Registers { l: v.registers.b, ..v.registers }), ..v }),
        0x69 => (CpuView { registers: (Registers { l: v.registers.c, ..v.registers }), ..v }),
        0x6A => (CpuView { registers: (Registers { l: v.registers.d, ..v.registers }), ..v }),
        0x6B => (CpuView { registers: (Registers { l: v.registers.e, ..v.registers }), ..v }),
        0x6C => (CpuView { registers: (Registers { l: v.registers.h, ..v.registers }), ..v }),
        0x6D => (CpuView { registers: (Registers { l: v.registers.l, ..v.registers }), ..v }),
        0x6E => (CpuView { registers: (Registers { l: mmu_read_spec(v.mmu, ((v.registers.h) * 256 + (v.registers.l)) as u16), ..v.registers }), ..v }),
        0x6F => (CpuView { registers: (Registers { l: v.registers.a, ..v.registers }), ..v }),
        0x70 => (CpuView { mmu: mmu_write_spec(v.mmu, ((v.registers.h) * 256 + (v.registers.l)) as u16, v.registers.b), ..v }),
        0x71 => (CpuView { mmu: mmu_write_spec(v.mmu, ((v.registers.h) * 256 + (v.registers.l)) as u16, v.registers.c), ..v }),
        0x72 => (CpuView { mmu: mmu_write_spec(v.mmu, ((v.registers.h) * 256 + (v.registers.l)) as u16, v.registers.d), ..v }),
        0x73 => (CpuView { mmu: mmu_write_spec(v.mmu, ((v.registers.h) * 256 + (v.registers.l)) as u16, v.registers.e), ..v }),
        0x74 => (CpuView { mmu: mmu_write_spec(v.mmu, ((v.registers.h) * 256 + (v.registers.l)) as u16, v.registers.h), ..v }),
        0x75 => (CpuView { mmu: mmu_write_spec(v.mmu, ((v.registers.h) * 256 + (v.registers.l)) as u16, v.registers.l), ..v }),
        0x76 => (CpuView { status: Status::HALTED, ..v }),
        0x77 => (CpuView { mmu: mmu_write_spec(v.mmu, ((v.registers.h) * 256 + (v.registers.l)) as u16, v.registers.a), ..v }),
        0x78 => (CpuView { registers: (Registers { a: v.registers.b, ..v.registers }), ..v }),
        0x79 => (CpuView { registers: (Registers { a: v.registers.c, ..v.registers }), ..v }),
        0x7A => (CpuView { registers: (Registers { a: v.registers.d, ..v.registers }), ..v }),
        0x7B => (CpuView { registers: (Registers { a: v.registers.e, ..v.registers }), ..v }),
        0x7C => (CpuView { registers: (Registers { a: v.registers.h, ..v.registers }), ..v }),
        0x7D => (CpuView { registers: (Registers { a: v.registers.l, ..v.registers }), ..v }),
        0x7E => (CpuView { registers: (Registers { a: mmu_read_spec(v.mmu, ((v.registers.h) * 256 + (v.registers.l)) as u16), ..v.registers }), ..v }),
        0x7F => (CpuView { registers: (Registers { a: v.registers.a, ..v.registers }), ..v }),
        0x80 => (CpuView { registers: add8_spec(v.registers, v.registers.b), ..v }),
        0x81 => (CpuView { registers: add8_spec(v.registers, v.registers.c), ..v }),
        0x82 => (CpuView { registers: add8_spec(v.registers, v.registers.d), ..v }),
        0x83 => (CpuView { registers: add8_spec(v.registers, v.registers.e), ..v }),
        0x84 => (CpuView { registers: add8_spec(v.registers, v.registers.h), ..v }),
        0x85 => (CpuView { registers: add8_spec(v.registers, v.registers.l), ..v }),
        0x86 => (CpuView { registers: add8_spec(v.registers, mmu_read_spec(v.mmu, ((v.registers.h) * 256 + (v.registers.l)) as u16)), ..v }),
        0x87 => (CpuView { registers: add8_spec(v.registers, v.registers.a), ..v }),
        0x88 => (CpuView { registers: adc8_spec(v.registers, v.registers.b), ..v }),
        0x89 => (CpuView { registers: adc8_spec(v.registers, v.registers.c), ..v }),
        0x8A => (CpuView { registers: adc8_spec(v.registers, v.registers.d), ..v }),
        0x8B => (CpuView { registers: adc8_spec(v.registers, v.registers.e), ..v }),
        0x8C => (CpuView { registers: adc8_spec(v.registers, v.registers.h), ..v }),
        0x8D => (CpuView { registers: adc8_spec(v.registers, v.registers.l), ..v }),
        0x8E => (CpuView { registers: adc8_spec(v.registers, mmu_read_spec(v.mmu, ((v.registers.h) * 256 + (v.registers.l)) as u16)), ..v }),
        0x8F => (CpuView { registers: adc8_spec(v.registers, v.registers.a), ..v }),
        0x90 => (CpuView { registers: sub8_spec(v.registers, v.registers.b), ..v }),
        0x91 => (CpuView { registers: sub8_spec(v.registers, v.registers.c), ..v }),
        0x92 => (CpuView { registers: sub8_spec(v.registers, v.registers.d), ..v }),
        0x93 => (CpuView { registers: sub8_spec(v.registers, v.registers.e), ..v }),
        0x94 => (CpuView { registers: sub8_spec(v.registers, v.registers.h), ..v }),
        0x95 => (CpuView { registers: sub8_spec(v.registers, v.registers.l), ..v }),
        0x96 => (CpuView { registers: sub8_spec(v.registers, mmu_read_spec(v.mmu, ((v.registers.h) * 256 + (v.registers.l)) as u16)), ..v }),
        0x97 => (CpuView { registers: sub8_spec(v.registers, v.registers.a), ..v }),
        0x98 => (CpuView { registers: sbc8_spec(v.registers, v.registers.b), ..v }),
        0x99 => (CpuView { registers: sbc8_spec(v.registers, v.registers.c), ..v }),
        0x9A => (CpuView { registers: sbc8_spec(v.registers, v.registers.d), ..v }),
        0x9B => (CpuView { registers: sbc8_spec(v.registers, v.registers.e), ..v }),
        0x9C => (CpuView { registers: sbc8_spec(v.registers, v.registers.h), ..v }),
        0x9D => (CpuView { registers: sbc8_spec(v.registers, v.registers.l), ..v }),
        0x9E => (CpuView { registers: sbc8_spec(v.registers, mmu_read_spec(v.mmu, ((v.registers.h) * 256 + (v.registers.l)) as u16)), ..v }),
        0x9F => (CpuView { registers: sbc8_spec(v.registers, v.registers.a), ..v }),
        0xA0 => (CpuView { registers: and_spec(v.registers, v.registers.b), ..v }),
        0xA1 => (CpuView { registers: and_spec(v.registers, v.registers.c), ..v }),
        0xA2 => (CpuView { registers: and_spec(v.registers, v.registers.d), ..v }),
        0xA3 => (CpuView { registers: and_spec(v.registers, v.registers.e), ..v }),
        0xA4 => (CpuView { registers: and_spec(v.registers, v.registers.h), ..v }),
        0xA5 => (CpuView { registers: and_spec(v.registers, v.registers.l), ..v }),
        0xA6 => (CpuView { registers: and_spec(v.registers, mmu_read_spec(v.mmu, ((v.registers.h) * 256 + (v.registers.l)) as u16)), ..v }),
        0xA7 => (CpuView { registers: and_spec(v.registers, v.registers.a), ..v }),
        0xA8 => (CpuView { registers: xor_spec(v.registers, v.registers.b), ..v }),
        0xA9 => (CpuView { registers: xor_spec(v.registers, v.registers.c), ..v }),
        0xAA => (CpuView { registers: xor_spec(v.registers, v.registers.d), ..v }),
        0xAB => (CpuView { registers: xor_spec(v.registers, v.registers.e), ..v }),
        0xAC => (CpuView { registers: xor_spec(v.registers, v.registers.h), ..v }),
        0xAD => (CpuView { registers: xor_spec(v.registers, v.registers.l), ..v }),
        0xAE => (CpuView { registers: xor_spec(v.registers, mmu_read_spec(v.mmu, ((v.registers.h) * 256 + (v.registers.l)) as u16)), ..v }),
        0xAF => (CpuView { registers: xor_spec(v.registers, v.registers.a), ..v }),
        0xB0 => (CpuView { registers: or_spec(v.registers, v.registers.b), ..v }),
        0xB1 => (CpuView { registers: or_spec(v.registers, v.registers.c), ..v }),
        0xB2 => (CpuView { registers: or_spec(v.registers, v.registers.d), ..v }),
        0xB3 => (CpuView { registers: or_spec(v.registers, v.registers.e), ..v }),
        0xB4 => (CpuView { registers: or_spec(v.registers, v.registers.h), ..v }),
        0xB5 => (CpuView { registers: or_spec(v.registers, v.registers.l), ..v }),
        0xB6 => (CpuView { registers: or_spec(v.registers, mmu_read_spec(v.mmu, ((v.registers.h) * 256 + (v.registers.l)) as u16)), ..v }),
        0xB7 => (CpuView { registers: or_spec(v.registers, v.registers.a), ..v }),
        0xB8 => (CpuView { registers: cp_spec(v.registers, v.registers.b), ..v }),
        0xB9 => (CpuView { registers: cp_spec(v.registers, v.registers.c), ..v }),
        0xBA => (CpuView { registers: cp_spec(v.registers, v.registers.d), ..v }),
        0xBB => (CpuView { registers: cp_spec(v.registers, v.registers.e), ..v }),
        0xBC => (CpuView { registers: cp_spec(v.registers, v.registers.h), ..v }),
        0xBD => (CpuView { registers: cp_spec(v.registers, v.registers.l), ..v }),
        0xBE => (CpuView { registers: cp_spec(v.registers, mmu_read_spec(v.mmu, ((v.registers.h) * 256 + (v.registers.l)) as u16)), ..v }),
        0xBF => (CpuView { registers: cp_spec(v.registers, v.registers.a), ..v }),
        0xC0 => (CpuView { registers: (if !z_flag(v.registers.f) { (Registers { pc: (mmu_read_spec(v.mmu, v.registers.sp) + 256 * mmu_read_spec(v.mmu, wrap16(v.registers.sp + 1))) as u16, sp: wrap16(v.registers.sp + 2), ..v.registers }) } else { v.registers }), ..v }),
        0xC1 => (CpuView { registers: (Registers { c: mmu_read_spec(v.mmu, v.registers.sp), b: mmu_read_spec(v.mmu, wrap16(v.registers.sp + 1)), sp: wrap16(v.registers.sp + 2), ..v.registers }), ..v }),
        0xC2 => (CpuView { registers: (Registers { pc: (if !z_flag(v.registers.f) { ((mmu_read_spec(v.mmu, v.registers.pc)) + 256 * (mmu_read_spec(v.mmu, wrap16(v.registers.pc + 1)))) as u16 } else { wrap16(v.registers.pc + 2) }), ..v.registers }), ..v }),
        0xC3 => (CpuView { registers: (Registers { pc: ((mmu_read_spec(v.mmu, v.registers.pc)) + 256 * (mmu_read_spec(v.mmu, wrap16(v.registers.pc + 1)))) as u16, ..v.registers }), ..v }),
        0xC4 => if !z_flag(v.registers.f) { (CpuView { registers: (Registers { pc: ((mmu_read_spec(v.mmu, v.registers.pc)) + 256 * (mmu_read_spec(v.mmu, wrap16(v.registers.pc + 1)))) as u16, sp: wrap16(v.registers.sp - 2 + 0x10000), ..v.registers }), mmu: mmu_write_word_spec(v.mmu, wrap16(v.registers.sp - 2 + 0x10000), wrap16(v.registers.pc + 2)), ..v }) } else { (CpuView { registers: (Registers { pc: wrap16(v.registers.pc + 2), ..v.registers }), ..v }) },
        0xC5 => (CpuView { registers: (Registers { sp: wrap16(v.registers.sp - 2 + 0x10000), ..v.registers }), mmu: mmu_write_word_spec(v.mmu, wrap16(v.registers.sp - 2 + 0x10000), ((v.registers.b) * 256 + (v.registers.c)) as u16), ..v }),
        0xC6 => (CpuView { registers: add8_spec((Registers { pc: wrap16(v.registers.pc + 1), ..v.registers }), mmu_read_spec(v.mmu, v.registers.pc)), ..v }),
        0xC7 => (CpuView { registers: (Registers { pc: 0x00, sp: wrap16(v.registers.sp - 2 + 0x10000), ..v.registers }), mmu: mmu_write_word_spec(v.mmu, wrap16(v.registers.sp - 2 + 0x10000), v.registers.pc), ..v }),
        0xC8 => (CpuView { registers: (if z_flag(v.registers.f) { (Registers { pc: (mmu_read_spec(v.mmu, v.registers.sp) + 256 * mmu_read_spec(v.mmu, wrap16(v.registers.sp + 1))) as u16, sp: wrap16(v.registers.sp + 2), ..v.registers }) } else { v.registers }), ..v }),
        0xC9 => (CpuView { registers: (Registers { pc: (mmu_read_spec(v.mmu, v.registers.sp) + 256 * mmu_read_spec(v.mmu, wrap16(v.registers.sp + 1))) as u16, sp: wrap16(v.registers.sp + 2), ..v.registers }), ..v }),
        0xCA => (CpuView { registers: (Registers { pc: (if z_flag(v.registers.f) { ((mmu_read_spec(v.mmu, v.registers.pc)) + 256 * (mmu_read_spec(v.mmu, wrap16(v.registers.pc + 1)))) as u16 } else { wrap16(v.registers.pc + 2) }), ..v.registers }), ..v }),
        0xCB => (CpuView { use_cb_table: true, ..v }),
        0xCC => if z_flag(v.registers.f) { (CpuView { registers: (Registers { pc: ((mmu_read_spec(v.mmu, v.registers.pc)) + 256 * (mmu_read_spec(v.mmu, wrap16(v.registers.pc + 1)))) as u16, sp: wrap16(v.registers.sp - 2 + 0x10000), ..v.registers }), mmu: mmu_write_word_spec(v.mmu, wrap16(v.registers.sp - 2 + 0x10000), wrap16(v.registers.pc + 2)), ..v }) } else { (CpuView { registers: (Registers { pc: wrap16(v.registers.pc + 2), ..v.registers }), ..v }) },
        0xCD => (CpuView { registers: (Registers { pc: ((mmu_read_spec(v.mmu, v.registers.pc)) + 256 * (mmu_read_spec(v.mmu, wrap16(v.registers.pc + 1)))) as u16, sp: wrap16(v.registers.sp - 2 + 0x10000), ..v.registers }), mmu: mmu_write_word_spec(v.mmu, wrap16(v.registers.sp - 2 + 0x10000), wrap16(v.registers.pc + 2)), ..v }),
        0xCE => (CpuView { registers: adc8_spec((Registers { pc: wrap16(v.registers.pc + 1), ..v.registers }), mmu_read_spec(v.mmu, v.registers.pc)), ..v }),
        0xCF => (CpuView { registers: (Registers { pc: 0x08, sp: wrap16(v.registers.sp - 2 + 0x10000), ..v.registers }), mmu: mmu_write_word_spec(v.mmu, wrap16(v.registers.sp - 2 + 0x10000), v.registers.pc), ..v }),
        0xD0 => (CpuView { registers: (if !c_flag(v.registers.f) { (Registers { pc: (mmu_read_spec(v.mmu, v.registers.sp) + 256 * mmu_read_spec(v.mmu, wrap16(v.registers.sp + 1))) as u16, sp: wrap16(v.registers.sp + 2), ..v.registers }) } else { v.registers }), ..v }),
        0xD1 => (CpuView { registers: (Registers { e: mmu_read_spec(v.mmu, v.registers.sp), d: mmu_read_spec(v.mmu, wrap16(v.registers.sp + 1)), sp: wrap16(v.registers.sp + 2), ..v.registers }), ..v }),
        0xD2 => (CpuView { registers: (Registers { pc: (if !c_flag(v.registers.f) { ((mmu_read_spec(v.mmu, v.registers.pc)) + 256 * (mmu_read_spec(v.mmu, wrap16(v.registers.pc + 1)))) as u16 } else { wrap16(v.registers.pc + 2) }), ..v.registers }), ..v }),
        0xD4 => if !c_flag(v.registers.f) { (CpuView { registers: (Registers { pc: ((mmu_read_spec(v.mmu, v.registers.pc)) + 256 * (mmu_read_spec(v.mmu, wrap16(v.registers.pc + 1)))) as u16, sp: wrap16(v.registers.sp - 2 + 0x10000), ..v.registers }), mmu: mmu_write_word_spec(v.mmu, wrap16(v.registers.sp - 2 + 0x10000), wrap16(v.registers.pc + 2)), ..v }) } else { (CpuView { registers: (Registers { pc: wrap16(v.registers.pc + 2), ..v.registers }), ..v }) },
        0xD5 => (CpuView { registers: (Registers { sp: wrap16(v.registers.sp - 2 + 0x10000), ..v.registers }), mmu: mmu_write_word_spec(v.mmu, wrap16(v.registers.sp - 2 + 0x10000), ((v.registers.d) * 256 + (v.registers.e)) as u16), ..v }),
        0xD6 => (CpuView { registers: sub8_spec((Registers { pc: wrap16(v.registers.pc + 1), ..v.registers }), mmu_read_spec(v.mmu, v.registers.pc)), ..v }),
        0xD7 => (CpuView { registers: (Registers { pc: 0x10, sp: wrap16(v.registers.sp - 2 + 0x10000), ..v.registers }), mmu: mmu_write_word_spec(v.mmu, wrap16(v.registers.sp - 2 + 0x10000), v.registers.pc), ..v }),
        0xD8 => (CpuView { registers: (if c_flag(v.registers.f) { (Registers { pc: (mmu_read_spec(v.mmu, v.registers.sp) + 256 * mmu_read_spec(v.mmu, wrap16(v.registers.sp + 1))) as u16, sp: wrap16(v.registers.sp + 2), ..v.registers }) } else { v.registers }), ..v }),
        0xD9 => (CpuView { registers: (Registers { pc: (mmu_read_spec(v.mmu, v.registers.sp) + 256 * mmu_read_spec(v.mmu, wrap16(v.registers.sp + 1))) as u16, sp: wrap16(v.registers.sp + 2), ..v.registers }), ime: IME::Enabled, ..v }),
        0xDA => (CpuView { registers: (Registers { pc: (if c_flag(v.registers.f) { ((mmu_read_spec(v.mmu, v.registers.pc)) + 256 * (mmu_read_spec(v.mmu, wrap16(v.registers.pc + 1)))) as u16 } else { wrap16(v.registers.pc + 2) }), ..v.registers }), ..v }),
        0xDC => if c_flag(v.registers.f) { (CpuView { registers: (Registers { pc: ((mmu_read_spec(v.mmu, v.registers.pc)) + 256 * (mmu_read_spec(v.mmu, wrap16(v.registers.pc + 1)))) as u16, sp: wrap16(v.registers.sp - 2 + 0x10000), ..v.registers }), mmu: mmu_write_word_spec(v.mmu, wrap16(v.registers.sp - 2 + 0x10000), wrap16(v.registers.pc + 2)), ..v }) } else { (CpuView { registers: (Registers { pc: wrap16(v.registers.pc + 2), ..v.registers }), ..v }) },
        0xDE => (CpuView { registers: sbc8_spec((Registers { pc: wrap16(v.registers.pc + 1), ..v.registers }), mmu_read_spec(v.mmu, v.registers.pc)), ..v }),
        0xDF => (CpuView { registers: (Registers { pc: 0x18, sp: wrap16(v.registers.sp - 2 + 0x10000), ..v.registers }), mmu: mmu_write_word_spec(v.mmu, wrap16(v.registers.sp - 2 + 0x10000), v.registers.pc), ..v }),
        0xE0 => (CpuView { registers: (Registers { pc: wrap16(v.registers.pc + 1), ..v.registers }), mmu: mmu_write_spec(v.mmu, (0xFF00 + mmu_read_spec(v.mmu, v.registers.pc)) as u16, v.registers.a), ..v }),
        0xE1 => (CpuView { registers: (Registers { l: mmu_read_spec(v.mmu, v.registers.sp), h: mmu_read_spec(v.mmu, wrap16(v.registers.sp + 1)), sp: wrap16(v.registers.sp + 2), ..v.registers }), ..v }),
        0xE2 => (CpuView { mmu: mmu_write_spec(v.mmu, (0xFF00 + v.registers.c) as u16, v.registers.a), ..v }),
        0xE5 => (CpuView { registers: (Registers { sp: wrap16(v.registers.sp - 2 + 0x10000), ..v.registers }), mmu: mmu_write_word_spec(v.mmu, wrap16(v.registers.sp - 2 + 0x10000), ((v.registers.h) * 256 + (v.registers.l)) as u16), ..v }),
        0xE6 => (CpuView { registers: and_spec((Registers { pc: wrap16(v.registers.pc + 1), ..v.registers }), mmu_read_spec(v.mmu, v.registers.pc)), ..v }),
        0xE7 => (CpuView { registers: (Registers { pc: 0x20, sp: wrap16(v.registers.sp - 2 + 0x10000), ..v.registers }), mmu: mmu_write_word_spec(v.mmu, wrap16(v.registers.sp - 2 + 0x10000), v.registers.pc), ..v }),
        0xE8 => (CpuView { registers: (Registers { sp: wrap16(v.registers.sp + sext8(mmu_read_spec(v.mmu, v.registers.pc)) + 0x10000), f: add16_imm_flags(v.registers.sp, mmu_read_spec(v.mmu, v.registers.pc)), pc: wrap16(v.registers.pc + 1), ..v.registers }), ..v }),
        0xE9 => (CpuView { registers: (Registers { pc: ((v.registers.h) * 256 + (v.registers.l)) as u16, ..v.registers }), ..v }),
        0xEA => (CpuView { registers: (Registers { pc: wrap16(v.registers.pc + 2), ..v.registers }), mmu: mmu_write_spec(v.mmu, ((mmu_read_spec(v.mmu, v.registers.pc)) + 256 * (mmu_read_spec(v.mmu, wrap16(v.registers.pc + 1)))) as u16, v.registers.a), ..v }),
        0xEE => (CpuView { registers: xor_spec((Registers { pc: wrap16(v.registers.pc + 1), ..v.registers }), mmu_read_spec(v.mmu, v.registers.pc)), ..v }),
        0xEF => (CpuView { registers: (Registers { pc: 0x28, sp: wrap16(v.registers.sp - 2 + 0x10000), ..v.registers }), mmu: mmu_write_word_spec(v.mmu, wrap16(v.registers.sp - 2 + 0x10000), v.registers.pc), ..v }),
        0xF0 => (CpuView { registers: (Registers { a: mmu_read_spec(v.mmu, (0xFF00 + mmu_read_spec(v.mmu, v.registers.pc)) as u16), pc: wrap16(v.registers.pc + 1), ..v.registers }), ..v }),
        0xF1 => (CpuView { registers: (Registers { a: mmu_read_spec(v.mmu, wrap16(v.registers.sp + 1)), f: (mmu_read_spec(v.mmu, v.registers.sp) / 16 * 16) as u8, sp: wrap16(v.registers.sp + 2), ..v.registers }), ..v }),
        0xF2 => (CpuView { registers: (Registers { a: mmu_read_spec(v.mmu, (0xFF00 + v.registers.c) as u16), ..v.registers }), ..v }),
        0xF3 => (CpuView { ime: IME::Disabled, ..v }),
        0xF5 => (CpuView { registers: (Registers { sp: wrap16(v.registers.sp - 2 + 0x10000), ..v.registers }), mmu: mmu_write_word_spec(v.mmu, wrap16(v.registers.sp - 2 + 0x10000), ((v.registers.a) * 256 + (v.registers.f)) as u16), ..v }),
        0xF6 => (CpuView { registers: or_spec((Registers { pc: wrap16(v.registers.pc + 1), ..v.registers }), mmu_read_spec(v.mmu, v.registers.pc)), ..v }),
        0xF7 => (CpuView { registers: (Registers { pc: 0x30, sp: wrap16(v.registers.sp - 2 + 0x10000), ..v.registers }), mmu: mmu_write_word_spec(v.mmu, wrap16(v.registers.sp - 2 + 0x10000), v.registers.pc), ..v }),
        0xF8 => (CpuView { registers: (Registers { h: ((wrap16(v.registers.sp + sext8(mmu_read_spec(v.mmu, v.registers.pc)) + 0x10000)) / 256) as u8, l: ((wrap16(v.registers.sp + sext8(mmu_read_spec(v.mmu, v.registers.pc)) + 0x10000)) % 256) as u8, f: add16_imm_flags(v.registers.sp, mmu_read_spec(v.mmu, v.registers.pc)), pc: wrap16(v.registers.pc + 1), ..v.registers }), ..v }),
        0xF9 => (CpuView { registers: (Registers { sp: ((v.registers.h) * 256 + (v.registers.l)) as u16, ..v.registers }), ..v }),
        0xFA => (CpuView { registers: (Registers { a: mmu_read_spec(v.mmu, ((mmu_read_spec(v.mmu, v.registers.pc)) + 256 * (mmu_read_spec(v.mmu, wrap16(v.registers.pc + 1)))) as u16), pc: wrap16(v.registers.pc + 2), ..v.registers }), ..v }),
        0xFB => (CpuView { ime: IME::OneCycleDelay, ..v }),
        0xFE => (CpuView { registers: cp_spec((Registers { pc: wrap16(v.registers.pc + 1), ..v.registers }), mmu_read_spec(v.mmu, v.registers.pc)), ..v }),
        0xFF => (CpuView { registers: (Registers { pc: 0x38, sp: wrap16(v.registers.sp - 2 + 0x10000), ..v.registers }), mmu: mmu_write_word_spec(v.mmu, wrap16(v.registers.sp - 2 + 0x10000), v.registers.pc), ..v }),
        _ => v,
    }
}

/// The machine-state effect of one CB-table opcode, executed with PC
/// already past the opcode byte.
#[verifier::opaque]
pub open spec fn cb_effect(v: CpuView, code: u8) -> CpuView {
    match code {
        0x00 => (CpuView { registers: (Registers { b: rlc_val(v.registers.b), f: rot_flags(rlc_val(v.registers.b), rlc_carry(v.registers.b)), ..v.registers }), ..v }),
        0x01 => (CpuView { registers: (Registers { c: rlc_val(v.registers.c), f: rot_flags(rlc_val(v.registers.c), rlc_carry(v.registers.c)), ..v.registers }), ..v }),
        0x02 => (CpuView { registers: (Registers { d: rlc_val(v.registers.d), f: rot_flags(rlc_val(v.registers.d), rlc_carry(v.registers.d)), ..v.registers }), ..v }),
        0x03 => (CpuView { registers: (Registers { e: rlc_val(v.registers.e), f: rot_flags(rlc_val(v.registers.e), rlc_carry(v.registers.e)), ..v.registers }), ..v }),
        0x04 => (CpuView { registers: (Registers { h: rlc_val(v.registers.h), f: rot_flags(rlc_val(v.registers.h), rlc_carry(v.registers.h)), ..v.registers }), ..v }),
        0x05 => (CpuView { registers: (Registers { l: rlc_val(v.registers.l), f: rot_flags(rlc_val(v.registers.l), rlc_carry(v.registers.l)), ..v.registers }), ..v }),
        0x06 => (CpuView { registers: (Registers { f: rot_flags(rlc_val(mmu_read_spec(v.mmu, ((v.registers.h) * 256 + (v.registers.l)) as u16)), rlc_carry(mmu_read_spec(v.mmu, ((v.registers.h) * 256 + (v.registers.l)) as u16))), ..v.registers }), mmu: mmu_write_spec(v.mmu, ((v.registers.h) * 256 + (v.registers.l)) as u16, rlc_val(mmu_read_spec(v.mmu, ((v.registers.h) * 256 + (v.registers.l)) as u16))), ..v }),
        0x07 => (CpuView { registers: (Registers { a: rlc_val(v.registers.a), f: rot_flags(rlc_val(v.registers.a), rlc_carry(v.registers.a)), ..v.registers }), ..v }),
        0x08 => (CpuView { registers: (Registers { b: rrc_val(v.registers.b), f: rot_flags(rrc_val(v.registers.b), rrc_carry(v.registers.b)), ..v.registers }), ..v }),
        0x09 => (CpuView { registers: (Registers { c: rrc_val(v.registers.c), f: rot_flags(rrc_val(v.registers.c), rrc_carry(v.registers.c)), ..v.registers }), ..v }),
        0x0A => (CpuView { registers: (Registers { d: rrc_val(v.registers.d), f: rot_flags(rrc_val(v.registers.d), rrc_carry(v.registers.d)), ..v.registers }), ..v }),
        0x0B => (CpuView { registers: (Registers { e: rrc_val(v.registers.e), f: rot_flags(rrc_val(v.registers.e), rrc_carry(v.registers.e)), ..v.registers }), ..v }),
        0x0C => (CpuView { registers: (Registers { h: rrc_val(v.registers.h), f: rot_flags(rrc_val(v.registers.h), rrc_carry(v.registers.h)), ..v.registers }), ..v }),
        0x0D => (CpuView { registers: (Registers { l: rrc_val(v.registers.l), f: rot_flags(rrc_val(v.registers.l), rrc_carry(v.registers.l)), ..v.registers }), ..v }),
        0x0E => (CpuView { registers: (Registers { f: rot_flags(rrc_val(mmu_read_spec(v.mmu, ((v.registers.h) * 256 + (v.registers.l)) as u16)), rrc_carry(mmu_read_spec(v.mmu, ((v.registers.h) * 256 + (v.registers.l)) as u16))), ..v.registers }), mmu: mmu_write_spec(v.mmu, ((v.registers.h) * 256 + (v.registers.l)) as u16, rrc_val(mmu_read_spec(v.mmu, ((v.registers.h) * 256 + (v.registers.l)) as u16))), ..v }),
        0x0F => (CpuView { registers: (Registers { a: rrc_val(v.registers.a), f: rot_flags(rrc_val(v.registers.a), rrc_carry(v.registers.a)), ..v.registers }), ..v }),
        0x10 => (CpuView { registers: (Registers { b: rl_val(v.registers.b, c_flag(v.registers.f)), f: rot_flags(rl_val(v.registers.b, c_flag(v.registers.f)), rlc_carry(v.registers.b)), ..v.registers }), ..v }),
        0x11 => (CpuView { registers: (Registers { c: rl_val(v.registers.c, c_flag(v.registers.f)), f: rot_flags(rl_val(v.registers.c, c_flag(v.registers.f)), rlc_carry(v.registers.c)), ..v.registers }), ..v }),
        0x12 => (CpuView { registers: (Registers { d: rl_val(v.registers.d, c_flag(v.registers.f)), f: rot_flags(rl_val(v.registers.d, c_flag(v.registers.f)), rlc_carry(v.registers.d)), ..v.registers }), ..v }),
        0x13 => (CpuView { registers: (Registers { e: rl_val(v.registers.e, c_flag(v.registers.f)), f: rot_flags(rl_val(v.registers.e, c_flag(v.registers.f)), rlc_carry(v.registers.e)), ..v.registers }), ..v }),
        0x14 => (CpuView { registers: (Registers { h: rl_val(v.registers.h, c_flag(v.registers.f)), f: rot_flags(rl_val(v.registers.h, c_flag(v.registers.f)), rlc_carry(v.registers.h)), ..v.registers }), ..v }),
        0x15 => (CpuView { registers: (Registers { l: rl_val(v.registers.l, c_flag(v.registers.f)), f: rot_flags(rl_val(v.registers.l, c_flag(v.registers.f)), rlc_carry(v.registers.l)), ..v.registers }), ..v }),
        0x16 => (CpuView { registers: (Registers { f: rot_flags(rl_val(mmu_read_spec(v.mmu, ((v.registers.h) * 256 + (v.registers.l)) as u16), c_flag(v.registers.f)), rlc_carry(mmu_read_spec(v.mmu, ((v.registers.h) * 256 + (v.registers.l)) as u16))), ..v.registers }), mmu: mmu_write_spec(v.mmu, ((v.registers.h) * 256 + (v.registers.l)) as u16, rl_val(mmu_read_spec(v.mmu, ((v.registers.h) * 256 + (v.registers.l)) as u16), c_flag(v.registers.f))), ..v }),
        0x17 => (CpuView { registers: (Registers { a: rl_val(v.registers.a, c_flag(v.registers.f)), f: rot_flags(rl_val(v.registers.a, c_flag(v.registers.f)), rlc_carry(v.registers.a)), ..v.registers }), ..v }),
        0x18 => (CpuView { registers: (Registers { b: rr_val(v.registers.b, c_flag(v.registers.f)), f: rot_flags(rr_val(v.registers.b, c_flag(v.registers.f)), rrc_carry(v.registers.b)), ..v.registers }), ..v }),
        0x19 => (CpuView { registers: (Registers { c: rr_val(v.registers.c, c_flag(v.registers.f)), f: rot_flags(rr_val(v.registers.c, c_flag(v.registers.f)), rrc_carry(v.registers.c)), ..v.registers }), ..v }),
        0x1A => (CpuView { registers: (Registers { d: rr_val(v.registers.d, c_flag(v.registers.f)), f: rot_flags(rr_val(v.registers.d, c_flag(v.registers.f)), rrc_carry(v.registers.d)), ..v.registers }), ..v }),
        0x1B => (CpuView { registers: (Registers { e: rr_val(v.registers.e, c_flag(v.registers.f)), f: rot_flags(rr_val(v.registers.e, c_flag(v.registers.f)), rrc_carry(v.registers.e)), ..v.registers }), ..v }),
        0x1C => (CpuView { registers: (Registers { h: rr_val(v.registers.h, c_flag(v.registers.f)), f: rot_flags(rr_val(v.registers.h, c_flag(v.registers.f)), rrc_carry(v.registers.h)), ..v.registers }), ..v }),
        0x1D => (CpuView { registers: (Registers { l: rr_val(v.registers.l, c_flag(v.registers.f)), f: rot_flags(rr_val(v.registers.l, c_flag(v.registers.f)), rrc_carry(v.registers.l)), ..v.registers }), ..v }),
        0x1E => (CpuView { registers: (Registers { f: rot_flags(rr_val(mmu_read_spec(v.mmu, ((v.registers.h) * 256 + (v.registers.l)) as u16), c_flag(v.registers.f)), rrc_carry(mmu_read_spec(v.mmu, ((v.registers.h) * 256 + (v.registers.l)) as u16))), ..v.registers }), mmu: mmu_write_spec(v.mmu, ((v.registers.h) * 256 + (v.registers.l)) as u16, rr_val(mmu_read_spec(v.mmu, ((v.registers.h) * 256 + (v.registers.l)) as u16), c_flag(v.registers.f))), ..v }),
        0x1F => (CpuView { registers: (Registers { a: rr_val(v.registers.a, c_flag(v.registers.f)), f: rot_flags(rr_val(v.registers.a, c_flag(v.registers.f)), rrc_carry(v.registers.a)), ..v.registers }), ..v }),
        0x20 => (CpuView { registers: (Registers { b: sla_val(v.registers.b), f: rot_flags(sla_val(v.registers.b), rlc_carry(v.registers.b)), ..v.registers }), ..v }),
        0x21 => (CpuView { registers: (Registers { c: sla_val(v.registers.c), f: rot_flags(sla_val(v.registers.c), rlc_carry(v.registers.c)), ..v.registers }), ..v }),
        0x22 => (CpuView { registers: (Registers { d: sla_val(v.registers.d), f: rot_flags(sla_val(v.registers.d), rlc_carry(v.registers.d)), ..v.registers }), ..v }),
        0x23 => (CpuView { registers: (Registers { e: sla_val(v.registers.e), f: rot_flags(sla_val(v.registers.e), rlc_carry(v.registers.e)), ..v.registers }), ..v }),
        0x24 => (CpuView { registers: (Registers { h: sla_val(v.registers.h), f: rot_flags(sla_val(v.registers.h), rlc_carry(v.registers.h)), ..v.registers }), ..v }),
        0x25 => (CpuView { registers: (Registers { l: sla_val(v.registers.l), f: rot_flags(sla_val(v.registers.l), rlc_carry(v.registers.l)), ..v.registers }), ..v }),
        0x26 => (CpuView { registers: (Registers { f: rot_flags(sla_val(mmu_read_spec(v.mmu, ((v.registers.h) * 256 + (v.registers.l)) as u16)), rlc_carry(mmu_read_spec(v.mmu, ((v.registers.h) * 256 + (v.registers.l)) as u16))), ..v.registers }), mmu: mmu_write_spec(v.mmu, ((v.registers.h) * 256 + (v.registers.l)) as u16, sla_val(mmu_read_spec(v.mmu, ((v.registers.h) * 256 + (v.registers.l)) as u16))), ..v }),
        0x27 => (CpuView { registers: (Registers { a: sla_val(v.registers.a), f: rot_flags(sla_val(v.registers.a), rlc_carry(v.registers.a)), ..v.registers }), ..v }),
        0x28 => (CpuView { registers: (Registers { b: sra_val(v.registers.b), f: rot_flags(sra_val(v.registers.b), rrc_carry(v.registers.b)), ..v.registers }), ..v }),
        0x29 => (CpuView { registers: (Registers { c: sra_val(v.registers.c), f: rot_flags(sra_val(v.registers.c), rrc_carry(v.registers.c)), ..v.registers }), ..v }),
        0x2A => (CpuView { registers: (Registers { d: sra_val(v.registers.d), f: rot_flags(sra_val(v.registers.d), rrc_carry(v.registers.d)), ..v.registers }), ..v }),
        0x2B => (CpuView { registers: (Registers { e: sra_val(v.registers.e), f: rot_flags(sra_val(v.registers.e), rrc_carry(v.registers.e)), ..v.registers }), ..v }),
        0x2C => (CpuView { registers: (Registers { h: sra_val(v.registers.h), f: rot_flags(sra_val(v.registers.h), rrc_carry(v.registers.h)), ..v.registers }), ..v }),
        0x2D => (CpuView { registers: (Registers { l: sra_val(v.registers.l), f: rot_flags(sra_val(v.registers.l), rrc_carry(v.registers.l)), ..v.registers }), ..v }),
        0x2E => (CpuView { registers: (Registers { f: rot_flags(sra_val(mmu_read_spec(v.mmu, ((v.registers.h) * 256 + (v.registers.l)) as u16)), rrc_carry(mmu_read_spec(v.mmu, ((v.registers.h) * 256 + (v.registers.l)) as u16))), ..v.registers }), mmu: mmu_write_spec(v.mmu, ((v.registers.h) * 256 + (v.registers.l)) as u16, sra_val(mmu_read_spec(v.mmu, ((v.registers.h) * 256 + (v.registers.l)) as u16))), ..v }),
        0x2F => (CpuView { registers: (Registers { a: sra_val(v.registers.a), f: rot_flags(sra_val(v.registers.a), rrc_carry(v.registers.a)), ..v.registers }), ..v }),
        0x30 => (CpuView { registers: (Registers { b: swap_val(v.registers.b), f: rot_flags(swap_val(v.registers.b), false), ..v.registers }), ..v }),
        0x31 => (CpuView { registers: (Registers { c: swap_val(v.registers.c), f: rot_flags(swap_val(v.registers.c), false), ..v.registers }), ..v }),
        0x32 => (CpuView { registers: (Registers { d: swap_val(v.registers.d), f: rot_flags(swap_val(v.registers.d), false), ..v.registers }), ..v }),
        0x33 => (CpuView { registers: (Registers { e: swap_val(v.registers.e), f: rot_flags(swap_val(v.registers.e), false), ..v.registers }), ..v }),
        0x34 => (CpuView { registers: (Registers { h: swap_val(v.registers.h), f: rot_flags(swap_val(v.registers.h), false), ..v.registers }), ..v }),
        0x35 => (CpuView { registers: (Registers { l: swap_val(v.registers.l), f: rot_flags(swap_val(v.registers.l), false), ..v.registers }), ..v }),
        0x36 => (CpuView { registers: (Registers { f: rot_flags(swap_val(mmu_read_spec(v.mmu, ((v.registers.h) * 256 + (v.registers.l)) as u16)), false), ..v.registers }), mmu: mmu_write_spec(v.mmu, ((v.registers.h) * 256 + (v.registers.l)) as u16, swap_val(mmu_read_spec(v.mmu, ((v.registers.h) * 256 + (v.registers.l)) as u16))), ..v }),
        0x37 => (CpuView { registers: (Registers { a: swap_val(v.registers.a), f: rot_flags(swap_val(v.registers.a), false), ..v.registers }), ..v }),
        0x38 => (CpuView { registers: (Registers { b: srl_val(v.registers.b), f: rot_flags(srl_val(v.registers.b), rrc_carry(v.registers.b)), ..v.registers }), ..v }),
        0x39 => (CpuView { registers: (Registers { c: srl_val(v.registers.c), f: rot_flags(srl_val(v.registers.c), rrc_carry(v.registers.c)), ..v.registers }), ..v }),
        0x3A => (CpuView { registers: (Registers { d: srl_val(v.registers.d), f: rot_flags(srl_val(v.registers.d), rrc_carry(v.registers.d)), ..v.registers }), ..v }),
        0x3B => (CpuView { registers: (Registers { e: srl_val(v.registers.e), f: rot_flags(srl_val(v.registers.e), rrc_carry(v.registers.e)), ..v.registers }), ..v }),
        0x3C => (CpuView { registers: (Registers { h: srl_val(v.registers.h), f: rot_flags(srl_val(v.registers.h), rrc_carry(v.registers.h)), ..v.registers }), ..v }),
        0x3D => (CpuView { registers: (Registers { l: srl_val(v.registers.l), f: rot_flags(srl_val(v.registers.l), rrc_carry(v.registers.l)), ..v.registers }), ..v }),
        0x3E => (CpuView { registers: (Registers { f: rot_flags(srl_val(mmu_read_spec(v.mmu, ((v.registers.h) * 256 + (v.registers.l)) as u16)), rrc_carry(mmu_read_spec(v.mmu, ((v.registers.h) * 256 + (v.registers.l)) as u16))), ..v.registers }), mmu: mmu_write_spec(v.mmu, ((v.registers.h) * 256 + (v.registers.l)) as u16, srl_val(mmu_read_spec(v.mmu, ((v.registers.h) * 256 + (v.registers.l)) as u16))), ..v }),
        0x3F => (CpuView { registers: (Registers { a: srl_val(v.registers.a), f: rot_flags(srl_val(v.registers.a), rrc_carry(v.registers.a)), ..v.registers }), ..v }),
        0x40 => (CpuView { registers: (Registers { f: flags_byte(v.registers.b / pow2_bit(0) % 2 == 0, false, true, c_flag(v.registers.f)), ..v.registers }), ..v }),
        0x41 => (CpuView { registers: (Registers { f: flags_byte(v.registers.c / pow2_bit(0) % 2 == 0, false, true, c_flag(v.registers.f)), ..v.registers }), ..v }),
        0x42 => (CpuView { registers: (Registers { f: flags_byte(v.registers.d / pow2_bit(0) % 2 == 0, false, true, c_flag(v.registers.f)), ..v.registers }), ..v }),
        0x43 => (CpuView { registers: (Registers { f: flags_byte(v.registers.e / pow2_bit(0) % 2 == 0, false, true, c_flag(v.registers.f)), ..v.registers }), ..v }),
        0x44 => (CpuView { registers: (Registers { f: flags_byte(v.registers.h / pow2_bit(0) % 2 == 0, false, true, c_flag(v.registers.f)), ..v.registers }), ..v }),
        0x45 => (CpuView { registers: (Registers { f: flags_byte(v.registers.l / pow2_bit(0) % 2 == 0, false, true, c_flag(v.registers.f)), ..v.registers }), ..v }),
        0x46 => (CpuView { registers: (Registers { f: flags_byte(mmu_read_spec(v.mmu, ((v.registers.h) * 256 + (v.registers.l)) as u16) / pow2_bit(0) % 2 == 0, false, true, c_flag(v.registers.f)), ..v.registers }), ..v }),
        0x47 => (CpuView { registers: (Registers { f: flags_byte(v.registers.a / pow2_bit(0) % 2 == 0, false, true, c_flag(v.registers.f)), ..v.registers }), ..v }),
        0x48 => (CpuView { registers: (Registers { f: flags_byte(v.registers.b / pow2_bit(1) % 2 == 0, false, true, c_flag(v.registers.f)), ..v.registers }), ..v }),
        0x49 => (CpuView { registers: (Registers { f: flags_byte(v.registers.c / pow2_bit(1) % 2 == 0, false, true, c_flag(v.registers.f)), ..v.registers }), ..v }),
        0x4A => (CpuView { registers: (Registers { f: flags_byte(v.registers.d / pow2_bit(1) % 2 == 0, false, true, c_flag(v.registers.f)), ..v.registers }), ..v }),
        0x4B => (CpuView { registers: (Registers { f: flags_byte(v.registers.e / pow2_bit(1) % 2 == 0, false, true, c_flag(v.registers.f)), ..v.registers }), ..v }),
        0x4C => (CpuView { registers: (Registers { f: flags_byte(v.registers.h / pow2_bit(1) % 2 == 0, false, true, c_flag(v.registers.f)), ..v.registers }), ..v }),
        0x4D => (CpuView { registers: (Registers { f: flags_byte(v.registers.l / pow2_bit(1) % 2 == 0, false, true, c_flag(v.registers.f)), ..v.registers }), ..v }),
        0x4E => (CpuView { registers: (Registers { f: flags_byte(mmu_read_spec(v.mmu, ((v.registers.h) * 256 + (v.registers.l)) as u16) / pow2_bit(1) % 2 == 0, false, true, c_flag(v.registers.f)), ..v.registers }), ..v }),
        0x4F => (CpuView { registers: (Registers { f: flags_byte(v.registers.a / pow2_bit(1) % 2 == 0, false, true, c_flag(v.registers.f)), ..v.registers }), ..v }),
        0x50 => (CpuView { registers: (Registers { f: flags_byte(v.registers.b / pow2_bit(2) % 2 == 0, false, true, c_flag(v.registers.f)), ..v.registers }), ..v }),
        0x51 => (CpuView { registers: (Registers { f: flags_byte(v.registers.c / pow2_bit(2) % 2 == 0, false, true, c_flag(v.registers.f)), ..v.registers }), ..v }),
        0x52 => (CpuView { registers: (Registers { f: flags_byte(v.registers.d / pow2_bit(2) % 2 == 0, false, true, c_flag(v.registers.f)), ..v.registers }), ..v }),
        0x53 => (CpuView { registers: (Registers { f: flags_byte(v.registers.e / pow2_bit(2) % 2 == 0, false, true, c_flag(v.registers.f)), ..v.registers }), ..v }),
        0x54 => (CpuView { registers: (Registers { f: flags_byte(v.registers.h / pow2_bit(2) % 2 == 0, false, true, c_flag(v.registers.f)), ..v.registers }), ..v }),
        0x55 => (CpuView { registers: (Registers { f: flags_byte(v.registers.l / pow2_bit(2) % 2 == 0, false, true, c_flag(v.registers.f)), ..v.registers }), ..v }),
        0x56 => (CpuView { registers: (Registers { f: flags_byte(mmu_read_spec(v.mmu, ((v.registers.h) * 256 + (v.registers.l)) as u16) / pow2_bit(2) % 2 == 0, false, true, c_flag(v.registers.f)), ..v.registers }), ..v }),
        0x57 => (CpuView { registers: (Registers { f: flags_byte(v.registers.a / pow2_bit(2) % 2 == 0, false, true, c_flag(v.registers.f)), ..v.registers }), ..v }),
        0x58 => (CpuView { registers: (Registers { f: flags_byte(v.registers.b / pow2_bit(3) % 2 == 0, false, true, c_flag(v.registers.f)), ..v.registers }), ..v }),
        0x59 => (CpuView { registers: (Registers { f: flags_byte(v.registers.c / pow2_bit(3) % 2 == 0, false, true, c_flag(v.registers.f)), ..v.registers }), ..v }),
        0x5A => (CpuView { registers: (Registers { f: flags_byte(v.registers.d / pow2_bit(3) % 2 == 0, false, true, c_flag(v.registers.f)), ..v.registers }), ..v }),
        0x5B => (CpuView { registers: (Registers { f: flags_byte(v.registers.e / pow2_bit(3) % 2 == 0, false, true, c_flag(v.registers.f)), ..v.registers }), ..v }),
        0x5C => (CpuView { registers: (Registers { f: flags_byte(v.registers.h / pow2_bit(3) % 2 == 0, false, true, c_flag(v.registers.f)), ..v.registers }), ..v }),
        0x5D => (CpuView { registers: (Registers { f: flags_byte(v.registers.l / pow2_bit(3) % 2 == 0, false, true, c_flag(v.registers.f)), ..v.registers }), ..v }),
        0x5E => (CpuView { registers: (Registers { f: flags_byte(mmu_read_spec(v.mmu, ((v.registers.h) * 256 + (v.registers.l)) as u16) / pow2_bit(3) % 2 == 0, false, true, c_flag(v.registers.f)), ..v.registers }), ..v }),
        0x5F => (CpuView { registers: (Registers { f: flags_byte(v.registers.a / pow2_bit(3) % 2 == 0, false, true, c_flag(v.registers.f)), ..v.registers }), ..v }),
        0x60 => (CpuView { registers: (Registers { f: flags_byte(v.registers.b / pow2_bit(4) % 2 == 0, false, true, c_flag(v.registers.f)), ..v.registers }), ..v }),
        0x61 => (CpuView { registers: (Registers { f: flags_byte(v.registers.c / pow2_bit(4) % 2 == 0, false, true, c_flag(v.registers.f)), ..v.registers }), ..v }),
        0x62 => (CpuView { registers: (Registers { f: flags_byte(v.registers.d / pow2_bit(4) % 2 == 0, false, true, c_flag(v.registers.f)), ..v.registers }), ..v }),
        0x63 => (CpuView { registers: (Registers { f: flags_byte(v.registers.e / pow2_bit(4) % 2 == 0, false, true, c_flag(v.registers.f)), ..v.registers }), ..v }),
        0x64 => (CpuView { registers: (Registers { f: flags_byte(v.registers.h / pow2_bit(4) % 2 == 0, false, true, c_flag(v.registers.f)), ..v.registers }), ..v }),
        0x65 => (CpuView { registers: (Registers { f: flags_byte(v.registers.l / pow2_bit(4) % 2 == 0, false, true, c_flag(v.registers.f)), ..v.registers }), ..v }),
        0x66 => (CpuView { registers: (Registers { f: flags_byte(mmu_read_spec(v.mmu, ((v.registers.h) * 256 + (v.registers.l)) as u16) / pow2_bit(4) % 2 == 0, false, true, c_flag(v.registers.f)), ..v.registers }), ..v }),
        0x67 => (CpuView { registers: (Registers { f: flags_byte(v.registers.a / pow2_bit(4) % 2 == 0, false, true, c_flag(v.registers.f)), ..v.registers }), ..v }),
        0x68 => (CpuView { registers: (Registers { f: flags_byte(v.registers.b / pow2_bit(5) % 2 == 0, false, true, c_flag(v.registers.f)), ..v.registers }), ..v }),
        0x69 => (CpuView { registers: (Registers { f: flags_byte(v.registers.c / pow2_bit(5) % 2 == 0, false, true, c_flag(v.registers.f)), ..v.registers }), ..v }),
        0x6A => (CpuView { registers: (Registers { f: flags_byte(v.registers.d / pow2_bit(5) % 2 == 0, false, true, c_flag(v.registers.f)), ..v.registers }), ..v }),
        0x6B => (CpuView { registers: (Registers { f: flags_byte(v.registers.e / pow2_bit(5) % 2 == 0, false, true, c_flag(v.registers.f)), ..v.registers }), ..v }),
        0x6C => (CpuView { registers: (Registers { f: flags_byte(v.registers.h / pow2_bit(5) % 2 == 0, false, true, c_flag(v.registers.f)), ..v.registers }), ..v }),
        0x6D => (CpuView { registers: (Registers { f: flags_byte(v.registers.l / pow2_bit(5) % 2 == 0, false, true, c_flag(v.registers.f)), ..v.registers }), ..v }),
        0x6E => (CpuView { registers: (Registers { f: flags_byte(mmu_read_spec(v.mmu, ((v.registers.h) * 256 + (v.registers.l)) as u16) / pow2_bit(5) % 2 == 0, false, true, c_flag(v.registers.f)), ..v.registers }), ..v }),
        0x6F => (CpuView { registers: (Registers { f: flags_byte(v.registers.a / pow2_bit(5) % 2 == 0, false, true, c_flag(v.registers.f)), ..v.registers }), ..v }),
        0x70 => (CpuView { registers: (Registers { f: flags_byte(v.registers.b / pow2_bit(6) % 2 == 0, false, true, c_flag(v.registers.f)), ..v.registers }), ..v }),
        0x71 => (CpuView { registers: (Registers { f: flags_byte(v.registers.c / pow2_bit(6) % 2 == 0, false, true, c_flag(v.registers.f)), ..v.registers }), ..v }),
        0x72 => (CpuView { registers: (Registers { f: flags_byte(v.registers.d / pow2_bit(6) % 2 == 0, false, true, c_flag(v.registers.f)), ..v.registers }), ..v }),
        0x73 => (CpuView { registers: (Registers { f: flags_byte(v.registers.e / pow2_bit(6) % 2 == 0, false, true, c_flag(v.registers.f)), ..v.registers }), ..v }),
        0x74 => (CpuView { registers: (Registers { f: flags_byte(v.registers.h / pow2_bit(6) % 2 == 0, false, true, c_flag(v.registers.f)), ..v.registers }), ..v }),
        0x75 => (CpuView { registers: (Registers { f: flags_byte(v.registers.l / pow2_bit(6) % 2 == 0, false, true, c_flag(v.registers.f)), ..v.registers }), ..v }),
        0x76 => (CpuView { registers: (Registers { f: flags_byte(mmu_read_spec(v.mmu, ((v.registers.h) * 256 + (v.registers.l)) as u16) / pow2_bit(6) % 2 == 0, false, true, c_flag(v.registers.f)), ..v.registers }), ..v }),
        0x77 => (CpuView { registers: (Registers { f: flags_byte(v.registers.a / pow2_bit(6) % 2 == 0, false, true, c_flag(v.registers.f)), ..v.registers }), ..v }),
        0x78 => (CpuView { registers: (Registers { f: flags_byte(v.registers.b / pow2_bit(7) % 2 == 0, false, true, c_flag(v.registers.f)), ..v.registers }), ..v }),
        0x79 => (CpuView { registers: (Registers { f: flags_byte(v.registers.c / pow2_bit(7) % 2 == 0, false, true, c_flag(v.registers.f)), ..v.registers }), ..v }),
        0x7A => (CpuView { registers: (Registers { f: flags_byte(v.registers.d / pow2_bit(7) % 2 == 0, false, true, c_flag(v.registers.f)), ..v.registers }), ..v }),
        0x7B => (CpuView { registers: (Registers { f: flags_byte(v.registers.e / pow2_bit(7) % 2 == 0, false, true, c_flag(v.registers.f)), ..v.registers }), ..v }),
        0x7C => (CpuView { registers: (Registers { f: flags_byte(v.registers.h / pow2_bit(7) % 2 == 0, false, true, c_flag(v.registers.f)), ..v.registers }), ..v }),
        0x7D => (CpuView { registers: (Registers { f: flags_byte(v.registers.l / pow2_bit(7) % 2 == 0, false, true, c_flag(v.registers.f)), ..v.registers }), ..v }),
        0x7E => (CpuView { registers: (Registers { f: flags_byte(mmu_read_spec(v.mmu, ((v.registers.h) * 256 + (v.registers.l)) as u16) / pow2_bit(7) % 2 == 0, false, true, c_flag(v.registers.f)), ..v.registers }), ..v }),
        0x7F => (CpuView { registers: (Registers { f: flags_byte(v.registers.a / pow2_bit(7) % 2 == 0, false, true, c_flag(v.registers.f)), ..v.registers }), ..v }),
        0x80 => (CpuView { registers: (Registers { b: res_bit_spec(v.registers.b, 0), ..v.registers }), ..v }),
        0x81 => (CpuView { registers: (Registers { c: res_bit_spec(v.registers.c, 0), ..v.registers }), ..v }),
        0x82 => (CpuView { registers: (Registers { d: res_bit_spec(v.registers.d, 0), ..v.registers }), ..v }),
        0x83 => (CpuView { registers: (Registers { e: res_bit_spec(v.registers.e, 0), ..v.registers }), ..v }),
        0x84 => (CpuView { registers: (Registers { h: res_bit_spec(v.registers.h, 0), ..v.registers }), ..v }),
        0x85 => (CpuView { registers: (Registers { l: res_bit_spec(v.registers.l, 0), ..v.registers }), ..v }),
        0x86 => (CpuView { mmu: mmu_write_spec(v.mmu, ((v.registers.h) * 256 + (v.registers.l)) as u16, res_bit_spec(mmu_read_spec(v.mmu, ((v.registers.h) * 256 + (v.registers.l)) as u16), 0)), ..v }),
        0x87 => (CpuView { registers: (Registers { a: res_bit_spec(v.registers.a, 0), ..v.registers }), ..v }),
        0x88 => (CpuView { registers: (Registers { b: res_bit_spec(v.registers.b, 1), ..v.registers }), ..v }),
        0x89 => (CpuView { registers: (Registers { c: res_bit_spec(v.registers.c, 1), ..v.registers }), ..v }),
        0x8A => (CpuView { registers: (Registers { d: res_bit_spec(v.registers.d, 1), ..v.registers }), ..v }),
        0x8B => (CpuView { registers: (Registers { e: res_bit_spec(v.registers.e, 1), ..v.registers }), ..v }),
        0x8C => (CpuView { registers: (Registers { h: res_bit_spec(v.registers.h, 1), ..v.registers }), ..v }),
        0x8D => (CpuView { registers: (Registers { l: res_bit_spec(v.registers.l, 1), ..v.registers }), ..v }),
        0x8E => (CpuView { mmu: mmu_write_spec(v.mmu, ((v.registers.h) * 256 + (v.registers.l)) as u16, res_bit_spec(mmu_read_spec(v.mmu, ((v.registers.h) * 256 + (v.registers.l)) as u16), 1)), ..v }),
        0x8F => (CpuView { registers: (Registers { a: res_bit_spec(v.registers.a, 1), ..v.registers }), ..v }),
        0x90 => (CpuView { registers: (Registers { b: res_bit_spec(v.registers.b, 2), ..v.registers }), ..v }),
        0x91 => (CpuView { registers: (Registers { c: res_bit_spec(v.registers.c, 2), ..v.registers }), ..v }),
        0x92 => (CpuView { registers: (Registers { d: res_bit_spec(v.registers.d, 2), ..v.registers }), ..v }),
        0x93 => (CpuView { registers: (Registers { e: res_bit_spec(v.registers.e, 2), ..v.registers }), ..v }),
        0x94 => (CpuView { registers: (Registers { h: res_bit_spec(v.registers.h, 2), ..v.registers }), ..v }),
        0x95 => (CpuView { registers: (Registers { l: res_bit_spec(v.registers.l, 2), ..v.registers }), ..v }),
        0x96 => (CpuView { mmu: mmu_write_spec(v.mmu, ((v.registers.h) * 256 + (v.registers.l)) as u16, res_bit_spec(mmu_read_spec(v.mmu, ((v.registers.h) * 256 + (v.registers.l)) as u16), 2)), ..v }),
        0x97 => (CpuView { registers: (Registers { a: res_bit_spec(v.registers.a, 2), ..v.registers }), ..v }),
        0x98 => (CpuView { registers: (Registers { b: res_bit_spec(v.registers.b, 3), ..v.registers }), ..v }),
        0x99 => (CpuView { registers: (Registers { c: res_bit_spec(v.registers.c, 3), ..v.registers }), ..v }),
        0x9A => (CpuView { registers: (Registers { d: res_bit_spec(v.registers.d, 3), ..v.registers }), ..v }),
        0x9B => (CpuView { registers: (Registers { e: res_bit_spec(v.registers.e, 3), ..v.registers }), ..v }),
        0x9C => (CpuView { registers: (Registers { h: res_bit_spec(v.registers.h, 3), ..v.registers }), ..v }),
        0x9D => (CpuView { registers: (Registers { l: res_bit_spec(v.registers.l, 3), ..v.registers }), ..v }),
        0x9E => (CpuView { mmu: mmu_write_spec(v.mmu, ((v.registers.h) * 256 + (v.registers.l)) as u16, res_bit_spec(mmu_read_spec(v.mmu, ((v.registers.h) * 256 + (v.registers.l)) as u16), 3)), ..v }),
        0x9F => (CpuView { registers: (Registers { a: res_bit_spec(v.registers.a, 3), ..v.registers }), ..v }),
        0xA0 => (CpuView { registers: (Registers { b: res_bit_spec(v.registers.b, 4), ..v.registers }), ..v }),
        0xA1 => (CpuView { registers: (Registers { c: res_bit_spec(v.registers.c, 4), ..v.registers }), ..v }),
        0xA2 => (CpuView { registers: (Registers { d: res_bit_spec(v.registers.d, 4), ..v.registers }), ..v }),
        0xA3 => (CpuView { registers: (Registers { e: res_bit_spec(v.registers.e, 4), ..v.registers }), ..v }),
        0xA4 => (CpuView { registers: (Registers { h: res_bit_spec(v.registers.h, 4), ..v.registers }), ..v }),
        0xA5 => (CpuView { registers: (Registers { l: res_bit_spec(v.registers.l, 4), ..v.registers }), ..v }),
        0xA6 => (CpuView { mmu: mmu_write_spec(v.mmu, ((v.registers.h) * 256 + (v.registers.l)) as u16, res_bit_spec(mmu_read_spec(v.mmu, ((v.registers.h) * 256 + (v.registers.l)) as u16), 4)), ..v }),
        0xA7 => (CpuView { registers: (Registers { a: res_bit_spec(v.registers.a, 4), ..v.registers }), ..v }),
        0xA8 => (CpuView { registers: (Registers { b: res_bit_spec(v.registers.b, 5), ..v.registers }), ..v }),
        0xA9 => (CpuView { registers: (Registers { c: res_bit_spec(v.registers.c, 5), ..v.registers }), ..v }),
        0xAA => (CpuView { registers: (Registers { d: res_bit_spec(v.registers.d, 5), ..v.registers }), ..v }),
        0xAB => (CpuView { registers: (Registers { e: res_bit_spec(v.registers.e, 5), ..v.registers }), ..v }),
        0xAC => (CpuView { registers: (Registers { h: res_bit_spec(v.registers.h, 5), ..v.registers }), ..v }),
        0xAD => (CpuView { registers: (Registers { l: res_bit_spec(v.registers.l, 5), ..v.registers }), ..v }),
        0xAE => (CpuView { mmu: mmu_write_spec(v.mmu, ((v.registers.h) * 256 + (v.registers.l)) as u16, res_bit_spec(mmu_read_spec(v.mmu, ((v.registers.h) * 256 + (v.registers.l)) as u16), 5)), ..v }),
        0xAF => (CpuView { registers: (Registers { a: res_bit_spec(v.registers.a, 5), ..v.registers }), ..v }),
        0xB0 => (CpuView { registers: (Registers { b: res_bit_spec(v.registers.b, 6), ..v.registers }), ..v }),
        0xB1 => (CpuView { registers: (Registers { c: res_bit_spec(v.registers.c, 6), ..v.registers }), ..v }),
        0xB2 => (CpuView { registers: (Registers { d: res_bit_spec(v.registers.d, 6), ..v.registers }), ..v }),
        0xB3 => (CpuView { registers: (Registers { e: res_bit_spec(v.registers.e, 6), ..v.registers }), ..v }),
        0xB4 => (CpuView { registers: (Registers { h: res_bit_spec(v.registers.h, 6), ..v.registers }), ..v }),
        0xB5 => (CpuView { registers: (Registers { l: res_bit_spec(v.registers.l, 6), ..v.registers }), ..v }),
        0xB6 => (CpuView { mmu: mmu_write_spec(v.mmu, ((v.registers.h) * 256 + (v.registers.l)) as u16, res_bit_spec(mmu_read_spec(v.mmu, ((v.registers.h) * 256 + (v.registers.l)) as u16), 6)), ..v }),
        0xB7 => (CpuView { registers: (Registers { a: res_bit_spec(v.registers.a, 6), ..v.registers }), ..v }),
        0xB8 => (CpuView { registers: (Registers { b: res_bit_spec(v.registers.b, 7), ..v.registers }), ..v }),
        0xB9 => (CpuView { registers: (Registers { c: res_bit_spec(v.registers.c, 7), ..v.registers }), ..v }),
        0xBA => (CpuView { registers: (Registers { d: res_bit_spec(v.registers.d, 7), ..v.registers }), ..v }),
        0xBB => (CpuView { registers: (Registers { e: res_bit_spec(v.registers.e, 7), ..v.registers }), ..v }),
        0xBC => (CpuView { registers: (Registers { h: res_bit_spec(v.registers.h, 7), ..v.registers }), ..v }),
        0xBD => (CpuView { registers: (Registers { l: res_bit_spec(v.registers.l, 7), ..v.registers }), ..v }),
        0xBE => (CpuView { mmu: mmu_write_spec(v.mmu, ((v.registers.h) * 256 + (v.registers.l)) as u16, res_bit_spec(mmu_read_spec(v.mmu, ((v.registers.h) * 256 + (v.registers.l)) as u16), 7)), ..v }),
        0xBF => (CpuView { registers: (Registers { a: res_bit_spec(v.registers.a, 7), ..v.registers }), ..v }),
        0xC0 => (CpuView { registers: (Registers { b: set_bit_spec(v.registers.b, 0), ..v.registers }), ..v }),
        0xC1 => (CpuView { registers: (Registers { c: set_bit_spec(v.registers.c, 0), ..v.registers }), ..v }),
        0xC2 => (CpuView { registers: (Registers { d: set_bit_spec(v.registers.d, 0), ..v.registers }), ..v }),
        0xC3 => (CpuView { registers: (Registers { e: set_bit_spec(v.registers.e, 0), ..v.registers }), ..v }),
        0xC4 => (CpuView { registers: (Registers { h: set_bit_spec(v.registers.h, 0), ..v.registers }), ..v }),
        0xC5 => (CpuView { registers: (Registers { l: set_bit_spec(v.registers.l, 0), ..v.registers }), ..v }),
        0xC6 => (CpuView { mmu: mmu_write_spec(v.mmu, ((v.registers.h) * 256 + (v.registers.l)) as u16, set_bit_spec(mmu_read_spec(v.mmu, ((v.registers.h) * 256 + (v.registers.l)) as u16), 0)), ..v }),
        0xC7 => (CpuView { registers: (Registers { a: set_bit_spec(v.registers.a, 0), ..v.registers }), ..v }),
        0xC8 => (CpuView { registers: (Registers { b: set_bit_spec(v.registers.b, 1), ..v.registers }), ..v }),
        0xC9 => (CpuView { registers: (Registers { c: set_bit_spec(v.registers.c, 1), ..v.registers }), ..v }),
        0xCA => (CpuView { registers: (Registers { d: set_bit_spec(v.registers.d, 1), ..v.registers }), ..v }),
        0xCB => (CpuView { registers: (Registers { e: set_bit_spec(v.registers.e, 1), ..v.registers }), ..v }),
        0xCC => (CpuView { registers: (Registers { h: set_bit_spec(v.registers.h, 1), ..v.registers }), ..v }),
        0xCD => (CpuView { registers: (Registers { l: set_bit_spec(v.registers.l, 1), ..v.registers }), ..v }),
        0xCE => (CpuView { mmu: mmu_write_spec(v.mmu, ((v.registers.h) * 256 + (v.registers.l)) as u16, set_bit_spec(mmu_read_spec(v.mmu, ((v.registers.h) * 256 + (v.registers.l)) as u16), 1)), ..v }),
        0xCF => (CpuView { registers: (Registers { a: set_bit_spec(v.registers.a, 1), ..v.registers }), ..v }),
        0xD0 => (CpuView { registers: (Registers { b: set_bit_spec(v.registers.b, 2), ..v.registers }), ..v }),
        0xD1 => (CpuView { registers: (Registers { c: set_bit_spec(v.registers.c, 2), ..v.registers }), ..v }),
        0xD2 => (CpuView { registers: (Registers { d: set_bit_spec(v.registers.d, 2), ..v.registers }), ..v }),
        0xD3 => (CpuView { registers: (Registers { e: set_bit_spec(v.registers.e, 2), ..v.registers }), ..v }),
        0xD4 => (CpuView { registers: (Registers { h: set_bit_spec(v.registers.h, 2), ..v.registers }), ..v }),
        0xD5 => (CpuView { registers: (Registers { l: set_bit_spec(v.registers.l, 2), ..v.registers }), ..v }),
        0xD6 => (CpuView { mmu: mmu_write_spec(v.mmu, ((v.registers.h) * 256 + (v.registers.l)) as u16, set_bit_spec(mmu_read_spec(v.mmu, ((v.registers.h) * 256 + (v.registers.l)) as u16), 2)), ..v }),
        0xD7 => (CpuView { registers: (Registers { a: set_bit_spec(v.registers.a, 2), ..v.registers }), ..v }),
        0xD8 => (CpuView { registers: (Registers { b: set_bit_spec(v.registers.b, 3), ..v.registers }), ..v }),
        0xD9 => (CpuView { registers: (Registers { c: set_bit_spec(v.registers.c, 3), ..v.registers }), ..v }),
        0xDA => (CpuView { registers: (Registers { d: set_bit_spec(v.registers.d, 3), ..v.registers }), ..v }),
        0xDB => (CpuView { registers: (Registers { e: set_bit_spec(v.registers.e, 3), ..v.registers }), ..v }),
        0xDC => (CpuView { registers: (Registers { h: set_bit_spec(v.registers.h, 3), ..v.registers }), ..v }),
        0xDD => (CpuView { registers: (Registers { l: set_bit_spec(v.registers.l, 3), ..v.registers }), ..v }),
        0xDE => (CpuView { mmu: mmu_write_spec(v.mmu, ((v.registers.h) * 256 + (v.registers.l)) as u16, set_bit_spec(mmu_read_spec(v.mmu, ((v.registers.h) * 256 + (v.registers.l)) as u16), 3)), ..v }),
        0xDF => (CpuView { registers: (Registers { a: set_bit_spec(v.registers.a, 3), ..v.registers }), ..v }),
        0xE0 => (CpuView { registers: (Registers { b: set_bit_spec(v.registers.b, 4), ..v.registers }), ..v }),
        0xE1 => (CpuView { registers: (Registers { c: set_bit_spec(v.registers.c, 4), ..v.registers }), ..v }),
        0xE2 => (CpuView { registers: (Registers { d: set_bit_spec(v.registers.d, 4), ..v.registers }), ..v }),
        0xE3 => (CpuView { registers: (Registers { e: set_bit_spec(v.registers.e, 4), ..v.registers }), ..v }),
        0xE4 => (CpuView { registers: (Registers { h: set_bit_spec(v.registers.h, 4), ..v.registers }), ..v }),
        0xE5 => (CpuView { registers: (Registers { l: set_bit_spec(v.registers.l, 4), ..v.registers }), ..v }),
        0xE6 => (CpuView { mmu: mmu_write_spec(v.mmu, ((v.registers.h) * 256 + (v.registers.l)) as u16, set_bit_spec(mmu_read_spec(v.mmu, ((v.registers.h) * 256 + (v.registers.l)) as u16), 4)), ..v }),
        0xE7 => (CpuView { registers: (Registers { a: set_bit_spec(v.registers.a, 4), ..v.registers }), ..v }),
        0xE8 => (CpuView { registers: (Registers { b: set_bit_spec(v.registers.b, 5), ..v.registers }), ..v }),
        0xE9 => (CpuView { registers: (Registers { c: set_bit_spec(v.registers.c, 5), ..v.registers }), ..v }),
        0xEA => (CpuView { registers: (Registers { d: set_bit_spec(v.registers.d, 5), ..v.registers }), ..v }),
        0xEB => (CpuView { registers: (Registers { e: set_bit_spec(v.registers.e, 5), ..v.registers }), ..v }),
        0xEC => (CpuView { registers: (Registers { h: set_bit_spec(v.registers.h, 5), ..v.registers }), ..v }),
        0xED => (CpuView { registers: (Registers { l: set_bit_spec(v.registers.l, 5), ..v.registers }), ..v }),
        0xEE => (CpuView { mmu: mmu_write_spec(v.mmu, ((v.registers.h) * 256 + (v.registers.l)) as u16, set_bit_spec(mmu_read_spec(v.mmu, ((v.registers.h) * 256 + (v.registers.l)) as u16), 5)), ..v }),
        0xEF => (CpuView { registers: (Registers { a: set_bit_spec(v.registers.a, 5), ..v.registers }), ..v }),
        0xF0 => (CpuView { registers: (Registers { b: set_bit_spec(v.registers.b, 6), ..v.registers }), ..v }),
        0xF1 => (CpuView { registers: (Registers { c: set_bit_spec(v.registers.c, 6), ..v.registers }), ..v }),
        0xF2 => (CpuView { registers: (Registers { d: set_bit_spec(v.registers.d, 6), ..v.registers }), ..v }),
        0xF3 => (CpuView { registers: (Registers { e: set_bit_spec(v.registers.e, 6), ..v.registers }), ..v }),
        0xF4 => (CpuView { registers: (Registers { h: set_bit_spec(v.registers.h, 6), ..v.registers }), ..v }),
        0xF5 => (CpuView { registers: (Registers { l: set_bit_spec(v.registers.l, 6), ..v.registers }), ..v }),
        0xF6 => (CpuView { mmu: mmu_write_spec(v.mmu, ((v.registers.h) * 256 + (v.registers.l)) as u16, set_bit_spec(mmu_read_spec(v.mmu, ((v.registers.h) * 256 + (v.registers.l)) as u16), 6)), ..v }),
        0xF7 => (CpuView { registers: (Registers { a: set_bit_spec(v.registers.a, 6), ..v.registers }), ..v }),
        0xF8 => (CpuView { registers: (Registers { b: set_bit_spec(v.registers.b, 7), ..v.registers }), ..v }),
        0xF9 => (CpuView { registers: (Registers { c: set_bit_spec(v.registers.c, 7), ..v.registers }), ..v }),
        0xFA => (CpuView { registers: (Registers { d: set_bit_spec(v.registers.d, 7), ..v.registers }), ..v }),
        0xFB => (CpuView { registers: (Registers { e: set_bit_spec(v.registers.e, 7), ..v.registers }), ..v }),
        0xFC => (CpuView { registers: (Registers { h: set_bit_spec(v.registers.h, 7), ..v.registers }), ..v }),
        0xFD => (CpuView { registers: (Registers { l: set_bit_spec(v.registers.l, 7), ..v.registers }), ..v }),
        0xFE => (CpuView { mmu: mmu_write_spec(v.mmu, ((v.registers.h) * 256 + (v.registers.l)) as u16, set_bit_spec(mmu_read_spec(v.mmu, ((v.registers.h) * 256 + (v.registers.l)) as u16), 7)), ..v }),
        0xFF => (CpuView { registers: (Registers { a: set_bit_spec(v.registers.a, 7), ..v.registers }), ..v }),
    }
}

impl Z80 {
    /// Execute one primary-table opcode; the result is its documented
    /// cycle count, or zero for an opcode the table does not define, which
    /// leaves the state unchanged.
    fn dispatch_primary(&mut self, code: u8) -> (r: u64)
        requires
            cpu_wf(*old(self)),
            !old(self).use_cb_table,
        ensures
            cpu_wf(*final(self)),
            r == primary_cycles(code, old(self).registers.f),
            final(self).use_cb_table == (code == 0xCB),
            final(self)@ == primary_effect(old(self)@, code),
            final(self).clock == old(self).clock,
    {
        if code < 0x40 {
            self.dispatch_primary_q0(code)
        } else if code < 0x80 {
            self.dispatch_primary_q1(code)
        } else if code < 0xC0 {
            self.dispatch_primary_q2(code)
        } else {
            self.dispatch_primary_q3(code)
        }
    }

    /// Execute one CB-table opcode; the result is its documented cycle
    /// count.
    fn dispatch_cb(&mut self, code: u8) -> (r: u64)
        requires
            cpu_wf(*old(self)),
            !old(self).use_cb_table,
        ensures
            cpu_wf(*final(self)),
            r == cb_cycles(code),
            !final(self).use_cb_table,
            final(self)@ == cb_effect(old(self)@, code),
            final(self).clock == old(self).clock,
    {
        if code < 0x40 {
            self.dispatch_cb_q0(code)
        } else if code < 0x80 {
            self.dispatch_cb_q1(code)
        } else if code < 0xC0 {
            self.dispatch_cb_q2(code)
        } else {
            self.dispatch_cb_q3(code)
        }
    }

    #[verifier::rlimit(100)]
    #[verifier::spinoff_prover]
    fn dispatch_primary_q0(&mut self, code: u8) -> (r: u64)
        requires
            cpu_wf(*old(self)),
            !old(self).use_cb_table,
            0x00 <= code < 0x40,
        ensures
            cpu_wf(*final(self)),
            r == primary_cycles(code, old(self).registers.f),
            final(self).use_cb_table == (code == 0xCB),
            final(self)@ == primary_effect(old(self)@, code),
            final(self).clock == old(self).clock,
    {
        proof {
            reveal(primary_effect);
        }
        match code {
            0x00 => self.nop_0x00(),
            0x01 => self.ld_bc_0x01(),
            0x02 => self.ld_bc_a_0x02(),
            0x03 => self.inc_bc_0x03(),
            0x04 => self.inc_b_0x04(),
            0x05 => self.dec_b_0x05(),
            0x06 => self.ld_b_0x06(),
            0x07 => self.rlca_0x07(),
            0x08 => self.ld_a16_sp_0x08(),
            0x09 => self.add_hl_bc_0x09(),
            0x0A => self.ld_a_bc_0x0a(),
            0x0B => self.dec_bc_0x0b(),
            0x0C => self.inc_c_0x0c(),
            0x0D => self.dec_c_0x0d(),
            0x0E => self.ld_c_0x0e(),
            0x0F => self.rrca_0x0f(),
            0x10 => self.stop_0x10(),
            0x11 => self.ld_de_0x11(),
            0x12 => self.ld_de_a_0x12(),
            0x13 => self.inc_de_0x13(),
            0x14 => self.inc_d_0x14(),
            0x15 => self.dec_d_0x15(),
            0x16 => self.ld_d_0x16(),
            0x17 => self.rla_0x17(),
            0x18 => self.jr_s8_0x18(),
            0x19 => self.add_hl_de_0x19(),
            0x1A => self.ld_a_de_0x1a(),
            0x1B => self.dec_de_0x1b(),
            0x1C => self.inc_e_0x1c(),
            0x1D => self.dec_e_0x1d(),
            0x1E => self.ld_e_d8_0x1e(),
            0x1F => self.rra_0x1f(),
            0x20 => self.jr_nz_s8_0x20(),
            0x21 => self.ld_hl_d16_0x21(),
            0x22 => self.ld_hlp_a_0x22(),
            0x23 => self.inc_hl_0x23(),
            0x24 => self.inc_h_0x24(),
            0x25 => self.dec_h_0x25(),
            0x26 => self.ld_h_d8_0x26(),
            0x27 => self.daa_0x27(),
            0x28 => self.jr_z_s8_0x28(),
            0x29 => self.add_hl_hl_0x29(),
            0x2A => self.ld_a_hlp_0x2a(),
            0x2B => self.dec_hl_0x2b(),
            0x2C => self.inc_l_0x2c(),
            0x2D => self.dec_l_0x2d(),
            0x2E => self.ld_l_d8_0x2e(),
            0x2F => self.cpl_0x2f(),
            0x30 => self.jr_nc_s8_0x30(),
            0x31 => self.ld_sp_d16_0x31(),
            0x32 => self.ld_hls_a_0x32(),
            0x33 => self.inc_sp_0x33(),
            0x34 => self.inc_hl_0x34(),
            0x35 => self.dec_hl_0x35(),
            0x36 => self.ld_hl_d8_0x36(),
            0x37 => self.scf_0x37(),
            0x38 => self.jr_c_s8_0x38(),
            0x39 => self.add_hl_sp_0x39(),
            0x3A => self.ld_a_hls_0x3a(),
            0x3B => self.dec_sp_0x3b(),
            0x3C => self.inc_a_0x3c(),
            0x3D => self.dec_a_0x3d(),
            0x3E => self.ld_a_d8_0x3e(),
            0x3F => self.ccf_0x3f(),
            _ => 0,
        }
    }

    #[verifier::rlimit(100)]
    #[verifier::spinoff_prover]
    fn dispatch_primary_q1(&mut self, code: u8) -> (r: u64)
        requires
            cpu_wf(*old(self)),
            !old(self).use_cb_table,
            0x40 <= code < 0x80,
        ensures
            cpu_wf(*final(self)),
            r == primary_cycles(code, old(self).registers.f),
            final(self).use_cb_table == (code == 0xCB),
            final(self)@ == primary_effect(old(self)@, code),
            final(self).clock == old(self).clock,
    {
        proof {
            reveal(primary_effect);
        }
        match code {
            0x40 => self.ld_b_b_0x40(),
            0x41 => self.ld_b_c_0x41(),
            0x42 => self.ld_b_d_0x42(),
            0x43 => self.ld_b_e_0x43(),
            0x44 => self.ld_b_h_0x44(),
            0x45 => self.ld_b_l_0x45(),
            0x46 => self.ld_b_hl_0x46(),
            0x47 => self.ld_b_a_0x47(),
            0x48 => self.ld_c_b_0x48(),
            0x49 => self.ld_c_c_0x49(),
            0x4A => self.ld_c_d_0x4a(),
            0x4B => self.ld_c_e_0x4b(),
            0x4C => self.ld_c_h_0x4c(),
            0x4D => self.ld_c_l_0x4d(),
            0x4E => self.ld_c_hl_0x4e(),
            0x4F => self.ld_c_a_0x4f(),
            0x50 => self.ld_d_b_0x50(),
            0x51 => self.ld_d_c_0x51(),
            0x52 => self.ld_d_d_0x52(),
            0x53 => self.ld_d_e_0x53(),
            0x54 => self.ld_d_h_0x54(),
            0x55 => self.ld_d_l_0x55(),
            0x56 => self.ld_d_hl_0x56(),
            0x57 => self.ld_d_a_0x57(),
            0x58 => self.ld_e_b_0x58(),
            0x59 => self.ld_e_c_0x59(),
            0x5A => self.ld_e_d_0x5a(),
            0x5B => self.ld_e_e_0x5b(),
            0x5C => self.ld_e_h_0x5c(),
            0x5D => self.ld_e_l_0x5d(),
            0x5E => self.ld_e_hl_0x5e(),
            0x5F => self.ld_e_a_0x5f(),
            0x60 => self.ld_h_b_0x60(),
            0x61 => self.ld_h_c_0x61(),
            0x62 => self.ld_h_d_0x62(),
            0x63 => self.ld_h_e_0x63(),
            0x64 => self.ld_h_h_0x64(),
            0x65 => self.ld_h_l_0x65(),
            0x66 => self.ld_h_hl_0x66(),
            0x67 => self.ld_h_a_0x67(),
            0x68 => self.ld_l_b_0x68(),
            0x69 => self.ld_l_c_0x69(),
            0x6A => self.ld_l_d_0x6a(),
            0x6B => self.ld_l_e_0x6b(),
            0x6C => self.ld_l_h_0x6c(),
            0x6D => self.ld_l_l_0x6d(),
            0x6E => self.ld_l_hl_0x6e(),
            0x6F => self.ld_l_a_0x6f(),
            0x70 => self.ld_hl_b_0x70(),
            0x71 => self.ld_hl_c_0x71(),
            0x72 => self.ld_hl_d_0x72(),
            0x73 => self.ld_hl_e_0x73(),
            0x74 => self.ld_hl_h_0x74(),
            0x75 => self.ld_hl_l_0x75(),
            0x76 => self.halt_0x76(),
            0x77 => self.ld_hl_a_0x77(),
            0x78 => self.ld_a_b_0x78(),
            0x79 => self.ld_a_c_0x79(),
            0x7A => self.ld_a_d_0x7a(),
            0x7B => self.ld_a_e_0x7b(),
            0x7C => self.ld_a_h_0x7c(),
            0x7D => self.ld_a_l_0x7d(),
            0x7E => self.ld_a_hl_0x7e(),
            0x7F => self.ld_a_a_0x7f(),
            _ => 0,
        }
    }

    #[verifier::rlimit(100)]
    #[verifier::spinoff_prover]
    fn dispatch_primary_q2(&mut self, code: u8) -> (r: u64)
        requires
            cpu_wf(*old(self)),
            !old(self).use_cb_table,
            0x80 <= code < 0xC0,
        ensures
            cpu_wf(*final(self)),
            r == primary_cycles(code, old(self).registers.f),
            final(self).use_cb_table == (code == 0xCB),
            final(self)@ == primary_effect(old(self)@, code),
            final(self).clock == old(self).clock,
    {
        proof {
            reveal(primary_effect);
        }
        match code {
            0x80 => self.add_a_b_0x80(),
            0x81 => self.add_a_c_0x81(),
            0x82 => self.add_a_d_0x82(),
            0x83 => self.add_a_e_0x83(),
            0x84 => self.add_a_h_0x84(),
            0x85 => self.add_a_l_0x85(),
            0x86 => self.add_a_hl_0x86(),
            0x87 => self.add_a_a_0x87(),
            0x88 => self.adc_a_b_0x88(),
            0x89 => self.adc_a_c_0x89(),
            0x8A => self.adc_a_d_0x8a(),
            0x8B => self.adc_a_e_0x8b(),
            0x8C => self.adc_a_h_0x8c(),
            0x8D => self.adc_a_l_0x8d(),
            0x8E => self.adc_a_hl_0x8e(),
            0x8F => self.adc_a_a_0x8f(),
            0x90 => self.sub_b_0x90(),
            0x91 => self.sub_c_0x91(),
            0x92 => self.sub_d_0x92(),
            0x93 => self.sub_e_0x93(),
            0x94 => self.sub_h_0x94(),
            0x95 => self.sub_l_0x95(),
            0x96 => self.sub_hl_0x96(),
            0x97 => self.sub_a_0x97(),
            0x98 => self.sbc_a_b_0x98(),
            0x99 => self.sbc_a_c_0x99(),
            0x9A => self.sbc_a_d_0x9a(),
            0x9B => self.sbc_a_e_0x9b(),
            0x9C => self.sbc_a_h_0x9c(),
            0x9D => self.sbc_a_l_0x9d(),
            0x9E => self.sbc_a_hl_0x9e(),
            0x9F => self.sbc_a_a_0x9f(),
            0xA0 => self.and_b_0xa0(),
            0xA1 => self.and_c_0xa1(),
            0xA2 => self.and_d_0xa2(),
            0xA3 => self.and_e_0xa3(),
            0xA4 => self.and_h_0xa4(),
            0xA5 => self.and_l_0xa5(),
            0xA6 => self.and_hl_0xa6(),
            0xA7 => self.and_a_0xa7(),
            0xA8 => self.xor_b_0xa8(),
            0xA9 => self.xor_c_0xa9(),
            0xAA => self.xor_d_0xaa(),
            0xAB => self.xor_e_0xab(),
            0xAC => self.xor_h_0xac(),
            0xAD => self.xor_l_0xad(),
            0xAE => self.xor_hl_0xae(),
            0xAF => self.xor_a_0xaf(),
            0xB0 => self.or_b_0xb0(),
            0xB1 => self.or_c_0xb1(),
            0xB2 => self.or_d_0xb2(),
            0xB3 => self.or_e_0xb3(),
            0xB4 => self.or_h_0xb4(),
            0xB5 => self.or_l_0xb5(),
            0xB6 => self.or_hl_0xb6(),
            0xB7 => self.or_a_0xb7(),
            0xB8 => self.cp_b_0xb8(),
            0xB9 => self.cp_c_0xb9(),
            0xBA => self.cp_d_0xba(),
            0xBB => self.cp_e_0xbb(),
            0xBC => self.cp_h_0xbc(),
            0xBD => self.cp_l_0xbd(),
            0xBE => self.cp_hl_0xbe(),
            0xBF => self.cp_a_0xbf(),
            _ => 0,
        }
    }

    #[verifier::rlimit(100)]
    #[verifier::spinoff_prover]
    fn dispatch_primary_q3(&mut self, code: u8) -> (r: u64)
        requires
            cpu_wf(*old(self)),
            !old(self).use_cb_table,
            0xC0 <= code < 0x100,
        ensures
            cpu_wf(*final(self)),
            r == primary_cycles(code, old(self).registers.f),
            final(self).use_cb_table == (code == 0xCB),
            final(self)@ == primary_effect(old(self)@, code),
            final(self).clock == old(self).clock,
    {
        proof {
            reveal(primary_effect);
        }
        match code {
            0xC0 => self.ret_nz_0xc0(),
            0xC1 => self.pop_bc_0xc1(),
            0xC2 => self.jp_nz_a16_0xc2(),
            0xC3 => self.jp_a16_0xc3(),
            0xC4 => self.call_nz_a16_0xc4(),
            0xC5 => self.push_bc_0xc5(),
            0xC6 => self.add_a_d8_0xc6(),
            0xC7 => self.rst_00h_0xc7(),
            0xC8 => self.ret_z_0xc8(),
            0xC9 => self.ret_0xc9(),
            0xCA => self.jp_z_a16_0xca(),
            0xCB => self.cb(),
            0xCC => self.call_z_a16_0xcc(),
            0xCD => self.call_a16_0xcd(),
            0xCE => self.adc_a_d8_0xce(),
            0xCF => self.rst_08h_0xcf(),
            0xD0 => self.ret_nc_0xd0(),
            0xD1 => self.pop_de_0xd1(),
            0xD2 => self.jp_nc_a16_0xd2(),
            0xD4 => self.call_nc_a16_0xd4(),
            0xD5 => self.push_de_0xd5(),
            0xD6 => self.sub_d8_0xd6(),
            0xD7 => self.rst_10h_0xd7(),
            0xD8 => self.ret_c_0xd8(),
            0xD9 => self.reti_0xd9(),
            0xDA => self.jp_c_a16_0xda(),
            0xDC => self.call_c_a16_0xdc(),
            0xDE => self.sbc_a_d8_0xde(),
            0xDF => self.rst_18h_0xdf(),
            0xE0 => self.ldh_a8_a_0xe0(),
            0xE1 => self.pop_hl_0xe1(),
            0xE2 => self.ld_c_a_0xe2(),
            0xE5 => self.push_hl_0xe5(),
            0xE6 => self.and_d8_0xe6(),
            0xE7 => self.rst_20h_0xe7(),
            0xE8 => self.add_sp_r8_0xe8(),
            0xE9 => self.jp_hl_0xe9(),
            0xEA => self.ld_a16_a_0xea(),
            0xEE => self.xor_d8_0xee(),
            0xEF => self.rst_28h_0xef(),
            0xF0 => self.ldh_a_a8_0xf0(),
            0xF1 => self.pop_af_0xf1(),
            0xF2 => self.ld_a_c_0xf2(),
            0xF3 => self.di_0xf3(),
            0xF5 => self.push_af_0xf5(),
            0xF6 => self.or_d8_0xf6(),
            0xF7 => self.rst_30h_0xf7(),
            0xF8 => self.ld_hl_sp_s8_0xf8(),
            0xF9 => self.ld_sp_hl_0xf9(),
            0xFA => self.ld_a_a16_0xfa(),
            0xFB => self.ei_0xfb(),
            0xFE => self.cp_d8_0xfe(),
            0xFF => self.rst_38h_0xff(),
            _ => 0,
        }
    }

    #[verifier::rlimit(100)]
    #[verifier::spinoff_prover]
    fn dispatch_cb_q0(&mut self, code: u8) -> (r: u64)
        requires
            cpu_wf(*old(self)),
            !old(self).use_cb_table,
            0x00 <= code < 0x40,
        ensures
            cpu_wf(*final(self)),
            r == cb_cycles(code),
            !final(self).use_cb_table,
            final(self)@ == cb_effect(old(self)@, code),
            final(self).clock == old(self).clock,
    {
        proof {
            reveal(cb_effect);
        }
        match code {
            0x00 => self.rlc_b_0xcb00(),
            0x01 => self.rlc_c_0xcb01(),
            0x02 => self.rlc_d_0xcb02(),
            0x03 => self.rlc_e_0xcb03(),
            0x04 => self.rlc_h_0xcb04(),
            0x05 => self.rlc_l_0xcb05(),
            0x06 => self.rlc_hl_0xcb06(),
            0x07 => self.rlc_a_0xcb07(),
            0x08 => self.rrc_b_0xcb08(),
            0x09 => self.rrc_c_0xcb09(),
            0x0A => self.rrc_d_0xcb0a(),
            0x0B => self.rrc_e_0xcb0b(),
            0x0C => self.rrc_h_0xcb0c(),
            0x0D => self.rrc_l_0xcb0d(),
            0x0E => self.rrc_hl_0xcb0e(),
            0x0F => self.rrc_a_0xcb0f(),
            0x10 => self.rl_b_0xcb10(),
            0x11 => self.rl_c_0xcb11(),
            0x12 => self.rl_d_0xcb12(),
            0x13 => self.rl_e_0xcb13(),
            0x14 => self.rl_h_0xcb14(),
            0x15 => self.rl_l_0xcb15(),
            0x16 => self.rl_hl_0xcb16(),
            0x17 => self.rl_a_0xcb17(),
            0x18 => self.rr_b_0xcb18(),
            0x19 => self.rr_c_0xcb19(),
            0x1A => self.rr_d_0xcb1a(),
            0x1B => self.rr_e_0xcb1b(),
            0x1C => self.rr_h_0xcb1c(),
            0x1D => self.rr_l_0xcb1d(),
            0x1E => self.rr_hl_0xcb1e(),
            0x1F => self.rr_a_0xcb1f(),
            0x20 => self.sla_b_0xcb20(),
            0x21 => self.sla_c_0xcb21(),
            0x22 => self.sla_d_0xcb22(),
            0x23 => self.sla_e_0xcb23(),
            0x24 => self.sla_h_0xcb24(),
            0x25 => self.sla_l_0xcb25(),
            0x26 => self.sla_hl_0xcb26(),
            0x27 => self.sla_a_0xcb27(),
            0x28 => self.sra_b_0xcb28(),
            0x29 => self.sra_c_0xcb29(),
            0x2A => self.sra_d_0xcb2a(),
            0x2B => self.sra_e_0xcb2b(),
            0x2C => self.sra_h_0xcb2c(),
            0x2D => self.sra_l_0xcb2d(),
            0x2E => self.sra_hl_0xcb2e(),
            0x2F => self.sra_a_0xcb2f(),
            0x30 => self.swap_b_0xcb30(),
            0x31 => self.swap_c_0xcb31(),
            0x32 => self.swap_d_0xcb32(),
            0x33 => self.swap_e_0xcb33(),
            0x34 => self.swap_h_0xcb34(),
            0x35 => self.swap_l_0xcb35(),
            0x36 => self.swap_hl_0xcb36(),
            0x37 => self.swap_a_0xcb37(),
            0x38 => self.srl_b_0xcb38(),
            0x39 => self.srl_c_0xcb39(),
            0x3A => self.srl_d_0xcb3a(),
            0x3B => self.srl_e_0xcb3b(),
            0x3C => self.srl_h_0xcb3c(),
            0x3D => self.srl_l_0xcb3d(),
            0x3E => self.srl_hl_0xcb3e(),
            0x3F => self.srl_a_0xcb3f(),
            _ => 0,
        }
    }

    #[verifier::rlimit(100)]
    #[verifier::spinoff_prover]
    fn dispatch_cb_q1(&mut self, code: u8) -> (r: u64)
        requires
            cpu_wf(*old(self)),
            !old(self).use_cb_table,
            0x40 <= code < 0x80,
        ensures
            cpu_wf(*final(self)),
            r == cb_cycles(code),
            !final(self).use_cb_table,
            final(self)@ == cb_effect(old(self)@, code),
            final(self).clock == old(self).clock,
    {
        proof {
            reveal(cb_effect);
        }
        match code {
            0x40 => self.bit_0_b_0xcb40(),
            0x41 => self.bit_0_c_0xcb41(),
            0x42 => self.bit_0_d_0xcb42(),
            0x43 => self.bit_0_e_0xcb43(),
            0x44 => self.bit_0_h_0xcb44(),
            0x45 => self.bit_0_l_0xcb45(),
            0x46 => self.bit_0_hl_0xcb46(),
            0x47 => self.bit_0_a_0xcb47(),
            0x48 => self.bit_1_b_0xcb48(),
            0x49 => self.bit_1_c_0xcb49(),
            0x4A => self.bit_1_d_0xcb4a(),
            0x4B => self.bit_1_e_0xcb4b(),
            0x4C => self.bit_1_h_0xcb4c(),
            0x4D => self.bit_1_l_0xcb4d(),
            0x4E => self.bit_1_hl_0xcb4e(),
            0x4F => self.bit_1_a_0xcb4f(),
            0x50 => self.bit_2_b_0xcb50(),
            0x51 => self.bit_2_c_0xcb51(),
            0x52 => self.bit_2_d_0xcb52(),
            0x53 => self.bit_2_e_0xcb53(),
            0x54 => self.bit_2_h_0xcb54(),
            0x55 => self.bit_2_l_0xcb55(),
            0x56 => self.bit_2_hl_0xcb56(),
            0x57 => self.bit_2_a_0xcb57(),
            0x58 => self.bit_3_b_0xcb58(),
            0x59 => self.bit_3_c_0xcb59(),
            0x5A => self.bit_3_d_0xcb5a(),
            0x5B => self.bit_3_e_0xcb5b(),
            0x5C => self.bit_3_h_0xcb5c(),
            0x5D => self.bit_3_l_0xcb5d(),
            0x5E => self.bit_3_hl_0xcb5e(),
            0x5F => self.bit_3_a_0xcb5f(),
            0x60 => self.bit_4_b_0xcb60(),
            0x61 => self.bit_4_c_0xcb61(),
            0x62 => self.bit_4_d_0xcb62(),
            0x63 => self.bit_4_e_0xcb63(),
            0x64 => self.bit_4_h_0xcb64(),
            0x65 => self.bit_4_l_0xcb65(),
            0x66 => self.bit_4_hl_0xcb66(),
            0x67 => self.bit_4_a_0xcb67(),
            0x68 => self.bit_5_b_0xcb68(),
            0x69 => self.bit_5_c_0xcb69(),
            0x6A => self.bit_5_d_0xcb6a(),
            0x6B => self.bit_5_e_0xcb6b(),
            0x6C => self.bit_5_h_0xcb6c(),
            0x6D => self.bit_5_l_0xcb6d(),
            0x6E => self.bit_5_hl_0xcb6e(),
            0x6F => self.bit_5_a_0xcb6f(),
            0x70 => self.bit_6_b_0xcb70(),
            0x71 => self.bit_6_c_0xcb71(),
            0x72 => self.bit_6_d_0xcb72(),
            0x73 => self.bit_6_e_0xcb73(),
            0x74 => self.bit_6_h_0xcb74(),
            0x75 => self.bit_6_l_0xcb75(),
            0x76 => self.bit_6_hl_0xcb76(),
            0x77 => self.bit_6_a_0xcb77(),
            0x78 => self.bit_7_b_0xcb78(),
            0x79 => self.bit_7_c_0xcb79(),
            0x7A => self.bit_7_d_0xcb7a(),
            0x7B => self.bit_7_e_0xcb7b(),
            0x7C => self.bit_7_h_0xcb7c(),
            0x7D => self.bit_7_l_0xcb7d(),
            0x7E => self.bit_7_hl_0xcb7e(),
            0x7F => self.bit_7_a_0xcb7f(),
            _ => 0,
        }
    }

    #[verifier::rlimit(100)]
    #[verifier::spinoff_prover]
    fn dispatch_cb_q2(&mut self, code: u8) -> (r: u64)
        requires
            cpu_wf(*old(self)),
            !old(self).use_cb_table,
            0x80 <= code < 0xC0,
        ensures
            cpu_wf(*final(self)),
            r == cb_cycles(code),
            !final(self).use_cb_table,
            final(self)@ == cb_effect(old(self)@, code),
            final(self).clock == old(self).clock,
    {
        proof {
            reveal(cb_effect);
        }
        match code {
            0x80 => self.res_0_b_0xcb80(),
            0x81 => self.res_0_c_0xcb81(),
            0x82 => self.res_0_d_0xcb82(),
            0x83 => self.res_0_e_0xcb83(),
            0x84 => self.res_0_h_0xcb84(),
            0x85 => self.res_0_l_0xcb85(),
            0x86 => self.res_0_hl_0xcb86(),
            0x87 => self.res_0_a_0xcb87(),
            0x88 => self.res_1_b_0xcb88(),
            0x89 => self.res_1_c_0xcb89(),
            0x8A => self.res_1_d_0xcb8a(),
            0x8B => self.res_1_e_0xcb8b(),
            0x8C => self.res_1_h_0xcb8c(),
            0x8D => self.res_1_l_0xcb8d(),
            0x8E => self.res_1_hl_0xcb8e(),
            0x8F => self.res_1_a_0xcb8f(),
            0x90 => self.res_2_b_0xcb90(),
            0x91 => self.res_2_c_0xcb91(),
            0x92 => self.res_2_d_0xcb92(),
            0x93 => self.res_2_e_0xcb93(),
            0x94 => self.res_2_h_0xcb94(),
            0x95 => self.res_2_l_0xcb95(),
            0x96 => self.res_2_hl_0xcb96(),
            0x97 => self.res_2_a_0xcb97(),
            0x98 => self.res_3_b_0xcb98(),
            0x99 => self.res_3_c_0xcb99(),
            0x9A => self.res_3_d_0xcb9a(),
            0x9B => self.res_3_e_0xcb9b(),
            0x9C => self.res_3_h_0xcb9c(),
            0x9D => self.res_3_l_0xcb9d(),
            0x9E => self.res_3_hl_0xcb9e(),
            0x9F => self.res_3_a_0xcb9f(),
            0xA0 => self.res_4_b_0xcba0(),
            0xA1 => self.res_4_c_0xcba1(),
            0xA2 => self.res_4_d_0xcba2(),
            0xA3 => self.res_4_e_0xcba3(),
            0xA4 => self.res_4_h_0xcba4(),
            0xA5 => self.res_4_l_0xcba5(),
            0xA6 => self.res_4_hl_0xcba6(),
            0xA7 => self.res_4_a_0xcba7(),
            0xA8 => self.res_5_b_0xcba8(),
            0xA9 => self.res_5_c_0xcba9(),
            0xAA => self.res_5_d_0xcbaa(),
            0xAB => self.res_5_e_0xcbab(),
            0xAC => self.res_5_h_0xcbac(),
            0xAD => self.res_5_l_0xcbad(),
            0xAE => self.res_5_hl_0xcbae(),
            0xAF => self.res_5_a_0xcbaf(),
            0xB0 => self.res_6_b_0xcbb0(),
            0xB1 => self.res_6_c_0xcbb1(),
            0xB2 => self.res_6_d_0xcbb2(),
            0xB3 => self.res_6_e_0xcbb3(),
            0xB4 => self.res_6_h_0xcbb4(),
            0xB5 => self.res_6_l_0xcbb5(),
            0xB6 => self.res_6_hl_0xcbb6(),
            0xB7 => self.res_6_a_0xcbb7(),
            0xB8 => self.res_7_b_0xcbb8(),
            0xB9 => self.res_7_c_0xcbb9(),
            0xBA => self.res_7_d_0xcbba(),
            0xBB => self.res_7_e_0xcbbb(),
            0xBC => self.res_7_h_0xcbbc(),
            0xBD => self.res_7_l_0xcbbd(),
            0xBE => self.res_7_hl_0xcbbe(),
            0xBF => self.res_7_a_0xcbbf(),
            _ => 0,
        }
    }

    #[verifier::rlimit(100)]
    #[verifier::spinoff_prover]
    fn dispatch_cb_q3(&mut self, code: u8) -> (r: u64)
        requires
            cpu_wf(*old(self)),
            !old(self).use_cb_table,
            0xC0 <= code < 0x100,
        ensures
            cpu_wf(*final(self)),
            r == cb_cycles(code),
            !final(self).use_cb_table,
            final(self)@ == cb_effect(old(self)@, code),
            final(self).clock == old(self).clock,
    {
        proof {
            reveal(cb_effect);
        }
        match code {
            0xC0 => self.set_0_b_0xcbc0(),
            0xC1 => self.set_0_c_0xcbc1(),
            0xC2 => self.set_0_d_0xcbc2(),
            0xC3 => self.set_0_e_0xcbc3(),
            0xC4 => self.set_0_h_0xcbc4(),
            0xC5 => self.set_0_l_0xcbc5(),
            0xC6 => self.set_0_hl_0xcbc6(),
            0xC7 => self.set_0_a_0xcbc7(),
            0xC8 => self.set_1_b_0xcbc8(),
            0xC9 => self.set_1_c_0xcbc9(),
            0xCA => self.set_1_d_0xcbca(),
            0xCB => self.set_1_e_0xcbcb(),
            0xCC => self.set_1_h_0xcbcc(),
            0xCD => self.set_1_l_0xcbcd(),
            0xCE => self.set_1_hl_0xcbce(),
            0xCF => self.set_1_a_0xcbcf(),
            0xD0 => self.set_2_b_0xcbd0(),
            0xD1 => self.set_2_c_0xcbd1(),
            0xD2 => self.set_2_d_0xcbd2(),
            0xD3 => self.set_2_e_0xcbd3(),
            0xD4 => self.set_2_h_0xcbd4(),
            0xD5 => self.set_2_l_0xcbd5(),
            0xD6 => self.set_2_hl_0xcbd6(),
            0xD7 => self.set_2_a_0xcbd7(),
            0xD8 => self.set_3_b_0xcbd8(),
            0xD9 => self.set_3_c_0xcbd9(),
            0xDA => self.set_3_d_0xcbda(),
            0xDB => self.set_3_e_0xcbdb(),
            0xDC => self.set_3_h_0xcbdc(),
            0xDD => self.set_3_l_0xcbdd(),
            0xDE => self.set_3_hl_0xcbde(),
            0xDF => self.set_3_a_0xcbdf(),
            0xE0 => self.set_4_b_0xcbe0(),
            0xE1 => self.set_4_c_0xcbe1(),
            0xE2 => self.set_4_d_0xcbe2(),
            0xE3 => self.set_4_e_0xcbe3(),
            0xE4 => self.set_4_h_0xcbe4(),
            0xE5 => self.set_4_l_0xcbe5(),
            0xE6 => self.set_4_hl_0xcbe6(),
            0xE7 => self.set_4_a_0xcbe7(),
            0xE8 => self.set_5_b_0xcbe8(),
            0xE9 => self.set_5_c_0xcbe9(),
            0xEA => self.set_5_d_0xcbea(),
            0xEB => self.set_5_e_0xcbeb(),
            0xEC => self.set_5_h_0xcbec(),
            0xED => self.set_5_l_0xcbed(),
            0xEE => self.set_5_hl_0xcbee(),
            0xEF => self.set_5_a_0xcbef(),
            0xF0 => self.set_6_b_0xcbf0(),
            0xF1 => self.set_6_c_0xcbf1(),
            0xF2 => self.set_6_d_0xcbf2(),
            0xF3 => self.set_6_e_0xcbf3(),
            0xF4 => self.set_6_h_0xcbf4(),
            0xF5 => self.set_6_l_0xcbf5(),
            0xF6 => self.set_6_hl_0xcbf6(),
            0xF7 => self.set_6_a_0xcbf7(),
            0xF8 => self.set_7_b_0xcbf8(),
            0xF9 => self.set_7_c_0xcbf9(),
            0xFA => self.set_7_d_0xcbfa(),
            0xFB => self.set_7_e_0xcbfb(),
            0xFC => self.set_7_h_0xcbfc(),
            0xFD => self.set_7_l_0xcbfd(),
            0xFE => self.set_7_hl_0xcbfe(),
            0xFF => self.set_7_a_0xcbff(),
            _ => 0,
        }
    }

    /// Execute the instruction the opcode byte names, through whichever
    /// table the CB-prefix latch selects: the state becomes the table's
    /// effect for that opcode, and the result is its documented cycle
    /// count; an opcode neither table defines returns zero, the fault the
    /// run loop stops on, and changes nothing.
    pub fn call_instruction(&mut self, code: u8) -> (r: u64)
        requires
            cpu_wf(*old(self)),
        ensures
            cpu_wf(*final(self)),
            old(self).use_cb_table ==> r == cb_cycles(code) && !final(self).use_cb_table,
            old(self).use_cb_table ==> final(self)@ == cb_effect(
                CpuView { use_cb_table: false, ..old(self)@ },
                code,
            ),
            !old(self).use_cb_table ==> r == primary_cycles(code, old(self).registers.f),
            !old(self).use_cb_table ==> final(self)@ == primary_effect(old(self)@, code),
            !old(self).use_cb_table ==> (final(self).use_cb_table <==> code == 0xCB),
            final(self).clock == old(self).clock,
    {
        if self.use_cb_table {
            self.use_cb_table = false;
            self.dispatch_cb(code)
        } else {
            self.dispatch_primary(code)
        }
    }

    /// 0x00 - NOP.
    pub fn nop_0x00(&mut self) -> (r: u64)
    ensures
        r == 4,
        *final(self) == *old(self),
    {
        4
    }

    /// 0x01 - LD BC, d16.
    pub fn ld_bc_0x01(&mut self) -> (r: u64)
    requires
        cpu_wf(*old(self)),
    ensures
        r == 12,
        *final(self) == (Z80 { registers: (Registers { c: mmu_read_spec(old(self).mmu@, old(self).registers.pc), b: mmu_read_spec(old(self).mmu@, wrap16(old(self).registers.pc + 1)), pc: wrap16(old(self).registers.pc + 2), ..old(self).registers }), ..*old(self) }),
        cpu_wf(*final(self)),
    {
        let lov = self.byte();
        let hiv = self.byte();
        self.registers.c = lov;
        self.registers.b = hiv;
        12
    }

    /// 0x11 - LD DE, d16.
    pub fn ld_de_0x11(&mut self) -> (r: u64)
    requires
        cpu_wf(*old(self)),
    ensures
        r == 12,
        *final(self) == (Z80 { registers: (Registers { e: mmu_read_spec(old(self).mmu@, old(self).registers.pc), d: mmu_read_spec(old(self).mmu@, wrap16(old(self).registers.pc + 1)), pc: wrap16(old(self).registers.pc + 2), ..old(self).registers }), ..*old(self) }),
        cpu_wf(*final(self)),
    {
        let lov = self.byte();
        let hiv = self.byte();
        self.registers.e = lov;
        self.registers.d = hiv;
        12
    }

    /// 0x21 - LD HL, d16.
    pub fn ld_hl_d16_0x21(&mut self) -> (r: u64)
    requires
        cpu_wf(*old(self)),
    ensures
        r == 12,
        *final(self) == (Z80 { registers: (Registers { l: mmu_read_spec(old(self).mmu@, old(self).registers.pc), h: mmu_read_spec(old(self).mmu@, wrap16(old(self).registers.pc + 1)), pc: wrap16(old(self).registers.pc + 2), ..old(self).registers }), ..*old(self) }),
        cpu_wf(*final(self)),
    {
        let lov = self.byte();
        let hiv = self.byte();
        self.registers.l = lov;
        self.registers.h = hiv;
        12
    }

    /// 0x31 - LD SP, d16.
    pub fn ld_sp_d16_0x31(&mut self) -> (r: u64)
    requires
        cpu_wf(*old(self)),
    ensures
        r == 12,
        *final(self) == (Z80 { registers: (Registers { sp: (mmu_read_spec(old(self).mmu@, old(self).registers.pc) + 256 * mmu_read_spec(old(self).mmu@, wrap16(old(self).registers.pc + 1))) as u16, pc: wrap16(old(self).registers.pc + 2), ..old(self).registers }), ..*old(self) }),
        cpu_wf(*final(self)),
    {
        let v = self.word();
        self.registers.sp = v;
        12
    }

    /// 0x02 - LD (BC), A.
    pub fn ld_bc_a_0x02(&mut self) -> (r: u64)
    requires
        cpu_wf(*old(self)),
    ensures
        r == 8,
        final(self).registers == old(self).registers,
        final(self).mmu@ == mmu_write_spec(old(self).mmu@, ((old(self).registers.b) * 256 + (old(self).registers.c)) as u16, old(self).registers.a),
        ctrl_unchanged(*old(self), *final(self)),
        cpu_wf(*final(self)),
    {
        let addr = self.get_bc();
        self.mmu.write(addr, self.registers.a);
        8
    }

    /// 0x12 - LD (DE), A.
    pub fn ld_de_a_0x12(&mut self) -> (r: u64)
    requires
        cpu_wf(*old(self)),
    ensures
        r == 8,
        final(self).registers == old(self).registers,
        final(self).mmu@ == mmu_write_spec(old(self).mmu@, ((old(self).registers.d) * 256 + (old(self).registers.e)) as u16, old(self).registers.a),
        ctrl_unchanged(*old(self), *final(self)),
        cpu_wf(*final(self)),
    {
        let addr = self.get_de();
        self.mmu.write(addr, self.registers.a);
        8
    }

    /// 0x03 - INC BC.
    pub fn inc_bc_0x03(&mut self) -> (r: u64)
    ensures
        r == 8,
        *final(self) == (Z80 { registers: (Registers { b: ((wrap16(((old(self).registers.b) * 256 + (old(self).registers.c)) as u16 + 1)) / 256) as u8, c: ((wrap16(((old(self).registers.b) * 256 + (old(self).registers.c)) as u16 + 1)) % 256) as u8, ..old(self).registers }), ..*old(self) }),
    {
        let v = self.get_bc();
        let v2 = self.inc_16(v);
        self.set_bc(v2);
        8
    }

    /// 0x13 - INC DE.
    pub fn inc_de_0x13(&mut self) -> (r: u64)
    ensures
        r == 8,
        *final(self) == (Z80 { registers: (Registers { d: ((wrap16(((old(self).registers.d) * 256 + (old(self).registers.e)) as u16 + 1)) / 256) as u8, e: ((wrap16(((old(self).registers.d) * 256 + (old(self).registers.e)) as u16 + 1)) % 256) as u8, ..old(self).registers }), ..*old(self) }),
    {
        let v = self.get_de();
        let v2 = self.inc_16(v);
        self.set_de(v2);
        8
    }

    /// 0x0B - DEC BC.
    pub fn dec_bc_0x0b(&mut self) -> (r: u64)
    ensures
        r == 8,
        *final(self) == (Z80 { registers: (Registers { b: ((wrap16(((old(self).registers.b) * 256 + (old(self).registers.c)) as u16 - 1 + 0x10000)) / 256) as u8, c: ((wrap16(((old(self).registers.b) * 256 + (old(self).registers.c)) as u16 - 1 + 0x10000)) % 256) as u8, ..old(self).registers }), ..*old(self) }),
    {
        let v = self.get_bc();
        let v2 = self.dec_16(v);
        self.set_bc(v2);
        8
    }

    /// 0x1B - DEC DE.
    pub fn dec_de_0x1b(&mut self) -> (r: u64)
    ensures
        r == 8,
        *final(self) == (Z80 { registers: (Registers { d: ((wrap16(((old(self).registers.d) * 256 + (old(self).registers.e)) as u16 - 1 + 0x10000)) / 256) as u8, e: ((wrap16(((old(self).registers.d) * 256 + (old(self).registers.e)) as u16 - 1 + 0x10000)) % 256) as u8, ..old(self).registers }), ..*old(self) }),
    {
        let v = self.get_de();
        let v2 = self.dec_16(v);
        self.set_de(v2);
        8
    }

    /// 0x23 - INC HL.
    pub fn inc_hl_0x23(&mut self) -> (r: u64)
    ensures
        r == 8,
        *final(self) == (Z80 { registers: (Registers { h: ((wrap16(((old(self).registers.h) * 256 + (old(self).registers.l)) as u16 + 1)) / 256) as u8, l: ((wrap16(((old(self).registers.h) * 256 + (old(self).registers.l)) as u16 + 1)) % 256) as u8, ..old(self).registers }), ..*old(self) }),
    {
        let v = self.get_hl();
        let v2 = self.inc_16(v);
        self.set_hl(v2);
        8
    }

    /// 0x2B - DEC HL.
    pub fn dec_hl_0x2b(&mut self) -> (r: u64)
    ensures
        r == 8,
        *final(self) == (Z80 { registers: (Registers { h: ((wrap16(((old(self).registers.h) * 256 + (old(self).registers.l)) as u16 - 1 + 0x10000)) / 256) as u8, l: ((wrap16(((old(self).registers.h) * 256 + (old(self).registers.l)) as u16 - 1 + 0x10000)) % 256) as u8, ..old(self).registers }), ..*old(self) }),
    {
        let v = self.get_hl();
        let v2 = self.dec_16(v);
        self.set_hl(v2);
        8
    }

    /// 0x33 - INC SP.
    pub fn inc_sp_0x33(&mut self) -> (r: u64)
    ensures
        r == 8,
        *final(self) == (Z80 { registers: (Registers { sp: wrap16(old(self).registers.sp + 1), ..old(self).registers }), ..*old(self) }),
    {
        let v = self.registers.sp;
        let v2 = self.inc_16(v);
        self.registers.sp = v2;
        8
    }

    /// 0x3B - DEC SP.
    pub fn dec_sp_0x3b(&mut self) -> (r: u64)
    ensures
        r == 8,
        *final(self) == (Z80 { registers: (Registers { sp: wrap16(old(self).registers.sp - 1 + 0x10000), ..old(self).registers }), ..*old(self) }),
    {
        let v = self.registers.sp;
        let v2 = self.dec_16(v);
        self.registers.sp = v2;
        8
    }

    /// 0x04 - INC B.
    pub fn inc_b_0x04(&mut self) -> (r: u64)
    ensures
        r == 4,
        *final(self) == (Z80 { registers: (Registers { b: inc8_val(old(self).registers.b), f: inc8_flags(old(self).registers.f, old(self).registers.b), ..old(self).registers }), ..*old(self) }),
    {
        let v = self.registers.b;
        let v2 = self.inc_8(v);
        self.registers.b = v2;
        4
    }

    /// 0x0C - INC C.
    pub fn inc_c_0x0c(&mut self) -> (r: u64)
    ensures
        r == 4,
        *final(self) == (Z80 { registers: (Registers { c: inc8_val(old(self).registers.c), f: inc8_flags(old(self).registers.f, old(self).registers.c), ..old(self).registers }), ..*old(self) }),
    {
        let v = self.registers.c;
        let v2 = self.inc_8(v);
        self.registers.c = v2;
        4
    }

    /// 0x14 - INC D.
    pub fn inc_d_0x14(&mut self) -> (r: u64)
    ensures
        r == 4,
        *final(self) == (Z80 { registers: (Registers { d: inc8_val(old(self).registers.d), f: inc8_flags(old(self).registers.f, old(self).registers.d), ..old(self).registers }), ..*old(self) }),
    {
        let v = self.registers.d;
        let v2 = self.inc_8(v);
        self.registers.d = v2;
        4
    }

    /// 0x1C - INC E.
    pub fn inc_e_0x1c(&mut self) -> (r: u64)
    ensures
        r == 4,
        *final(self) == (Z80 { registers: (Registers { e: inc8_val(old(self).registers.e), f: inc8_flags(old(self).registers.f, old(self).registers.e), ..old(self).registers }), ..*old(self) }),
    {
        let v = self.registers.e;
        let v2 = self.inc_8(v);
        self.registers.e = v2;
        4
    }

    /// 0x24 - INC H.
    pub fn inc_h_0x24(&mut self) -> (r: u64)
    ensures
        r == 4,
        *final(self) == (Z80 { registers: (Registers { h: inc8_val(old(self).registers.h), f: inc8_flags(old(self).registers.f, old(self).registers.h), ..old(self).registers }), ..*old(self) }),
    {
        let v = self.registers.h;
        let v2 = self.inc_8(v);
        self.registers.h = v2;
        4
    }

    /// 0x2C - INC L.
    pub fn inc_l_0x2c(&mut self) -> (r: u64)
    ensures
        r == 4,
        *final(self) == (Z80 { registers: (Registers { l: inc8_val(old(self).registers.l), f: inc8_flags(old(self).registers.f, old(self).registers.l), ..old(self).registers }), ..*old(self) }),
    {
        let v = self.registers.l;
        let v2 = self.inc_8(v);
        self.registers.l = v2;
        4
    }

    /// 0x3C - INC A.
    pub fn inc_a_0x3c(&mut self) -> (r: u64)
    ensures
        r == 4,
        *final(self) == (Z80 { registers: (Registers { a: inc8_val(old(self).registers.a), f: inc8_flags(old(self).registers.f, old(self).registers.a), ..old(self).registers }), ..*old(self) }),
    {
        let v = self.registers.a;
        let v2 = self.inc_8(v);
        self.registers.a = v2;
        4
    }

    /// 0x05 - DEC B.
    pub fn dec_b_0x05(&mut self) -> (r: u64)
    ensures
        r == 4,
        *final(self) == (Z80 { registers: (Registers { b: dec8_val(old(self).registers.b), f: dec8_flags(old(self).registers.f, old(self).registers.b), ..old(self).registers }), ..*old(self) }),
    {
        let v = self.registers.b;
        let v2 = self.dec_8(v);
        self.registers.b = v2;
        4
    }

    /// 0x0D - DEC C.
    pub fn dec_c_0x0d(&mut self) -> (r: u64)
    ensures
        r == 4,
        *final(self) == (Z80 { registers: (Registers { c: dec8_val(old(self).registers.c), f: dec8_flags(old(self).registers.f, old(self).registers.c), ..old(self).registers }), ..*old(self) }),
    {
        let v = self.registers.c;
        let v2 = self.dec_8(v);
        self.registers.c = v2;
        4
    }

    /// 0x15 - DEC D.
    pub fn dec_d_0x15(&mut self) -> (r: u64)
    ensures
        r == 4,
        *final(self) == (Z80 { registers: (Registers { d: dec8_val(old(self).registers.d), f: dec8_flags(old(self).registers.f, old(self).registers.d), ..old(self).registers }), ..*old(self) }),
    {
        let v = self.registers.d;
        let v2 = self.dec_8(v);
        self.registers.d = v2;
        4
    }

    /// 0x1D - DEC E.
    pub fn dec_e_0x1d(&mut self) -> (r: u64)
    ensures
        r == 4,
        *final(self) == (Z80 { registers: (Registers { e: dec8_val(old(self).registers.e), f: dec8_flags(old(self).registers.f, old(self).registers.e), ..old(self).registers }), ..*old(self) }),
    {
        let v = self.registers.e;
        let v2 = self.dec_8(v);
        self.registers.e = v2;
        4
    }

    /// 0x25 - DEC H.
    pub fn dec_h_0x25(&mut self) -> (r: u64)
    ensures
        r == 4,
        *final(self) == (Z80 { registers: (Registers { h: dec8_val(old(self).registers.h), f: dec8_flags(old(self).registers.f, old(self).registers.h), ..old(self).registers }), ..*old(self) }),
    {
        let v = self.registers.h;
        let v2 = self.dec_8(v);
        self.registers.h = v2;
        4
    }

    /// 0x2D - DEC L.
    pub fn dec_l_0x2d(&mut self) -> (r: u64)
    ensures
        r == 4,
        *final(self) == (Z80 { registers: (Registers { l: dec8_val(old(self).registers.l), f: dec8_flags(old(self).registers.f, old(self).registers.l), ..old(self).registers }), ..*old(self) }),
    {
        let v = self.registers.l;
        let v2 = self.dec_8(v);
        self.registers.l = v2;
        4
    }

    /// 0x3D - DEC A.
    pub fn dec_a_0x3d(&mut self) -> (r: u64)
    ensures
        r == 4,
        *final(self) == (Z80 { registers: (Registers { a: dec8_val(old(self).registers.a), f: dec8_flags(old(self).registers.f, old(self).registers.a), ..old(self).registers }), ..*old(self) }),
    {
        let v = self.registers.a;
        let v2 = self.dec_8(v);
        self.registers.a = v2;
        4
    }

    /// 0x06 - LD B, d8.
    pub fn ld_b_0x06(&mut self) -> (r: u64)
    requires
        cpu_wf(*old(self)),
    ensures
        r == 8,
        *final(self) == (Z80 { registers: (Registers { b: mmu_read_spec(old(self).mmu@, old(self).registers.pc), pc: wrap16(old(self).registers.pc + 1), ..old(self).registers }), ..*old(self) }),
        cpu_wf(*final(self)),
    {
        let v = self.byte();
        self.registers.b = v;
        8
    }

    /// 0x0E - LD C, d8.
    pub fn ld_c_0x0e(&mut self) -> (r: u64)
    requires
        cpu_wf(*old(self)),
    ensures
        r == 8,
        *final(self) == (Z80 { registers: (Registers { c: mmu_read_spec(old(self).mmu@, old(self).registers.pc), pc: wrap16(old(self).registers.pc + 1), ..old(self).registers }), ..*old(self) }),
        cpu_wf(*final(self)),
    {
        let v = self.byte();
        self.registers.c = v;
        8
    }

    /// 0x16 - LD D, d8.
    pub fn ld_d_0x16(&mut self) -> (r: u64)
    requires
        cpu_wf(*old(self)),
    ensures
        r == 8,
        *final(self) == (Z80 { registers: (Registers { d: mmu_read_spec(old(self).mmu@, old(self).registers.pc), pc: wrap16(old(self).registers.pc + 1), ..old(self).registers }), ..*old(self) }),
        cpu_wf(*final(self)),
    {
        let v = self.byte();
        self.registers.d = v;
        8
    }

    /// 0x1E - LD E, d8.
    pub fn ld_e_d8_0x1e(&mut self) -> (r: u64)
    requires
        cpu_wf(*old(self)),
    ensures
        r == 8,
        *final(self) == (Z80 { registers: (Registers { e: mmu_read_spec(old(self).mmu@, old(self).registers.pc), pc: wrap16(old(self).registers.pc + 1), ..old(self).registers }), ..*old(self) }),
        cpu_wf(*final(self)),
    {
        let v = self.byte();
        self.registers.e = v;
        8
    }

    /// 0x26 - LD H, d8.
    pub fn ld_h_d8_0x26(&mut self) -> (r: u64)
    requires
        cpu_wf(*old(self)),
    ensures
        r == 8,
        *final(self) == (Z80 { registers: (Registers { h: mmu_read_spec(old(self).mmu@, old(self).registers.pc), pc: wrap16(old(self).registers.pc + 1), ..old(self).registers }), ..*old(self) }),
        cpu_wf(*final(self)),
    {
        let v = self.byte();
        self.registers.h = v;
        8
    }

    /// 0x2E - LD L, d8.
    pub fn ld_l_d8_0x2e(&mut self) -> (r: u64)
    requires
        cpu_wf(*old(self)),
    ensures
        r == 8,
        *final(self) == (Z80 { registers: (Registers { l: mmu_read_spec(old(self).mmu@, old(self).registers.pc), pc: wrap16(old(self).registers.pc + 1), ..old(self).registers }), ..*old(self) }),
        cpu_wf(*final(self)),
    {
        let v = self.byte();
        self.registers.l = v;
        8
    }

    /// 0x3E - LD A, d8.
    pub fn ld_a_d8_0x3e(&mut self) -> (r: u64)
    requires
        cpu_wf(*old(self)),
    ensures
        r == 8,
        *final(self) == (Z80 { registers: (Registers { a: mmu_read_spec(old(self).mmu@, old(self).registers.pc), pc: wrap16(old(self).registers.pc + 1), ..old(self).registers }), ..*old(self) }),
        cpu_wf(*final(self)),
    {
        let v = self.byte();
        self.registers.a = v;
        8
    }

    /// 0x07 - RLCA: A rotated, Z cleared.
    pub fn rlca_0x07(&mut self) -> (r: u64)
    ensures
        r == 4,
        *final(self) == (Z80 { registers: (Registers { a: rlc_val(old(self).registers.a), f: flags_byte(false, false, false, rlc_carry(old(self).registers.a)), ..old(self).registers }), ..*old(self) }),
    {
        let v = self.registers.a;
        let v2 = self.rlc(v);
        self.registers.a = v2;
        self.registers.unset_zero();
        4
    }

    /// 0x0F - RRCA: A rotated, Z cleared.
    pub fn rrca_0x0f(&mut self) -> (r: u64)
    ensures
        r == 4,
        *final(self) == (Z80 { registers: (Registers { a: rrc_val(old(self).registers.a), f: flags_byte(false, false, false, rrc_carry(old(self).registers.a)), ..old(self).registers }), ..*old(self) }),
    {
        let v = self.registers.a;
        let v2 = self.rrc(v);
        self.registers.a = v2;
        self.registers.unset_zero();
        4
    }

    /// 0x17 - RLA: A rotated, Z cleared.
    pub fn rla_0x17(&mut self) -> (r: u64)
    ensures
        r == 4,
        *final(self) == (Z80 { registers: (Registers { a: rl_val(old(self).registers.a, c_flag(old(self).registers.f)), f: flags_byte(false, false, false, rlc_carry(old(self).registers.a)), ..old(self).registers }), ..*old(self) }),
    {
        let v = self.registers.a;
        let v2 = self.rl(v);
        self.registers.a = v2;
        self.registers.unset_zero();
        4
    }

    /// 0x1F - RRA: A rotated, Z cleared.
    pub fn rra_0x1f(&mut self) -> (r: u64)
    ensures
        r == 4,
        *final(self) == (Z80 { registers: (Registers { a: rr_val(old(self).registers.a, c_flag(old(self).registers.f)), f: flags_byte(false, false, false, rrc_carry(old(self).registers.a)), ..old(self).registers }), ..*old(self) }),
    {
        let v = self.registers.a;
        let v2 = self.rr(v);
        self.registers.a = v2;
        self.registers.unset_zero();
        4
    }

    /// 0x08 - LD (a16), SP.
    pub fn ld_a16_sp_0x08(&mut self) -> (r: u64)
    requires
        cpu_wf(*old(self)),
    ensures
        r == 20,
        final(self).registers == (Registers { pc: wrap16(old(self).registers.pc + 2), ..old(self).registers }),
        final(self).mmu@ == mmu_write_word_spec(old(self).mmu@, ((mmu_read_spec(old(self).mmu@, old(self).registers.pc)) + 256 * (mmu_read_spec(old(self).mmu@, wrap16(old(self).registers.pc + 1)))) as u16, old(self).registers.sp),
        ctrl_unchanged(*old(self), *final(self)),
        cpu_wf(*final(self)),
    {
        let addr = self.word();
        self.mmu.write_word(addr, self.registers.sp);
        20
    }

    /// 0x09 - ADD HL, BC.
    pub fn add_hl_bc_0x09(&mut self) -> (r: u64)
    ensures
        r == 8,
        *final(self) == (Z80 { registers: (Registers { h: ((wrap16(((old(self).registers.h) * 256 + (old(self).registers.l)) as u16 + ((old(self).registers.b) * 256 + (old(self).registers.c)) as u16)) / 256) as u8, l: ((wrap16(((old(self).registers.h) * 256 + (old(self).registers.l)) as u16 + ((old(self).registers.b) * 256 + (old(self).registers.c)) as u16)) % 256) as u8, f: add16_flags(old(self).registers.f, ((old(self).registers.h) * 256 + (old(self).registers.l)) as u16, ((old(self).registers.b) * 256 + (old(self).registers.c)) as u16), ..old(self).registers }), ..*old(self) }),
    {
        let hl = self.get_hl();
        let v = self.get_bc();
        let v2 = self.add_16(hl, v);
        self.set_hl(v2);
        8
    }

    /// 0x19 - ADD HL, DE.
    pub fn add_hl_de_0x19(&mut self) -> (r: u64)
    ensures
        r == 8,
        *final(self) == (Z80 { registers: (Registers { h: ((wrap16(((old(self).registers.h) * 256 + (old(self).registers.l)) as u16 + ((old(self).registers.d) * 256 + (old(self).registers.e)) as u16)) / 256) as u8, l: ((wrap16(((old(self).registers.h) * 256 + (old(self).registers.l)) as u16 + ((old(self).registers.d) * 256 + (old(self).registers.e)) as u16)) % 256) as u8, f: add16_flags(old(self).registers.f, ((old(self).registers.h) * 256 + (old(self).registers.l)) as u16, ((old(self).registers.d) * 256 + (old(self).registers.e)) as u16), ..old(self).registers }), ..*old(self) }),
    {
        let hl = self.get_hl();
        let v = self.get_de();
        let v2 = self.add_16(hl, v);
        self.set_hl(v2);
        8
    }

    /// 0x29 - ADD HL, HL.
    pub fn add_hl_hl_0x29(&mut self) -> (r: u64)
    ensures
        r == 8,
        *final(self) == (Z80 { registers: (Registers { h: ((wrap16(((old(self).registers.h) * 256 + (old(self).registers.l)) as u16 + ((old(self).registers.h) * 256 + (old(self).registers.l)) as u16)) / 256) as u8, l: ((wrap16(((old(self).registers.h) * 256 + (old(self).registers.l)) as u16 + ((old(self).registers.h) * 256 + (old(self).registers.l)) as u16)) % 256) as u8, f: add16_flags(old(self).registers.f, ((old(self).registers.h) * 256 + (old(self).registers.l)) as u16, ((old(self).registers.h) * 256 + (old(self).registers.l)) as u16), ..old(self).registers }), ..*old(self) }),
    {
        let hl = self.get_hl();
        let v = self.get_hl();
        let v2 = self.add_16(hl, v);
        self.set_hl(v2);
        8
    }

    /// 0x39 - ADD HL, SP.
    pub fn add_hl_sp_0x39(&mut self) -> (r: u64)
    ensures
        r == 8,
        *final(self) == (Z80 { registers: (Registers { h: ((wrap16(((old(self).registers.h) * 256 + (old(self).registers.l)) as u16 + old(self).registers.sp)) / 256) as u8, l: ((wrap16(((old(self).registers.h) * 256 + (old(self).registers.l)) as u16 + old(self).registers.sp)) % 256) as u8, f: add16_flags(old(self).registers.f, ((old(self).registers.h) * 256 + (old(self).registers.l)) as u16, old(self).registers.sp), ..old(self).registers }), ..*old(self) }),
    {
        let hl = self.get_hl();
        let v = self.registers.sp;
        let v2 = self.add_16(hl, v);
        self.set_hl(v2);
        8
    }

    /// 0x0A - LD A, (BC).
    pub fn ld_a_bc_0x0a(&mut self) -> (r: u64)
    requires
        cpu_wf(*old(self)),
    ensures
        r == 8,
        *final(self) == (Z80 { registers: (Registers { a: mmu_read_spec(old(self).mmu@, ((old(self).registers.b) * 256 + (old(self).registers.c)) as u16), ..old(self).registers }), ..*old(self) }),
        cpu_wf(*final(self)),
    {
        let addr = self.get_bc();
        self.registers.a = self.mmu.read(addr);
        8
    }

    /// 0x1A - LD A, (DE).
    pub fn ld_a_de_0x1a(&mut self) -> (r: u64)
    requires
        cpu_wf(*old(self)),
    ensures
        r == 8,
        *final(self) == (Z80 { registers: (Registers { a: mmu_read_spec(old(self).mmu@, ((old(self).registers.d) * 256 + (old(self).registers.e)) as u16), ..old(self).registers }), ..*old(self) }),
        cpu_wf(*final(self)),
    {
        let addr = self.get_de();
        self.registers.a = self.mmu.read(addr);
        8
    }

    /// 0x10 - STOP: halt the clocks and reset DIV.
    pub fn stop_0x10(&mut self) -> (r: u64)
    requires
        cpu_wf(*old(self)),
    ensures
        r == 4,
        final(self).mmu@ == mmu_write_spec(old(self).mmu@, 0xFF04, 0),
        final(self).registers == old(self).registers,
        final(self).status == Status::STOPPED,
        final(self).ime == old(self).ime,
        final(self).clock == old(self).clock,
        final(self).use_cb_table == old(self).use_cb_table,
        cpu_wf(*final(self)),
    {
        self.stop();
        4
    }

    /// 0x18 - JR s8.
    pub fn jr_s8_0x18(&mut self) -> (r: u64)
    requires
        cpu_wf(*old(self)),
    ensures
        r == 12,
        *final(self) == (Z80 { registers: (Registers { pc: wrap16(wrap16(old(self).registers.pc + 1) + sext8(mmu_read_spec(old(self).mmu@, old(self).registers.pc)) + 0x10000), ..old(self).registers }), ..*old(self) }),
        cpu_wf(*final(self)),
    {
        let s = self.byte();
        self.jr_d8(s);
        12
    }

    /// 0x20 - JR NZ, s8; longer when taken.
    pub fn jr_nz_s8_0x20(&mut self) -> (r: u64)
    requires
        cpu_wf(*old(self)),
    ensures
        r == (if !z_flag(old(self).registers.f) { 12u64 } else { 8u64 }),
        *final(self) == (Z80 { registers: (Registers { pc: (if !z_flag(old(self).registers.f) { wrap16(wrap16(old(self).registers.pc + 1) + sext8(mmu_read_spec(old(self).mmu@, old(self).registers.pc)) + 0x10000) } else { wrap16(old(self).registers.pc + 1) }), ..old(self).registers }), ..*old(self) }),
        cpu_wf(*final(self)),
    {
        let s = self.byte();
        let taken = !self.is_zero();
        if taken {
            self.jr_d8(s);
        }
        if taken {
            12
        } else {
            8
        }
    }

    /// 0x28 - JR Z, s8; longer when taken.
    pub fn jr_z_s8_0x28(&mut self) -> (r: u64)
    requires
        cpu_wf(*old(self)),
    ensures
        r == (if z_flag(old(self).registers.f) { 12u64 } else { 8u64 }),
        *final(self) == (Z80 { registers: (Registers { pc: (if z_flag(old(self).registers.f) { wrap16(wrap16(old(self).registers.pc + 1) + sext8(mmu_read_spec(old(self).mmu@, old(self).registers.pc)) + 0x10000) } else { wrap16(old(self).registers.pc + 1) }), ..old(self).registers }), ..*old(self) }),
        cpu_wf(*final(self)),
    {
        let s = self.byte();
        let taken = self.is_zero();
        if taken {
            self.jr_d8(s);
        }
        if taken {
            12
        } else {
            8
        }
    }

    /// 0x30 - JR NC, s8; longer when taken.
    pub fn jr_nc_s8_0x30(&mut self) -> (r: u64)
    requires
        cpu_wf(*old(self)),
    ensures
        r == (if !c_flag(old(self).registers.f) { 12u64 } else { 8u64 }),
        *final(self) == (Z80 { registers: (Registers { pc: (if !c_flag(old(self).registers.f) { wrap16(wrap16(old(self).registers.pc + 1) + sext8(mmu_read_spec(old(self).mmu@, old(self).registers.pc)) + 0x10000) } else { wrap16(old(self).registers.pc + 1) }), ..old(self).registers }), ..*old(self) }),
        cpu_wf(*final(self)),
    {
        let s = self.byte();
        let taken = !self.is_full_carry();
        if taken {
            self.jr_d8(s);
        }
        if taken {
            12
        } else {
            8
        }
    }

    /// 0x38 - JR C, s8; longer when taken.
    pub fn jr_c_s8_0x38(&mut self) -> (r: u64)
    requires
        cpu_wf(*old(self)),
    ensures
        r == (if c_flag(old(self).registers.f) { 12u64 } else { 8u64 }),
        *final(self) == (Z80 { registers: (Registers { pc: (if c_flag(old(self).registers.f) { wrap16(wrap16(old(self).registers.pc + 1) + sext8(mmu_read_spec(old(self).mmu@, old(self).registers.pc)) + 0x10000) } else { wrap16(old(self).registers.pc + 1) }), ..old(self).registers }), ..*old(self) }),
        cpu_wf(*final(self)),
    {
        let s = self.byte();
        let taken = self.is_full_carry();
        if taken {
            self.jr_d8(s);
        }
        if taken {
            12
        } else {
            8
        }
    }

    /// 0x22 - LD (HL+), A.
    pub fn ld_hlp_a_0x22(&mut self) -> (r: u64)
    requires
        cpu_wf(*old(self)),
    ensures
        r == 8,
        final(self).registers == (Registers { h: ((wrap16(((old(self).registers.h) * 256 + (old(self).registers.l)) as u16 + 1)) / 256) as u8, l: ((wrap16(((old(self).registers.h) * 256 + (old(self).registers.l)) as u16 + 1)) % 256) as u8, ..old(self).registers }),
        final(self).mmu@ == mmu_write_spec(old(self).mmu@, ((old(self).registers.h) * 256 + (old(self).registers.l)) as u16, old(self).registers.a),
        ctrl_unchanged(*old(self), *final(self)),
        cpu_wf(*final(self)),
    {
        let hl = self.get_hl();
        self.mmu.write(hl, self.registers.a);
        let v2 = if hl < 0xFFFF { hl + 1 } else { 0 };
        self.set_hl(v2);
        8
    }

    /// 0x32 - LD (HL-), A.
    pub fn ld_hls_a_0x32(&mut self) -> (r: u64)
    requires
        cpu_wf(*old(self)),
    ensures
        r == 8,
        final(self).registers == (Registers { h: ((wrap16(((old(self).registers.h) * 256 + (old(self).registers.l)) as u16 - 1 + 0x10000)) / 256) as u8, l: ((wrap16(((old(self).registers.h) * 256 + (old(self).registers.l)) as u16 - 1 + 0x10000)) % 256) as u8, ..old(self).registers }),
        final(self).mmu@ == mmu_write_spec(old(self).mmu@, ((old(self).registers.h) * 256 + (old(self).registers.l)) as u16, old(self).registers.a),
        ctrl_unchanged(*old(self), *final(self)),
        cpu_wf(*final(self)),
    {
        let hl = self.get_hl();
        self.mmu.write(hl, self.registers.a);
        let v2 = if hl > 0 { hl - 1 } else { 0xFFFF };
        self.set_hl(v2);
        8
    }

    /// 0x2A - LD A, (HL+).
    pub fn ld_a_hlp_0x2a(&mut self) -> (r: u64)
    requires
        cpu_wf(*old(self)),
    ensures
        r == 8,
        *final(self) == (Z80 { registers: (Registers { a: mmu_read_spec(old(self).mmu@, ((old(self).registers.h) * 256 + (old(self).registers.l)) as u16), h: ((wrap16(((old(self).registers.h) * 256 + (old(self).registers.l)) as u16 + 1)) / 256) as u8, l: ((wrap16(((old(self).registers.h) * 256 + (old(self).registers.l)) as u16 + 1)) % 256) as u8, ..old(self).registers }), ..*old(self) }),
        cpu_wf(*final(self)),
    {
        let hl = self.get_hl();
        self.registers.a = self.mmu.read(hl);
        let v2 = if hl < 0xFFFF { hl + 1 } else { 0 };
        self.set_hl(v2);
        8
    }

    /// 0x3A - LD A, (HL-).
    pub fn ld_a_hls_0x3a(&mut self) -> (r: u64)
    requires
        cpu_wf(*old(self)),
    ensures
        r == 8,
        *final(self) == (Z80 { registers: (Registers { a: mmu_read_spec(old(self).mmu@, ((old(self).registers.h) * 256 + (old(self).registers.l)) as u16), h: ((wrap16(((old(self).registers.h) * 256 + (old(self).registers.l)) as u16 - 1 + 0x10000)) / 256) as u8, l: ((wrap16(((old(self).registers.h) * 256 + (old(self).registers.l)) as u16 - 1 + 0x10000)) % 256) as u8, ..old(self).registers }), ..*old(self) }),
        cpu_wf(*final(self)),
    {
        let hl = self.get_hl();
        self.registers.a = self.mmu.read(hl);
        let v2 = if hl > 0 { hl - 1 } else { 0xFFFF };
        self.set_hl(v2);
        8
    }

    /// 0x27 - DAA: decimal-adjust A.
    pub fn daa_0x27(&mut self) -> (r: u64)
    ensures
        r == 4,
        *final(self) == (Z80 { registers: daa_spec(old(self).registers), ..*old(self) }),
    {
        self.daa_apply();
        4
    }

    /// 0x2F - CPL: complement A; N and H set.
    pub fn cpl_0x2f(&mut self) -> (r: u64)
    ensures
        r == 4,
        *final(self) == (Z80 { registers: (Registers { a: (255 - old(self).registers.a) as u8, f: flags_byte(z_flag(old(self).registers.f), true, true, c_flag(old(self).registers.f)), ..old(self).registers }), ..*old(self) }),
    {
        self.registers.a = 255 - self.registers.a;
        let z = self.registers.is_zero();
        let c = self.registers.is_full_carry();
        self.registers.f = compose_flags(z, true, true, c);
        4
    }

    /// 0x34 - INC (HL).
    pub fn inc_hl_0x34(&mut self) -> (r: u64)
    requires
        cpu_wf(*old(self)),
    ensures
        r == 12,
        final(self).registers == (Registers { f: inc8_flags(old(self).registers.f, mmu_read_spec(old(self).mmu@, ((old(self).registers.h) * 256 + (old(self).registers.l)) as u16)), ..old(self).registers }),
        final(self).mmu@ == mmu_write_spec(old(self).mmu@, ((old(self).registers.h) * 256 + (old(self).registers.l)) as u16, inc8_val(mmu_read_spec(old(self).mmu@, ((old(self).registers.h) * 256 + (old(self).registers.l)) as u16))),
        ctrl_unchanged(*old(self), *final(self)),
        cpu_wf(*final(self)),
    {
        let hl = self.get_hl();
        let v = self.mmu.read(hl);
        let v2 = self.inc_8(v);
        self.mmu.write(hl, v2);
        12
    }

    /// 0x35 - DEC (HL).
    pub fn dec_hl_0x35(&mut self) -> (r: u64)
    requires
        cpu_wf(*old(self)),
    ensures
        r == 12,
        final(self).registers == (Registers { f: dec8_flags(old(self).registers.f, mmu_read_spec(old(self).mmu@, ((old(self).registers.h) * 256 + (old(self).registers.l)) as u16)), ..old(self).registers }),
        final(self).mmu@ == mmu_write_spec(old(self).mmu@, ((old(self).registers.h) * 256 + (old(self).registers.l)) as u16, dec8_val(mmu_read_spec(old(self).mmu@, ((old(self).registers.h) * 256 + (old(self).registers.l)) as u16))),
        ctrl_unchanged(*old(self), *final(self)),
        cpu_wf(*final(self)),
    {
        let hl = self.get_hl();
        let v = self.mmu.read(hl);
        let v2 = self.dec_8(v);
        self.mmu.write(hl, v2);
        12
    }

    /// 0x36 - LD (HL), d8.
    pub fn ld_hl_d8_0x36(&mut self) -> (r: u64)
    requires
        cpu_wf(*old(self)),
    ensures
        r == 12,
        final(self).registers == (Registers { pc: wrap16(old(self).registers.pc + 1), ..old(self).registers }),
        final(self).mmu@ == mmu_write_spec(old(self).mmu@, ((old(self).registers.h) * 256 + (old(self).registers.l)) as u16, mmu_read_spec(old(self).mmu@, old(self).registers.pc)),
        ctrl_unchanged(*old(self), *final(self)),
        cpu_wf(*final(self)),
    {
        let v = self.byte();
        let hl = self.get_hl();
        self.mmu.write(hl, v);
        12
    }

    /// 0x37 - SCF: set the carry flag.
    pub fn scf_0x37(&mut self) -> (r: u64)
    ensures
        r == 4,
        *final(self) == (Z80 { registers: (Registers { f: flags_byte(z_flag(old(self).registers.f), false, false, true), ..old(self).registers }), ..*old(self) }),
    {
        let z = self.registers.is_zero();
        self.registers.f = compose_flags(z, false, false, true);
        4
    }

    /// 0x3F - CCF: complement the carry flag.
    pub fn ccf_0x3f(&mut self) -> (r: u64)
    ensures
        r == 4,
        *final(self) == (Z80 { registers: (Registers { f: flags_byte(z_flag(old(self).registers.f), false, false, !c_flag(old(self).registers.f)), ..old(self).registers }), ..*old(self) }),
    {
        let z = self.registers.is_zero();
        let c = self.registers.is_full_carry();
        self.registers.f = compose_flags(z, false, false, !c);
        4
    }

    /// 0x40 - LD B, B.
    pub fn ld_b_b_0x40(&mut self) -> (r: u64)
    ensures
        r == 4,
        *final(self) == (Z80 { registers: (Registers { b: old(self).registers.b, ..old(self).registers }), ..*old(self) }),
    {
        self.registers.b = self.registers.b;
        4
    }

    /// 0x41 - LD B, C.
    pub fn ld_b_c_0x41(&mut self) -> (r: u64)
    ensures
        r == 4,
        *final(self) == (Z80 { registers: (Registers { b: old(self).registers.c, ..old(self).registers }), ..*old(self) }),
    {
        self.registers.b = self.registers.c;
        4
    }

    /// 0x42 - LD B, D.
    pub fn ld_b_d_0x42(&mut self) -> (r: u64)
    ensures
        r == 4,
        *final(self) == (Z80 { registers: (Registers { b: old(self).registers.d, ..old(self).registers }), ..*old(self) }),
    {
        self.registers.b = self.registers.d;
        4
    }

    /// 0x43 - LD B, E.
    pub fn ld_b_e_0x43(&mut self) -> (r: u64)
    ensures
        r == 4,
        *final(self) == (Z80 { registers: (Registers { b: old(self).registers.e, ..old(self).registers }), ..*old(self) }),
    {
        self.registers.b = self.registers.e;
        4
    }

    /// 0x44 - LD B, H.
    pub fn ld_b_h_0x44(&mut self) -> (r: u64)
    ensures
        r == 4,
        *final(self) == (Z80 { registers: (Registers { b: old(self).registers.h, ..old(self).registers }), ..*old(self) }),
    {
        self.registers.b = self.registers.h;
        4
    }

    /// 0x45 - LD B, L.
    pub fn ld_b_l_0x45(&mut self) -> (r: u64)
    ensures
        r == 4,
        *final(self) == (Z80 { registers: (Registers { b: old(self).registers.l, ..old(self).registers }), ..*old(self) }),
    {
        self.registers.b = self.registers.l;
        4
    }

    /// 0x46 - LD B, (HL).
    pub fn ld_b_hl_0x46(&mut self) -> (r: u64)
    requires
        cpu_wf(*old(self)),
    ensures
        r == 8,
        *final(self) == (Z80 { registers: (Registers { b: mmu_read_spec(old(self).mmu@, ((old(self).registers.h) * 256 + (old(self).registers.l)) as u16), ..old(self).registers }), ..*old(self) }),
        cpu_wf(*final(self)),
    {
        let hl = self.get_hl();
        self.registers.b = self.mmu.read(hl);
        8
    }

    /// 0x47 - LD B, A.
    pub fn ld_b_a_0x47(&mut self) -> (r: u64)
    ensures
        r == 4,
        *final(self) == (Z80 { registers: (Registers { b: old(self).registers.a, ..old(self).registers }), ..*old(self) }),
    {
        self.registers.b = self.registers.a;
        4
    }

    /// 0x48 - LD C, B.
    pub fn ld_c_b_0x48(&mut self) -> (r: u64)
    ensures
        r == 4,
        *final(self) == (Z80 { registers: (Registers { c: old(self).registers.b, ..old(self).registers }), ..*old(self) }),
    {
        self.registers.c = self.registers.b;
        4
    }

    /// 0x49 - LD C, C.
    pub fn ld_c_c_0x49(&mut self) -> (r: u64)
    ensures
        r == 4,
        *final(self) == (Z80 { registers: (Registers { c: old(self).registers.c, ..old(self).registers }), ..*old(self) }),
    {
        self.registers.c = self.registers.c;
        4
    }

    /// 0x4A - LD C, D.
    pub fn ld_c_d_0x4a(&mut self) -> (r: u64)
    ensures
        r == 4,
        *final(self) == (Z80 { registers: (Registers { c: old(self).registers.d, ..old(self).registers }), ..*old(self) }),
    {
        self.registers.c = self.registers.d;
        4
    }

    /// 0x4B - LD C, E.
    pub fn ld_c_e_0x4b(&mut self) -> (r: u64)
    ensures
        r == 4,
        *final(self) == (Z80 { registers: (Registers { c: old(self).registers.e, ..old(self).registers }), ..*old(self) }),
    {
        self.registers.c = self.registers.e;
        4
    }

    /// 0x4C - LD C, H.
    pub fn ld_c_h_0x4c(&mut self) -> (r: u64)
    ensures
        r == 4,
        *final(self) == (Z80 { registers: (Registers { c: old(self).registers.h, ..old(self).registers }), ..*old(self) }),
    {
        self.registers.c = self.registers.h;
        4
    }

    /// 0x4D - LD C, L.
    pub fn ld_c_l_0x4d(&mut self) -> (r: u64)
    ensures
        r == 4,
        *final(self) == (Z80 { registers: (Registers { c: old(self).registers.l, ..old(self).registers }), ..*old(self) }),
    {
        self.registers.c = self.registers.l;
        4
    }

    /// 0x4E - LD C, (HL).
    pub fn ld_c_hl_0x4e(&mut self) -> (r: u64)
    requires
        cpu_wf(*old(self)),
    ensures
        r == 8,
        *final(self) == (Z80 { registers: (Registers { c: mmu_read_spec(old(self).mmu@, ((old(self).registers.h) * 256 + (old(self).registers.l)) as u16), ..old(self).registers }), ..*old(self) }),
        cpu_wf(*final(self)),
    {
        let hl = self.get_hl();
        self.registers.c = self.mmu.read(hl);
        8
    }

    /// 0x4F - LD C, A.
    pub fn ld_c_a_0x4f(&mut self) -> (r: u64)
    ensures
        r == 4,
        *final(self) == (Z80 { registers: (Registers { c: old(self).registers.a, ..old(self).registers }), ..*old(self) }),
    {
        self.registers.c = self.registers.a;
        4
    }

    /// 0x50 - LD D, B.
    pub fn ld_d_b_0x50(&mut self) -> (r: u64)
    ensures
        r == 4,
        *final(self) == (Z80 { registers: (Registers { d: old(self).registers.b, ..old(self).registers }), ..*old(self) }),
    {
        self.registers.d = self.registers.b;
        4
    }

    /// 0x51 - LD D, C.
    pub fn ld_d_c_0x51(&mut self) -> (r: u64)
    ensures
        r == 4,
        *final(self) == (Z80 { registers: (Registers { d: old(self).registers.c, ..old(self).registers }), ..*old(self) }),
    {
        self.registers.d = self.registers.c;
        4
    }

    /// 0x52 - LD D, D.
    pub fn ld_d_d_0x52(&mut self) -> (r: u64)
    ensures
        r == 4,
        *final(self) == (Z80 { registers: (Registers { d: old(self).registers.d, ..old(self).registers }), ..*old(self) }),
    {
        self.registers.d = self.registers.d;
        4
    }

    /// 0x53 - LD D, E.
    pub fn ld_d_e_0x53(&mut self) -> (r: u64)
    ensures
        r == 4,
        *final(self) == (Z80 { registers: (Registers { d: old(self).registers.e, ..old(self).registers }), ..*old(self) }),
    {
        self.registers.d = self.registers.e;
        4
    }

    /// 0x54 - LD D, H.
    pub fn ld_d_h_0x54(&mut self) -> (r: u64)
    ensures
        r == 4,
        *final(self) == (Z80 { registers: (Registers { d: old(self).registers.h, ..old(self).registers }), ..*old(self) }),
    {
        self.registers.d = self.registers.h;
        4
    }

    /// 0x55 - LD D, L.
    pub fn ld_d_l_0x55(&mut self) -> (r: u64)
    ensures
        r == 4,
        *final(self) == (Z80 { registers: (Registers { d: old(self).registers.l, ..old(self).registers }), ..*old(self) }),
    {
        self.registers.d = self.registers.l;
        4
    }

    /// 0x56 - LD D, (HL).
    pub fn ld_d_hl_0x56(&mut self) -> (r: u64)
    requires
        cpu_wf(*old(self)),
    ensures
        r == 8,
        *final(self) == (Z80 { registers: (Registers { d: mmu_read_spec(old(self).mmu@, ((old(self).registers.h) * 256 + (old(self).registers.l)) as u16), ..old(self).registers }), ..*old(self) }),
        cpu_wf(*final(self)),
    {
        let hl = self.get_hl();
        self.registers.d = self.mmu.read(hl);
        8
    }

    /// 0x57 - LD D, A.
    pub fn ld_d_a_0x57(&mut self) -> (r: u64)
    ensures
        r == 4,
        *final(self) == (Z80 { registers: (Registers { d: old(self).registers.a, ..old(self).registers }), ..*old(self) }),
    {
        self.registers.d = self.registers.a;
        4
    }

    /// 0x58 - LD E, B.
    pub fn ld_e_b_0x58(&mut self) -> (r: u64)
    ensures
        r == 4,
        *final(self) == (Z80 { registers: (Registers { e: old(self).registers.b, ..old(self).registers }), ..*old(self) }),
    {
        self.registers.e = self.registers.b;
        4
    }

    /// 0x59 - LD E, C.
    pub fn ld_e_c_0x59(&mut self) -> (r: u64)
    ensures
        r == 4,
        *final(self) == (Z80 { registers: (Registers { e: old(self).registers.c, ..old(self).registers }), ..*old(self) }),
    {
        self.registers.e = self.registers.c;
        4
    }

    /// 0x5A - LD E, D.
    pub fn ld_e_d_0x5a(&mut self) -> (r: u64)
    ensures
        r == 4,
        *final(self) == (Z80 { registers: (Registers { e: old(self).registers.d, ..old(self).registers }), ..*old(self) }),
    {
        self.registers.e = self.registers.d;
        4
    }

    /// 0x5B - LD E, E.
    pub fn ld_e_e_0x5b(&mut self) -> (r: u64)
    ensures
        r == 4,
        *final(self) == (Z80 { registers: (Registers { e: old(self).registers.e, ..old(self).registers }), ..*old(self) }),
    {
        self.registers.e = self.registers.e;
        4
    }

    /// 0x5C - LD E, H.
    pub fn ld_e_h_0x5c(&mut self) -> (r: u64)
    ensures
        r == 4,
        *final(self) == (Z80 { registers: (Registers { e: old(self).registers.h, ..old(self).registers }), ..*old(self) }),
    {
        self.registers.e = self.registers.h;
        4
    }

    /// 0x5D - LD E, L.
    pub fn ld_e_l_0x5d(&mut self) -> (r: u64)
    ensures
        r == 4,
        *final(self) == (Z80 { registers: (Registers { e: old(self).registers.l, ..old(self).registers }), ..*old(self) }),
    {
        self.registers.e = self.registers.l;
        4
    }

    /// 0x5E - LD E, (HL).
    pub fn ld_e_hl_0x5e(&mut self) -> (r: u64)
    requires
        cpu_wf(*old(self)),
    ensures
        r == 8,
        *final(self) == (Z80 { registers: (Registers { e: mmu_read_spec(old(self).mmu@, ((old(self).registers.h) * 256 + (old(self).registers.l)) as u16), ..old(self).registers }), ..*old(self) }),
        cpu_wf(*final(self)),
    {
        let hl = self.get_hl();
        self.registers.e = self.mmu.read(hl);
        8
    }

    /// 0x5F - LD E, A.
    pub fn ld_e_a_0x5f(&mut self) -> (r: u64)
    ensures
        r == 4,
        *final(self) == (Z80 { registers: (Registers { e: old(self).registers.a, ..old(self).registers }), ..*old(self) }),
    {
        self.registers.e = self.registers.a;
        4
    }

    /// 0x60 - LD H, B.
    pub fn ld_h_b_0x60(&mut self) -> (r: u64)
    ensures
        r == 4,
        *final(self) == (Z80 { registers: (Registers { h: old(self).registers.b, ..old(self).registers }), ..*old(self) }),
    {
        self.registers.h = self.registers.b;
        4
    }

    /// 0x61 - LD H, C.
    pub fn ld_h_c_0x61(&mut self) -> (r: u64)
    ensures
        r == 4,
        *final(self) == (Z80 { registers: (Registers { h: old(self).registers.c, ..old(self).registers }), ..*old(self) }),
    {
        self.registers.h = self.registers.c;
        4
    }

    /// 0x62 - LD H, D.
    pub fn ld_h_d_0x62(&mut self) -> (r: u64)
    ensures
        r == 4,
        *final(self) == (Z80 { registers: (Registers { h: old(self).registers.d, ..old(self).registers }), ..*old(self) }),
    {
        self.registers.h = self.registers.d;
        4
    }

    /// 0x63 - LD H, E.
    pub fn ld_h_e_0x63(&mut self) -> (r: u64)
    ensures
        r == 4,
        *final(self) == (Z80 { registers: (Registers { h: old(self).registers.e, ..old(self).registers }), ..*old(self) }),
    {
        self.registers.h = self.registers.e;
        4
    }

    /// 0x64 - LD H, H.
    pub fn ld_h_h_0x64(&mut self) -> (r: u64)
    ensures
        r == 4,
        *final(self) == (Z80 { registers: (Registers { h: old(self).registers.h, ..old(self).registers }), ..*old(self) }),
    {
        self.registers.h = self.registers.h;
        4
    }

    /// 0x65 - LD H, L.
    pub fn ld_h_l_0x65(&mut self) -> (r: u64)
    ensures
        r == 4,
        *final(self) == (Z80 { registers: (Registers { h: old(self).registers.l, ..old(self).registers }), ..*old(self) }),
    {
        self.registers.h = self.registers.l;
        4
    }

    /// 0x66 - LD H, (HL).
    pub fn ld_h_hl_0x66(&mut self) -> (r: u64)
    requires
        cpu_wf(*old(self)),
    ensures
        r == 8,
        *final(self) == (Z80 { registers: (Registers { h: mmu_read_spec(old(self).mmu@, ((old(self).registers.h) * 256 + (old(self).registers.l)) as u16), ..old(self).registers }), ..*old(self) }),
        cpu_wf(*final(self)),
    {
        let hl = self.get_hl();
        self.registers.h = self.mmu.read(hl);
        8
    }

    /// 0x67 - LD H, A.
    pub fn ld_h_a_0x67(&mut self) -> (r: u64)
    ensures
        r == 4,
        *final(self) == (Z80 { registers: (Registers { h: old(self).registers.a, ..old(self).registers }), ..*old(self) }),
    {
        self.registers.h = self.registers.a;
        4
    }

    /// 0x68 - LD L, B.
    pub fn ld_l_b_0x68(&mut self) -> (r: u64)
    ensures
        r == 4,
        *final(self) == (Z80 { registers: (Registers { l: old(self).registers.b, ..old(self).registers }), ..*old(self) }),
    {
        self.registers.l = self.registers.b;
        4
    }

    /// 0x69 - LD L, C.
    pub fn ld_l_c_0x69(&mut self) -> (r: u64)
    ensures
        r == 4,
        *final(self) == (Z80 { registers: (Registers { l: old(self).registers.c, ..old(self).registers }), ..*old(self) }),
    {
        self.registers.l = self.registers.c;
        4
    }

    /// 0x6A - LD L, D.
    pub fn ld_l_d_0x6a(&mut self) -> (r: u64)
    ensures
        r == 4,
        *final(self) == (Z80 { registers: (Registers { l: old(self).registers.d, ..old(self).registers }), ..*old(self) }),
    {
        self.registers.l = self.registers.d;
        4
    }

    /// 0x6B - LD L, E.
    pub fn ld_l_e_0x6b(&mut self) -> (r: u64)
    ensures
        r == 4,
        *final(self) == (Z80 { registers: (Registers { l: old(self).registers.e, ..old(self).registers }), ..*old(self) }),
    {
        self.registers.l = self.registers.e;
        4
    }

    /// 0x6C - LD L, H.
    pub fn ld_l_h_0x6c(&mut self) -> (r: u64)
    ensures
        r == 4,
        *final(self) == (Z80 { registers: (Registers { l: old(self).registers.h, ..old(self).registers }), ..*old(self) }),
    {
        self.registers.l = self.registers.h;
        4
    }

    /// 0x6D - LD L, L.
    pub fn ld_l_l_0x6d(&mut self) -> (r: u64)
    ensures
        r == 4,
        *final(self) == (Z80 { registers: (Registers { l: old(self).registers.l, ..old(self).registers }), ..*old(self) }),
    {
        self.registers.l = self.registers.l;
        4
    }

    /// 0x6E - LD L, (HL).
    pub fn ld_l_hl_0x6e(&mut self) -> (r: u64)
    requires
        cpu_wf(*old(self)),
    ensures
        r == 8,
        *final(self) == (Z80 { registers: (Registers { l: mmu_read_spec(old(self).mmu@, ((old(self).registers.h) * 256 + (old(self).registers.l)) as u16), ..old(self).registers }), ..*old(self) }),
        cpu_wf(*final(self)),
    {
        let hl = self.get_hl();
        self.registers.l = self.mmu.read(hl);
        8
    }

    /// 0x6F - LD L, A.
    pub fn ld_l_a_0x6f(&mut self) -> (r: u64)
    ensures
        r == 4,
        *final(self) == (Z80 { registers: (Registers { l: old(self).registers.a, ..old(self).registers }), ..*old(self) }),
    {
        self.registers.l = self.registers.a;
        4
    }

    /// 0x70 - LD (HL), B.
    pub fn ld_hl_b_0x70(&mut self) -> (r: u64)
    requires
        cpu_wf(*old(self)),
    ensures
        r == 8,
        final(self).registers == old(self).registers,
        final(self).mmu@ == mmu_write_spec(old(self).mmu@, ((old(self).registers.h) * 256 + (old(self).registers.l)) as u16, old(self).registers.b),
        ctrl_unchanged(*old(self), *final(self)),
        cpu_wf(*final(self)),
    {
        let hl = self.get_hl();
        self.mmu.write(hl, self.registers.b);
        8
    }

    /// 0x71 - LD (HL), C.
    pub fn ld_hl_c_0x71(&mut self) -> (r: u64)
    requires
        cpu_wf(*old(self)),
    ensures
        r == 8,
        final(self).registers == old(self).registers,
        final(self).mmu@ == mmu_write_spec(old(self).mmu@, ((old(self).registers.h) * 256 + (old(self).registers.l)) as u16, old(self).registers.c),
        ctrl_unchanged(*old(self), *final(self)),
        cpu_wf(*final(self)),
    {
        let hl = self.get_hl();
        self.mmu.write(hl, self.registers.c);
        8
    }

    /// 0x72 - LD (HL), D.
    pub fn ld_hl_d_0x72(&mut self) -> (r: u64)
    requires
        cpu_wf(*old(self)),
    ensures
        r == 8,
        final(self).registers == old(self).registers,
        final(self).mmu@ == mmu_write_spec(old(self).mmu@, ((old(self).registers.h) * 256 + (old(self).registers.l)) as u16, old(self).registers.d),
        ctrl_unchanged(*old(self), *final(self)),
        cpu_wf(*final(self)),
    {
        let hl = self.get_hl();
        self.mmu.write(hl, self.registers.d);
        8
    }

    /// 0x73 - LD (HL), E.
    pub fn ld_hl_e_0x73(&mut self) -> (r: u64)
    requires
        cpu_wf(*old(self)),
    ensures
        r == 8,
        final(self).registers == old(self).registers,
        final(self).mmu@ == mmu_write_spec(old(self).mmu@, ((old(self).registers.h) * 256 + (old(self).registers.l)) as u16, old(self).registers.e),
        ctrl_unchanged(*old(self), *final(self)),
        cpu_wf(*final(self)),
    {
        let hl = self.get_hl();
        self.mmu.write(hl, self.registers.e);
        8
    }

    /// 0x74 - LD (HL), H.
    pub fn ld_hl_h_0x74(&mut self) -> (r: u64)
    requires
        cpu_wf(*old(self)),
    ensures
        r == 8,
        final(self).registers == old(self).registers,
        final(self).mmu@ == mmu_write_spec(old(self).mmu@, ((old(self).registers.h) * 256 + (old(self).registers.l)) as u16, old(self).registers.h),
        ctrl_unchanged(*old(self), *final(self)),
        cpu_wf(*final(self)),
    {
        let hl = self.get_hl();
        self.mmu.write(hl, self.registers.h);
        8
    }

    /// 0x75 - LD (HL), L.
    pub fn ld_hl_l_0x75(&mut self) -> (r: u64)
    requires
        cpu_wf(*old(self)),
    ensures
        r == 8,
        final(self).registers == old(self).registers,
        final(self).mmu@ == mmu_write_spec(old(self).mmu@, ((old(self).registers.h) * 256 + (old(self).registers.l)) as u16, old(self).registers.l),
        ctrl_unchanged(*old(self), *final(self)),
        cpu_wf(*final(self)),
    {
        let hl = self.get_hl();
        self.mmu.write(hl, self.registers.l);
        8
    }

    /// 0x77 - LD (HL), A.
    pub fn ld_hl_a_0x77(&mut self) -> (r: u64)
    requires
        cpu_wf(*old(self)),
    ensures
        r == 8,
        final(self).registers == old(self).registers,
        final(self).mmu@ == mmu_write_spec(old(self).mmu@, ((old(self).registers.h) * 256 + (old(self).registers.l)) as u16, old(self).registers.a),
        ctrl_unchanged(*old(self), *final(self)),
        cpu_wf(*final(self)),
    {
        let hl = self.get_hl();
        self.mmu.write(hl, self.registers.a);
        8
    }

    /// 0x78 - LD A, B.
    pub fn ld_a_b_0x78(&mut self) -> (r: u64)
    ensures
        r == 4,
        *final(self) == (Z80 { registers: (Registers { a: old(self).registers.b, ..old(self).registers }), ..*old(self) }),
    {
        self.registers.a = self.registers.b;
        4
    }

    /// 0x79 - LD A, C.
    pub fn ld_a_c_0x79(&mut self) -> (r: u64)
    ensures
        r == 4,
        *final(self) == (Z80 { registers: (Registers { a: old(self).registers.c, ..old(self).registers }), ..*old(self) }),
    {
        self.registers.a = self.registers.c;
        4
    }

    /// 0x7A - LD A, D.
    pub fn ld_a_d_0x7a(&mut self) -> (r: u64)
    ensures
        r == 4,
        *final(self) == (Z80 { registers: (Registers { a: old(self).registers.d, ..old(self).registers }), ..*old(self) }),
    {
        self.registers.a = self.registers.d;
        4
    }

    /// 0x7B - LD A, E.
    pub fn ld_a_e_0x7b(&mut self) -> (r: u64)
    ensures
        r == 4,
        *final(self) == (Z80 { registers: (Registers { a: old(self).registers.e, ..old(self).registers }), ..*old(self) }),
    {
        self.registers.a = self.registers.e;
        4
    }

    /// 0x7C - LD A, H.
    pub fn ld_a_h_0x7c(&mut self) -> (r: u64)
    ensures
        r == 4,
        *final(self) == (Z80 { registers: (Registers { a: old(self).registers.h, ..old(self).registers }), ..*old(self) }),
    {
        self.registers.a = self.registers.h;
        4
    }

    /// 0x7D - LD A, L.
    pub fn ld_a_l_0x7d(&mut self) -> (r: u64)
    ensures
        r == 4,
        *final(self) == (Z80 { registers: (Registers { a: old(self).registers.l, ..old(self).registers }), ..*old(self) }),
    {
        self.registers.a = self.registers.l;
        4
    }

    /// 0x7E - LD A, (HL).
    pub fn ld_a_hl_0x7e(&mut self) -> (r: u64)
    requires
        cpu_wf(*old(self)),
    ensures
        r == 8,
        *final(self) == (Z80 { registers: (Registers { a: mmu_read_spec(old(self).mmu@, ((old(self).registers.h) * 256 + (old(self).registers.l)) as u16), ..old(self).registers }), ..*old(self) }),
        cpu_wf(*final(self)),
    {
        let hl = self.get_hl();
        self.registers.a = self.mmu.read(hl);
        8
    }

    /// 0x7F - LD A, A.
    pub fn ld_a_a_0x7f(&mut self) -> (r: u64)
    ensures
        r == 4,
        *final(self) == (Z80 { registers: (Registers { a: old(self).registers.a, ..old(self).registers }), ..*old(self) }),
    {
        self.registers.a = self.registers.a;
        4
    }

    /// 0x76 - HALT: wait for an interrupt request.
    pub fn halt_0x76(&mut self) -> (r: u64)
    ensures
        r == 4,
        *final(self) == (Z80 { status: Status::HALTED, ..*old(self) }),
    {
        self.halt();
        4
    }

    /// 0x80 - ADD A, B.
    pub fn add_a_b_0x80(&mut self) -> (r: u64)
    ensures
        r == 4,
        *final(self) == (Z80 { registers: add8_spec(old(self).registers, old(self).registers.b), ..*old(self) }),
    {
        let v = self.registers.b;
        let a = self.registers.a;
        let v2 = self.add_8(a, v);
        self.registers.a = v2;
        4
    }

    /// 0x81 - ADD A, C.
    pub fn add_a_c_0x81(&mut self) -> (r: u64)
    ensures
        r == 4,
        *final(self) == (Z80 { registers: add8_spec(old(self).registers, old(self).registers.c), ..*old(self) }),
    {
        let v = self.registers.c;
        let a = self.registers.a;
        let v2 = self.add_8(a, v);
        self.registers.a = v2;
        4
    }

    /// 0x82 - ADD A, D.
    pub fn add_a_d_0x82(&mut self) -> (r: u64)
    ensures
        r == 4,
        *final(self) == (Z80 { registers: add8_spec(old(self).registers, old(self).registers.d), ..*old(self) }),
    {
        let v = self.registers.d;
        let a = self.registers.a;
        let v2 = self.add_8(a, v);
        self.registers.a = v2;
        4
    }

    /// 0x83 - ADD A, E.
    pub fn add_a_e_0x83(&mut self) -> (r: u64)
    ensures
        r == 4,
        *final(self) == (Z80 { registers: add8_spec(old(self).registers, old(self).registers.e), ..*old(self) }),
    {
        let v = self.registers.e;
        let a = self.registers.a;
        let v2 = self.add_8(a, v);
        self.registers.a = v2;
        4
    }

    /// 0x84 - ADD A, H.
    pub fn add_a_h_0x84(&mut self) -> (r: u64)
    ensures
        r == 4,
        *final(self) == (Z80 { registers: add8_spec(old(self).registers, old(self).registers.h), ..*old(self) }),
    {
        let v = self.registers.h;
        let a = self.registers.a;
        let v2 = self.add_8(a, v);
        self.registers.a = v2;
        4
    }

    /// 0x85 - ADD A, L.
    pub fn add_a_l_0x85(&mut self) -> (r: u64)
    ensures
        r == 4,
        *final(self) == (Z80 { registers: add8_spec(old(self).registers, old(self).registers.l), ..*old(self) }),
    {
        let v = self.registers.l;
        let a = self.registers.a;
        let v2 = self.add_8(a, v);
        self.registers.a = v2;
        4
    }

    /// 0x86 - ADD A, (HL).
    pub fn add_a_hl_0x86(&mut self) -> (r: u64)
    requires
        cpu_wf(*old(self)),
    ensures
        r == 8,
        *final(self) == (Z80 { registers: add8_spec(old(self).registers, mmu_read_spec(old(self).mmu@, ((old(self).registers.h) * 256 + (old(self).registers.l)) as u16)), ..*old(self) }),
        cpu_wf(*final(self)),
    {
        let hl = self.get_hl();
        let v = self.mmu.read(hl);
        let a = self.registers.a;
        let v2 = self.add_8(a, v);
        self.registers.a = v2;
        8
    }

    /// 0x87 - ADD A, A.
    pub fn add_a_a_0x87(&mut self) -> (r: u64)
    ensures
        r == 4,
        *final(self) == (Z80 { registers: add8_spec(old(self).registers, old(self).registers.a), ..*old(self) }),
    {
        let v = self.registers.a;
        let a = self.registers.a;
        let v2 = self.add_8(a, v);
        self.registers.a = v2;
        4
    }

    /// 0x88 - ADC A, B.
    pub fn adc_a_b_0x88(&mut self) -> (r: u64)
    ensures
        r == 4,
        *final(self) == (Z80 { registers: adc8_spec(old(self).registers, old(self).registers.b), ..*old(self) }),
    {
        let v = self.registers.b;
        self.adc_8(v);
        4
    }

    /// 0x89 - ADC A, C.
    pub fn adc_a_c_0x89(&mut self) -> (r: u64)
    ensures
        r == 4,
        *final(self) == (Z80 { registers: adc8_spec(old(self).registers, old(self).registers.c), ..*old(self) }),
    {
        let v = self.registers.c;
        self.adc_8(v);
        4
    }

    /// 0x8A - ADC A, D.
    pub fn adc_a_d_0x8a(&mut self) -> (r: u64)
    ensures
        r == 4,
        *final(self) == (Z80 { registers: adc8_spec(old(self).registers, old(self).registers.d), ..*old(self) }),
    {
        let v = self.registers.d;
        self.adc_8(v);
        4
    }

    /// 0x8B - ADC A, E.
    pub fn adc_a_e_0x8b(&mut self) -> (r: u64)
    ensures
        r == 4,
        *final(self) == (Z80 { registers: adc8_spec(old(self).registers, old(self).registers.e), ..*old(self) }),
    {
        let v = self.registers.e;
        self.adc_8(v);
        4
    }

    /// 0x8C - ADC A, H.
    pub fn adc_a_h_0x8c(&mut self) -> (r: u64)
    ensures
        r == 4,
        *final(self) == (Z80 { registers: adc8_spec(old(self).registers, old(self).registers.h), ..*old(self) }),
    {
        let v = self.registers.h;
        self.adc_8(v);
        4
    }

    /// 0x8D - ADC A, L.
    pub fn adc_a_l_0x8d(&mut self) -> (r: u64)
    ensures
        r == 4,
        *final(self) == (Z80 { registers: adc8_spec(old(self).registers, old(self).registers.l), ..*old(self) }),
    {
        let v = self.registers.l;
        self.adc_8(v);
        4
    }

    /// 0x8E - ADC A, (HL).
    pub fn adc_a_hl_0x8e(&mut self) -> (r: u64)
    requires
        cpu_wf(*old(self)),
    ensures
        r == 8,
        *final(self) == (Z80 { registers: adc8_spec(old(self).registers, mmu_read_spec(old(self).mmu@, ((old(self).registers.h) * 256 + (old(self).registers.l)) as u16)), ..*old(self) }),
        cpu_wf(*final(self)),
    {
        let hl = self.get_hl();
        let v = self.mmu.read(hl);
        self.adc_8(v);
        8
    }

    /// 0x8F - ADC A, A.
    pub fn adc_a_a_0x8f(&mut self) -> (r: u64)
    ensures
        r == 4,
        *final(self) == (Z80 { registers: adc8_spec(old(self).registers, old(self).registers.a), ..*old(self) }),
    {
        let v = self.registers.a;
        self.adc_8(v);
        4
    }

    /// 0x90 - SUB B.
    pub fn sub_b_0x90(&mut self) -> (r: u64)
    ensures
        r == 4,
        *final(self) == (Z80 { registers: sub8_spec(old(self).registers, old(self).registers.b), ..*old(self) }),
    {
        let v = self.registers.b;
        let a = self.registers.a;
        let v2 = self.sub_8(a, v);
        self.registers.a = v2;
        4
    }

    /// 0x91 - SUB C.
    pub fn sub_c_0x91(&mut self) -> (r: u64)
    ensures
        r == 4,
        *final(self) == (Z80 { registers: sub8_spec(old(self).registers, old(self).registers.c), ..*old(self) }),
    {
        let v = self.registers.c;
        let a = self.registers.a;
        let v2 = self.sub_8(a, v);
        self.registers.a = v2;
        4
    }

    /// 0x92 - SUB D.
    pub fn sub_d_0x92(&mut self) -> (r: u64)
    ensures
        r == 4,
        *final(self) == (Z80 { registers: sub8_spec(old(self).registers, old(self).registers.d), ..*old(self) }),
    {
        let v = self.registers.d;
        let a = self.registers.a;
        let v2 = self.sub_8(a, v);
        self.registers.a = v2;
        4
    }

    /// 0x93 - SUB E.
    pub fn sub_e_0x93(&mut self) -> (r: u64)
    ensures
        r == 4,
        *final(self) == (Z80 { registers: sub8_spec(old(self).registers, old(self).registers.e), ..*old(self) }),
    {
        let v = self.registers.e;
        let a = self.registers.a;
        let v2 = self.sub_8(a, v);
        self.registers.a = v2;
        4
    }

    /// 0x94 - SUB H.
    pub fn sub_h_0x94(&mut self) -> (r: u64)
    ensures
        r == 4,
        *final(self) == (Z80 { registers: sub8_spec(old(self).registers, old(self).registers.h), ..*old(self) }),
    {
        let v = self.registers.h;
        let a = self.registers.a;
        let v2 = self.sub_8(a, v);
        self.registers.a = v2;
        4
    }

    /// 0x95 - SUB L.
    pub fn sub_l_0x95(&mut self) -> (r: u64)
    ensures
        r == 4,
        *final(self) == (Z80 { registers: sub8_spec(old(self).registers, old(self).registers.l), ..*old(self) }),
    {
        let v = self.registers.l;
        let a = self.registers.a;
        let v2 = self.sub_8(a, v);
        self.registers.a = v2;
        4
    }

    /// 0x96 - SUB (HL).
    pub fn sub_hl_0x96(&mut self) -> (r: u64)
    requires
        cpu_wf(*old(self)),
    ensures
        r == 8,
        *final(self) == (Z80 { registers: sub8_spec(old(self).registers, mmu_read_spec(old(self).mmu@, ((old(self).registers.h) * 256 + (old(self).registers.l)) as u16)), ..*old(self) }),
        cpu_wf(*final(self)),
    {
        let hl = self.get_hl();
        let v = self.mmu.read(hl);
        let a = self.registers.a;
        let v2 = self.sub_8(a, v);
        self.registers.a = v2;
        8
    }

    /// 0x97 - SUB A.
    pub fn sub_a_0x97(&mut self) -> (r: u64)
    ensures
        r == 4,
        *final(self) == (Z80 { registers: sub8_spec(old(self).registers, old(self).registers.a), ..*old(self) }),
    {
        let v = self.registers.a;
        let a = self.registers.a;
        let v2 = self.sub_8(a, v);
        self.registers.a = v2;
        4
    }

    /// 0x98 - SBC A, B.
    pub fn sbc_a_b_0x98(&mut self) -> (r: u64)
    ensures
        r == 4,
        *final(self) == (Z80 { registers: sbc8_spec(old(self).registers, old(self).registers.b), ..*old(self) }),
    {
        let v = self.registers.b;
        self.sbc_8(v);
        4
    }

    /// 0x99 - SBC A, C.
    pub fn sbc_a_c_0x99(&mut self) -> (r: u64)
    ensures
        r == 4,
        *final(self) == (Z80 { registers: sbc8_spec(old(self).registers, old(self).registers.c), ..*old(self) }),
    {
        let v = self.registers.c;
        self.sbc_8(v);
        4
    }

    /// 0x9A - SBC A, D.
    pub fn sbc_a_d_0x9a(&mut self) -> (r: u64)
    ensures
        r == 4,
        *final(self) == (Z80 { registers: sbc8_spec(old(self).registers, old(self).registers.d), ..*old(self) }),
    {
        let v = self.registers.d;
        self.sbc_8(v);
        4
    }

    /// 0x9B - SBC A, E.
    pub fn sbc_a_e_0x9b(&mut self) -> (r: u64)
    ensures
        r == 4,
        *final(self) == (Z80 { registers: sbc8_spec(old(self).registers, old(self).registers.e), ..*old(self) }),
    {
        let v = self.registers.e;
        self.sbc_8(v);
        4
    }

    /// 0x9C - SBC A, H.
    pub fn sbc_a_h_0x9c(&mut self) -> (r: u64)
    ensures
        r == 4,
        *final(self) == (Z80 { registers: sbc8_spec(old(self).registers, old(self).registers.h), ..*old(self) }),
    {
        let v = self.registers.h;
        self.sbc_8(v);
        4
    }

    /// 0x9D - SBC A, L.
    pub fn sbc_a_l_0x9d(&mut self) -> (r: u64)
    ensures
        r == 4,
        *final(self) == (Z80 { registers: sbc8_spec(old(self).registers, old(self).registers.l), ..*old(self) }),
    {
        let v = self.registers.l;
        self.sbc_8(v);
        4
    }

    /// 0x9E - SBC A, (HL).
    pub fn sbc_a_hl_0x9e(&mut self) -> (r: u64)
    requires
        cpu_wf(*old(self)),
    ensures
        r == 8,
        *final(self) == (Z80 { registers: sbc8_spec(old(self).registers, mmu_read_spec(old(self).mmu@, ((old(self).registers.h) * 256 + (old(self).registers.l)) as u16)), ..*old(self) }),
        cpu_wf(*final(self)),
    {
        let hl = self.get_hl();
        let v = self.mmu.read(hl);
        self.sbc_8(v);
        8
    }

    /// 0x9F - SBC A, A.
    pub fn sbc_a_a_0x9f(&mut self) -> (r: u64)
    ensures
        r == 4,
        *final(self) == (Z80 { registers: sbc8_spec(old(self).registers, old(self).registers.a), ..*old(self) }),
    {
        let v = self.registers.a;
        self.sbc_8(v);
        4
    }

    /// 0xA0 - AND B.
    pub fn and_b_0xa0(&mut self) -> (r: u64)
    ensures
        r == 4,
        *final(self) == (Z80 { registers: and_spec(old(self).registers, old(self).registers.b), ..*old(self) }),
    {
        let v = self.registers.b;
        self.and(v);
        4
    }

    /// 0xA1 - AND C.
    pub fn and_c_0xa1(&mut self) -> (r: u64)
    ensures
        r == 4,
        *final(self) == (Z80 { registers: and_spec(old(self).registers, old(self).registers.c), ..*old(self) }),
    {
        let v = self.registers.c;
        self.and(v);
        4
    }

    /// 0xA2 - AND D.
    pub fn and_d_0xa2(&mut self) -> (r: u64)
    ensures
        r == 4,
        *final(self) == (Z80 { registers: and_spec(old(self).registers, old(self).registers.d), ..*old(self) }),
    {
        let v = self.registers.d;
        self.and(v);
        4
    }

    /// 0xA3 - AND E.
    pub fn and_e_0xa3(&mut self) -> (r: u64)
    ensures
        r == 4,
        *final(self) == (Z80 { registers: and_spec(old(self).registers, old(self).registers.e), ..*old(self) }),
    {
        let v = self.registers.e;
        self.and(v);
        4
    }

    /// 0xA4 - AND H.
    pub fn and_h_0xa4(&mut self) -> (r: u64)
    ensures
        r == 4,
        *final(self) == (Z80 { registers: and_spec(old(self).registers, old(self).registers.h), ..*old(self) }),
    {
        let v = self.registers.h;
        self.and(v);
        4
    }

    /// 0xA5 - AND L.
    pub fn and_l_0xa5(&mut self) -> (r: u64)
    ensures
        r == 4,
        *final(self) == (Z80 { registers: and_spec(old(self).registers, old(self).registers.l), ..*old(self) }),
    {
        let v = self.registers.l;
        self.and(v);
        4
    }

    /// 0xA6 - AND (HL).
    pub fn and_hl_0xa6(&mut self) -> (r: u64)
    requires
        cpu_wf(*old(self)),
    ensures
        r == 8,
        *final(self) == (Z80 { registers: and_spec(old(self).registers, mmu_read_spec(old(self).mmu@, ((old(self).registers.h) * 256 + (old(self).registers.l)) as u16)), ..*old(self) }),
        cpu_wf(*final(self)),
    {
        let hl = self.get_hl();
        let v = self.mmu.read(hl);
        self.and(v);
        8
    }

    /// 0xA7 - AND A.
    pub fn and_a_0xa7(&mut self) -> (r: u64)
    ensures
        r == 4,
        *final(self) == (Z80 { registers: and_spec(old(self).registers, old(self).registers.a), ..*old(self) }),
    {
        let v = self.registers.a;
        self.and(v);
        4
    }

    /// 0xA8 - XOR B.
    pub fn xor_b_0xa8(&mut self) -> (r: u64)
    ensures
        r == 4,
        *final(self) == (Z80 { registers: xor_spec(old(self).registers, old(self).registers.b), ..*old(self) }),
    {
        let v = self.registers.b;
        self.xor(v);
        4
    }

    /// 0xA9 - XOR C.
    pub fn xor_c_0xa9(&mut self) -> (r: u64)
    ensures
        r == 4,
        *final(self) == (Z80 { registers: xor_spec(old(self).registers, old(self).registers.c), ..*old(self) }),
    {
        let v = self.registers.c;
        self.xor(v);
        4
    }

    /// 0xAA - XOR D.
    pub fn xor_d_0xaa(&mut self) -> (r: u64)
    ensures
        r == 4,
        *final(self) == (Z80 { registers: xor_spec(old(self).registers, old(self).registers.d), ..*old(self) }),
    {
        let v = self.registers.d;
        self.xor(v);
        4
    }

    /// 0xAB - XOR E.
    pub fn xor_e_0xab(&mut self) -> (r: u64)
    ensures
        r == 4,
        *final(self) == (Z80 { registers: xor_spec(old(self).registers, old(self).registers.e), ..*old(self) }),
    {
        let v = self.registers.e;
        self.xor(v);
        4
    }

    /// 0xAC - XOR H.
    pub fn xor_h_0xac(&mut self) -> (r: u64)
    ensures
        r == 4,
        *final(self) == (Z80 { registers: xor_spec(old(self).registers, old(self).registers.h), ..*old(self) }),
    {
        let v = self.registers.h;
        self.xor(v);
        4
    }

    /// 0xAD - XOR L.
    pub fn xor_l_0xad(&mut self) -> (r: u64)
    ensures
        r == 4,
        *final(self) == (Z80 { registers: xor_spec(old(self).registers, old(self).registers.l), ..*old(self) }),
    {
        let v = self.registers.l;
        self.xor(v);
        4
    }

    /// 0xAE - XOR (HL).
    pub fn xor_hl_0xae(&mut self) -> (r: u64)
    requires
        cpu_wf(*old(self)),
    ensures
        r == 8,
        *final(self) == (Z80 { registers: xor_spec(old(self).registers, mmu_read_spec(old(self).mmu@, ((old(self).registers.h) * 256 + (old(self).registers.l)) as u16)), ..*old(self) }),
        cpu_wf(*final(self)),
    {
        let hl = self.get_hl();
        let v = self.mmu.read(hl);
        self.xor(v);
        8
    }

    /// 0xAF - XOR A.
    pub fn xor_a_0xaf(&mut self) -> (r: u64)
    ensures
        r == 4,
        *final(self) == (Z80 { registers: xor_spec(old(self).registers, old(self).registers.a), ..*old(self) }),
    {
        let v = self.registers.a;
        self.xor(v);
        4
    }

    /// 0xB0 - OR B.
    pub fn or_b_0xb0(&mut self) -> (r: u64)
    ensures
        r == 4,
        *final(self) == (Z80 { registers: or_spec(old(self).registers, old(self).registers.b), ..*old(self) }),
    {
        let v = self.registers.b;
        self.or(v);
        4
    }

    /// 0xB1 - OR C.
    pub fn or_c_0xb1(&mut self) -> (r: u64)
    ensures
        r == 4,
        *final(self) == (Z80 { registers: or_spec(old(self).registers, old(self).registers.c), ..*old(self) }),
    {
        let v = self.registers.c;
        self.or(v);
        4
    }

    /// 0xB2 - OR D.
    pub fn or_d_0xb2(&mut self) -> (r: u64)
    ensures
        r == 4,
        *final(self) == (Z80 { registers: or_spec(old(self).registers, old(self).registers.d), ..*old(self) }),
    {
        let v = self.registers.d;
        self.or(v);
        4
    }

    /// 0xB3 - OR E.
    pub fn or_e_0xb3(&mut self) -> (r: u64)
    ensures
        r == 4,
        *final(self) == (Z80 { registers: or_spec(old(self).registers, old(self).registers.e), ..*old(self) }),
    {
        let v = self.registers.e;
        self.or(v);
        4
    }

    /// 0xB4 - OR H.
    pub fn or_h_0xb4(&mut self) -> (r: u64)
    ensures
        r == 4,
        *final(self) == (Z80 { registers: or_spec(old(self).registers, old(self).registers.h), ..*old(self) }),
    {
        let v = self.registers.h;
        self.or(v);
        4
    }

    /// 0xB5 - OR L.
    pub fn or_l_0xb5(&mut self) -> (r: u64)
    ensures
        r == 4,
        *final(self) == (Z80 { registers: or_spec(old(self).registers, old(self).registers.l), ..*old(self) }),
    {
        let v = self.registers.l;
        self.or(v);
        4
    }

    /// 0xB6 - OR (HL).
    pub fn or_hl_0xb6(&mut self) -> (r: u64)
    requires
        cpu_wf(*old(self)),
    ensures
        r == 8,
        *final(self) == (Z80 { registers: or_spec(old(self).registers, mmu_read_spec(old(self).mmu@, ((old(self).registers.h) * 256 + (old(self).registers.l)) as u16)), ..*old(self) }),
        cpu_wf(*final(self)),
    {
        let hl = self.get_hl();
        let v = self.mmu.read(hl);
        self.or(v);
        8
    }

    /// 0xB7 - OR A.
    pub fn or_a_0xb7(&mut self) -> (r: u64)
    ensures
        r == 4,
        *final(self) == (Z80 { registers: or_spec(old(self).registers, old(self).registers.a), ..*old(self) }),
    {
        let v = self.registers.a;
        self.or(v);
        4
    }

    /// 0xB8 - CP B.
    pub fn cp_b_0xb8(&mut self) -> (r: u64)
    ensures
        r == 4,
        *final(self) == (Z80 { registers: cp_spec(old(self).registers, old(self).registers.b), ..*old(self) }),
    {
        let v = self.registers.b;
        self.cp(v);
        4
    }

    /// 0xB9 - CP C.
    pub fn cp_c_0xb9(&mut self) -> (r: u64)
    ensures
        r == 4,
        *final(self) == (Z80 { registers: cp_spec(old(self).registers, old(self).registers.c), ..*old(self) }),
    {
        let v = self.registers.c;
        self.cp(v);
        4
    }

    /// 0xBA - CP D.
    pub fn cp_d_0xba(&mut self) -> (r: u64)
    ensures
        r == 4,
        *final(self) == (Z80 { registers: cp_spec(old(self).registers, old(self).registers.d), ..*old(self) }),
    {
        let v = self.registers.d;
        self.cp(v);
        4
    }

    /// 0xBB - CP E.
    pub fn cp_e_0xbb(&mut self) -> (r: u64)
    ensures
        r == 4,
        *final(self) == (Z80 { registers: cp_spec(old(self).registers, old(self).registers.e), ..*old(self) }),
    {
        let v = self.registers.e;
        self.cp(v);
        4
    }

    /// 0xBC - CP H.
    pub fn cp_h_0xbc(&mut self) -> (r: u64)
    ensures
        r == 4,
        *final(self) == (Z80 { registers: cp_spec(old(self).registers, old(self).registers.h), ..*old(self) }),
    {
        let v = self.registers.h;
        self.cp(v);
        4
    }

    /// 0xBD - CP L.
    pub fn cp_l_0xbd(&mut self) -> (r: u64)
    ensures
        r == 4,
        *final(self) == (Z80 { registers: cp_spec(old(self).registers, old(self).registers.l), ..*old(self) }),
    {
        let v = self.registers.l;
        self.cp(v);
        4
    }

    /// 0xBE - CP (HL).
    pub fn cp_hl_0xbe(&mut self) -> (r: u64)
    requires
        cpu_wf(*old(self)),
    ensures
        r == 8,
        *final(self) == (Z80 { registers: cp_spec(old(self).registers, mmu_read_spec(old(self).mmu@, ((old(self).registers.h) * 256 + (old(self).registers.l)) as u16)), ..*old(self) }),
        cpu_wf(*final(self)),
    {
        let hl = self.get_hl();
        let v = self.mmu.read(hl);
        self.cp(v);
        8
    }

    /// 0xBF - CP A.
    pub fn cp_a_0xbf(&mut self) -> (r: u64)
    ensures
        r == 4,
        *final(self) == (Z80 { registers: cp_spec(old(self).registers, old(self).registers.a), ..*old(self) }),
    {
        let v = self.registers.a;
        self.cp(v);
        4
    }

    /// 0xC6 - ADD A, d8.
    pub fn add_a_d8_0xc6(&mut self) -> (r: u64)
    requires
        cpu_wf(*old(self)),
    ensures
        r == 8,
        *final(self) == (Z80 { registers: add8_spec((Registers { pc: wrap16(old(self).registers.pc + 1), ..old(self).registers }), mmu_read_spec(old(self).mmu@, old(self).registers.pc)), ..*old(self) }),
        cpu_wf(*final(self)),
    {
        let v = self.byte();
        let a = self.registers.a;
        let v2 = self.add_8(a, v);
        self.registers.a = v2;
        8
    }

    /// 0xCE - ADC A, d8.
    pub fn adc_a_d8_0xce(&mut self) -> (r: u64)
    requires
        cpu_wf(*old(self)),
    ensures
        r == 8,
        *final(self) == (Z80 { registers: adc8_spec((Registers { pc: wrap16(old(self).registers.pc + 1), ..old(self).registers }), mmu_read_spec(old(self).mmu@, old(self).registers.pc)), ..*old(self) }),
        cpu_wf(*final(self)),
    {
        let v = self.byte();
        self.adc_8(v);
        8
    }

    /// 0xD6 - SUB d8.
    pub fn sub_d8_0xd6(&mut self) -> (r: u64)
    requires
        cpu_wf(*old(self)),
    ensures
        r == 8,
        *final(self) == (Z80 { registers: sub8_spec((Registers { pc: wrap16(old(self).registers.pc + 1), ..old(self).registers }), mmu_read_spec(old(self).mmu@, old(self).registers.pc)), ..*old(self) }),
        cpu_wf(*final(self)),
    {
        let v = self.byte();
        let a = self.registers.a;
        let v2 = self.sub_8(a, v);
        self.registers.a = v2;
        8
    }

    /// 0xDE - SBC A, d8.
    pub fn sbc_a_d8_0xde(&mut self) -> (r: u64)
    requires
        cpu_wf(*old(self)),
    ensures
        r == 8,
        *final(self) == (Z80 { registers: sbc8_spec((Registers { pc: wrap16(old(self).registers.pc + 1), ..old(self).registers }), mmu_read_spec(old(self).mmu@, old(self).registers.pc)), ..*old(self) }),
        cpu_wf(*final(self)),
    {
        let v = self.byte();
        self.sbc_8(v);
        8
    }

    /// 0xE6 - AND d8.
    pub fn and_d8_0xe6(&mut self) -> (r: u64)
    requires
        cpu_wf(*old(self)),
    ensures
        r == 8,
        *final(self) == (Z80 { registers: and_spec((Registers { pc: wrap16(old(self).registers.pc + 1), ..old(self).registers }), mmu_read_spec(old(self).mmu@, old(self).registers.pc)), ..*old(self) }),
        cpu_wf(*final(self)),
    {
        let v = self.byte();
        self.and(v);
        8
    }

    /// 0xEE - XOR d8.
    pub fn xor_d8_0xee(&mut self) -> (r: u64)
    requires
        cpu_wf(*old(self)),
    ensures
        r == 8,
        *final(self) == (Z80 { registers: xor_spec((Registers { pc: wrap16(old(self).registers.pc + 1), ..old(self).registers }), mmu_read_spec(old(self).mmu@, old(self).registers.pc)), ..*old(self) }),
        cpu_wf(*final(self)),
    {
        let v = self.byte();
        self.xor(v);
        8
    }

    /// 0xF6 - OR d8.
    pub fn or_d8_0xf6(&mut self) -> (r: u64)
    requires
        cpu_wf(*old(self)),
    ensures
        r == 8,
        *final(self) == (Z80 { registers: or_spec((Registers { pc: wrap16(old(self).registers.pc + 1), ..old(self).registers }), mmu_read_spec(old(self).mmu@, old(self).registers.pc)), ..*old(self) }),
        cpu_wf(*final(self)),
    {
        let v = self.byte();
        self.or(v);
        8
    }

    /// 0xFE - CP d8.
    pub fn cp_d8_0xfe(&mut self) -> (r: u64)
    requires
        cpu_wf(*old(self)),
    ensures
        r == 8,
        *final(self) == (Z80 { registers: cp_spec((Registers { pc: wrap16(old(self).registers.pc + 1), ..old(self).registers }), mmu_read_spec(old(self).mmu@, old(self).registers.pc)), ..*old(self) }),
        cpu_wf(*final(self)),
    {
        let v = self.byte();
        self.cp(v);
        8
    }

    /// 0xC0 - RET NZ; longer when taken.
    pub fn ret_nz_0xc0(&mut self) -> (r: u64)
    requires
        cpu_wf(*old(self)),
    ensures
        r == (if !z_flag(old(self).registers.f) { 20u64 } else { 8u64 }),
        *final(self) == (Z80 { registers: (if !z_flag(old(self).registers.f) { (Registers { pc: (mmu_read_spec(old(self).mmu@, old(self).registers.sp) + 256 * mmu_read_spec(old(self).mmu@, wrap16(old(self).registers.sp + 1))) as u16, sp: wrap16(old(self).registers.sp + 2), ..old(self).registers }) } else { old(self).registers }), ..*old(self) }),
        cpu_wf(*final(self)),
    {
        let taken = !self.is_zero();
        if taken {
            self.ret();
        }
        if taken {
            20
        } else {
            8
        }
    }

    /// 0xC2 - JP NZ, a16; longer when taken.
    pub fn jp_nz_a16_0xc2(&mut self) -> (r: u64)
    requires
        cpu_wf(*old(self)),
    ensures
        r == (if !z_flag(old(self).registers.f) { 16u64 } else { 12u64 }),
        *final(self) == (Z80 { registers: (Registers { pc: (if !z_flag(old(self).registers.f) { ((mmu_read_spec(old(self).mmu@, old(self).registers.pc)) + 256 * (mmu_read_spec(old(self).mmu@, wrap16(old(self).registers.pc + 1)))) as u16 } else { wrap16(old(self).registers.pc + 2) }), ..old(self).registers }), ..*old(self) }),
        cpu_wf(*final(self)),
    {
        let a16 = self.word();
        let taken = !self.is_zero();
        if taken {
            self.registers.pc = a16;
        }
        if taken {
            16
        } else {
            12
        }
    }

    /// 0xC4 - CALL NZ, a16; longer when taken.
    pub fn call_nz_a16_0xc4(&mut self) -> (r: u64)
    requires
        cpu_wf(*old(self)),
    ensures
        r == (if !z_flag(old(self).registers.f) { 24u64 } else { 12u64 }),
        !z_flag(old(self).registers.f) ==> final(self).registers == (Registers { pc: ((mmu_read_spec(old(self).mmu@, old(self).registers.pc)) + 256 * (mmu_read_spec(old(self).mmu@, wrap16(old(self).registers.pc + 1)))) as u16, sp: wrap16(old(self).registers.sp - 2 + 0x10000), ..old(self).registers }),
        !z_flag(old(self).registers.f) ==> final(self).mmu@ == mmu_write_word_spec(old(self).mmu@, wrap16(old(self).registers.sp - 2 + 0x10000), wrap16(old(self).registers.pc + 2)),
        !(!z_flag(old(self).registers.f)) ==> *final(self) == (Z80 { registers: (Registers { pc: wrap16(old(self).registers.pc + 2), ..old(self).registers }), ..*old(self) }),
        ctrl_unchanged(*old(self), *final(self)),
        cpu_wf(*final(self)),
    {
        let a16 = self.word();
        let taken = !self.is_zero();
        if taken {
            self.call(a16);
        }
        if taken {
            24
        } else {
            12
        }
    }

    /// 0xC8 - RET Z; longer when taken.
    pub fn ret_z_0xc8(&mut self) -> (r: u64)
    requires
        cpu_wf(*old(self)),
    ensures
        r == (if z_flag(old(self).registers.f) { 20u64 } else { 8u64 }),
        *final(self) == (Z80 { registers: (if z_flag(old(self).registers.f) { (Registers { pc: (mmu_read_spec(old(self).mmu@, old(self).registers.sp) + 256 * mmu_read_spec(old(self).mmu@, wrap16(old(self).registers.sp + 1))) as u16, sp: wrap16(old(self).registers.sp + 2), ..old(self).registers }) } else { old(self).registers }), ..*old(self) }),
        cpu_wf(*final(self)),
    {
        let taken = self.is_zero();
        if taken {
            self.ret();
        }
        if taken {
            20
        } else {
            8
        }
    }

    /// 0xCA - JP Z, a16; longer when taken.
    pub fn jp_z_a16_0xca(&mut self) -> (r: u64)
    requires
        cpu_wf(*old(self)),
    ensures
        r == (if z_flag(old(self).registers.f) { 16u64 } else { 12u64 }),
        *final(self) == (Z80 { registers: (Registers { pc: (if z_flag(old(self).registers.f) { ((mmu_read_spec(old(self).mmu@, old(self).registers.pc)) + 256 * (mmu_read_spec(old(self).mmu@, wrap16(old(self).registers.pc + 1)))) as u16 } else { wrap16(old(self).registers.pc + 2) }), ..old(self).registers }), ..*old(self) }),
        cpu_wf(*final(self)),
    {
        let a16 = self.word();
        let taken = self.is_zero();
        if taken {
            self.registers.pc = a16;
        }
        if taken {
            16
        } else {
            12
        }
    }

    /// 0xCC - CALL Z, a16; longer when taken.
    pub fn call_z_a16_0xcc(&mut self) -> (r: u64)
    requires
        cpu_wf(*old(self)),
    ensures
        r == (if z_flag(old(self).registers.f) { 24u64 } else { 12u64 }),
        z_flag(old(self).registers.f) ==> final(self).registers == (Registers { pc: ((mmu_read_spec(old(self).mmu@, old(self).registers.pc)) + 256 * (mmu_read_spec(old(self).mmu@, wrap16(old(self).registers.pc + 1)))) as u16, sp: wrap16(old(self).registers.sp - 2 + 0x10000), ..old(self).registers }),
        z_flag(old(self).registers.f) ==> final(self).mmu@ == mmu_write_word_spec(old(self).mmu@, wrap16(old(self).registers.sp - 2 + 0x10000), wrap16(old(self).registers.pc + 2)),
        !(z_flag(old(self).registers.f)) ==> *final(self) == (Z80 { registers: (Registers { pc: wrap16(old(self).registers.pc + 2), ..old(self).registers }), ..*old(self) }),
        ctrl_unchanged(*old(self), *final(self)),
        cpu_wf(*final(self)),
    {
        let a16 = self.word();
        let taken = self.is_zero();
        if taken {
            self.call(a16);
        }
        if taken {
            24
        } else {
            12
        }
    }

    /// 0xD0 - RET NC; longer when taken.
    pub fn ret_nc_0xd0(&mut self) -> (r: u64)
    requires
        cpu_wf(*old(self)),
    ensures
        r == (if !c_flag(old(self).registers.f) { 20u64 } else { 8u64 }),
        *final(self) == (Z80 { registers: (if !c_flag(old(self).registers.f) { (Registers { pc: (mmu_read_spec(old(self).mmu@, old(self).registers.sp) + 256 * mmu_read_spec(old(self).mmu@, wrap16(old(self).registers.sp + 1))) as u16, sp: wrap16(old(self).registers.sp + 2), ..old(self).registers }) } else { old(self).registers }), ..*old(self) }),
        cpu_wf(*final(self)),
    {
        let taken = !self.is_full_carry();
        if taken {
            self.ret();
        }
        if taken {
            20
        } else {
            8
        }
    }

    /// 0xD2 - JP NC, a16; longer when taken.
    pub fn jp_nc_a16_0xd2(&mut self) -> (r: u64)
    requires
        cpu_wf(*old(self)),
    ensures
        r == (if !c_flag(old(self).registers.f) { 16u64 } else { 12u64 }),
        *final(self) == (Z80 { registers: (Registers { pc: (if !c_flag(old(self).registers.f) { ((mmu_read_spec(old(self).mmu@, old(self).registers.pc)) + 256 * (mmu_read_spec(old(self).mmu@, wrap16(old(self).registers.pc + 1)))) as u16 } else { wrap16(old(self).registers.pc + 2) }), ..old(self).registers }), ..*old(self) }),
        cpu_wf(*final(self)),
    {
        let a16 = self.word();
        let taken = !self.is_full_carry();
        if taken {
            self.registers.pc = a16;
        }
        if taken {
            16
        } else {
            12
        }
    }

    /// 0xD4 - CALL NC, a16; longer when taken.
    pub fn call_nc_a16_0xd4(&mut self) -> (r: u64)
    requires
        cpu_wf(*old(self)),
    ensures
        r == (if !c_flag(old(self).registers.f) { 24u64 } else { 12u64 }),
        !c_flag(old(self).registers.f) ==> final(self).registers == (Registers { pc: ((mmu_read_spec(old(self).mmu@, old(self).registers.pc)) + 256 * (mmu_read_spec(old(self).mmu@, wrap16(old(self).registers.pc + 1)))) as u16, sp: wrap16(old(self).registers.sp - 2 + 0x10000), ..old(self).registers }),
        !c_flag(old(self).registers.f) ==> final(self).mmu@ == mmu_write_word_spec(old(self).mmu@, wrap16(old(self).registers.sp - 2 + 0x10000), wrap16(old(self).registers.pc + 2)),
        !(!c_flag(old(self).registers.f)) ==> *final(self) == (Z80 { registers: (Registers { pc: wrap16(old(self).registers.pc + 2), ..old(self).registers }), ..*old(self) }),
        ctrl_unchanged(*old(self), *final(self)),
        cpu_wf(*final(self)),
    {
        let a16 = self.word();
        let taken = !self.is_full_carry();
        if taken {
            self.call(a16);
        }
        if taken {
            24
        } else {
            12
        }
    }

    /// 0xD8 - RET C; longer when taken.
    pub fn ret_c_0xd8(&mut self) -> (r: u64)
    requires
        cpu_wf(*old(self)),
    ensures
        r == (if c_flag(old(self).registers.f) { 20u64 } else { 8u64 }),
        *final(self) == (Z80 { registers: (if c_flag(old(self).registers.f) { (Registers { pc: (mmu_read_spec(old(self).mmu@, old(self).registers.sp) + 256 * mmu_read_spec(old(self).mmu@, wrap16(old(self).registers.sp + 1))) as u16, sp: wrap16(old(self).registers.sp + 2), ..old(self).registers }) } else { old(self).registers }), ..*old(self) }),
        cpu_wf(*final(self)),
    {
        let taken = self.is_full_carry();
        if taken {
            self.ret();
        }
        if taken {
            20
        } else {
            8
        }
    }

    /// 0xDA - JP C, a16; longer when taken.
    pub fn jp_c_a16_0xda(&mut self) -> (r: u64)
    requires
        cpu_wf(*old(self)),
    ensures
        r == (if c_flag(old(self).registers.f) { 16u64 } else { 12u64 }),
        *final(self) == (Z80 { registers: (Registers { pc: (if c_flag(old(self).registers.f) { ((mmu_read_spec(old(self).mmu@, old(self).registers.pc)) + 256 * (mmu_read_spec(old(self).mmu@, wrap16(old(self).registers.pc + 1)))) as u16 } else { wrap16(old(self).registers.pc + 2) }), ..old(self).registers }), ..*old(self) }),
        cpu_wf(*final(self)),
    {
        let a16 = self.word();
        let taken = self.is_full_carry();
        if taken {
            self.registers.pc = a16;
        }
        if taken {
            16
        } else {
            12
        }
    }

    /// 0xDC - CALL C, a16; longer when taken.
    pub fn call_c_a16_0xdc(&mut self) -> (r: u64)
    requires
        cpu_wf(*old(self)),
    ensures
        r == (if c_flag(old(self).registers.f) { 24u64 } else { 12u64 }),
        c_flag(old(self).registers.f) ==> final(self).registers == (Registers { pc: ((mmu_read_spec(old(self).mmu@, old(self).registers.pc)) + 256 * (mmu_read_spec(old(self).mmu@, wrap16(old(self).registers.pc + 1)))) as u16, sp: wrap16(old(self).registers.sp - 2 + 0x10000), ..old(self).registers }),
        c_flag(old(self).registers.f) ==> final(self).mmu@ == mmu_write_word_spec(old(self).mmu@, wrap16(old(self).registers.sp - 2 + 0x10000), wrap16(old(self).registers.pc + 2)),
        !(c_flag(old(self).registers.f)) ==> *final(self) == (Z80 { registers: (Registers { pc: wrap16(old(self).registers.pc + 2), ..old(self).registers }), ..*old(self) }),
        ctrl_unchanged(*old(self), *final(self)),
        cpu_wf(*final(self)),
    {
        let a16 = self.word();
        let taken = self.is_full_carry();
        if taken {
            self.call(a16);
        }
        if taken {
            24
        } else {
            12
        }
    }

    /// 0xC1 - POP BC.
    pub fn pop_bc_0xc1(&mut self) -> (r: u64)
    requires
        cpu_wf(*old(self)),
    ensures
        r == 12,
        *final(self) == (Z80 { registers: (Registers { c: mmu_read_spec(old(self).mmu@, old(self).registers.sp), b: mmu_read_spec(old(self).mmu@, wrap16(old(self).registers.sp + 1)), sp: wrap16(old(self).registers.sp + 2), ..old(self).registers }), ..*old(self) }),
        cpu_wf(*final(self)),
    {
        let v = self.pop_sp();
        self.set_bc(v);
        12
    }

    /// 0xD1 - POP DE.
    pub fn pop_de_0xd1(&mut self) -> (r: u64)
    requires
        cpu_wf(*old(self)),
    ensures
        r == 12,
        *final(self) == (Z80 { registers: (Registers { e: mmu_read_spec(old(self).mmu@, old(self).registers.sp), d: mmu_read_spec(old(self).mmu@, wrap16(old(self).registers.sp + 1)), sp: wrap16(old(self).registers.sp + 2), ..old(self).registers }), ..*old(self) }),
        cpu_wf(*final(self)),
    {
        let v = self.pop_sp();
        self.set_de(v);
        12
    }

    /// 0xE1 - POP HL.
    pub fn pop_hl_0xe1(&mut self) -> (r: u64)
    requires
        cpu_wf(*old(self)),
    ensures
        r == 12,
        *final(self) == (Z80 { registers: (Registers { l: mmu_read_spec(old(self).mmu@, old(self).registers.sp), h: mmu_read_spec(old(self).mmu@, wrap16(old(self).registers.sp + 1)), sp: wrap16(old(self).registers.sp + 2), ..old(self).registers }), ..*old(self) }),
        cpu_wf(*final(self)),
    {
        let v = self.pop_sp();
        self.set_hl(v);
        12
    }

    /// 0xF1 - POP AF; the low nibble of F always reads as zero.
    pub fn pop_af_0xf1(&mut self) -> (r: u64)
    requires
        cpu_wf(*old(self)),
    ensures
        r == 12,
        *final(self) == (Z80 { registers: (Registers { a: mmu_read_spec(old(self).mmu@, wrap16(old(self).registers.sp + 1)), f: (mmu_read_spec(old(self).mmu@, old(self).registers.sp) / 16 * 16) as u8, sp: wrap16(old(self).registers.sp + 2), ..old(self).registers }), ..*old(self) }),
        cpu_wf(*final(self)),
    {
        let v = self.pop_sp();
        self.registers.a = (v / 256) as u8;
        self.registers.f = ((v % 256) / 16 * 16) as u8;
        12
    }

    /// 0xC5 - PUSH BC.
    pub fn push_bc_0xc5(&mut self) -> (r: u64)
    requires
        cpu_wf(*old(self)),
    ensures
        r == 16,
        final(self).registers == (Registers { sp: wrap16(old(self).registers.sp - 2 + 0x10000), ..old(self).registers }),
        final(self).mmu@ == mmu_write_word_spec(old(self).mmu@, wrap16(old(self).registers.sp - 2 + 0x10000), ((old(self).registers.b) * 256 + (old(self).registers.c)) as u16),
        ctrl_unchanged(*old(self), *final(self)),
        cpu_wf(*final(self)),
    {
        let v = self.get_bc();
        self.push_sp(v);
        16
    }

    /// 0xD5 - PUSH DE.
    pub fn push_de_0xd5(&mut self) -> (r: u64)
    requires
        cpu_wf(*old(self)),
    ensures
        r == 16,
        final(self).registers == (Registers { sp: wrap16(old(self).registers.sp - 2 + 0x10000), ..old(self).registers }),
        final(self).mmu@ == mmu_write_word_spec(old(self).mmu@, wrap16(old(self).registers.sp - 2 + 0x10000), ((old(self).registers.d) * 256 + (old(self).registers.e)) as u16),
        ctrl_unchanged(*old(self), *final(self)),
        cpu_wf(*final(self)),
    {
        let v = self.get_de();
        self.push_sp(v);
        16
    }

    /// 0xE5 - PUSH HL.
    pub fn push_hl_0xe5(&mut self) -> (r: u64)
    requires
        cpu_wf(*old(self)),
    ensures
        r == 16,
        final(self).registers == (Registers { sp: wrap16(old(self).registers.sp - 2 + 0x10000), ..old(self).registers }),
        final(self).mmu@ == mmu_write_word_spec(old(self).mmu@, wrap16(old(self).registers.sp - 2 + 0x10000), ((old(self).registers.h) * 256 + (old(self).registers.l)) as u16),
        ctrl_unchanged(*old(self), *final(self)),
        cpu_wf(*final(self)),
    {
        let v = self.get_hl();
        self.push_sp(v);
        16
    }

    /// 0xF5 - PUSH AF.
    pub fn push_af_0xf5(&mut self) -> (r: u64)
    requires
        cpu_wf(*old(self)),
    ensures
        r == 16,
        final(self).registers == (Registers { sp: wrap16(old(self).registers.sp - 2 + 0x10000), ..old(self).registers }),
        final(self).mmu@ == mmu_write_word_spec(old(self).mmu@, wrap16(old(self).registers.sp - 2 + 0x10000), ((old(self).registers.a) * 256 + (old(self).registers.f)) as u16),
        ctrl_unchanged(*old(self), *final(self)),
        cpu_wf(*final(self)),
    {
        let v = self.get_af();
        self.push_sp(v);
        16
    }

    /// 0xC3 - JP a16.
    pub fn jp_a16_0xc3(&mut self) -> (r: u64)
    requires
        cpu_wf(*old(self)),
    ensures
        r == 16,
        *final(self) == (Z80 { registers: (Registers { pc: ((mmu_read_spec(old(self).mmu@, old(self).registers.pc)) + 256 * (mmu_read_spec(old(self).mmu@, wrap16(old(self).registers.pc + 1)))) as u16, ..old(self).registers }), ..*old(self) }),
        cpu_wf(*final(self)),
    {
        let a16 = self.word();
        self.registers.pc = a16;
        16
    }

    /// 0xC9 - RET.
    pub fn ret_0xc9(&mut self) -> (r: u64)
    requires
        cpu_wf(*old(self)),
    ensures
        r == 16,
        *final(self) == (Z80 { registers: (Registers { pc: (mmu_read_spec(old(self).mmu@, old(self).registers.sp) + 256 * mmu_read_spec(old(self).mmu@, wrap16(old(self).registers.sp + 1))) as u16, sp: wrap16(old(self).registers.sp + 2), ..old(self).registers }), ..*old(self) }),
        cpu_wf(*final(self)),
    {
        self.ret();
        16
    }

    /// 0xD9 - RETI: return and enable interrupts at once.
    pub fn reti_0xd9(&mut self) -> (r: u64)
    requires
        cpu_wf(*old(self)),
    ensures
        r == 16,
        *final(self) == (Z80 { registers: (Registers { pc: (mmu_read_spec(old(self).mmu@, old(self).registers.sp) + 256 * mmu_read_spec(old(self).mmu@, wrap16(old(self).registers.sp + 1))) as u16, sp: wrap16(old(self).registers.sp + 2), ..old(self).registers }), ime: IME::Enabled, ..*old(self) }),
        cpu_wf(*final(self)),
    {
        self.ret();
        self.ime = IME::Enabled;
        16
    }

    /// 0xCD - CALL a16.
    pub fn call_a16_0xcd(&mut self) -> (r: u64)
    requires
        cpu_wf(*old(self)),
    ensures
        r == 24,
        final(self).registers == (Registers { pc: ((mmu_read_spec(old(self).mmu@, old(self).registers.pc)) + 256 * (mmu_read_spec(old(self).mmu@, wrap16(old(self).registers.pc + 1)))) as u16, sp: wrap16(old(self).registers.sp - 2 + 0x10000), ..old(self).registers }),
        final(self).mmu@ == mmu_write_word_spec(old(self).mmu@, wrap16(old(self).registers.sp - 2 + 0x10000), wrap16(old(self).registers.pc + 2)),
        ctrl_unchanged(*old(self), *final(self)),
        cpu_wf(*final(self)),
    {
        let a16 = self.word();
        self.call(a16);
        24
    }

    /// 0xC7 - RST 0x00.
    pub fn rst_00h_0xc7(&mut self) -> (r: u64)
    requires
        cpu_wf(*old(self)),
    ensures
        r == 16,
        final(self).registers == (Registers { pc: 0x00, sp: wrap16(old(self).registers.sp - 2 + 0x10000), ..old(self).registers }),
        final(self).mmu@ == mmu_write_word_spec(old(self).mmu@, wrap16(old(self).registers.sp - 2 + 0x10000), old(self).registers.pc),
        ctrl_unchanged(*old(self), *final(self)),
        cpu_wf(*final(self)),
    {
        self.rst(0x00);
        16
    }

    /// 0xCF - RST 0x08.
    pub fn rst_08h_0xcf(&mut self) -> (r: u64)
    requires
        cpu_wf(*old(self)),
    ensures
        r == 16,
        final(self).registers == (Registers { pc: 0x08, sp: wrap16(old(self).registers.sp - 2 + 0x10000), ..old(self).registers }),
        final(self).mmu@ == mmu_write_word_spec(old(self).mmu@, wrap16(old(self).registers.sp - 2 + 0x10000), old(self).registers.pc),
        ctrl_unchanged(*old(self), *final(self)),
        cpu_wf(*final(self)),
    {
        self.rst(0x08);
        16
    }

    /// 0xD7 - RST 0x10.
    pub fn rst_10h_0xd7(&mut self) -> (r: u64)
    requires
        cpu_wf(*old(self)),
    ensures
        r == 16,
        final(self).registers == (Registers { pc: 0x10, sp: wrap16(old(self).registers.sp - 2 + 0x10000), ..old(self).registers }),
        final(self).mmu@ == mmu_write_word_spec(old(self).mmu@, wrap16(old(self).registers.sp - 2 + 0x10000), old(self).registers.pc),
        ctrl_unchanged(*old(self), *final(self)),
        cpu_wf(*final(self)),
    {
        self.rst(0x10);
        16
    }

    /// 0xDF - RST 0x18.
    pub fn rst_18h_0xdf(&mut self) -> (r: u64)
    requires
        cpu_wf(*old(self)),
    ensures
        r == 16,
        final(self).registers == (Registers { pc: 0x18, sp: wrap16(old(self).registers.sp - 2 + 0x10000), ..old(self).registers }),
        final(self).mmu@ == mmu_write_word_spec(old(self).mmu@, wrap16(old(self).registers.sp - 2 + 0x10000), old(self).registers.pc),
        ctrl_unchanged(*old(self), *final(self)),
        cpu_wf(*final(self)),
    {
        self.rst(0x18);
        16
    }

    /// 0xE7 - RST 0x20.
    pub fn rst_20h_0xe7(&mut self) -> (r: u64)
    requires
        cpu_wf(*old(self)),
    ensures
        r == 16,
        final(self).registers == (Registers { pc: 0x20, sp: wrap16(old(self).registers.sp - 2 + 0x10000), ..old(self).registers }),
        final(self).mmu@ == mmu_write_word_spec(old(self).mmu@, wrap16(old(self).registers.sp - 2 + 0x10000), old(self).registers.pc),
        ctrl_unchanged(*old(self), *final(self)),
        cpu_wf(*final(self)),
    {
        self.rst(0x20);
        16
    }

    /// 0xEF - RST 0x28.
    pub fn rst_28h_0xef(&mut self) -> (r: u64)
    requires
        cpu_wf(*old(self)),
    ensures
        r == 16,
        final(self).registers == (Registers { pc: 0x28, sp: wrap16(old(self).registers.sp - 2 + 0x10000), ..old(self).registers }),
        final(self).mmu@ == mmu_write_word_spec(old(self).mmu@, wrap16(old(self).registers.sp - 2 + 0x10000), old(self).registers.pc),
        ctrl_unchanged(*old(self), *final(self)),
        cpu_wf(*final(self)),
    {
        self.rst(0x28);
        16
    }

    /// 0xF7 - RST 0x30.
    pub fn rst_30h_0xf7(&mut self) -> (r: u64)
    requires
        cpu_wf(*old(self)),
    ensures
        r == 16,
        final(self).registers == (Registers { pc: 0x30, sp: wrap16(old(self).registers.sp - 2 + 0x10000), ..old(self).registers }),
        final(self).mmu@ == mmu_write_word_spec(old(self).mmu@, wrap16(old(self).registers.sp - 2 + 0x10000), old(self).registers.pc),
        ctrl_unchanged(*old(self), *final(self)),
        cpu_wf(*final(self)),
    {
        self.rst(0x30);
        16
    }

    /// 0xFF - RST 0x38.
    pub fn rst_38h_0xff(&mut self) -> (r: u64)
    requires
        cpu_wf(*old(self)),
    ensures
        r == 16,
        final(self).registers == (Registers { pc: 0x38, sp: wrap16(old(self).registers.sp - 2 + 0x10000), ..old(self).registers }),
        final(self).mmu@ == mmu_write_word_spec(old(self).mmu@, wrap16(old(self).registers.sp - 2 + 0x10000), old(self).registers.pc),
        ctrl_unchanged(*old(self), *final(self)),
        cpu_wf(*final(self)),
    {
        self.rst(0x38);
        16
    }

    /// 0xCB - the CB prefix: the next fetch indexes the CB table.
    pub fn cb(&mut self) -> (r: u64)
    ensures
        r == 4,
        *final(self) == (Z80 { use_cb_table: true, ..*old(self) }),
    {
        self.use_cb_table = true;
        4
    }

    /// 0xE0 - LDH (a8), A.
    pub fn ldh_a8_a_0xe0(&mut self) -> (r: u64)
    requires
        cpu_wf(*old(self)),
    ensures
        r == 12,
        final(self).registers == (Registers { pc: wrap16(old(self).registers.pc + 1), ..old(self).registers }),
        final(self).mmu@ == mmu_write_spec(old(self).mmu@, (0xFF00 + mmu_read_spec(old(self).mmu@, old(self).registers.pc)) as u16, old(self).registers.a),
        ctrl_unchanged(*old(self), *final(self)),
        cpu_wf(*final(self)),
    {
        let a8 = self.byte();
        self.mmu.write(0xFF00 + a8 as u16, self.registers.a);
        12
    }

    /// 0xF0 - LDH A, (a8).
    pub fn ldh_a_a8_0xf0(&mut self) -> (r: u64)
    requires
        cpu_wf(*old(self)),
    ensures
        r == 12,
        *final(self) == (Z80 { registers: (Registers { a: mmu_read_spec(old(self).mmu@, (0xFF00 + mmu_read_spec(old(self).mmu@, old(self).registers.pc)) as u16), pc: wrap16(old(self).registers.pc + 1), ..old(self).registers }), ..*old(self) }),
        cpu_wf(*final(self)),
    {
        let a8 = self.byte();
        self.registers.a = self.mmu.read(0xFF00 + a8 as u16);
        12
    }

    /// 0xE2 - LD (C), A: store A high in the I/O page.
    pub fn ld_c_a_0xe2(&mut self) -> (r: u64)
    requires
        cpu_wf(*old(self)),
    ensures
        r == 8,
        final(self).registers == old(self).registers,
        final(self).mmu@ == mmu_write_spec(old(self).mmu@, (0xFF00 + old(self).registers.c) as u16, old(self).registers.a),
        ctrl_unchanged(*old(self), *final(self)),
        cpu_wf(*final(self)),
    {
        self.mmu.write(0xFF00 + self.registers.c as u16, self.registers.a);
        8
    }

    /// 0xF2 - LD A, (C): load A high from the I/O page.
    pub fn ld_a_c_0xf2(&mut self) -> (r: u64)
    requires
        cpu_wf(*old(self)),
    ensures
        r == 8,
        *final(self) == (Z80 { registers: (Registers { a: mmu_read_spec(old(self).mmu@, (0xFF00 + old(self).registers.c) as u16), ..old(self).registers }), ..*old(self) }),
        cpu_wf(*final(self)),
    {
        self.registers.a = self.mmu.read(0xFF00 + self.registers.c as u16);
        8
    }

    /// 0xEA - LD (a16), A.
    pub fn ld_a16_a_0xea(&mut self) -> (r: u64)
    requires
        cpu_wf(*old(self)),
    ensures
        r == 16,
        final(self).registers == (Registers { pc: wrap16(old(self).registers.pc + 2), ..old(self).registers }),
        final(self).mmu@ == mmu_write_spec(old(self).mmu@, ((mmu_read_spec(old(self).mmu@, old(self).registers.pc)) + 256 * (mmu_read_spec(old(self).mmu@, wrap16(old(self).registers.pc + 1)))) as u16, old(self).registers.a),
        ctrl_unchanged(*old(self), *final(self)),
        cpu_wf(*final(self)),
    {
        let a16 = self.word();
        self.mmu.write(a16, self.registers.a);
        16
    }

    /// 0xFA - LD A, (a16).
    pub fn ld_a_a16_0xfa(&mut self) -> (r: u64)
    requires
        cpu_wf(*old(self)),
    ensures
        r == 16,
        *final(self) == (Z80 { registers: (Registers { a: mmu_read_spec(old(self).mmu@, ((mmu_read_spec(old(self).mmu@, old(self).registers.pc)) + 256 * (mmu_read_spec(old(self).mmu@, wrap16(old(self).registers.pc + 1)))) as u16), pc: wrap16(old(self).registers.pc + 2), ..old(self).registers }), ..*old(self) }),
        cpu_wf(*final(self)),
    {
        let a16 = self.word();
        self.registers.a = self.mmu.read(a16);
        16
    }

    /// 0xE8 - ADD SP, s8.
    pub fn add_sp_r8_0xe8(&mut self) -> (r: u64)
    requires
        cpu_wf(*old(self)),
    ensures
        r == 16,
        *final(self) == (Z80 { registers: (Registers { sp: wrap16(old(self).registers.sp + sext8(mmu_read_spec(old(self).mmu@, old(self).registers.pc)) + 0x10000), f: add16_imm_flags(old(self).registers.sp, mmu_read_spec(old(self).mmu@, old(self).registers.pc)), pc: wrap16(old(self).registers.pc + 1), ..old(self).registers }), ..*old(self) }),
        cpu_wf(*final(self)),
    {
        let t = self.byte();
        let sp = self.registers.sp;
        let v2 = self.add_16_immediate(sp, t);
        self.registers.sp = v2;
        16
    }

    /// 0xF8 - LD HL, SP+s8.
    pub fn ld_hl_sp_s8_0xf8(&mut self) -> (r: u64)
    requires
        cpu_wf(*old(self)),
    ensures
        r == 12,
        *final(self) == (Z80 { registers: (Registers { h: ((wrap16(old(self).registers.sp + sext8(mmu_read_spec(old(self).mmu@, old(self).registers.pc)) + 0x10000)) / 256) as u8, l: ((wrap16(old(self).registers.sp + sext8(mmu_read_spec(old(self).mmu@, old(self).registers.pc)) + 0x10000)) % 256) as u8, f: add16_imm_flags(old(self).registers.sp, mmu_read_spec(old(self).mmu@, old(self).registers.pc)), pc: wrap16(old(self).registers.pc + 1), ..old(self).registers }), ..*old(self) }),
        cpu_wf(*final(self)),
    {
        let t = self.byte();
        let sp = self.registers.sp;
        let v2 = self.add_16_immediate(sp, t);
        self.set_hl(v2);
        12
    }

    /// 0xF9 - LD SP, HL.
    pub fn ld_sp_hl_0xf9(&mut self) -> (r: u64)
    ensures
        r == 8,
        *final(self) == (Z80 { registers: (Registers { sp: ((old(self).registers.h) * 256 + (old(self).registers.l)) as u16, ..old(self).registers }), ..*old(self) }),
    {
        let hl = self.get_hl();
        self.registers.sp = hl;
        8
    }

    /// 0xE9 - JP (HL).
    pub fn jp_hl_0xe9(&mut self) -> (r: u64)
    ensures
        r == 4,
        *final(self) == (Z80 { registers: (Registers { pc: ((old(self).registers.h) * 256 + (old(self).registers.l)) as u16, ..old(self).registers }), ..*old(self) }),
    {
        let hl = self.get_hl();
        self.registers.pc = hl;
        4
    }

    /// 0xF3 - DI: disable interrupts.
    pub fn di_0xf3(&mut self) -> (r: u64)
    ensures
        r == 4,
        *final(self) == (Z80 { ime: IME::Disabled, ..*old(self) }),
    {
        self.unset_ime();
        4
    }

    /// 0xFB - EI: enable interrupts after the following instruction.
    pub fn ei_0xfb(&mut self) -> (r: u64)
    ensures
        r == 4,
        *final(self) == (Z80 { ime: IME::OneCycleDelay, ..*old(self) }),
    {
        self.set_ime();
        4
    }

    /// 0xCB00 - RLC B.
    pub fn rlc_b_0xcb00(&mut self) -> (r: u64)
    ensures
        r == 8,
        *final(self) == (Z80 { registers: (Registers { b: rlc_val(old(self).registers.b), f: rot_flags(rlc_val(old(self).registers.b), rlc_carry(old(self).registers.b)), ..old(self).registers }), ..*old(self) }),
    {
        let v = self.registers.b;
        let v2 = self.rlc(v);
        self.registers.b = v2;
        8
    }

    /// 0xCB01 - RLC C.
    pub fn rlc_c_0xcb01(&mut self) -> (r: u64)
    ensures
        r == 8,
        *final(self) == (Z80 { registers: (Registers { c: rlc_val(old(self).registers.c), f: rot_flags(rlc_val(old(self).registers.c), rlc_carry(old(self).registers.c)), ..old(self).registers }), ..*old(self) }),
    {
        let v = self.registers.c;
        let v2 = self.rlc(v);
        self.registers.c = v2;
        8
    }

    /// 0xCB02 - RLC D.
    pub fn rlc_d_0xcb02(&mut self) -> (r: u64)
    ensures
        r == 8,
        *final(self) == (Z80 { registers: (Registers { d: rlc_val(old(self).registers.d), f: rot_flags(rlc_val(old(self).registers.d), rlc_carry(old(self).registers.d)), ..old(self).registers }), ..*old(self) }),
    {
        let v = self.registers.d;
        let v2 = self.rlc(v);
        self.registers.d = v2;
        8
    }

    /// 0xCB03 - RLC E.
    pub fn rlc_e_0xcb03(&mut self) -> (r: u64)
    ensures
        r == 8,
        *final(self) == (Z80 { registers: (Registers { e: rlc_val(old(self).registers.e), f: rot_flags(rlc_val(old(self).registers.e), rlc_carry(old(self).registers.e)), ..old(self).registers }), ..*old(self) }),
    {
        let v = self.registers.e;
        let v2 = self.rlc(v);
        self.registers.e = v2;
        8
    }

    /// 0xCB04 - RLC H.
    pub fn rlc_h_0xcb04(&mut self) -> (r: u64)
    ensures
        r == 8,
        *final(self) == (Z80 { registers: (Registers { h: rlc_val(old(self).registers.h), f: rot_flags(rlc_val(old(self).registers.h), rlc_carry(old(self).registers.h)), ..old(self).registers }), ..*old(self) }),
    {
        let v = self.registers.h;
        let v2 = self.rlc(v);
        self.registers.h = v2;
        8
    }

    /// 0xCB05 - RLC L.
    pub fn rlc_l_0xcb05(&mut self) -> (r: u64)
    ensures
        r == 8,
        *final(self) == (Z80 { registers: (Registers { l: rlc_val(old(self).registers.l), f: rot_flags(rlc_val(old(self).registers.l), rlc_carry(old(self).registers.l)), ..old(self).registers }), ..*old(self) }),
    {
        let v = self.registers.l;
        let v2 = self.rlc(v);
        self.registers.l = v2;
        8
    }

    /// 0xCB06 - RLC (HL).
    pub fn rlc_hl_0xcb06(&mut self) -> (r: u64)
    requires
        cpu_wf(*old(self)),
    ensures
        r == 16,
        final(self).registers == (Registers { f: rot_flags(rlc_val(mmu_read_spec(old(self).mmu@, ((old(self).registers.h) * 256 + (old(self).registers.l)) as u16)), rlc_carry(mmu_read_spec(old(self).mmu@, ((old(self).registers.h) * 256 + (old(self).registers.l)) as u16))), ..old(self).registers }),
        final(self).mmu@ == mmu_write_spec(old(self).mmu@, ((old(self).registers.h) * 256 + (old(self).registers.l)) as u16, rlc_val(mmu_read_spec(old(self).mmu@, ((old(self).registers.h) * 256 + (old(self).registers.l)) as u16))),
        ctrl_unchanged(*old(self), *final(self)),
        cpu_wf(*final(self)),
    {
        let hl = self.get_hl();
        let v = self.mmu.read(hl);
        let v2 = self.rlc(v);
        self.mmu.write(hl, v2);
        16
    }

    /// 0xCB07 - RLC A.
    pub fn rlc_a_0xcb07(&mut self) -> (r: u64)
    ensures
        r == 8,
        *final(self) == (Z80 { registers: (Registers { a: rlc_val(old(self).registers.a), f: rot_flags(rlc_val(old(self).registers.a), rlc_carry(old(self).registers.a)), ..old(self).registers }), ..*old(self) }),
    {
        let v = self.registers.a;
        let v2 = self.rlc(v);
        self.registers.a = v2;
        8
    }

    /// 0xCB08 - RRC B.
    pub fn rrc_b_0xcb08(&mut self) -> (r: u64)
    ensures
        r == 8,
        *final(self) == (Z80 { registers: (Registers { b: rrc_val(old(self).registers.b), f: rot_flags(rrc_val(old(self).registers.b), rrc_carry(old(self).registers.b)), ..old(self).registers }), ..*old(self) }),
    {
        let v = self.registers.b;
        let v2 = self.rrc(v);
        self.registers.b = v2;
        8
    }

    /// 0xCB09 - RRC C.
    pub fn rrc_c_0xcb09(&mut self) -> (r: u64)
    ensures
        r == 8,
        *final(self) == (Z80 { registers: (Registers { c: rrc_val(old(self).registers.c), f: rot_flags(rrc_val(old(self).registers.c), rrc_carry(old(self).registers.c)), ..old(self).registers }), ..*old(self) }),
    {
        let v = self.registers.c;
        let v2 = self.rrc(v);
        self.registers.c = v2;
        8
    }

    /// 0xCB0A - RRC D.
    pub fn rrc_d_0xcb0a(&mut self) -> (r: u64)
    ensures
        r == 8,
        *final(self) == (Z80 { registers: (Registers { d: rrc_val(old(self).registers.d), f: rot_flags(rrc_val(old(self).registers.d), rrc_carry(old(self).registers.d)), ..old(self).registers }), ..*old(self) }),
    {
        let v = self.registers.d;
        let v2 = self.rrc(v);
        self.registers.d = v2;
        8
    }

    /// 0xCB0B - RRC E.
    pub fn rrc_e_0xcb0b(&mut self) -> (r: u64)
    ensures
        r == 8,
        *final(self) == (Z80 { registers: (Registers { e: rrc_val(old(self).registers.e), f: rot_flags(rrc_val(old(self).registers.e), rrc_carry(old(self).registers.e)), ..old(self).registers }), ..*old(self) }),
    {
        let v = self.registers.e;
        let v2 = self.rrc(v);
        self.registers.e = v2;
        8
    }

    /// 0xCB0C - RRC H.
    pub fn rrc_h_0xcb0c(&mut self) -> (r: u64)
    ensures
        r == 8,
        *final(self) == (Z80 { registers: (Registers { h: rrc_val(old(self).registers.h), f: rot_flags(rrc_val(old(self).registers.h), rrc_carry(old(self).registers.h)), ..old(self).registers }), ..*old(self) }),
    {
        let v = self.registers.h;
        let v2 = self.rrc(v);
        self.registers.h = v2;
        8
    }

    /// 0xCB0D - RRC L.
    pub fn rrc_l_0xcb0d(&mut self) -> (r: u64)
    ensures
        r == 8,
        *final(self) == (Z80 { registers: (Registers { l: rrc_val(old(self).registers.l), f: rot_flags(rrc_val(old(self).registers.l), rrc_carry(old(self).registers.l)), ..old(self).registers }), ..*old(self) }),
    {
        let v = self.registers.l;
        let v2 = self.rrc(v);
        self.registers.l = v2;
        8
    }

    /// 0xCB0E - RRC (HL).
    pub fn rrc_hl_0xcb0e(&mut self) -> (r: u64)
    requires
        cpu_wf(*old(self)),
    ensures
        r == 16,
        final(self).registers == (Registers { f: rot_flags(rrc_val(mmu_read_spec(old(self).mmu@, ((old(self).registers.h) * 256 + (old(self).registers.l)) as u16)), rrc_carry(mmu_read_spec(old(self).mmu@, ((old(self).registers.h) * 256 + (old(self).registers.l)) as u16))), ..old(self).registers }),
        final(self).mmu@ == mmu_write_spec(old(self).mmu@, ((old(self).registers.h) * 256 + (old(self).registers.l)) as u16, rrc_val(mmu_read_spec(old(self).mmu@, ((old(self).registers.h) * 256 + (old(self).registers.l)) as u16))),
        ctrl_unchanged(*old(self), *final(self)),
        cpu_wf(*final(self)),
    {
        let hl = self.get_hl();
        let v = self.mmu.read(hl);
        let v2 = self.rrc(v);
        self.mmu.write(hl, v2);
        16
    }

    /// 0xCB0F - RRC A.
    pub fn rrc_a_0xcb0f(&mut self) -> (r: u64)
    ensures
        r == 8,
        *final(self) == (Z80 { registers: (Registers { a: rrc_val(old(self).registers.a), f: rot_flags(rrc_val(old(self).registers.a), rrc_carry(old(self).registers.a)), ..old(self).registers }), ..*old(self) }),
    {
        let v = self.registers.a;
        let v2 = self.rrc(v);
        self.registers.a = v2;
        8
    }

    /// 0xCB10 - RL B.
    pub fn rl_b_0xcb10(&mut self) -> (r: u64)
    ensures
        r == 8,
        *final(self) == (Z80 { registers: (Registers { b: rl_val(old(self).registers.b, c_flag(old(self).registers.f)), f: rot_flags(rl_val(old(self).registers.b, c_flag(old(self).registers.f)), rlc_carry(old(self).registers.b)), ..old(self).registers }), ..*old(self) }),
    {
        let v = self.registers.b;
        let v2 = self.rl(v);
        self.registers.b = v2;
        8
    }

    /// 0xCB11 - RL C.
    pub fn rl_c_0xcb11(&mut self) -> (r: u64)
    ensures
        r == 8,
        *final(self) == (Z80 { registers: (Registers { c: rl_val(old(self).registers.c, c_flag(old(self).registers.f)), f: rot_flags(rl_val(old(self).registers.c, c_flag(old(self).registers.f)), rlc_carry(old(self).registers.c)), ..old(self).registers }), ..*old(self) }),
    {
        let v = self.registers.c;
        let v2 = self.rl(v);
        self.registers.c = v2;
        8
    }

    /// 0xCB12 - RL D.
    pub fn rl_d_0xcb12(&mut self) -> (r: u64)
    ensures
        r == 8,
        *final(self) == (Z80 { registers: (Registers { d: rl_val(old(self).registers.d, c_flag(old(self).registers.f)), f: rot_flags(rl_val(old(self).registers.d, c_flag(old(self).registers.f)), rlc_carry(old(self).registers.d)), ..old(self).registers }), ..*old(self) }),
    {
        let v = self.registers.d;
        let v2 = self.rl(v);
        self.registers.d = v2;
        8
    }

    /// 0xCB13 - RL E.
    pub fn rl_e_0xcb13(&mut self) -> (r: u64)
    ensures
        r == 8,
        *final(self) == (Z80 { registers: (Registers { e: rl_val(old(self).registers.e, c_flag(old(self).registers.f)), f: rot_flags(rl_val(old(self).registers.e, c_flag(old(self).registers.f)), rlc_carry(old(self).registers.e)), ..old(self).registers }), ..*old(self) }),
    {
        let v = self.registers.e;
        let v2 = self.rl(v);
        self.registers.e = v2;
        8
    }

    /// 0xCB14 - RL H.
    pub fn rl_h_0xcb14(&mut self) -> (r: u64)
    ensures
        r == 8,
        *final(self) == (Z80 { registers: (Registers { h: rl_val(old(self).registers.h, c_flag(old(self).registers.f)), f: rot_flags(rl_val(old(self).registers.h, c_flag(old(self).registers.f)), rlc_carry(old(self).registers.h)), ..old(self).registers }), ..*old(self) }),
    {
        let v = self.registers.h;
        let v2 = self.rl(v);
        self.registers.h = v2;
        8
    }

    /// 0xCB15 - RL L.
    pub fn rl_l_0xcb15(&mut self) -> (r: u64)
    ensures
        r == 8,
        *final(self) == (Z80 { registers: (Registers { l: rl_val(old(self).registers.l, c_flag(old(self).registers.f)), f: rot_flags(rl_val(old(self).registers.l, c_flag(old(self).registers.f)), rlc_carry(old(self).registers.l)), ..old(self).registers }), ..*old(self) }),
    {
        let v = self.registers.l;
        let v2 = self.rl(v);
        self.registers.l = v2;
        8
    }

    /// 0xCB16 - RL (HL).
    pub fn rl_hl_0xcb16(&mut self) -> (r: u64)
    requires
        cpu_wf(*old(self)),
    ensures
        r == 16,
        final(self).registers == (Registers { f: rot_flags(rl_val(mmu_read_spec(old(self).mmu@, ((old(self).registers.h) * 256 + (old(self).registers.l)) as u16), c_flag(old(self).registers.f)), rlc_carry(mmu_read_spec(old(self).mmu@, ((old(self).registers.h) * 256 + (old(self).registers.l)) as u16))), ..old(self).registers }),
        final(self).mmu@ == mmu_write_spec(old(self).mmu@, ((old(self).registers.h) * 256 + (old(self).registers.l)) as u16, rl_val(mmu_read_spec(old(self).mmu@, ((old(self).registers.h) * 256 + (old(self).registers.l)) as u16), c_flag(old(self).registers.f))),
        ctrl_unchanged(*old(self), *final(self)),
        cpu_wf(*final(self)),
    {
        let hl = self.get_hl();
        let v = self.mmu.read(hl);
        let v2 = self.rl(v);
        self.mmu.write(hl, v2);
        16
    }

    /// 0xCB17 - RL A.
    pub fn rl_a_0xcb17(&mut self) -> (r: u64)
    ensures
        r == 8,
        *final(self) == (Z80 { registers: (Registers { a: rl_val(old(self).registers.a, c_flag(old(self).registers.f)), f: rot_flags(rl_val(old(self).registers.a, c_flag(old(self).registers.f)), rlc_carry(old(self).registers.a)), ..old(self).registers }), ..*old(self) }),
    {
        let v = self.registers.a;
        let v2 = self.rl(v);
        self.registers.a = v2;
        8
    }

    /// 0xCB18 - RR B.
    pub fn rr_b_0xcb18(&mut self) -> (r: u64)
    ensures
        r == 8,
        *final(self) == (Z80 { registers: (Registers { b: rr_val(old(self).registers.b, c_flag(old(self).registers.f)), f: rot_flags(rr_val(old(self).registers.b, c_flag(old(self).registers.f)), rrc_carry(old(self).registers.b)), ..old(self).registers }), ..*old(self) }),
    {
        let v = self.registers.b;
        let v2 = self.rr(v);
        self.registers.b = v2;
        8
    }

    /// 0xCB19 - RR C.
    pub fn rr_c_0xcb19(&mut self) -> (r: u64)
    ensures
        r == 8,
        *final(self) == (Z80 { registers: (Registers { c: rr_val(old(self).registers.c, c_flag(old(self).registers.f)), f: rot_flags(rr_val(old(self).registers.c, c_flag(old(self).registers.f)), rrc_carry(old(self).registers.c)), ..old(self).registers }), ..*old(self) }),
    {
        let v = self.registers.c;
        let v2 = self.rr(v);
        self.registers.c = v2;
        8
    }

    /// 0xCB1A - RR D.
    pub fn rr_d_0xcb1a(&mut self) -> (r: u64)
    ensures
        r == 8,
        *final(self) == (Z80 { registers: (Registers { d: rr_val(old(self).registers.d, c_flag(old(self).registers.f)), f: rot_flags(rr_val(old(self).registers.d, c_flag(old(self).registers.f)), rrc_carry(old(self).registers.d)), ..old(self).registers }), ..*old(self) }),
    {
        let v = self.registers.d;
        let v2 = self.rr(v);
        self.registers.d = v2;
        8
    }

    /// 0xCB1B - RR E.
    pub fn rr_e_0xcb1b(&mut self) -> (r: u64)
    ensures
        r == 8,
        *final(self) == (Z80 { registers: (Registers { e: rr_val(old(self).registers.e, c_flag(old(self).registers.f)), f: rot_flags(rr_val(old(self).registers.e, c_flag(old(self).registers.f)), rrc_carry(old(self).registers.e)), ..old(self).registers }), ..*old(self) }),
    {
        let v = self.registers.e;
        let v2 = self.rr(v);
        self.registers.e = v2;
        8
    }

    /// 0xCB1C - RR H.
    pub fn rr_h_0xcb1c(&mut self) -> (r: u64)
    ensures
        r == 8,
        *final(self) == (Z80 { registers: (Registers { h: rr_val(old(self).registers.h, c_flag(old(self).registers.f)), f: rot_flags(rr_val(old(self).registers.h, c_flag(old(self).registers.f)), rrc_carry(old(self).registers.h)), ..old(self).registers }), ..*old(self) }),
    {
        let v = self.registers.h;
        let v2 = self.rr(v);
        self.registers.h = v2;
        8
    }

    /// 0xCB1D - RR L.
    pub fn rr_l_0xcb1d(&mut self) -> (r: u64)
    ensures
        r == 8,
        *final(self) == (Z80 { registers: (Registers { l: rr_val(old(self).registers.l, c_flag(old(self).registers.f)), f: rot_flags(rr_val(old(self).registers.l, c_flag(old(self).registers.f)), rrc_carry(old(self).registers.l)), ..old(self).registers }), ..*old(self) }),
    {
        let v = self.registers.l;
        let v2 = self.rr(v);
        self.registers.l = v2;
        8
    }

    /// 0xCB1E - RR (HL).
    pub fn rr_hl_0xcb1e(&mut self) -> (r: u64)
    requires
        cpu_wf(*old(self)),
    ensures
        r == 16,
        final(self).registers == (Registers { f: rot_flags(rr_val(mmu_read_spec(old(self).mmu@, ((old(self).registers.h) * 256 + (old(self).registers.l)) as u16), c_flag(old(self).registers.f)), rrc_carry(mmu_read_spec(old(self).mmu@, ((old(self).registers.h) * 256 + (old(self).registers.l)) as u16))), ..old(self).registers }),
        final(self).mmu@ == mmu_write_spec(old(self).mmu@, ((old(self).registers.h) * 256 + (old(self).registers.l)) as u16, rr_val(mmu_read_spec(old(self).mmu@, ((old(self).registers.h) * 256 + (old(self).registers.l)) as u16), c_flag(old(self).registers.f))),
        ctrl_unchanged(*old(self), *final(self)),
        cpu_wf(*final(self)),
    {
        let hl = self.get_hl();
        let v = self.mmu.read(hl);
        let v2 = self.rr(v);
        self.mmu.write(hl, v2);
        16
    }

    /// 0xCB1F - RR A.
    pub fn rr_a_0xcb1f(&mut self) -> (r: u64)
    ensures
        r == 8,
        *final(self) == (Z80 { registers: (Registers { a: rr_val(old(self).registers.a, c_flag(old(self).registers.f)), f: rot_flags(rr_val(old(self).registers.a, c_flag(old(self).registers.f)), rrc_carry(old(self).registers.a)), ..old(self).registers }), ..*old(self) }),
    {
        let v = self.registers.a;
        let v2 = self.rr(v);
        self.registers.a = v2;
        8
    }

    /// 0xCB20 - SLA B.
    pub fn sla_b_0xcb20(&mut self) -> (r: u64)
    ensures
        r == 8,
        *final(self) == (Z80 { registers: (Registers { b: sla_val(old(self).registers.b), f: rot_flags(sla_val(old(self).registers.b), rlc_carry(old(self).registers.b)), ..old(self).registers }), ..*old(self) }),
    {
        let v = self.registers.b;
        let v2 = self.sla(v);
        self.registers.b = v2;
        8
    }

    /// 0xCB21 - SLA C.
    pub fn sla_c_0xcb21(&mut self) -> (r: u64)
    ensures
        r == 8,
        *final(self) == (Z80 { registers: (Registers { c: sla_val(old(self).registers.c), f: rot_flags(sla_val(old(self).registers.c), rlc_carry(old(self).registers.c)), ..old(self).registers }), ..*old(self) }),
    {
        let v = self.registers.c;
        let v2 = self.sla(v);
        self.registers.c = v2;
        8
    }

    /// 0xCB22 - SLA D.
    pub fn sla_d_0xcb22(&mut self) -> (r: u64)
    ensures
        r == 8,
        *final(self) == (Z80 { registers: (Registers { d: sla_val(old(self).registers.d), f: rot_flags(sla_val(old(self).registers.d), rlc_carry(old(self).registers.d)), ..old(self).registers }), ..*old(self) }),
    {
        let v = self.registers.d;
        let v2 = self.sla(v);
        self.registers.d = v2;
        8
    }

    /// 0xCB23 - SLA E.
    pub fn sla_e_0xcb23(&mut self) -> (r: u64)
    ensures
        r == 8,
        *final(self) == (Z80 { registers: (Registers { e: sla_val(old(self).registers.e), f: rot_flags(sla_val(old(self).registers.e), rlc_carry(old(self).registers.e)), ..old(self).registers }), ..*old(self) }),
    {
        let v = self.registers.e;
        let v2 = self.sla(v);
        self.registers.e = v2;
        8
    }

    /// 0xCB24 - SLA H.
    pub fn sla_h_0xcb24(&mut self) -> (r: u64)
    ensures
        r == 8,
        *final(self) == (Z80 { registers: (Registers { h: sla_val(old(self).registers.h), f: rot_flags(sla_val(old(self).registers.h), rlc_carry(old(self).registers.h)), ..old(self).registers }), ..*old(self) }),
    {
        let v = self.registers.h;
        let v2 = self.sla(v);
        self.registers.h = v2;
        8
    }

    /// 0xCB25 - SLA L.
    pub fn sla_l_0xcb25(&mut self) -> (r: u64)
    ensures
        r == 8,
        *final(self) == (Z80 { registers: (Registers { l: sla_val(old(self).registers.l), f: rot_flags(sla_val(old(self).registers.l), rlc_carry(old(self).registers.l)), ..old(self).registers }), ..*old(self) }),
    {
        let v = self.registers.l;
        let v2 = self.sla(v);
        self.registers.l = v2;
        8
    }

    /// 0xCB26 - SLA (HL).
    pub fn sla_hl_0xcb26(&mut self) -> (r: u64)
    requires
        cpu_wf(*old(self)),
    ensures
        r == 16,
        final(self).registers == (Registers { f: rot_flags(sla_val(mmu_read_spec(old(self).mmu@, ((old(self).registers.h) * 256 + (old(self).registers.l)) as u16)), rlc_carry(mmu_read_spec(old(self).mmu@, ((old(self).registers.h) * 256 + (old(self).registers.l)) as u16))), ..old(self).registers }),
        final(self).mmu@ == mmu_write_spec(old(self).mmu@, ((old(self).registers.h) * 256 + (old(self).registers.l)) as u16, sla_val(mmu_read_spec(old(self).mmu@, ((old(self).registers.h) * 256 + (old(self).registers.l)) as u16))),
        ctrl_unchanged(*old(self), *final(self)),
        cpu_wf(*final(self)),
    {
        let hl = self.get_hl();
        let v = self.mmu.read(hl);
        let v2 = self.sla(v);
        self.mmu.write(hl, v2);
        16
    }

    /// 0xCB27 - SLA A.
    pub fn sla_a_0xcb27(&mut self) -> (r: u64)
    ensures
        r == 8,
        *final(self) == (Z80 { registers: (Registers { a: sla_val(old(self).registers.a), f: rot_flags(sla_val(old(self).registers.a), rlc_carry(old(self).registers.a)), ..old(self).registers }), ..*old(self) }),
    {
        let v = self.registers.a;
        let v2 = self.sla(v);
        self.registers.a = v2;
        8
    }

    /// 0xCB28 - SRA B.
    pub fn sra_b_0xcb28(&mut self) -> (r: u64)
    ensures
        r == 8,
        *final(self) == (Z80 { registers: (Registers { b: sra_val(old(self).registers.b), f: rot_flags(sra_val(old(self).registers.b), rrc_carry(old(self).registers.b)), ..old(self).registers }), ..*old(self) }),
    {
        let v = self.registers.b;
        let v2 = self.sra(v);
        self.registers.b = v2;
        8
    }

    /// 0xCB29 - SRA C.
    pub fn sra_c_0xcb29(&mut self) -> (r: u64)
    ensures
        r == 8,
        *final(self) == (Z80 { registers: (Registers { c: sra_val(old(self).registers.c), f: rot_flags(sra_val(old(self).registers.c), rrc_carry(old(self).registers.c)), ..old(self).registers }), ..*old(self) }),
    {
        let v = self.registers.c;
        let v2 = self.sra(v);
        self.registers.c = v2;
        8
    }

    /// 0xCB2A - SRA D.
    pub fn sra_d_0xcb2a(&mut self) -> (r: u64)
    ensures
        r == 8,
        *final(self) == (Z80 { registers: (Registers { d: sra_val(old(self).registers.d), f: rot_flags(sra_val(old(self).registers.d), rrc_carry(old(self).registers.d)), ..old(self).registers }), ..*old(self) }),
    {
        let v = self.registers.d;
        let v2 = self.sra(v);
        self.registers.d = v2;
        8
    }

    /// 0xCB2B - SRA E.
    pub fn sra_e_0xcb2b(&mut self) -> (r: u64)
    ensures
        r == 8,
        *final(self) == (Z80 { registers: (Registers { e: sra_val(old(self).registers.e), f: rot_flags(sra_val(old(self).registers.e), rrc_carry(old(self).registers.e)), ..old(self).registers }), ..*old(self) }),
    {
        let v = self.registers.e;
        let v2 = self.sra(v);
        self.registers.e = v2;
        8
    }

    /// 0xCB2C - SRA H.
    pub fn sra_h_0xcb2c(&mut self) -> (r: u64)
    ensures
        r == 8,
        *final(self) == (Z80 { registers: (Registers { h: sra_val(old(self).registers.h), f: rot_flags(sra_val(old(self).registers.h), rrc_carry(old(self).registers.h)), ..old(self).registers }), ..*old(self) }),
    {
        let v = self.registers.h;
        let v2 = self.sra(v);
        self.registers.h = v2;
        8
    }

    /// 0xCB2D - SRA L.
    pub fn sra_l_0xcb2d(&mut self) -> (r: u64)
    ensures
        r == 8,
        *final(self) == (Z80 { registers: (Registers { l: sra_val(old(self).registers.l), f: rot_flags(sra_val(old(self).registers.l), rrc_carry(old(self).registers.l)), ..old(self).registers }), ..*old(self) }),
    {
        let v = self.registers.l;
        let v2 = self.sra(v);
        self.registers.l = v2;
        8
    }

    /// 0xCB2E - SRA (HL).
    pub fn sra_hl_0xcb2e(&mut self) -> (r: u64)
    requires
        cpu_wf(*old(self)),
    ensures
        r == 16,
        final(self).registers == (Registers { f: rot_flags(sra_val(mmu_read_spec(old(self).mmu@, ((old(self).registers.h) * 256 + (old(self).registers.l)) as u16)), rrc_carry(mmu_read_spec(old(self).mmu@, ((old(self).registers.h) * 256 + (old(self).registers.l)) as u16))), ..old(self).registers }),
        final(self).mmu@ == mmu_write_spec(old(self).mmu@, ((old(self).registers.h) * 256 + (old(self).registers.l)) as u16, sra_val(mmu_read_spec(old(self).mmu@, ((old(self).registers.h) * 256 + (old(self).registers.l)) as u16))),
        ctrl_unchanged(*old(self), *final(self)),
        cpu_wf(*final(self)),
    {
        let hl = self.get_hl();
        let v = self.mmu.read(hl);
        let v2 = self.sra(v);
        self.mmu.write(hl, v2);
        16
    }

    /// 0xCB2F - SRA A.
    pub fn sra_a_0xcb2f(&mut self) -> (r: u64)
    ensures
        r == 8,
        *final(self) == (Z80 { registers: (Registers { a: sra_val(old(self).registers.a), f: rot_flags(sra_val(old(self).registers.a), rrc_carry(old(self).registers.a)), ..old(self).registers }), ..*old(self) }),
    {
        let v = self.registers.a;
        let v2 = self.sra(v);
        self.registers.a = v2;
        8
    }

    /// 0xCB30 - SWAP B.
    pub fn swap_b_0xcb30(&mut self) -> (r: u64)
    ensures
        r == 8,
        *final(self) == (Z80 { registers: (Registers { b: swap_val(old(self).registers.b), f: rot_flags(swap_val(old(self).registers.b), false), ..old(self).registers }), ..*old(self) }),
    {
        let v = self.registers.b;
        let v2 = self.swap(v);
        self.registers.b = v2;
        8
    }

    /// 0xCB31 - SWAP C.
    pub fn swap_c_0xcb31(&mut self) -> (r: u64)
    ensures
        r == 8,
        *final(self) == (Z80 { registers: (Registers { c: swap_val(old(self).registers.c), f: rot_flags(swap_val(old(self).registers.c), false), ..old(self).registers }), ..*old(self) }),
    {
        let v = self.registers.c;
        let v2 = self.swap(v);
        self.registers.c = v2;
        8
    }

    /// 0xCB32 - SWAP D.
    pub fn swap_d_0xcb32(&mut self) -> (r: u64)
    ensures
        r == 8,
        *final(self) == (Z80 { registers: (Registers { d: swap_val(old(self).registers.d), f: rot_flags(swap_val(old(self).registers.d), false), ..old(self).registers }), ..*old(self) }),
    {
        let v = self.registers.d;
        let v2 = self.swap(v);
        self.registers.d = v2;
        8
    }

    /// 0xCB33 - SWAP E.
    pub fn swap_e_0xcb33(&mut self) -> (r: u64)
    ensures
        r == 8,
        *final(self) == (Z80 { registers: (Registers { e: swap_val(old(self).registers.e), f: rot_flags(swap_val(old(self).registers.e), false), ..old(self).registers }), ..*old(self) }),
    {
        let v = self.registers.e;
        let v2 = self.swap(v);
        self.registers.e = v2;
        8
    }

    /// 0xCB34 - SWAP H.
    pub fn swap_h_0xcb34(&mut self) -> (r: u64)
    ensures
        r == 8,
        *final(self) == (Z80 { registers: (Registers { h: swap_val(old(self).registers.h), f: rot_flags(swap_val(old(self).registers.h), false), ..old(self).registers }), ..*old(self) }),
    {
        let v = self.registers.h;
        let v2 = self.swap(v);
        self.registers.h = v2;
        8
    }

    /// 0xCB35 - SWAP L.
    pub fn swap_l_0xcb35(&mut self) -> (r: u64)
    ensures
        r == 8,
        *final(self) == (Z80 { registers: (Registers { l: swap_val(old(self).registers.l), f: rot_flags(swap_val(old(self).registers.l), false), ..old(self).registers }), ..*old(self) }),
    {
        let v = self.registers.l;
        let v2 = self.swap(v);
        self.registers.l = v2;
        8
    }

    /// 0xCB36 - SWAP (HL).
    pub fn swap_hl_0xcb36(&mut self) -> (r: u64)
    requires
        cpu_wf(*old(self)),
    ensures
        r == 16,
        final(self).registers == (Registers { f: rot_flags(swap_val(mmu_read_spec(old(self).mmu@, ((old(self).registers.h) * 256 + (old(self).registers.l)) as u16)), false), ..old(self).registers }),
        final(self).mmu@ == mmu_write_spec(old(self).mmu@, ((old(self).registers.h) * 256 + (old(self).registers.l)) as u16, swap_val(mmu_read_spec(old(self).mmu@, ((old(self).registers.h) * 256 + (old(self).registers.l)) as u16))),
        ctrl_unchanged(*old(self), *final(self)),
        cpu_wf(*final(self)),
    {
        let hl = self.get_hl();
        let v = self.mmu.read(hl);
        let v2 = self.swap(v);
        self.mmu.write(hl, v2);
        16
    }

    /// 0xCB37 - SWAP A.
    pub fn swap_a_0xcb37(&mut self) -> (r: u64)
    ensures
        r == 8,
        *final(self) == (Z80 { registers: (Registers { a: swap_val(old(self).registers.a), f: rot_flags(swap_val(old(self).registers.a), false), ..old(self).registers }), ..*old(self) }),
    {
        let v = self.registers.a;
        let v2 = self.swap(v);
        self.registers.a = v2;
        8
    }

    /// 0xCB38 - SRL B.
    pub fn srl_b_0xcb38(&mut self) -> (r: u64)
    ensures
        r == 8,
        *final(self) == (Z80 { registers: (Registers { b: srl_val(old(self).registers.b), f: rot_flags(srl_val(old(self).registers.b), rrc_carry(old(self).registers.b)), ..old(self).registers }), ..*old(self) }),
    {
        let v = self.registers.b;
        let v2 = self.srl(v);
        self.registers.b = v2;
        8
    }

    /// 0xCB39 - SRL C.
    pub fn srl_c_0xcb39(&mut self) -> (r: u64)
    ensures
        r == 8,
        *final(self) == (Z80 { registers: (Registers { c: srl_val(old(self).registers.c), f: rot_flags(srl_val(old(self).registers.c), rrc_carry(old(self).registers.c)), ..old(self).registers }), ..*old(self) }),
    {
        let v = self.registers.c;
        let v2 = self.srl(v);
        self.registers.c = v2;
        8
    }

    /// 0xCB3A - SRL D.
    pub fn srl_d_0xcb3a(&mut self) -> (r: u64)
    ensures
        r == 8,
        *final(self) == (Z80 { registers: (Registers { d: srl_val(old(self).registers.d), f: rot_flags(srl_val(old(self).registers.d), rrc_carry(old(self).registers.d)), ..old(self).registers }), ..*old(self) }),
    {
        let v = self.registers.d;
        let v2 = self.srl(v);
        self.registers.d = v2;
        8
    }

    /// 0xCB3B - SRL E.
    pub fn srl_e_0xcb3b(&mut self) -> (r: u64)
    ensures
        r == 8,
        *final(self) == (Z80 { registers: (Registers { e: srl_val(old(self).registers.e), f: rot_flags(srl_val(old(self).registers.e), rrc_carry(old(self).registers.e)), ..old(self).registers }), ..*old(self) }),
    {
        let v = self.registers.e;
        let v2 = self.srl(v);
        self.registers.e = v2;
        8
    }

    /// 0xCB3C - SRL H.
    pub fn srl_h_0xcb3c(&mut self) -> (r: u64)
    ensures
        r == 8,
        *final(self) == (Z80 { registers: (Registers { h: srl_val(old(self).registers.h), f: rot_flags(srl_val(old(self).registers.h), rrc_carry(old(self).registers.h)), ..old(self).registers }), ..*old(self) }),
    {
        let v = self.registers.h;
        let v2 = self.srl(v);
        self.registers.h = v2;
        8
    }

    /// 0xCB3D - SRL L.
    pub fn srl_l_0xcb3d(&mut self) -> (r: u64)
    ensures
        r == 8,
        *final(self) == (Z80 { registers: (Registers { l: srl_val(old(self).registers.l), f: rot_flags(srl_val(old(self).registers.l), rrc_carry(old(self).registers.l)), ..old(self).registers }), ..*old(self) }),
    {
        let v = self.registers.l;
        let v2 = self.srl(v);
        self.registers.l = v2;
        8
    }

    /// 0xCB3E - SRL (HL).
    pub fn srl_hl_0xcb3e(&mut self) -> (r: u64)
    requires
        cpu_wf(*old(self)),
    ensures
        r == 16,
        final(self).registers == (Registers { f: rot_flags(srl_val(mmu_read_spec(old(self).mmu@, ((old(self).registers.h) * 256 + (old(self).registers.l)) as u16)), rrc_carry(mmu_read_spec(old(self).mmu@, ((old(self).registers.h) * 256 + (old(self).registers.l)) as u16))), ..old(self).registers }),
        final(self).mmu@ == mmu_write_spec(old(self).mmu@, ((old(self).registers.h) * 256 + (old(self).registers.l)) as u16, srl_val(mmu_read_spec(old(self).mmu@, ((old(self).registers.h) * 256 + (old(self).registers.l)) as u16))),
        ctrl_unchanged(*old(self), *final(self)),
        cpu_wf(*final(self)),
    {
        let hl = self.get_hl();
        let v = self.mmu.read(hl);
        let v2 = self.srl(v);
        self.mmu.write(hl, v2);
        16
    }

    /// 0xCB3F - SRL A.
    pub fn srl_a_0xcb3f(&mut self) -> (r: u64)
    ensures
        r == 8,
        *final(self) == (Z80 { registers: (Registers { a: srl_val(old(self).registers.a), f: rot_flags(srl_val(old(self).registers.a), rrc_carry(old(self).registers.a)), ..old(self).registers }), ..*old(self) }),
    {
        let v = self.registers.a;
        let v2 = self.srl(v);
        self.registers.a = v2;
        8
    }

    /// 0xCB40 - BIT 0, B.
    pub fn bit_0_b_0xcb40(&mut self) -> (r: u64)
    ensures
        r == 8,
        *final(self) == (Z80 { registers: (Registers { f: flags_byte(old(self).registers.b / pow2_bit(0) % 2 == 0, false, true, c_flag(old(self).registers.f)), ..old(self).registers }), ..*old(self) }),
    {
        let v = self.registers.b;
        self.bit(v, 0);
        8
    }

    /// 0xCB41 - BIT 0, C.
    pub fn bit_0_c_0xcb41(&mut self) -> (r: u64)
    ensures
        r == 8,
        *final(self) == (Z80 { registers: (Registers { f: flags_byte(old(self).registers.c / pow2_bit(0) % 2 == 0, false, true, c_flag(old(self).registers.f)), ..old(self).registers }), ..*old(self) }),
    {
        let v = self.registers.c;
        self.bit(v, 0);
        8
    }

    /// 0xCB42 - BIT 0, D.
    pub fn bit_0_d_0xcb42(&mut self) -> (r: u64)
    ensures
        r == 8,
        *final(self) == (Z80 { registers: (Registers { f: flags_byte(old(self).registers.d / pow2_bit(0) % 2 == 0, false, true, c_flag(old(self).registers.f)), ..old(self).registers }), ..*old(self) }),
    {
        let v = self.registers.d;
        self.bit(v, 0);
        8
    }

    /// 0xCB43 - BIT 0, E.
    pub fn bit_0_e_0xcb43(&mut self) -> (r: u64)
    ensures
        r == 8,
        *final(self) == (Z80 { registers: (Registers { f: flags_byte(old(self).registers.e / pow2_bit(0) % 2 == 0, false, true, c_flag(old(self).registers.f)), ..old(self).registers }), ..*old(self) }),
    {
        let v = self.registers.e;
        self.bit(v, 0);
        8
    }

    /// 0xCB44 - BIT 0, H.
    pub fn bit_0_h_0xcb44(&mut self) -> (r: u64)
    ensures
        r == 8,
        *final(self) == (Z80 { registers: (Registers { f: flags_byte(old(self).registers.h / pow2_bit(0) % 2 == 0, false, true, c_flag(old(self).registers.f)), ..old(self).registers }), ..*old(self) }),
    {
        let v = self.registers.h;
        self.bit(v, 0);
        8
    }

    /// 0xCB45 - BIT 0, L.
    pub fn bit_0_l_0xcb45(&mut self) -> (r: u64)
    ensures
        r == 8,
        *final(self) == (Z80 { registers: (Registers { f: flags_byte(old(self).registers.l / pow2_bit(0) % 2 == 0, false, true, c_flag(old(self).registers.f)), ..old(self).registers }), ..*old(self) }),
    {
        let v = self.registers.l;
        self.bit(v, 0);
        8
    }

    /// 0xCB46 - BIT 0, (HL).
    pub fn bit_0_hl_0xcb46(&mut self) -> (r: u64)
    requires
        cpu_wf(*old(self)),
    ensures
        r == 12,
        *final(self) == (Z80 { registers: (Registers { f: flags_byte(mmu_read_spec(old(self).mmu@, ((old(self).registers.h) * 256 + (old(self).registers.l)) as u16) / pow2_bit(0) % 2 == 0, false, true, c_flag(old(self).registers.f)), ..old(self).registers }), ..*old(self) }),
        cpu_wf(*final(self)),
    {
        let hl = self.get_hl();
        let v = self.mmu.read(hl);
        self.bit(v, 0);
        12
    }

    /// 0xCB47 - BIT 0, A.
    pub fn bit_0_a_0xcb47(&mut self) -> (r: u64)
    ensures
        r == 8,
        *final(self) == (Z80 { registers: (Registers { f: flags_byte(old(self).registers.a / pow2_bit(0) % 2 == 0, false, true, c_flag(old(self).registers.f)), ..old(self).registers }), ..*old(self) }),
    {
        let v = self.registers.a;
        self.bit(v, 0);
        8
    }

    /// 0xCB48 - BIT 1, B.
    pub fn bit_1_b_0xcb48(&mut self) -> (r: u64)
    ensures
        r == 8,
        *final(self) == (Z80 { registers: (Registers { f: flags_byte(old(self).registers.b / pow2_bit(1) % 2 == 0, false, true, c_flag(old(self).registers.f)), ..old(self).registers }), ..*old(self) }),
    {
        let v = self.registers.b;
        self.bit(v, 1);
        8
    }

    /// 0xCB49 - BIT 1, C.
    pub fn bit_1_c_0xcb49(&mut self) -> (r: u64)
    ensures
        r == 8,
        *final(self) == (Z80 { registers: (Registers { f: flags_byte(old(self).registers.c / pow2_bit(1) % 2 == 0, false, true, c_flag(old(self).registers.f)), ..old(self).registers }), ..*old(self) }),
    {
        let v = self.registers.c;
        self.bit(v, 1);
        8
    }

    /// 0xCB4A - BIT 1, D.
    pub fn bit_1_d_0xcb4a(&mut self) -> (r: u64)
    ensures
        r == 8,
        *final(self) == (Z80 { registers: (Registers { f: flags_byte(old(self).registers.d / pow2_bit(1) % 2 == 0, false, true, c_flag(old(self).registers.f)), ..old(self).registers }), ..*old(self) }),
    {
        let v = self.registers.d;
        self.bit(v, 1);
        8
    }

    /// 0xCB4B - BIT 1, E.
    pub fn bit_1_e_0xcb4b(&mut self) -> (r: u64)
    ensures
        r == 8,
        *final(self) == (Z80 { registers: (Registers { f: flags_byte(old(self).registers.e / pow2_bit(1) % 2 == 0, false, true, c_flag(old(self).registers.f)), ..old(self).registers }), ..*old(self) }),
    {
        let v = self.registers.e;
        self.bit(v, 1);
        8
    }

    /// 0xCB4C - BIT 1, H.
    pub fn bit_1_h_0xcb4c(&mut self) -> (r: u64)
    ensures
        r == 8,
        *final(self) == (Z80 { registers: (Registers { f: flags_byte(old(self).registers.h / pow2_bit(1) % 2 == 0, false, true, c_flag(old(self).registers.f)), ..old(self).registers }), ..*old(self) }),
    {
        let v = self.registers.h;
        self.bit(v, 1);
        8
    }

    /// 0xCB4D - BIT 1, L.
    pub fn bit_1_l_0xcb4d(&mut self) -> (r: u64)
    ensures
        r == 8,
        *final(self) == (Z80 { registers: (Registers { f: flags_byte(old(self).registers.l / pow2_bit(1) % 2 == 0, false, true, c_flag(old(self).registers.f)), ..old(self).registers }), ..*old(self) }),
    {
        let v = self.registers.l;
        self.bit(v, 1);
        8
    }

    /// 0xCB4E - BIT 1, (HL).
    pub fn bit_1_hl_0xcb4e(&mut self) -> (r: u64)
    requires
        cpu_wf(*old(self)),
    ensures
        r == 12,
        *final(self) == (Z80 { registers: (Registers { f: flags_byte(mmu_read_spec(old(self).mmu@, ((old(self).registers.h) * 256 + (old(self).registers.l)) as u16) / pow2_bit(1) % 2 == 0, false, true, c_flag(old(self).registers.f)), ..old(self).registers }), ..*old(self) }),
        cpu_wf(*final(self)),
    {
        let hl = self.get_hl();
        let v = self.mmu.read(hl);
        self.bit(v, 1);
        12
    }

    /// 0xCB4F - BIT 1, A.
    pub fn bit_1_a_0xcb4f(&mut self) -> (r: u64)
    ensures
        r == 8,
        *final(self) == (Z80 { registers: (Registers { f: flags_byte(old(self).registers.a / pow2_bit(1) % 2 == 0, false, true, c_flag(old(self).registers.f)), ..old(self).registers }), ..*old(self) }),
    {
        let v = self.registers.a;
        self.bit(v, 1);
        8
    }

    /// 0xCB50 - BIT 2, B.
    pub fn bit_2_b_0xcb50(&mut self) -> (r: u64)
    ensures
        r == 8,
        *final(self) == (Z80 { registers: (Registers { f: flags_byte(old(self).registers.b / pow2_bit(2) % 2 == 0, false, true, c_flag(old(self).registers.f)), ..old(self).registers }), ..*old(self) }),
    {
        let v = self.registers.b;
        self.bit(v, 2);
        8
    }

    /// 0xCB51 - BIT 2, C.
    pub fn bit_2_c_0xcb51(&mut self) -> (r: u64)
    ensures
        r == 8,
        *final(self) == (Z80 { registers: (Registers { f: flags_byte(old(self).registers.c / pow2_bit(2) % 2 == 0, false, true, c_flag(old(self).registers.f)), ..old(self).registers }), ..*old(self) }),
    {
        let v = self.registers.c;
        self.bit(v, 2);
        8
    }

    /// 0xCB52 - BIT 2, D.
    pub fn bit_2_d_0xcb52(&mut self) -> (r: u64)
    ensures
        r == 8,
        *final(self) == (Z80 { registers: (Registers { f: flags_byte(old(self).registers.d / pow2_bit(2) % 2 == 0, false, true, c_flag(old(self).registers.f)), ..old(self).registers }), ..*old(self) }),
    {
        let v = self.registers.d;
        self.bit(v, 2);
        8
    }

    /// 0xCB53 - BIT 2, E.
    pub fn bit_2_e_0xcb53(&mut self) -> (r: u64)
    ensures
        r == 8,
        *final(self) == (Z80 { registers: (Registers { f: flags_byte(old(self).registers.e / pow2_bit(2) % 2 == 0, false, true, c_flag(old(self).registers.f)), ..old(self).registers }), ..*old(self) }),
    {
        let v = self.registers.e;
        self.bit(v, 2);
        8
    }

    /// 0xCB54 - BIT 2, H.
    pub fn bit_2_h_0xcb54(&mut self) -> (r: u64)
    ensures
        r == 8,
        *final(self) == (Z80 { registers: (Registers { f: flags_byte(old(self).registers.h / pow2_bit(2) % 2 == 0, false, true, c_flag(old(self).registers.f)), ..old(self).registers }), ..*old(self) }),
    {
        let v = self.registers.h;
        self.bit(v, 2);
        8
    }

    /// 0xCB55 - BIT 2, L.
    pub fn bit_2_l_0xcb55(&mut self) -> (r: u64)
    ensures
        r == 8,
        *final(self) == (Z80 { registers: (Registers { f: flags_byte(old(self).registers.l / pow2_bit(2) % 2 == 0, false, true, c_flag(old(self).registers.f)), ..old(self).registers }), ..*old(self) }),
    {
        let v = self.registers.l;
        self.bit(v, 2);
        8
    }

    /// 0xCB56 - BIT 2, (HL).
    pub fn bit_2_hl_0xcb56(&mut self) -> (r: u64)
    requires
        cpu_wf(*old(self)),
    ensures
        r == 12,
        *final(self) == (Z80 { registers: (Registers { f: flags_byte(mmu_read_spec(old(self).mmu@, ((old(self).registers.h) * 256 + (old(self).registers.l)) as u16) / pow2_bit(2) % 2 == 0, false, true, c_flag(old(self).registers.f)), ..old(self).registers }), ..*old(self) }),
        cpu_wf(*final(self)),
    {
        let hl = self.get_hl();
        let v = self.mmu.read(hl);
        self.bit(v, 2);
        12
    }

    /// 0xCB57 - BIT 2, A.
    pub fn bit_2_a_0xcb57(&mut self) -> (r: u64)
    ensures
        r == 8,
        *final(self) == (Z80 { registers: (Registers { f: flags_byte(old(self).registers.a / pow2_bit(2) % 2 == 0, false, true, c_flag(old(self).registers.f)), ..old(self).registers }), ..*old(self) }),
    {
        let v = self.registers.a;
        self.bit(v, 2);
        8
    }

    /// 0xCB58 - BIT 3, B.
    pub fn bit_3_b_0xcb58(&mut self) -> (r: u64)
    ensures
        r == 8,
        *final(self) == (Z80 { registers: (Registers { f: flags_byte(old(self).registers.b / pow2_bit(3) % 2 == 0, false, true, c_flag(old(self).registers.f)), ..old(self).registers }), ..*old(self) }),
    {
        let v = self.registers.b;
        self.bit(v, 3);
        8
    }

    /// 0xCB59 - BIT 3, C.
    pub fn bit_3_c_0xcb59(&mut self) -> (r: u64)
    ensures
        r == 8,
        *final(self) == (Z80 { registers: (Registers { f: flags_byte(old(self).registers.c / pow2_bit(3) % 2 == 0, false, true, c_flag(old(self).registers.f)), ..old(self).registers }), ..*old(self) }),
    {
        let v = self.registers.c;
        self.bit(v, 3);
        8
    }

    /// 0xCB5A - BIT 3, D.
    pub fn bit_3_d_0xcb5a(&mut self) -> (r: u64)
    ensures
        r == 8,
        *final(self) == (Z80 { registers: (Registers { f: flags_byte(old(self).registers.d / pow2_bit(3) % 2 == 0, false, true, c_flag(old(self).registers.f)), ..old(self).registers }), ..*old(self) }),
    {
        let v = self.registers.d;
        self.bit(v, 3);
        8
    }

    /// 0xCB5B - BIT 3, E.
    pub fn bit_3_e_0xcb5b(&mut self) -> (r: u64)
    ensures
        r == 8,
        *final(self) == (Z80 { registers: (Registers { f: flags_byte(old(self).registers.e / pow2_bit(3) % 2 == 0, false, true, c_flag(old(self).registers.f)), ..old(self).registers }), ..*old(self) }),
    {
        let v = self.registers.e;
        self.bit(v, 3);
        8
    }

    /// 0xCB5C - BIT 3, H.
    pub fn bit_3_h_0xcb5c(&mut self) -> (r: u64)
    ensures
        r == 8,
        *final(self) == (Z80 { registers: (Registers { f: flags_byte(old(self).registers.h / pow2_bit(3) % 2 == 0, false, true, c_flag(old(self).registers.f)), ..old(self).registers }), ..*old(self) }),
    {
        let v = self.registers.h;
        self.bit(v, 3);
        8
    }

    /// 0xCB5D - BIT 3, L.
    pub fn bit_3_l_0xcb5d(&mut self) -> (r: u64)
    ensures
        r == 8,
        *final(self) == (Z80 { registers: (Registers { f: flags_byte(old(self).registers.l / pow2_bit(3) % 2 == 0, false, true, c_flag(old(self).registers.f)), ..old(self).registers }), ..*old(self) }),
    {
        let v = self.registers.l;
        self.bit(v, 3);
        8
    }

    /// 0xCB5E - BIT 3, (HL).
    pub fn bit_3_hl_0xcb5e(&mut self) -> (r: u64)
    requires
        cpu_wf(*old(self)),
    ensures
        r == 12,
        *final(self) == (Z80 { registers: (Registers { f: flags_byte(mmu_read_spec(old(self).mmu@, ((old(self).registers.h) * 256 + (old(self).registers.l)) as u16) / pow2_bit(3) % 2 == 0, false, true, c_flag(old(self).registers.f)), ..old(self).registers }), ..*old(self) }),
        cpu_wf(*final(self)),
    {
        let hl = self.get_hl();
        let v = self.mmu.read(hl);
        self.bit(v, 3);
        12
    }

    /// 0xCB5F - BIT 3, A.
    pub fn bit_3_a_0xcb5f(&mut self) -> (r: u64)
    ensures
        r == 8,
        *final(self) == (Z80 { registers: (Registers { f: flags_byte(old(self).registers.a / pow2_bit(3) % 2 == 0, false, true, c_flag(old(self).registers.f)), ..old(self).registers }), ..*old(self) }),
    {
        let v = self.registers.a;
        self.bit(v, 3);
        8
    }

    /// 0xCB60 - BIT 4, B.
    pub fn bit_4_b_0xcb60(&mut self) -> (r: u64)
    ensures
        r == 8,
        *final(self) == (Z80 { registers: (Registers { f: flags_byte(old(self).registers.b / pow2_bit(4) % 2 == 0, false, true, c_flag(old(self).registers.f)), ..old(self).registers }), ..*old(self) }),
    {
        let v = self.registers.b;
        self.bit(v, 4);
        8
    }

    /// 0xCB61 - BIT 4, C.
    pub fn bit_4_c_0xcb61(&mut self) -> (r: u64)
    ensures
        r == 8,
        *final(self) == (Z80 { registers: (Registers { f: flags_byte(old(self).registers.c / pow2_bit(4) % 2 == 0, false, true, c_flag(old(self).registers.f)), ..old(self).registers }), ..*old(self) }),
    {
        let v = self.registers.c;
        self.bit(v, 4);
        8
    }

    /// 0xCB62 - BIT 4, D.
    pub fn bit_4_d_0xcb62(&mut self) -> (r: u64)
    ensures
        r == 8,
        *final(self) == (Z80 { registers: (Registers { f: flags_byte(old(self).registers.d / pow2_bit(4) % 2 == 0, false, true, c_flag(old(self).registers.f)), ..old(self).registers }), ..*old(self) }),
    {
        let v = self.registers.d;
        self.bit(v, 4);
        8
    }

    /// 0xCB63 - BIT 4, E.
    pub fn bit_4_e_0xcb63(&mut self) -> (r: u64)
    ensures
        r == 8,
        *final(self) == (Z80 { registers: (Registers { f: flags_byte(old(self).registers.e / pow2_bit(4) % 2 == 0, false, true, c_flag(old(self).registers.f)), ..old(self).registers }), ..*old(self) }),
    {
        let v = self.registers.e;
        self.bit(v, 4);
        8
    }

    /// 0xCB64 - BIT 4, H.
    pub fn bit_4_h_0xcb64(&mut self) -> (r: u64)
    ensures
        r == 8,
        *final(self) == (Z80 { registers: (Registers { f: flags_byte(old(self).registers.h / pow2_bit(4) % 2 == 0, false, true, c_flag(old(self).registers.f)), ..old(self).registers }), ..*old(self) }),
    {
        let v = self.registers.h;
        self.bit(v, 4);
        8
    }

    /// 0xCB65 - BIT 4, L.
    pub fn bit_4_l_0xcb65(&mut self) -> (r: u64)
    ensures
        r == 8,
        *final(self) == (Z80 { registers: (Registers { f: flags_byte(old(self).registers.l / pow2_bit(4) % 2 == 0, false, true, c_flag(old(self).registers.f)), ..old(self).registers }), ..*old(self) }),
    {
        let v = self.registers.l;
        self.bit(v, 4);
        8
    }

    /// 0xCB66 - BIT 4, (HL).
    pub fn bit_4_hl_0xcb66(&mut self) -> (r: u64)
    requires
        cpu_wf(*old(self)),
    ensures
        r == 12,
        *final(self) == (Z80 { registers: (Registers { f: flags_byte(mmu_read_spec(old(self).mmu@, ((old(self).registers.h) * 256 + (old(self).registers.l)) as u16) / pow2_bit(4) % 2 == 0, false, true, c_flag(old(self).registers.f)), ..old(self).registers }), ..*old(self) }),
        cpu_wf(*final(self)),
    {
        let hl = self.get_hl();
        let v = self.mmu.read(hl);
        self.bit(v, 4);
        12
    }

    /// 0xCB67 - BIT 4, A.
    pub fn bit_4_a_0xcb67(&mut self) -> (r: u64)
    ensures
        r == 8,
        *final(self) == (Z80 { registers: (Registers { f: flags_byte(old(self).registers.a / pow2_bit(4) % 2 == 0, false, true, c_flag(old(self).registers.f)), ..old(self).registers }), ..*old(self) }),
    {
        let v = self.registers.a;
        self.bit(v, 4);
        8
    }

    /// 0xCB68 - BIT 5, B.
    pub fn bit_5_b_0xcb68(&mut self) -> (r: u64)
    ensures
        r == 8,
        *final(self) == (Z80 { registers: (Registers { f: flags_byte(old(self).registers.b / pow2_bit(5) % 2 == 0, false, true, c_flag(old(self).registers.f)), ..old(self).registers }), ..*old(self) }),
    {
        let v = self.registers.b;
        self.bit(v, 5);
        8
    }

    /// 0xCB69 - BIT 5, C.
    pub fn bit_5_c_0xcb69(&mut self) -> (r: u64)
    ensures
        r == 8,
        *final(self) == (Z80 { registers: (Registers { f: flags_byte(old(self).registers.c / pow2_bit(5) % 2 == 0, false, true, c_flag(old(self).registers.f)), ..old(self).registers }), ..*old(self) }),
    {
        let v = self.registers.c;
        self.bit(v, 5);
        8
    }

    /// 0xCB6A - BIT 5, D.
    pub fn bit_5_d_0xcb6a(&mut self) -> (r: u64)
    ensures
        r == 8,
        *final(self) == (Z80 { registers: (Registers { f: flags_byte(old(self).registers.d / pow2_bit(5) % 2 == 0, false, true, c_flag(old(self).registers.f)), ..old(self).registers }), ..*old(self) }),
    {
        let v = self.registers.d;
        self.bit(v, 5);
        8
    }

    /// 0xCB6B - BIT 5, E.
    pub fn bit_5_e_0xcb6b(&mut self) -> (r: u64)
    ensures
        r == 8,
        *final(self) == (Z80 { registers: (Registers { f: flags_byte(old(self).registers.e / pow2_bit(5) % 2 == 0, false, true, c_flag(old(self).registers.f)), ..old(self).registers }), ..*old(self) }),
    {
        let v = self.registers.e;
        self.bit(v, 5);
        8
    }

    /// 0xCB6C - BIT 5, H.
    pub fn bit_5_h_0xcb6c(&mut self) -> (r: u64)
    ensures
        r == 8,
        *final(self) == (Z80 { registers: (Registers { f: flags_byte(old(self).registers.h / pow2_bit(5) % 2 == 0, false, true, c_flag(old(self).registers.f)), ..old(self).registers }), ..*old(self) }),
    {
        let v = self.registers.h;
        self.bit(v, 5);
        8
    }

    /// 0xCB6D - BIT 5, L.
    pub fn bit_5_l_0xcb6d(&mut self) -> (r: u64)
    ensures
        r == 8,
        *final(self) == (Z80 { registers: (Registers { f: flags_byte(old(self).registers.l / pow2_bit(5) % 2 == 0, false, true, c_flag(old(self).registers.f)), ..old(self).registers }), ..*old(self) }),
    {
        let v = self.registers.l;
        self.bit(v, 5);
        8
    }

    /// 0xCB6E - BIT 5, (HL).
    pub fn bit_5_hl_0xcb6e(&mut self) -> (r: u64)
    requires
        cpu_wf(*old(self)),
    ensures
        r == 12,
        *final(self) == (Z80 { registers: (Registers { f: flags_byte(mmu_read_spec(old(self).mmu@, ((old(self).registers.h) * 256 + (old(self).registers.l)) as u16) / pow2_bit(5) % 2 == 0, false, true, c_flag(old(self).registers.f)), ..old(self).registers }), ..*old(self) }),
        cpu_wf(*final(self)),
    {
        let hl = self.get_hl();
        let v = self.mmu.read(hl);
        self.bit(v, 5);
        12
    }

    /// 0xCB6F - BIT 5, A.
    pub fn bit_5_a_0xcb6f(&mut self) -> (r: u64)
    ensures
        r == 8,
        *final(self) == (Z80 { registers: (Registers { f: flags_byte(old(self).registers.a / pow2_bit(5) % 2 == 0, false, true, c_flag(old(self).registers.f)), ..old(self).registers }), ..*old(self) }),
    {
        let v = self.registers.a;
        self.bit(v, 5);
        8
    }

    /// 0xCB70 - BIT 6, B.
    pub fn bit_6_b_0xcb70(&mut self) -> (r: u64)
    ensures
        r == 8,
        *final(self) == (Z80 { registers: (Registers { f: flags_byte(old(self).registers.b / pow2_bit(6) % 2 == 0, false, true, c_flag(old(self).registers.f)), ..old(self).registers }), ..*old(self) }),
    {
        let v = self.registers.b;
        self.bit(v, 6);
        8
    }

    /// 0xCB71 - BIT 6, C.
    pub fn bit_6_c_0xcb71(&mut self) -> (r: u64)
    ensures
        r == 8,
        *final(self) == (Z80 { registers: (Registers { f: flags_byte(old(self).registers.c / pow2_bit(6) % 2 == 0, false, true, c_flag(old(self).registers.f)), ..old(self).registers }), ..*old(self) }),
    {
        let v = self.registers.c;
        self.bit(v, 6);
        8
    }

    /// 0xCB72 - BIT 6, D.
    pub fn bit_6_d_0xcb72(&mut self) -> (r: u64)
    ensures
        r == 8,
        *final(self) == (Z80 { registers: (Registers { f: flags_byte(old(self).registers.d / pow2_bit(6) % 2 == 0, false, true, c_flag(old(self).registers.f)), ..old(self).registers }), ..*old(self) }),
    {
        let v = self.registers.d;
        self.bit(v, 6);
        8
    }

    /// 0xCB73 - BIT 6, E.
    pub fn bit_6_e_0xcb73(&mut self) -> (r: u64)
    ensures
        r == 8,
        *final(self) == (Z80 { registers: (Registers { f: flags_byte(old(self).registers.e / pow2_bit(6) % 2 == 0, false, true, c_flag(old(self).registers.f)), ..old(self).registers }), ..*old(self) }),
    {
        let v = self.registers.e;
        self.bit(v, 6);
        8
    }

    /// 0xCB74 - BIT 6, H.
    pub fn bit_6_h_0xcb74(&mut self) -> (r: u64)
    ensures
        r == 8,
        *final(self) == (Z80 { registers: (Registers { f: flags_byte(old(self).registers.h / pow2_bit(6) % 2 == 0, false, true, c_flag(old(self).registers.f)), ..old(self).registers }), ..*old(self) }),
    {
        let v = self.registers.h;
        self.bit(v, 6);
        8
    }

    /// 0xCB75 - BIT 6, L.
    pub fn bit_6_l_0xcb75(&mut self) -> (r: u64)
    ensures
        r == 8,
        *final(self) == (Z80 { registers: (Registers { f: flags_byte(old(self).registers.l / pow2_bit(6) % 2 == 0, false, true, c_flag(old(self).registers.f)), ..old(self).registers }), ..*old(self) }),
    {
        let v = self.registers.l;
        self.bit(v, 6);
        8
    }

    /// 0xCB76 - BIT 6, (HL).
    pub fn bit_6_hl_0xcb76(&mut self) -> (r: u64)
    requires
        cpu_wf(*old(self)),
    ensures
        r == 12,
        *final(self) == (Z80 { registers: (Registers { f: flags_byte(mmu_read_spec(old(self).mmu@, ((old(self).registers.h) * 256 + (old(self).registers.l)) as u16) / pow2_bit(6) % 2 == 0, false, true, c_flag(old(self).registers.f)), ..old(self).registers }), ..*old(self) }),
        cpu_wf(*final(self)),
    {
        let hl = self.get_hl();
        let v = self.mmu.read(hl);
        self.bit(v, 6);
        12
    }

    /// 0xCB77 - BIT 6, A.
    pub fn bit_6_a_0xcb77(&mut self) -> (r: u64)
    ensures
        r == 8,
        *final(self) == (Z80 { registers: (Registers { f: flags_byte(old(self).registers.a / pow2_bit(6) % 2 == 0, false, true, c_flag(old(self).registers.f)), ..old(self).registers }), ..*old(self) }),
    {
        let v = self.registers.a;
        self.bit(v, 6);
        8
    }

    /// 0xCB78 - BIT 7, B.
    pub fn bit_7_b_0xcb78(&mut self) -> (r: u64)
    ensures
        r == 8,
        *final(self) == (Z80 { registers: (Registers { f: flags_byte(old(self).registers.b / pow2_bit(7) % 2 == 0, false, true, c_flag(old(self).registers.f)), ..old(self).registers }), ..*old(self) }),
    {
        let v = self.registers.b;
        self.bit(v, 7);
        8
    }

    /// 0xCB79 - BIT 7, C.
    pub fn bit_7_c_0xcb79(&mut self) -> (r: u64)
    ensures
        r == 8,
        *final(self) == (Z80 { registers: (Registers { f: flags_byte(old(self).registers.c / pow2_bit(7) % 2 == 0, false, true, c_flag(old(self).registers.f)), ..old(self).registers }), ..*old(self) }),
    {
        let v = self.registers.c;
        self.bit(v, 7);
        8
    }

    /// 0xCB7A - BIT 7, D.
    pub fn bit_7_d_0xcb7a(&mut self) -> (r: u64)
    ensures
        r == 8,
        *final(self) == (Z80 { registers: (Registers { f: flags_byte(old(self).registers.d / pow2_bit(7) % 2 == 0, false, true, c_flag(old(self).registers.f)), ..old(self).registers }), ..*old(self) }),
    {
        let v = self.registers.d;
        self.bit(v, 7);
        8
    }

    /// 0xCB7B - BIT 7, E.
    pub fn bit_7_e_0xcb7b(&mut self) -> (r: u64)
    ensures
        r == 8,
        *final(self) == (Z80 { registers: (Registers { f: flags_byte(old(self).registers.e / pow2_bit(7) % 2 == 0, false, true, c_flag(old(self).registers.f)), ..old(self).registers }), ..*old(self) }),
    {
        let v = self.registers.e;
        self.bit(v, 7);
        8
    }

    /// 0xCB7C - BIT 7, H.
    pub fn bit_7_h_0xcb7c(&mut self) -> (r: u64)
    ensures
        r == 8,
        *final(self) == (Z80 { registers: (Registers { f: flags_byte(old(self).registers.h / pow2_bit(7) % 2 == 0, false, true, c_flag(old(self).registers.f)), ..old(self).registers }), ..*old(self) }),
    {
        let v = self.registers.h;
        self.bit(v, 7);
        8
    }

    /// 0xCB7D - BIT 7, L.
    pub fn bit_7_l_0xcb7d(&mut self) -> (r: u64)
    ensures
        r == 8,
        *final(self) == (Z80 { registers: (Registers { f: flags_byte(old(self).registers.l / pow2_bit(7) % 2 == 0, false, true, c_flag(old(self).registers.f)), ..old(self).registers }), ..*old(self) }),
    {
        let v = self.registers.l;
        self.bit(v, 7);
        8
    }

    /// 0xCB7E - BIT 7, (HL).
    pub fn bit_7_hl_0xcb7e(&mut self) -> (r: u64)
    requires
        cpu_wf(*old(self)),
    ensures
        r == 12,
        *final(self) == (Z80 { registers: (Registers { f: flags_byte(mmu_read_spec(old(self).mmu@, ((old(self).registers.h) * 256 + (old(self).registers.l)) as u16) / pow2_bit(7) % 2 == 0, false, true, c_flag(old(self).registers.f)), ..old(self).registers }), ..*old(self) }),
        cpu_wf(*final(self)),
    {
        let hl = self.get_hl();
        let v = self.mmu.read(hl);
        self.bit(v, 7);
        12
    }

    /// 0xCB7F - BIT 7, A.
    pub fn bit_7_a_0xcb7f(&mut self) -> (r: u64)
    ensures
        r == 8,
        *final(self) == (Z80 { registers: (Registers { f: flags_byte(old(self).registers.a / pow2_bit(7) % 2 == 0, false, true, c_flag(old(self).registers.f)), ..old(self).registers }), ..*old(self) }),
    {
        let v = self.registers.a;
        self.bit(v, 7);
        8
    }

    /// 0xCB80 - RES 0, B.
    pub fn res_0_b_0xcb80(&mut self) -> (r: u64)
    ensures
        r == 8,
        *final(self) == (Z80 { registers: (Registers { b: res_bit_spec(old(self).registers.b, 0), ..old(self).registers }), ..*old(self) }),
    {
        let v = self.registers.b;
        let v2 = self.res_bit(v, 0);
        self.registers.b = v2;
        8
    }

    /// 0xCB81 - RES 0, C.
    pub fn res_0_c_0xcb81(&mut self) -> (r: u64)
    ensures
        r == 8,
        *final(self) == (Z80 { registers: (Registers { c: res_bit_spec(old(self).registers.c, 0), ..old(self).registers }), ..*old(self) }),
    {
        let v = self.registers.c;
        let v2 = self.res_bit(v, 0);
        self.registers.c = v2;
        8
    }

    /// 0xCB82 - RES 0, D.
    pub fn res_0_d_0xcb82(&mut self) -> (r: u64)
    ensures
        r == 8,
        *final(self) == (Z80 { registers: (Registers { d: res_bit_spec(old(self).registers.d, 0), ..old(self).registers }), ..*old(self) }),
    {
        let v = self.registers.d;
        let v2 = self.res_bit(v, 0);
        self.registers.d = v2;
        8
    }

    /// 0xCB83 - RES 0, E.
    pub fn res_0_e_0xcb83(&mut self) -> (r: u64)
    ensures
        r == 8,
        *final(self) == (Z80 { registers: (Registers { e: res_bit_spec(old(self).registers.e, 0), ..old(self).registers }), ..*old(self) }),
    {
        let v = self.registers.e;
        let v2 = self.res_bit(v, 0);
        self.registers.e = v2;
        8
    }

    /// 0xCB84 - RES 0, H.
    pub fn res_0_h_0xcb84(&mut self) -> (r: u64)
    ensures
        r == 8,
        *final(self) == (Z80 { registers: (Registers { h: res_bit_spec(old(self).registers.h, 0), ..old(self).registers }), ..*old(self) }),
    {
        let v = self.registers.h;
        let v2 = self.res_bit(v, 0);
        self.registers.h = v2;
        8
    }

    /// 0xCB85 - RES 0, L.
    pub fn res_0_l_0xcb85(&mut self) -> (r: u64)
    ensures
        r == 8,
        *final(self) == (Z80 { registers: (Registers { l: res_bit_spec(old(self).registers.l, 0), ..old(self).registers }), ..*old(self) }),
    {
        let v = self.registers.l;
        let v2 = self.res_bit(v, 0);
        self.registers.l = v2;
        8
    }

    /// 0xCB86 - RES 0, (HL).
    pub fn res_0_hl_0xcb86(&mut self) -> (r: u64)
    requires
        cpu_wf(*old(self)),
    ensures
        r == 16,
        final(self).registers == old(self).registers,
        final(self).mmu@ == mmu_write_spec(old(self).mmu@, ((old(self).registers.h) * 256 + (old(self).registers.l)) as u16, res_bit_spec(mmu_read_spec(old(self).mmu@, ((old(self).registers.h) * 256 + (old(self).registers.l)) as u16), 0)),
        ctrl_unchanged(*old(self), *final(self)),
        cpu_wf(*final(self)),
    {
        let hl = self.get_hl();
        let v = self.mmu.read(hl);
        let v2 = self.res_bit(v, 0);
        self.mmu.write(hl, v2);
        16
    }

    /// 0xCB87 - RES 0, A.
    pub fn res_0_a_0xcb87(&mut self) -> (r: u64)
    ensures
        r == 8,
        *final(self) == (Z80 { registers: (Registers { a: res_bit_spec(old(self).registers.a, 0), ..old(self).registers }), ..*old(self) }),
    {
        let v = self.registers.a;
        let v2 = self.res_bit(v, 0);
        self.registers.a = v2;
        8
    }

    /// 0xCB88 - RES 1, B.
    pub fn res_1_b_0xcb88(&mut self) -> (r: u64)
    ensures
        r == 8,
        *final(self) == (Z80 { registers: (Registers { b: res_bit_spec(old(self).registers.b, 1), ..old(self).registers }), ..*old(self) }),
    {
        let v = self.registers.b;
        let v2 = self.res_bit(v, 1);
        self.registers.b = v2;
        8
    }

    /// 0xCB89 - RES 1, C.
    pub fn res_1_c_0xcb89(&mut self) -> (r: u64)
    ensures
        r == 8,
        *final(self) == (Z80 { registers: (Registers { c: res_bit_spec(old(self).registers.c, 1), ..old(self).registers }), ..*old(self) }),
    {
        let v = self.registers.c;
        let v2 = self.res_bit(v, 1);
        self.registers.c = v2;
        8
    }

    /// 0xCB8A - RES 1, D.
    pub fn res_1_d_0xcb8a(&mut self) -> (r: u64)
    ensures
        r == 8,
        *final(self) == (Z80 { registers: (Registers { d: res_bit_spec(old(self).registers.d, 1), ..old(self).registers }), ..*old(self) }),
    {
        let v = self.registers.d;
        let v2 = self.res_bit(v, 1);
        self.registers.d = v2;
        8
    }

    /// 0xCB8B - RES 1, E.
    pub fn res_1_e_0xcb8b(&mut self) -> (r: u64)
    ensures
        r == 8,
        *final(self) == (Z80 { registers: (Registers { e: res_bit_spec(old(self).registers.e, 1), ..old(self).registers }), ..*old(self) }),
    {
        let v = self.registers.e;
        let v2 = self.res_bit(v, 1);
        self.registers.e = v2;
        8
    }

    /// 0xCB8C - RES 1, H.
    pub fn res_1_h_0xcb8c(&mut self) -> (r: u64)
    ensures
        r == 8,
        *final(self) == (Z80 { registers: (Registers { h: res_bit_spec(old(self).registers.h, 1), ..old(self).registers }), ..*old(self) }),
    {
        let v = self.registers.h;
        let v2 = self.res_bit(v, 1);
        self.registers.h = v2;
        8
    }

    /// 0xCB8D - RES 1, L.
    pub fn res_1_l_0xcb8d(&mut self) -> (r: u64)
    ensures
        r == 8,
        *final(self) == (Z80 { registers: (Registers { l: res_bit_spec(old(self).registers.l, 1), ..old(self).registers }), ..*old(self) }),
    {
        let v = self.registers.l;
        let v2 = self.res_bit(v, 1);
        self.registers.l = v2;
        8
    }

    /// 0xCB8E - RES 1, (HL).
    pub fn res_1_hl_0xcb8e(&mut self) -> (r: u64)
    requires
        cpu_wf(*old(self)),
    ensures
        r == 16,
        final(self).registers == old(self).registers,
        final(self).mmu@ == mmu_write_spec(old(self).mmu@, ((old(self).registers.h) * 256 + (old(self).registers.l)) as u16, res_bit_spec(mmu_read_spec(old(self).mmu@, ((old(self).registers.h) * 256 + (old(self).registers.l)) as u16), 1)),
        ctrl_unchanged(*old(self), *final(self)),
        cpu_wf(*final(self)),
    {
        let hl = self.get_hl();
        let v = self.mmu.read(hl);
        let v2 = self.res_bit(v, 1);
        self.mmu.write(hl, v2);
        16
    }

    /// 0xCB8F - RES 1, A.
    pub fn res_1_a_0xcb8f(&mut self) -> (r: u64)
    ensures
        r == 8,
        *final(self) == (Z80 { registers: (Registers { a: res_bit_spec(old(self).registers.a, 1), ..old(self).registers }), ..*old(self) }),
    {
        let v = self.registers.a;
        let v2 = self.res_bit(v, 1);
        self.registers.a = v2;
        8
    }

    /// 0xCB90 - RES 2, B.
    pub fn res_2_b_0xcb90(&mut self) -> (r: u64)
    ensures
        r == 8,
        *final(self) == (Z80 { registers: (Registers { b: res_bit_spec(old(self).registers.b, 2), ..old(self).registers }), ..*old(self) }),
    {
        let v = self.registers.b;
        let v2 = self.res_bit(v, 2);
        self.registers.b = v2;
        8
    }

    /// 0xCB91 - RES 2, C.
    pub fn res_2_c_0xcb91(&mut self) -> (r: u64)
    ensures
        r == 8,
        *final(self) == (Z80 { registers: (Registers { c: res_bit_spec(old(self).registers.c, 2), ..old(self).registers }), ..*old(self) }),
    {
        let v = self.registers.c;
        let v2 = self.res_bit(v, 2);
        self.registers.c = v2;
        8
    }

    /// 0xCB92 - RES 2, D.
    pub fn res_2_d_0xcb92(&mut self) -> (r: u64)
    ensures
        r == 8,
        *final(self) == (Z80 { registers: (Registers { d: res_bit_spec(old(self).registers.d, 2), ..old(self).registers }), ..*old(self) }),
    {
        let v = self.registers.d;
        let v2 = self.res_bit(v, 2);
        self.registers.d = v2;
        8
    }

    /// 0xCB93 - RES 2, E.
    pub fn res_2_e_0xcb93(&mut self) -> (r: u64)
    ensures
        r == 8,
        *final(self) == (Z80 { registers: (Registers { e: res_bit_spec(old(self).registers.e, 2), ..old(self).registers }), ..*old(self) }),
    {
        let v = self.registers.e;
        let v2 = self.res_bit(v, 2);
        self.registers.e = v2;
        8
    }

    /// 0xCB94 - RES 2, H.
    pub fn res_2_h_0xcb94(&mut self) -> (r: u64)
    ensures
        r == 8,
        *final(self) == (Z80 { registers: (Registers { h: res_bit_spec(old(self).registers.h, 2), ..old(self).registers }), ..*old(self) }),
    {
        let v = self.registers.h;
        let v2 = self.res_bit(v, 2);
        self.registers.h = v2;
        8
    }

    /// 0xCB95 - RES 2, L.
    pub fn res_2_l_0xcb95(&mut self) -> (r: u64)
    ensures
        r == 8,
        *final(self) == (Z80 { registers: (Registers { l: res_bit_spec(old(self).registers.l, 2), ..old(self).registers }), ..*old(self) }),
    {
        let v = self.registers.l;
        let v2 = self.res_bit(v, 2);
        self.registers.l = v2;
        8
    }

    /// 0xCB96 - RES 2, (HL).
    pub fn res_2_hl_0xcb96(&mut self) -> (r: u64)
    requires
        cpu_wf(*old(self)),
    ensures
        r == 16,
        final(self).registers == old(self).registers,
        final(self).mmu@ == mmu_write_spec(old(self).mmu@, ((old(self).registers.h) * 256 + (old(self).registers.l)) as u16, res_bit_spec(mmu_read_spec(old(self).mmu@, ((old(self).registers.h) * 256 + (old(self).registers.l)) as u16), 2)),
        ctrl_unchanged(*old(self), *final(self)),
        cpu_wf(*final(self)),
    {
        let hl = self.get_hl();
        let v = self.mmu.read(hl);
        let v2 = self.res_bit(v, 2);
        self.mmu.write(hl, v2);
        16
    }

    /// 0xCB97 - RES 2, A.
    pub fn res_2_a_0xcb97(&mut self) -> (r: u64)
    ensures
        r == 8,
        *final(self) == (Z80 { registers: (Registers { a: res_bit_spec(old(self).registers.a, 2), ..old(self).registers }), ..*old(self) }),
    {
        let v = self.registers.a;
        let v2 = self.res_bit(v, 2);
        self.registers.a = v2;
        8
    }

    /// 0xCB98 - RES 3, B.
    pub fn res_3_b_0xcb98(&mut self) -> (r: u64)
    ensures
        r == 8,
        *final(self) == (Z80 { registers: (Registers { b: res_bit_spec(old(self).registers.b, 3), ..old(self).registers }), ..*old(self) }),
    {
        let v = self.registers.b;
        let v2 = self.res_bit(v, 3);
        self.registers.b = v2;
        8
    }

    /// 0xCB99 - RES 3, C.
    pub fn res_3_c_0xcb99(&mut self) -> (r: u64)
    ensures
        r == 8,
        *final(self) == (Z80 { registers: (Registers { c: res_bit_spec(old(self).registers.c, 3), ..old(self).registers }), ..*old(self) }),
    {
        let v = self.registers.c;
        let v2 = self.res_bit(v, 3);
        self.registers.c = v2;
        8
    }

    /// 0xCB9A - RES 3, D.
    pub fn res_3_d_0xcb9a(&mut self) -> (r: u64)
    ensures
        r == 8,
        *final(self) == (Z80 { registers: (Registers { d: res_bit_spec(old(self).registers.d, 3), ..old(self).registers }), ..*old(self) }),
    {
        let v = self.registers.d;
        let v2 = self.res_bit(v, 3);
        self.registers.d = v2;
        8
    }

    /// 0xCB9B - RES 3, E.
    pub fn res_3_e_0xcb9b(&mut self) -> (r: u64)
    ensures
        r == 8,
        *final(self) == (Z80 { registers: (Registers { e: res_bit_spec(old(self).registers.e, 3), ..old(self).registers }), ..*old(self) }),
    {
        let v = self.registers.e;
        let v2 = self.res_bit(v, 3);
        self.registers.e = v2;
        8
    }

    /// 0xCB9C - RES 3, H.
    pub fn res_3_h_0xcb9c(&mut self) -> (r: u64)
    ensures
        r == 8,
        *final(self) == (Z80 { registers: (Registers { h: res_bit_spec(old(self).registers.h, 3), ..old(self).registers }), ..*old(self) }),
    {
        let v = self.registers.h;
        let v2 = self.res_bit(v, 3);
        self.registers.h = v2;
        8
    }

    /// 0xCB9D - RES 3, L.
    pub fn res_3_l_0xcb9d(&mut self) -> (r: u64)
    ensures
        r == 8,
        *final(self) == (Z80 { registers: (Registers { l: res_bit_spec(old(self).registers.l, 3), ..old(self).registers }), ..*old(self) }),
    {
        let v = self.registers.l;
        let v2 = self.res_bit(v, 3);
        self.registers.l = v2;
        8
    }

    /// 0xCB9E - RES 3, (HL).
    pub fn res_3_hl_0xcb9e(&mut self) -> (r: u64)
    requires
        cpu_wf(*old(self)),
    ensures
        r == 16,
        final(self).registers == old(self).registers,
        final(self).mmu@ == mmu_write_spec(old(self).mmu@, ((old(self).registers.h) * 256 + (old(self).registers.l)) as u16, res_bit_spec(mmu_read_spec(old(self).mmu@, ((old(self).registers.h) * 256 + (old(self).registers.l)) as u16), 3)),
        ctrl_unchanged(*old(self), *final(self)),
        cpu_wf(*final(self)),
    {
        let hl = self.get_hl();
        let v = self.mmu.read(hl);
        let v2 = self.res_bit(v, 3);
        self.mmu.write(hl, v2);
        16
    }

    /// 0xCB9F - RES 3, A.
    pub fn res_3_a_0xcb9f(&mut self) -> (r: u64)
    ensures
        r == 8,
        *final(self) == (Z80 { registers: (Registers { a: res_bit_spec(old(self).registers.a, 3), ..old(self).registers }), ..*old(self) }),
    {
        let v = self.registers.a;
        let v2 = self.res_bit(v, 3);
        self.registers.a = v2;
        8
    }

    /// 0xCBA0 - RES 4, B.
    pub fn res_4_b_0xcba0(&mut self) -> (r: u64)
    ensures
        r == 8,
        *final(self) == (Z80 { registers: (Registers { b: res_bit_spec(old(self).registers.b, 4), ..old(self).registers }), ..*old(self) }),
    {
        let v = self.registers.b;
        let v2 = self.res_bit(v, 4);
        self.registers.b = v2;
        8
    }

    /// 0xCBA1 - RES 4, C.
    pub fn res_4_c_0xcba1(&mut self) -> (r: u64)
    ensures
        r == 8,
        *final(self) == (Z80 { registers: (Registers { c: res_bit_spec(old(self).registers.c, 4), ..old(self).registers }), ..*old(self) }),
    {
        let v = self.registers.c;
        let v2 = self.res_bit(v, 4);
        self.registers.c = v2;
        8
    }

    /// 0xCBA2 - RES 4, D.
    pub fn res_4_d_0xcba2(&mut self) -> (r: u64)
    ensures
        r == 8,
        *final(self) == (Z80 { registers: (Registers { d: res_bit_spec(old(self).registers.d, 4), ..old(self).registers }), ..*old(self) }),
    {
        let v = self.registers.d;
        let v2 = self.res_bit(v, 4);
        self.registers.d = v2;
        8
    }

    /// 0xCBA3 - RES 4, E.
    pub fn res_4_e_0xcba3(&mut self) -> (r: u64)
    ensures
        r == 8,
        *final(self) == (Z80 { registers: (Registers { e: res_bit_spec(old(self).registers.e, 4), ..old(self).registers }), ..*old(self) }),
    {
        let v = self.registers.e;
        let v2 = self.res_bit(v, 4);
        self.registers.e = v2;
        8
    }

    /// 0xCBA4 - RES 4, H.
    pub fn res_4_h_0xcba4(&mut self) -> (r: u64)
    ensures
        r == 8,
        *final(self) == (Z80 { registers: (Registers { h: res_bit_spec(old(self).registers.h, 4), ..old(self).registers }), ..*old(self) }),
    {
        let v = self.registers.h;
        let v2 = self.res_bit(v, 4);
        self.registers.h = v2;
        8
    }

    /// 0xCBA5 - RES 4, L.
    pub fn res_4_l_0xcba5(&mut self) -> (r: u64)
    ensures
        r == 8,
        *final(self) == (Z80 { registers: (Registers { l: res_bit_spec(old(self).registers.l, 4), ..old(self).registers }), ..*old(self) }),
    {
        let v = self.registers.l;
        let v2 = self.res_bit(v, 4);
        self.registers.l = v2;
        8
    }

    /// 0xCBA6 - RES 4, (HL).
    pub fn res_4_hl_0xcba6(&mut self) -> (r: u64)
    requires
        cpu_wf(*old(self)),
    ensures
        r == 16,
        final(self).registers == old(self).registers,
        final(self).mmu@ == mmu_write_spec(old(self).mmu@, ((old(self).registers.h) * 256 + (old(self).registers.l)) as u16, res_bit_spec(mmu_read_spec(old(self).mmu@, ((old(self).registers.h) * 256 + (old(self).registers.l)) as u16), 4)),
        ctrl_unchanged(*old(self), *final(self)),
        cpu_wf(*final(self)),
    {
        let hl = self.get_hl();
        let v = self.mmu.read(hl);
        let v2 = self.res_bit(v, 4);
        self.mmu.write(hl, v2);
        16
    }

    /// 0xCBA7 - RES 4, A.
    pub fn res_4_a_0xcba7(&mut self) -> (r: u64)
    ensures
        r == 8,
        *final(self) == (Z80 { registers: (Registers { a: res_bit_spec(old(self).registers.a, 4), ..old(self).registers }), ..*old(self) }),
    {
        let v = self.registers.a;
        let v2 = self.res_bit(v, 4);
        self.registers.a = v2;
        8
    }

    /// 0xCBA8 - RES 5, B.
    pub fn res_5_b_0xcba8(&mut self) -> (r: u64)
    ensures
        r == 8,
        *final(self) == (Z80 { registers: (Registers { b: res_bit_spec(old(self).registers.b, 5), ..old(self).registers }), ..*old(self) }),
    {
        let v = self.registers.b;
        let v2 = self.res_bit(v, 5);
        self.registers.b = v2;
        8
    }

    /// 0xCBA9 - RES 5, C.
    pub fn res_5_c_0xcba9(&mut self) -> (r: u64)
    ensures
        r == 8,
        *final(self) == (Z80 { registers: (Registers { c: res_bit_spec(old(self).registers.c, 5), ..old(self).registers }), ..*old(self) }),
    {
        let v = self.registers.c;
        let v2 = self.res_bit(v, 5);
        self.registers.c = v2;
        8
    }

    /// 0xCBAA - RES 5, D.
    pub fn res_5_d_0xcbaa(&mut self) -> (r: u64)
    ensures
        r == 8,
        *final(self) == (Z80 { registers: (Registers { d: res_bit_spec(old(self).registers.d, 5), ..old(self).registers }), ..*old(self) }),
    {
        let v = self.registers.d;
        let v2 = self.res_bit(v, 5);
        self.registers.d = v2;
        8
    }

    /// 0xCBAB - RES 5, E.
    pub fn res_5_e_0xcbab(&mut self) -> (r: u64)
    ensures
        r == 8,
        *final(self) == (Z80 { registers: (Registers { e: res_bit_spec(old(self).registers.e, 5), ..old(self).registers }), ..*old(self) }),
    {
        let v = self.registers.e;
        let v2 = self.res_bit(v, 5);
        self.registers.e = v2;
        8
    }

    /// 0xCBAC - RES 5, H.
    pub fn res_5_h_0xcbac(&mut self) -> (r: u64)
    ensures
        r == 8,
        *final(self) == (Z80 { registers: (Registers { h: res_bit_spec(old(self).registers.h, 5), ..old(self).registers }), ..*old(self) }),
    {
        let v = self.registers.h;
        let v2 = self.res_bit(v, 5);
        self.registers.h = v2;
        8
    }

    /// 0xCBAD - RES 5, L.
    pub fn res_5_l_0xcbad(&mut self) -> (r: u64)
    ensures
        r == 8,
        *final(self) == (Z80 { registers: (Registers { l: res_bit_spec(old(self).registers.l, 5), ..old(self).registers }), ..*old(self) }),
    {
        let v = self.registers.l;
        let v2 = self.res_bit(v, 5);
        self.registers.l = v2;
        8
    }

    /// 0xCBAE - RES 5, (HL).
    pub fn res_5_hl_0xcbae(&mut self) -> (r: u64)
    requires
        cpu_wf(*old(self)),
    ensures
        r == 16,
        final(self).registers == old(self).registers,
        final(self).mmu@ == mmu_write_spec(old(self).mmu@, ((old(self).registers.h) * 256 + (old(self).registers.l)) as u16, res_bit_spec(mmu_read_spec(old(self).mmu@, ((old(self).registers.h) * 256 + (old(self).registers.l)) as u16), 5)),
        ctrl_unchanged(*old(self), *final(self)),
        cpu_wf(*final(self)),
    {
        let hl = self.get_hl();
        let v = self.mmu.read(hl);
        let v2 = self.res_bit(v, 5);
        self.mmu.write(hl, v2);
        16
    }

    /// 0xCBAF - RES 5, A.
    pub fn res_5_a_0xcbaf(&mut self) -> (r: u64)
    ensures
        r == 8,
        *final(self) == (Z80 { registers: (Registers { a: res_bit_spec(old(self).registers.a, 5), ..old(self).registers }), ..*old(self) }),
    {
        let v = self.registers.a;
        let v2 = self.res_bit(v, 5);
        self.registers.a = v2;
        8
    }

    /// 0xCBB0 - RES 6, B.
    pub fn res_6_b_0xcbb0(&mut self) -> (r: u64)
    ensures
        r == 8,
        *final(self) == (Z80 { registers: (Registers { b: res_bit_spec(old(self).registers.b, 6), ..old(self).registers }), ..*old(self) }),
    {
        let v = self.registers.b;
        let v2 = self.res_bit(v, 6);
        self.registers.b = v2;
        8
    }

    /// 0xCBB1 - RES 6, C.
    pub fn res_6_c_0xcbb1(&mut self) -> (r: u64)
    ensures
        r == 8,
        *final(self) == (Z80 { registers: (Registers { c: res_bit_spec(old(self).registers.c, 6), ..old(self).registers }), ..*old(self) }),
    {
        let v = self.registers.c;
        let v2 = self.res_bit(v, 6);
        self.registers.c = v2;
        8
    }

    /// 0xCBB2 - RES 6, D.
    pub fn res_6_d_0xcbb2(&mut self) -> (r: u64)
    ensures
        r == 8,
        *final(self) == (Z80 { registers: (Registers { d: res_bit_spec(old(self).registers.d, 6), ..old(self).registers }), ..*old(self) }),
    {
        let v = self.registers.d;
        let v2 = self.res_bit(v, 6);
        self.registers.d = v2;
        8
    }

    /// 0xCBB3 - RES 6, E.
    pub fn res_6_e_0xcbb3(&mut self) -> (r: u64)
    ensures
        r == 8,
        *final(self) == (Z80 { registers: (Registers { e: res_bit_spec(old(self).registers.e, 6), ..old(self).registers }), ..*old(self) }),
    {
        let v = self.registers.e;
        let v2 = self.res_bit(v, 6);
        self.registers.e = v2;
        8
    }

    /// 0xCBB4 - RES 6, H.
    pub fn res_6_h_0xcbb4(&mut self) -> (r: u64)
    ensures
        r == 8,
        *final(self) == (Z80 { registers: (Registers { h: res_bit_spec(old(self).registers.h, 6), ..old(self).registers }), ..*old(self) }),
    {
        let v = self.registers.h;
        let v2 = self.res_bit(v, 6);
        self.registers.h = v2;
        8
    }

    /// 0xCBB5 - RES 6, L.
    pub fn res_6_l_0xcbb5(&mut self) -> (r: u64)
    ensures
        r == 8,
        *final(self) == (Z80 { registers: (Registers { l: res_bit_spec(old(self).registers.l, 6), ..old(self).registers }), ..*old(self) }),
    {
        let v = self.registers.l;
        let v2 = self.res_bit(v, 6);
        self.registers.l = v2;
        8
    }

    /// 0xCBB6 - RES 6, (HL).
    pub fn res_6_hl_0xcbb6(&mut self) -> (r: u64)
    requires
        cpu_wf(*old(self)),
    ensures
        r == 16,
        final(self).registers == old(self).registers,
        final(self).mmu@ == mmu_write_spec(old(self).mmu@, ((old(self).registers.h) * 256 + (old(self).registers.l)) as u16, res_bit_spec(mmu_read_spec(old(self).mmu@, ((old(self).registers.h) * 256 + (old(self).registers.l)) as u16), 6)),
        ctrl_unchanged(*old(self), *final(self)),
        cpu_wf(*final(self)),
    {
        let hl = self.get_hl();
        let v = self.mmu.read(hl);
        let v2 = self.res_bit(v, 6);
        self.mmu.write(hl, v2);
        16
    }

    /// 0xCBB7 - RES 6, A.
    pub fn res_6_a_0xcbb7(&mut self) -> (r: u64)
    ensures
        r == 8,
        *final(self) == (Z80 { registers: (Registers { a: res_bit_spec(old(self).registers.a, 6), ..old(self).registers }), ..*old(self) }),
    {
        let v = self.registers.a;
        let v2 = self.res_bit(v, 6);
        self.registers.a = v2;
        8
    }

    /// 0xCBB8 - RES 7, B.
    pub fn res_7_b_0xcbb8(&mut self) -> (r: u64)
    ensures
        r == 8,
        *final(self) == (Z80 { registers: (Registers { b: res_bit_spec(old(self).registers.b, 7), ..old(self).registers }), ..*old(self) }),
    {
        let v = self.registers.b;
        let v2 = self.res_bit(v, 7);
        self.registers.b = v2;
        8
    }

    /// 0xCBB9 - RES 7, C.
    pub fn res_7_c_0xcbb9(&mut self) -> (r: u64)
    ensures
        r == 8,
        *final(self) == (Z80 { registers: (Registers { c: res_bit_spec(old(self).registers.c, 7), ..old(self).registers }), ..*old(self) }),
    {
        let v = self.registers.c;
        let v2 = self.res_bit(v, 7);
        self.registers.c = v2;
        8
    }

    /// 0xCBBA - RES 7, D.
    pub fn res_7_d_0xcbba(&mut self) -> (r: u64)
    ensures
        r == 8,
        *final(self) == (Z80 { registers: (Registers { d: res_bit_spec(old(self).registers.d, 7), ..old(self).registers }), ..*old(self) }),
    {
        let v = self.registers.d;
        let v2 = self.res_bit(v, 7);
        self.registers.d = v2;
        8
    }

    /// 0xCBBB - RES 7, E.
    pub fn res_7_e_0xcbbb(&mut self) -> (r: u64)
    ensures
        r == 8,
        *final(self) == (Z80 { registers: (Registers { e: res_bit_spec(old(self).registers.e, 7), ..old(self).registers }), ..*old(self) }),
    {
        let v = self.registers.e;
        let v2 = self.res_bit(v, 7);
        self.registers.e = v2;
        8
    }

    /// 0xCBBC - RES 7, H.
    pub fn res_7_h_0xcbbc(&mut self) -> (r: u64)
    ensures
        r == 8,
        *final(self) == (Z80 { registers: (Registers { h: res_bit_spec(old(self).registers.h, 7), ..old(self).registers }), ..*old(self) }),
    {
        let v = self.registers.h;
        let v2 = self.res_bit(v, 7);
        self.registers.h = v2;
        8
    }

    /// 0xCBBD - RES 7, L.
    pub fn res_7_l_0xcbbd(&mut self) -> (r: u64)
    ensures
        r == 8,
        *final(self) == (Z80 { registers: (Registers { l: res_bit_spec(old(self).registers.l, 7), ..old(self).registers }), ..*old(self) }),
    {
        let v = self.registers.l;
        let v2 = self.res_bit(v, 7);
        self.registers.l = v2;
        8
    }

    /// 0xCBBE - RES 7, (HL).
    pub fn res_7_hl_0xcbbe(&mut self) -> (r: u64)
    requires
        cpu_wf(*old(self)),
    ensures
        r == 16,
        final(self).registers == old(self).registers,
        final(self).mmu@ == mmu_write_spec(old(self).mmu@, ((old(self).registers.h) * 256 + (old(self).registers.l)) as u16, res_bit_spec(mmu_read_spec(old(self).mmu@, ((old(self).registers.h) * 256 + (old(self).registers.l)) as u16), 7)),
        ctrl_unchanged(*old(self), *final(self)),
        cpu_wf(*final(self)),
    {
        let hl = self.get_hl();
        let v = self.mmu.read(hl);
        let v2 = self.res_bit(v, 7);
        self.mmu.write(hl, v2);
        16
    }

    /// 0xCBBF - RES 7, A.
    pub fn res_7_a_0xcbbf(&mut self) -> (r: u64)
    ensures
        r == 8,
        *final(self) == (Z80 { registers: (Registers { a: res_bit_spec(old(self).registers.a, 7), ..old(self).registers }), ..*old(self) }),
    {
        let v = self.registers.a;
        let v2 = self.res_bit(v, 7);
        self.registers.a = v2;
        8
    }

    /// 0xCBC0 - SET 0, B.
    pub fn set_0_b_0xcbc0(&mut self) -> (r: u64)
    ensures
        r == 8,
        *final(self) == (Z80 { registers: (Registers { b: set_bit_spec(old(self).registers.b, 0), ..old(self).registers }), ..*old(self) }),
    {
        let v = self.registers.b;
        let v2 = self.set_bit(v, 0);
        self.registers.b = v2;
        8
    }

    /// 0xCBC1 - SET 0, C.
    pub fn set_0_c_0xcbc1(&mut self) -> (r: u64)
    ensures
        r == 8,
        *final(self) == (Z80 { registers: (Registers { c: set_bit_spec(old(self).registers.c, 0), ..old(self).registers }), ..*old(self) }),
    {
        let v = self.registers.c;
        let v2 = self.set_bit(v, 0);
        self.registers.c = v2;
        8
    }

    /// 0xCBC2 - SET 0, D.
    pub fn set_0_d_0xcbc2(&mut self) -> (r: u64)
    ensures
        r == 8,
        *final(self) == (Z80 { registers: (Registers { d: set_bit_spec(old(self).registers.d, 0), ..old(self).registers }), ..*old(self) }),
    {
        let v = self.registers.d;
        let v2 = self.set_bit(v, 0);
        self.registers.d = v2;
        8
    }

    /// 0xCBC3 - SET 0, E.
    pub fn set_0_e_0xcbc3(&mut self) -> (r: u64)
    ensures
        r == 8,
        *final(self) == (Z80 { registers: (Registers { e: set_bit_spec(old(self).registers.e, 0), ..old(self).registers }), ..*old(self) }),
    {
        let v = self.registers.e;
        let v2 = self.set_bit(v, 0);
        self.registers.e = v2;
        8
    }

    /// 0xCBC4 - SET 0, H.
    pub fn set_0_h_0xcbc4(&mut self) -> (r: u64)
    ensures
        r == 8,
        *final(self) == (Z80 { registers: (Registers { h: set_bit_spec(old(self).registers.h, 0), ..old(self).registers }), ..*old(self) }),
    {
        let v = self.registers.h;
        let v2 = self.set_bit(v, 0);
        self.registers.h = v2;
        8
    }

    /// 0xCBC5 - SET 0, L.
    pub fn set_0_l_0xcbc5(&mut self) -> (r: u64)
    ensures
        r == 8,
        *final(self) == (Z80 { registers: (Registers { l: set_bit_spec(old(self).registers.l, 0), ..old(self).registers }), ..*old(self) }),
    {
        let v = self.registers.l;
        let v2 = self.set_bit(v, 0);
        self.registers.l = v2;
        8
    }

    /// 0xCBC6 - SET 0, (HL).
    pub fn set_0_hl_0xcbc6(&mut self) -> (r: u64)
    requires
        cpu_wf(*old(self)),
    ensures
        r == 16,
        final(self).registers == old(self).registers,
        final(self).mmu@ == mmu_write_spec(old(self).mmu@, ((old(self).registers.h) * 256 + (old(self).registers.l)) as u16, set_bit_spec(mmu_read_spec(old(self).mmu@, ((old(self).registers.h) * 256 + (old(self).registers.l)) as u16), 0)),
        ctrl_unchanged(*old(self), *final(self)),
        cpu_wf(*final(self)),
    {
        let hl = self.get_hl();
        let v = self.mmu.read(hl);
        let v2 = self.set_bit(v, 0);
        self.mmu.write(hl, v2);
        16
    }

    /// 0xCBC7 - SET 0, A.
    pub fn set_0_a_0xcbc7(&mut self) -> (r: u64)
    ensures
        r == 8,
        *final(self) == (Z80 { registers: (Registers { a: set_bit_spec(old(self).registers.a, 0), ..old(self).registers }), ..*old(self) }),
    {
        let v = self.registers.a;
        let v2 = self.set_bit(v, 0);
        self.registers.a = v2;
        8
    }

    /// 0xCBC8 - SET 1, B.
    pub fn set_1_b_0xcbc8(&mut self) -> (r: u64)
    ensures
        r == 8,
        *final(self) == (Z80 { registers: (Registers { b: set_bit_spec(old(self).registers.b, 1), ..old(self).registers }), ..*old(self) }),
    {
        let v = self.registers.b;
        let v2 = self.set_bit(v, 1);
        self.registers.b = v2;
        8
    }

    /// 0xCBC9 - SET 1, C.
    pub fn set_1_c_0xcbc9(&mut self) -> (r: u64)
    ensures
        r == 8,
        *final(self) == (Z80 { registers: (Registers { c: set_bit_spec(old(self).registers.c, 1), ..old(self).registers }), ..*old(self) }),
    {
        let v = self.registers.c;
        let v2 = self.set_bit(v, 1);
        self.registers.c = v2;
        8
    }

    /// 0xCBCA - SET 1, D.
    pub fn set_1_d_0xcbca(&mut self) -> (r: u64)
    ensures
        r == 8,
        *final(self) == (Z80 { registers: (Registers { d: set_bit_spec(old(self).registers.d, 1), ..old(self).registers }), ..*old(self) }),
    {
        let v = self.registers.d;
        let v2 = self.set_bit(v, 1);
        self.registers.d = v2;
        8
    }

    /// 0xCBCB - SET 1, E.
    pub fn set_1_e_0xcbcb(&mut self) -> (r: u64)
    ensures
        r == 8,
        *final(self) == (Z80 { registers: (Registers { e: set_bit_spec(old(self).registers.e, 1), ..old(self).registers }), ..*old(self) }),
    {
        let v = self.registers.e;
        let v2 = self.set_bit(v, 1);
        self.registers.e = v2;
        8
    }

    /// 0xCBCC - SET 1, H.
    pub fn set_1_h_0xcbcc(&mut self) -> (r: u64)
    ensures
        r == 8,
        *final(self) == (Z80 { registers: (Registers { h: set_bit_spec(old(self).registers.h, 1), ..old(self).registers }), ..*old(self) }),
    {
        let v = self.registers.h;
        let v2 = self.set_bit(v, 1);
        self.registers.h = v2;
        8
    }

    /// 0xCBCD - SET 1, L.
    pub fn set_1_l_0xcbcd(&mut self) -> (r: u64)
    ensures
        r == 8,
        *final(self) == (Z80 { registers: (Registers { l: set_bit_spec(old(self).registers.l, 1), ..old(self).registers }), ..*old(self) }),
    {
        let v = self.registers.l;
        let v2 = self.set_bit(v, 1);
        self.registers.l = v2;
        8
    }

    /// 0xCBCE - SET 1, (HL).
    pub fn set_1_hl_0xcbce(&mut self) -> (r: u64)
    requires
        cpu_wf(*old(self)),
    ensures
        r == 16,
        final(self).registers == old(self).registers,
        final(self).mmu@ == mmu_write_spec(old(self).mmu@, ((old(self).registers.h) * 256 + (old(self).registers.l)) as u16, set_bit_spec(mmu_read_spec(old(self).mmu@, ((old(self).registers.h) * 256 + (old(self).registers.l)) as u16), 1)),
        ctrl_unchanged(*old(self), *final(self)),
        cpu_wf(*final(self)),
    {
        let hl = self.get_hl();
        let v = self.mmu.read(hl);
        let v2 = self.set_bit(v, 1);
        self.mmu.write(hl, v2);
        16
    }

    /// 0xCBCF - SET 1, A.
    pub fn set_1_a_0xcbcf(&mut self) -> (r: u64)
    ensures
        r == 8,
        *final(self) == (Z80 { registers: (Registers { a: set_bit_spec(old(self).registers.a, 1), ..old(self).registers }), ..*old(self) }),
    {
        let v = self.registers.a;
        let v2 = self.set_bit(v, 1);
        self.registers.a = v2;
        8
    }

    /// 0xCBD0 - SET 2, B.
    pub fn set_2_b_0xcbd0(&mut self) -> (r: u64)
    ensures
        r == 8,
        *final(self) == (Z80 { registers: (Registers { b: set_bit_spec(old(self).registers.b, 2), ..old(self).registers }), ..*old(self) }),
    {
        let v = self.registers.b;
        let v2 = self.set_bit(v, 2);
        self.registers.b = v2;
        8
    }

    /// 0xCBD1 - SET 2, C.
    pub fn set_2_c_0xcbd1(&mut self) -> (r: u64)
    ensures
        r == 8,
        *final(self) == (Z80 { registers: (Registers { c: set_bit_spec(old(self).registers.c, 2), ..old(self).registers }), ..*old(self) }),
    {
        let v = self.registers.c;
        let v2 = self.set_bit(v, 2);
        self.registers.c = v2;
        8
    }

    /// 0xCBD2 - SET 2, D.
    pub fn set_2_d_0xcbd2(&mut self) -> (r: u64)
    ensures
        r == 8,
        *final(self) == (Z80 { registers: (Registers { d: set_bit_spec(old(self).registers.d, 2), ..old(self).registers }), ..*old(self) }),
    {
        let v = self.registers.d;
        let v2 = self.set_bit(v, 2);
        self.registers.d = v2;
        8
    }

    /// 0xCBD3 - SET 2, E.
    pub fn set_2_e_0xcbd3(&mut self) -> (r: u64)
    ensures
        r == 8,
        *final(self) == (Z80 { registers: (Registers { e: set_bit_spec(old(self).registers.e, 2), ..old(self).registers }), ..*old(self) }),
    {
        let v = self.registers.e;
        let v2 = self.set_bit(v, 2);
        self.registers.e = v2;
        8
    }

    /// 0xCBD4 - SET 2, H.
    pub fn set_2_h_0xcbd4(&mut self) -> (r: u64)
    ensures
        r == 8,
        *final(self) == (Z80 { registers: (Registers { h: set_bit_spec(old(self).registers.h, 2), ..old(self).registers }), ..*old(self) }),
    {
        let v = self.registers.h;
        let v2 = self.set_bit(v, 2);
        self.registers.h = v2;
        8
    }

    /// 0xCBD5 - SET 2, L.
    pub fn set_2_l_0xcbd5(&mut self) -> (r: u64)
    ensures
        r == 8,
        *final(self) == (Z80 { registers: (Registers { l: set_bit_spec(old(self).registers.l, 2), ..old(self).registers }), ..*old(self) }),
    {
        let v = self.registers.l;
        let v2 = self.set_bit(v, 2);
        self.registers.l = v2;
        8
    }

    /// 0xCBD6 - SET 2, (HL).
    pub fn set_2_hl_0xcbd6(&mut self) -> (r: u64)
    requires
        cpu_wf(*old(self)),
    ensures
        r == 16,
        final(self).registers == old(self).registers,
        final(self).mmu@ == mmu_write_spec(old(self).mmu@, ((old(self).registers.h) * 256 + (old(self).registers.l)) as u16, set_bit_spec(mmu_read_spec(old(self).mmu@, ((old(self).registers.h) * 256 + (old(self).registers.l)) as u16), 2)),
        ctrl_unchanged(*old(self), *final(self)),
        cpu_wf(*final(self)),
    {
        let hl = self.get_hl();
        let v = self.mmu.read(hl);
        let v2 = self.set_bit(v, 2);
        self.mmu.write(hl, v2);
        16
    }

    /// 0xCBD7 - SET 2, A.
    pub fn set_2_a_0xcbd7(&mut self) -> (r: u64)
    ensures
        r == 8,
        *final(self) == (Z80 { registers: (Registers { a: set_bit_spec(old(self).registers.a, 2), ..old(self).registers }), ..*old(self) }),
    {
        let v = self.registers.a;
        let v2 = self.set_bit(v, 2);
        self.registers.a = v2;
        8
    }

    /// 0xCBD8 - SET 3, B.
    pub fn set_3_b_0xcbd8(&mut self) -> (r: u64)
    ensures
        r == 8,
        *final(self) == (Z80 { registers: (Registers { b: set_bit_spec(old(self).registers.b, 3), ..old(self).registers }), ..*old(self) }),
    {
        let v = self.registers.b;
        let v2 = self.set_bit(v, 3);
        self.registers.b = v2;
        8
    }

    /// 0xCBD9 - SET 3, C.
    pub fn set_3_c_0xcbd9(&mut self) -> (r: u64)
    ensures
        r == 8,
        *final(self) == (Z80 { registers: (Registers { c: set_bit_spec(old(self).registers.c, 3), ..old(self).registers }), ..*old(self) }),
    {
        let v = self.registers.c;
        let v2 = self.set_bit(v, 3);
        self.registers.c = v2;
        8
    }

    /// 0xCBDA - SET 3, D.
    pub fn set_3_d_0xcbda(&mut self) -> (r: u64)
    ensures
        r == 8,
        *final(self) == (Z80 { registers: (Registers { d: set_bit_spec(old(self).registers.d, 3), ..old(self).registers }), ..*old(self) }),
    {
        let v = self.registers.d;
        let v2 = self.set_bit(v, 3);
        self.registers.d = v2;
        8
    }

    /// 0xCBDB - SET 3, E.
    pub fn set_3_e_0xcbdb(&mut self) -> (r: u64)
    ensures
        r == 8,
        *final(self) == (Z80 { registers: (Registers { e: set_bit_spec(old(self).registers.e, 3), ..old(self).registers }), ..*old(self) }),
    {
        let v = self.registers.e;
        let v2 = self.set_bit(v, 3);
        self.registers.e = v2;
        8
    }

    /// 0xCBDC - SET 3, H.
    pub fn set_3_h_0xcbdc(&mut self) -> (r: u64)
    ensures
        r == 8,
        *final(self) == (Z80 { registers: (Registers { h: set_bit_spec(old(self).registers.h, 3), ..old(self).registers }), ..*old(self) }),
    {
        let v = self.registers.h;
        let v2 = self.set_bit(v, 3);
        self.registers.h = v2;
        8
    }

    /// 0xCBDD - SET 3, L.
    pub fn set_3_l_0xcbdd(&mut self) -> (r: u64)
    ensures
        r == 8,
        *final(self) == (Z80 { registers: (Registers { l: set_bit_spec(old(self).registers.l, 3), ..old(self).registers }), ..*old(self) }),
    {
        let v = self.registers.l;
        let v2 = self.set_bit(v, 3);
        self.registers.l = v2;
        8
    }

    /// 0xCBDE - SET 3, (HL).
    pub fn set_3_hl_0xcbde(&mut self) -> (r: u64)
    requires
        cpu_wf(*old(self)),
    ensures
        r == 16,
        final(self).registers == old(self).registers,
        final(self).mmu@ == mmu_write_spec(old(self).mmu@, ((old(self).registers.h) * 256 + (old(self).registers.l)) as u16, set_bit_spec(mmu_read_spec(old(self).mmu@, ((old(self).registers.h) * 256 + (old(self).registers.l)) as u16), 3)),
        ctrl_unchanged(*old(self), *final(self)),
        cpu_wf(*final(self)),
    {
        let hl = self.get_hl();
        let v = self.mmu.read(hl);
        let v2 = self.set_bit(v, 3);
        self.mmu.write(hl, v2);
        16
    }

    /// 0xCBDF - SET 3, A.
    pub fn set_3_a_0xcbdf(&mut self) -> (r: u64)
    ensures
        r == 8,
        *final(self) == (Z80 { registers: (Registers { a: set_bit_spec(old(self).registers.a, 3), ..old(self).registers }), ..*old(self) }),
    {
        let v = self.registers.a;
        let v2 = self.set_bit(v, 3);
        self.registers.a = v2;
        8
    }

    /// 0xCBE0 - SET 4, B.
    pub fn set_4_b_0xcbe0(&mut self) -> (r: u64)
    ensures
        r == 8,
        *final(self) == (Z80 { registers: (Registers { b: set_bit_spec(old(self).registers.b, 4), ..old(self).registers }), ..*old(self) }),
    {
        let v = self.registers.b;
        let v2 = self.set_bit(v, 4);
        self.registers.b = v2;
        8
    }

    /// 0xCBE1 - SET 4, C.
    pub fn set_4_c_0xcbe1(&mut self) -> (r: u64)
    ensures
        r == 8,
        *final(self) == (Z80 { registers: (Registers { c: set_bit_spec(old(self).registers.c, 4), ..old(self).registers }), ..*old(self) }),
    {
        let v = self.registers.c;
        let v2 = self.set_bit(v, 4);
        self.registers.c = v2;
        8
    }

    /// 0xCBE2 - SET 4, D.
    pub fn set_4_d_0xcbe2(&mut self) -> (r: u64)
    ensures
        r == 8,
        *final(self) == (Z80 { registers: (Registers { d: set_bit_spec(old(self).registers.d, 4), ..old(self).registers }), ..*old(self) }),
    {
        let v = self.registers.d;
        let v2 = self.set_bit(v, 4);
        self.registers.d = v2;
        8
    }

    /// 0xCBE3 - SET 4, E.
    pub fn set_4_e_0xcbe3(&mut self) -> (r: u64)
    ensures
        r == 8,
        *final(self) == (Z80 { registers: (Registers { e: set_bit_spec(old(self).registers.e, 4), ..old(self).registers }), ..*old(self) }),
    {
        let v = self.registers.e;
        let v2 = self.set_bit(v, 4);
        self.registers.e = v2;
        8
    }

    /// 0xCBE4 - SET 4, H.
    pub fn set_4_h_0xcbe4(&mut self) -> (r: u64)
    ensures
        r == 8,
        *final(self) == (Z80 { registers: (Registers { h: set_bit_spec(old(self).registers.h, 4), ..old(self).registers }), ..*old(self) }),
    {
        let v = self.registers.h;
        let v2 = self.set_bit(v, 4);
        self.registers.h = v2;
        8
    }

    /// 0xCBE5 - SET 4, L.
    pub fn set_4_l_0xcbe5(&mut self) -> (r: u64)
    ensures
        r == 8,
        *final(self) == (Z80 { registers: (Registers { l: set_bit_spec(old(self).registers.l, 4), ..old(self).registers }), ..*old(self) }),
    {
        let v = self.registers.l;
        let v2 = self.set_bit(v, 4);
        self.registers.l = v2;
        8
    }

    /// 0xCBE6 - SET 4, (HL).
    pub fn set_4_hl_0xcbe6(&mut self) -> (r: u64)
    requires
        cpu_wf(*old(self)),
    ensures
        r == 16,
        final(self).registers == old(self).registers,
        final(self).mmu@ == mmu_write_spec(old(self).mmu@, ((old(self).registers.h) * 256 + (old(self).registers.l)) as u16, set_bit_spec(mmu_read_spec(old(self).mmu@, ((old(self).registers.h) * 256 + (old(self).registers.l)) as u16), 4)),
        ctrl_unchanged(*old(self), *final(self)),
        cpu_wf(*final(self)),
    {
        let hl = self.get_hl();
        let v = self.mmu.read(hl);
        let v2 = self.set_bit(v, 4);
        self.mmu.write(hl, v2);
        16
    }

    /// 0xCBE7 - SET 4, A.
    pub fn set_4_a_0xcbe7(&mut self) -> (r: u64)
    ensures
        r == 8,
        *final(self) == (Z80 { registers: (Registers { a: set_bit_spec(old(self).registers.a, 4), ..old(self).registers }), ..*old(self) }),
    {
        let v = self.registers.a;
        let v2 = self.set_bit(v, 4);
        self.registers.a = v2;
        8
    }

    /// 0xCBE8 - SET 5, B.
    pub fn set_5_b_0xcbe8(&mut self) -> (r: u64)
    ensures
        r == 8,
        *final(self) == (Z80 { registers: (Registers { b: set_bit_spec(old(self).registers.b, 5), ..old(self).registers }), ..*old(self) }),
    {
        let v = self.registers.b;
        let v2 = self.set_bit(v, 5);
        self.registers.b = v2;
        8
    }

    /// 0xCBE9 - SET 5, C.
    pub fn set_5_c_0xcbe9(&mut self) -> (r: u64)
    ensures
        r == 8,
        *final(self) == (Z80 { registers: (Registers { c: set_bit_spec(old(self).registers.c, 5), ..old(self).registers }), ..*old(self) }),
    {
        let v = self.registers.c;
        let v2 = self.set_bit(v, 5);
        self.registers.c = v2;
        8
    }

    /// 0xCBEA - SET 5, D.
    pub fn set_5_d_0xcbea(&mut self) -> (r: u64)
    ensures
        r == 8,
        *final(self) == (Z80 { registers: (Registers { d: set_bit_spec(old(self).registers.d, 5), ..old(self).registers }), ..*old(self) }),
    {
        let v = self.registers.d;
        let v2 = self.set_bit(v, 5);
        self.registers.d = v2;
        8
    }

    /// 0xCBEB - SET 5, E.
    pub fn set_5_e_0xcbeb(&mut self) -> (r: u64)
    ensures
        r == 8,
        *final(self) == (Z80 { registers: (Registers { e: set_bit_spec(old(self).registers.e, 5), ..old(self).registers }), ..*old(self) }),
    {
        let v = self.registers.e;
        let v2 = self.set_bit(v, 5);
        self.registers.e = v2;
        8
    }

    /// 0xCBEC - SET 5, H.
    pub fn set_5_h_0xcbec(&mut self) -> (r: u64)
    ensures
        r == 8,
        *final(self) == (Z80 { registers: (Registers { h: set_bit_spec(old(self).registers.h, 5), ..old(self).registers }), ..*old(self) }),
    {
        let v = self.registers.h;
        let v2 = self.set_bit(v, 5);
        self.registers.h = v2;
        8
    }

    /// 0xCBED - SET 5, L.
    pub fn set_5_l_0xcbed(&mut self) -> (r: u64)
    ensures
        r == 8,
        *final(self) == (Z80 { registers: (Registers { l: set_bit_spec(old(self).registers.l, 5), ..old(self).registers }), ..*old(self) }),
    {
        let v = self.registers.l;
        let v2 = self.set_bit(v, 5);
        self.registers.l = v2;
        8
    }

    /// 0xCBEE - SET 5, (HL).
    pub fn set_5_hl_0xcbee(&mut self) -> (r: u64)
    requires
        cpu_wf(*old(self)),
    ensures
        r == 16,
        final(self).registers == old(self).registers,
        final(self).mmu@ == mmu_write_spec(old(self).mmu@, ((old(self).registers.h) * 256 + (old(self).registers.l)) as u16, set_bit_spec(mmu_read_spec(old(self).mmu@, ((old(self).registers.h) * 256 + (old(self).registers.l)) as u16), 5)),
        ctrl_unchanged(*old(self), *final(self)),
        cpu_wf(*final(self)),
    {
        let hl = self.get_hl();
        let v = self.mmu.read(hl);
        let v2 = self.set_bit(v, 5);
        self.mmu.write(hl, v2);
        16
    }

    /// 0xCBEF - SET 5, A.
    pub fn set_5_a_0xcbef(&mut self) -> (r: u64)
    ensures
        r == 8,
        *final(self) == (Z80 { registers: (Registers { a: set_bit_spec(old(self).registers.a, 5), ..old(self).registers }), ..*old(self) }),
    {
        let v = self.registers.a;
        let v2 = self.set_bit(v, 5);
        self.registers.a = v2;
        8
    }

    /// 0xCBF0 - SET 6, B.
    pub fn set_6_b_0xcbf0(&mut self) -> (r: u64)
    ensures
        r == 8,
        *final(self) == (Z80 { registers: (Registers { b: set_bit_spec(old(self).registers.b, 6), ..old(self).registers }), ..*old(self) }),
    {
        let v = self.registers.b;
        let v2 = self.set_bit(v, 6);
        self.registers.b = v2;
        8
    }

    /// 0xCBF1 - SET 6, C.
    pub fn set_6_c_0xcbf1(&mut self) -> (r: u64)
    ensures
        r == 8,
        *final(self) == (Z80 { registers: (Registers { c: set_bit_spec(old(self).registers.c, 6), ..old(self).registers }), ..*old(self) }),
    {
        let v = self.registers.c;
        let v2 = self.set_bit(v, 6);
        self.registers.c = v2;
        8
    }

    /// 0xCBF2 - SET 6, D.
    pub fn set_6_d_0xcbf2(&mut self) -> (r: u64)
    ensures
        r == 8,
        *final(self) == (Z80 { registers: (Registers { d: set_bit_spec(old(self).registers.d, 6), ..old(self).registers }), ..*old(self) }),
    {
        let v = self.registers.d;
        let v2 = self.set_bit(v, 6);
        self.registers.d = v2;
        8
    }

    /// 0xCBF3 - SET 6, E.
    pub fn set_6_e_0xcbf3(&mut self) -> (r: u64)
    ensures
        r == 8,
        *final(self) == (Z80 { registers: (Registers { e: set_bit_spec(old(self).registers.e, 6), ..old(self).registers }), ..*old(self) }),
    {
        let v = self.registers.e;
        let v2 = self.set_bit(v, 6);
        self.registers.e = v2;
        8
    }

    /// 0xCBF4 - SET 6, H.
    pub fn set_6_h_0xcbf4(&mut self) -> (r: u64)
    ensures
        r == 8,
        *final(self) == (Z80 { registers: (Registers { h: set_bit_spec(old(self).registers.h, 6), ..old(self).registers }), ..*old(self) }),
    {
        let v = self.registers.h;
        let v2 = self.set_bit(v, 6);
        self.registers.h = v2;
        8
    }

    /// 0xCBF5 - SET 6, L.
    pub fn set_6_l_0xcbf5(&mut self) -> (r: u64)
    ensures
        r == 8,
        *final(self) == (Z80 { registers: (Registers { l: set_bit_spec(old(self).registers.l, 6), ..old(self).registers }), ..*old(self) }),
    {
        let v = self.registers.l;
        let v2 = self.set_bit(v, 6);
        self.registers.l = v2;
        8
    }

    /// 0xCBF6 - SET 6, (HL).
    pub fn set_6_hl_0xcbf6(&mut self) -> (r: u64)
    requires
        cpu_wf(*old(self)),
    ensures
        r == 16,
        final(self).registers == old(self).registers,
        final(self).mmu@ == mmu_write_spec(old(self).mmu@, ((old(self).registers.h) * 256 + (old(self).registers.l)) as u16, set_bit_spec(mmu_read_spec(old(self).mmu@, ((old(self).registers.h) * 256 + (old(self).registers.l)) as u16), 6)),
        ctrl_unchanged(*old(self), *final(self)),
        cpu_wf(*final(self)),
    {
        let hl = self.get_hl();
        let v = self.mmu.read(hl);
        let v2 = self.set_bit(v, 6);
        self.mmu.write(hl, v2);
        16
    }

    /// 0xCBF7 - SET 6, A.
    pub fn set_6_a_0xcbf7(&mut self) -> (r: u64)
    ensures
        r == 8,
        *final(self) == (Z80 { registers: (Registers { a: set_bit_spec(old(self).registers.a, 6), ..old(self).registers }), ..*old(self) }),
    {
        let v = self.registers.a;
        let v2 = self.set_bit(v, 6);
        self.registers.a = v2;
        8
    }

    /// 0xCBF8 - SET 7, B.
    pub fn set_7_b_0xcbf8(&mut self) -> (r: u64)
    ensures
        r == 8,
        *final(self) == (Z80 { registers: (Registers { b: set_bit_spec(old(self).registers.b, 7), ..old(self).registers }), ..*old(self) }),
    {
        let v = self.registers.b;
        let v2 = self.set_bit(v, 7);
        self.registers.b = v2;
        8
    }

    /// 0xCBF9 - SET 7, C.
    pub fn set_7_c_0xcbf9(&mut self) -> (r: u64)
    ensures
        r == 8,
        *final(self) == (Z80 { registers: (Registers { c: set_bit_spec(old(self).registers.c, 7), ..old(self).registers }), ..*old(self) }),
    {
        let v = self.registers.c;
        let v2 = self.set_bit(v, 7);
        self.registers.c = v2;
        8
    }

    /// 0xCBFA - SET 7, D.
    pub fn set_7_d_0xcbfa(&mut self) -> (r: u64)
    ensures
        r == 8,
        *final(self) == (Z80 { registers: (Registers { d: set_bit_spec(old(self).registers.d, 7), ..old(self).registers }), ..*old(self) }),
    {
        let v = self.registers.d;
        let v2 = self.set_bit(v, 7);
        self.registers.d = v2;
        8
    }

    /// 0xCBFB - SET 7, E.
    pub fn set_7_e_0xcbfb(&mut self) -> (r: u64)
    ensures
        r == 8,
        *final(self) == (Z80 { registers: (Registers { e: set_bit_spec(old(self).registers.e, 7), ..old(self).registers }), ..*old(self) }),
    {
        let v = self.registers.e;
        let v2 = self.set_bit(v, 7);
        self.registers.e = v2;
        8
    }

    /// 0xCBFC - SET 7, H.
    pub fn set_7_h_0xcbfc(&mut self) -> (r: u64)
    ensures
        r == 8,
        *final(self) == (Z80 { registers: (Registers { h: set_bit_spec(old(self).registers.h, 7), ..old(self).registers }), ..*old(self) }),
    {
        let v = self.registers.h;
        let v2 = self.set_bit(v, 7);
        self.registers.h = v2;
        8
    }

    /// 0xCBFD - SET 7, L.
    pub fn set_7_l_0xcbfd(&mut self) -> (r: u64)
    ensures
        r == 8,
        *final(self) == (Z80 { registers: (Registers { l: set_bit_spec(old(self).registers.l, 7), ..old(self).registers }), ..*old(self) }),
    {
        let v = self.registers.l;
        let v2 = self.set_bit(v, 7);
        self.registers.l = v2;
        8
    }

    /// 0xCBFE - SET 7, (HL).
    pub fn set_7_hl_0xcbfe(&mut self) -> (r: u64)
    requires
        cpu_wf(*old(self)),
    ensures
        r == 16,
        final(self).registers == old(self).registers,
        final(self).mmu@ == mmu_write_spec(old(self).mmu@, ((old(self).registers.h) * 256 + (old(self).registers.l)) as u16, set_bit_spec(mmu_read_spec(old(self).mmu@, ((old(self).registers.h) * 256 + (old(self).registers.l)) as u16), 7)),
        ctrl_unchanged(*old(self), *final(self)),
        cpu_wf(*final(self)),
    {
        let hl = self.get_hl();
        let v = self.mmu.read(hl);
        let v2 = self.set_bit(v, 7);
        self.mmu.write(hl, v2);
        16
    }

    /// 0xCBFF - SET 7, A.
    pub fn set_7_a_0xcbff(&mut self) -> (r: u64)
    ensures
        r == 8,
        *final(self) == (Z80 { registers: (Registers { a: set_bit_spec(old(self).registers.a, 7), ..old(self).registers }), ..*old(self) }),
    {
        let v = self.registers.a;
        let v2 = self.set_bit(v, 7);
        self.registers.a = v2;
        8
    }
}

} // verus!
