use rustboy::cartridge::Cartridge;
use rustboy::mmu::MMU;
use rustboy::z80::Z80;

fn make_rom(size: usize, cartridge_type: u8, rom_size: u8, ram_size: u8) -> Vec<u8> {
    let mut rom = vec![0u8; size];
    rom[0x0147] = cartridge_type;
    rom[0x0148] = rom_size;
    rom[0x0149] = ram_size;
    rom
}

fn make_cpu() -> Z80 {
    let cartridge = Cartridge::new(make_rom(0x8000, 0x00, 0x00, 0x00));
    Z80::new(MMU::new(cartridge))
}

fn expected_primary(code: u8, z: bool, c: bool) -> u64 {
    match code {
        0x01 | 0x11 | 0x21 | 0x31 => 12,
        0x02 | 0x12 | 0x22 | 0x32 | 0x0A | 0x1A | 0x2A | 0x3A => 8,
        0x03 | 0x13 | 0x23 | 0x33 | 0x0B | 0x1B | 0x2B | 0x3B => 8,
        0x09 | 0x19 | 0x29 | 0x39 => 8,
        0x06 | 0x0E | 0x16 | 0x1E | 0x26 | 0x2E | 0x3E => 8,
        0x08 => 20,
        0x18 => 12,
        0x20 | 0x30 => {
            let taken = if code == 0x20 { !z } else { !c };
            if taken {
                12
            } else {
                8
            }
        }
        0x28 | 0x38 => {
            let taken = if code == 0x28 { z } else { c };
            if taken {
                12
            } else {
                8
            }
        }
        0x34 | 0x35 | 0x36 => 12,
        0x00..=0x3F => 4,
        0x76 => 4,
        0x40..=0x7F => {
            if code % 8 == 6 || (0x70 <= code && code <= 0x77) {
                8
            } else {
                4
            }
        }
        0x80..=0xBF => {
            if code % 8 == 6 {
                8
            } else {
                4
            }
        }
        0xC0 | 0xC8 | 0xD0 | 0xD8 => {
            let taken = match code {
                0xC0 => !z,
                0xC8 => z,
                0xD0 => !c,
                _ => c,
            };
            if taken {
                20
            } else {
                8
            }
        }
        0xC2 | 0xCA | 0xD2 | 0xDA => {
            let taken = match code {
                0xC2 => !z,
                0xCA => z,
                0xD2 => !c,
                _ => c,
            };
            if taken {
                16
            } else {
                12
            }
        }
        0xC4 | 0xCC | 0xD4 | 0xDC => {
            let taken = match code {
                0xC4 => !z,
                0xCC => z,
                0xD4 => !c,
                _ => c,
            };
            if taken {
                24
            } else {
                12
            }
        }
        0xC1 | 0xD1 | 0xE1 | 0xF1 => 12,
        0xC3 => 16,
        0xC5 | 0xD5 | 0xE5 | 0xF5 => 16,
        0xC6 | 0xCE | 0xD6 | 0xDE | 0xE6 | 0xEE | 0xF6 | 0xFE => 8,
        0xC7 | 0xCF | 0xD7 | 0xDF | 0xE7 | 0xEF | 0xF7 | 0xFF => 16,
        0xC9 | 0xD9 => 16,
        0xCB => 4,
        0xCD => 24,
        0xE0 | 0xF0 => 12,
        0xE2 | 0xF2 => 8,
        0xE8 => 16,
        0xE9 => 4,
        0xEA | 0xFA => 16,
        0xF3 | 0xFB => 4,
        0xF8 => 12,
        0xF9 => 8,
        _ => 0,
    }
}

#[test]
fn primary_cycles_match_table() {
    for f in [0x00u8, 0x90u8] {
        let z = f & 0x80 != 0;
        let c = f & 0x10 != 0;
        for code in 0..=255u8 {
            let mut cpu = make_cpu();
            cpu.registers.f = f;
            let got = cpu.call_instruction(code);
            assert_eq!(
                got,
                expected_primary(code, z, c),
                "opcode {:#04X} with F={:#04X}",
                code,
                f
            );
        }
    }
}

#[test]
fn cb_cycles_match_table() {
    for code in 0..=255u8 {
        let mut cpu = make_cpu();
        cpu.use_cb_table = true;
        let got = cpu.call_instruction(code);
        let expected = if code % 8 == 6 {
            if (0x40..0x80).contains(&code) {
                12
            } else {
                16
            }
        } else {
            8
        };
        assert_eq!(got, expected, "CB opcode {:#04X}", code);
        assert!(!cpu.use_cb_table);
    }
}

#[test]
fn undefined_opcode_returns_fault() {
    for code in [0xD3u8, 0xDB, 0xDD, 0xE3, 0xE4, 0xEB, 0xEC, 0xED, 0xF4, 0xFC, 0xFD] {
        let mut cpu = make_cpu();
        assert_eq!(cpu.call_instruction(code), 0);
    }
}

#[test]
fn add_flags_full_table() {
    let mut cpu = make_cpu();
    for a in 0..=255u16 {
        for b in 0..=255u16 {
            let r = cpu.add_8(a as u8, b as u8);
            let f = cpu.registers.f;
            assert_eq!(r as u16, (a + b) & 0xFF);
            assert_eq!(f & 0x80 != 0, r == 0, "Z for {a}+{b}");
            assert_eq!(f & 0x40, 0, "N for {a}+{b}");
            assert_eq!(f & 0x20 != 0, (a & 0xF) + (b & 0xF) > 0xF, "H for {a}+{b}");
            assert_eq!(f & 0x10 != 0, a + b > 0xFF, "C for {a}+{b}");
        }
    }
}

#[test]
fn sub_flags_full_table() {
    let mut cpu = make_cpu();
    for a in 0..=255u16 {
        for b in 0..=255u16 {
            let r = cpu.sub_8(a as u8, b as u8);
            let f = cpu.registers.f;
            assert_eq!(r as u16, (a + 256 - b) & 0xFF);
            assert_eq!(f & 0x80 != 0, a == b, "Z for {a}-{b}");
            assert_ne!(f & 0x40, 0, "N for {a}-{b}");
            assert_eq!(f & 0x20 != 0, (a & 0xF) < (b & 0xF), "H for {a}-{b}");
            assert_eq!(f & 0x10 != 0, a < b, "C for {a}-{b}");
        }
    }
}

#[test]
fn adc_sbc_inc_dec_flags_sampled() {
    let mut cpu = make_cpu();
    for i in 0..256u16 {
        let a = (i * 37 + 11) as u8;
        let b = (i * 101 + 5) as u8;
        for cin in [0u16, 1u16] {
            cpu.registers.a = a;
            cpu.registers.f = if cin == 1 { 0x10 } else { 0x00 };
            cpu.adc_8(b);
            let total = a as u16 + b as u16 + cin;
            assert_eq!(cpu.registers.a as u16, total & 0xFF);
            let f = cpu.registers.f;
            assert_eq!(f & 0x80 != 0, total & 0xFF == 0);
            assert_eq!(f & 0x40, 0);
            assert_eq!(f & 0x20 != 0, (a & 0xF) as u16 + (b & 0xF) as u16 + cin > 0xF);
            assert_eq!(f & 0x10 != 0, total > 0xFF);

            cpu.registers.a = a;
            cpu.registers.f = if cin == 1 { 0x10 } else { 0x00 };
            cpu.sbc_8(b);
            let diff = (a as i32 - b as i32 - cin as i32).rem_euclid(256) as u16;
            assert_eq!(cpu.registers.a as u16, diff);
            let f = cpu.registers.f;
            assert_eq!(f & 0x80 != 0, diff == 0);
            assert_ne!(f & 0x40, 0);
            assert_eq!(f & 0x20 != 0, ((a & 0xF) as u16) < (b & 0xF) as u16 + cin);
            assert_eq!(f & 0x10 != 0, (a as u16) < b as u16 + cin);
        }
        // INC and DEC leave the carry untouched.
        cpu.registers.f = 0x10;
        let r = cpu.inc_8(a);
        assert_eq!(r, a.wrapping_add(1));
        let f = cpu.registers.f;
        assert_eq!(f & 0x80 != 0, a == 255);
        assert_eq!(f & 0x40, 0);
        assert_eq!(f & 0x20 != 0, a & 0xF == 0xF);
        assert_ne!(f & 0x10, 0);

        cpu.registers.f = 0x00;
        let r = cpu.dec_8(a);
        assert_eq!(r, a.wrapping_sub(1));
        let f = cpu.registers.f;
        assert_eq!(f & 0x80 != 0, a == 1);
        assert_ne!(f & 0x40, 0);
        assert_eq!(f & 0x20 != 0, a & 0xF == 0);
        assert_eq!(f & 0x10, 0);
    }
}

#[test]
fn push_pop_round_trip_samples() {
    let mut cpu = make_cpu();
    for i in 0..=255u16 {
        let v = i * 257;
        cpu.registers.sp = 0xD000;
        cpu.push_sp(v);
        assert_eq!(cpu.registers.sp, 0xCFFE);
        let back = cpu.pop_sp();
        assert_eq!(back, v);
        assert_eq!(cpu.registers.sp, 0xD000);
    }
    // The boot stack lives at the top of high RAM.
    cpu.registers.sp = 0xFFFE;
    cpu.push_sp(0xBEEF);
    assert_eq!(cpu.pop_sp(), 0xBEEF);
    assert_eq!(cpu.registers.sp, 0xFFFE);
}

#[test]
fn ei_delays_interrupt_by_one_instruction() {
    let mut cpu = make_cpu();
    // Enable and request the timer interrupt, then run EI; NOP from WRAM.
    cpu.mmu.write(0xFFFF, 0x04);
    cpu.mmu.write(0xFF0F, 0x04);
    cpu.mmu.write(0xC000, 0xFB);
    cpu.mmu.write(0xC001, 0x00);
    cpu.registers.pc = 0xC000;

    // EI executes; the request is pending but IME is still off.
    assert_eq!(cpu.step(), 4);
    assert_eq!(cpu.registers.pc, 0xC001);

    // The instruction after EI still runs; no service yet.
    assert_eq!(cpu.step(), 4);
    assert_eq!(cpu.registers.pc, 0xC002);
    assert_eq!(cpu.mmu.read(0xFF0F) & 0x04, 0x04);

    // Only now is the interrupt dispatched: 20 cycles, vector 0x50, bit
    // cleared.
    assert_eq!(cpu.step(), 20);
    assert_eq!(cpu.registers.pc, 0x0050);
    assert_eq!(cpu.mmu.read(0xFF0F) & 0x04, 0x00);
}

#[test]
fn daa_after_addition() {
    let mut cpu = make_cpu();
    cpu.registers.a = 0x45;
    cpu.registers.f = 0x00;
    cpu.mmu.write(0xC000, 0x38);
    cpu.registers.pc = 0xC000;
    assert_eq!(cpu.call_instruction(0xC6), 8);
    assert_eq!(cpu.registers.a, 0x7D);
    // 0x5 + 0x8 = 0xD does not carry out of bit 3, so H is clear.
    assert_eq!(cpu.registers.f, 0x00);
    assert_eq!(cpu.call_instruction(0x27), 4);
    assert_eq!(cpu.registers.a, 0x83);
    assert_eq!(cpu.registers.f, 0x00);
}

#[test]
fn daa_after_subtraction_with_borrow() {
    let mut cpu = make_cpu();
    cpu.registers.a = 0x05;
    cpu.registers.f = 0x00;
    cpu.mmu.write(0xC000, 0x06);
    cpu.registers.pc = 0xC000;
    assert_eq!(cpu.call_instruction(0xD6), 8);
    assert_eq!(cpu.registers.a, 0xFF);
    assert_eq!(cpu.registers.f, 0x70);
    assert_eq!(cpu.call_instruction(0x27), 4);
    assert_eq!(cpu.registers.a, 0x99);
    assert_eq!(cpu.registers.f & 0x10, 0x10);
    assert_eq!(cpu.registers.f & 0x40, 0x40);
}

#[test]
fn jr_taken_cycle_count() {
    let mut cpu = make_cpu();
    cpu.mmu.write(0xC100, 0x28);
    cpu.mmu.write(0xC101, 0x05);
    cpu.registers.pc = 0xC100;
    cpu.registers.f = 0x80;
    assert_eq!(cpu.step(), 12);
    assert_eq!(cpu.registers.pc, 0xC107);

    cpu.registers.pc = 0xC100;
    cpu.registers.f = 0x00;
    assert_eq!(cpu.step(), 8);
    assert_eq!(cpu.registers.pc, 0xC102);
}

#[test]
fn halt_wakes_on_pending_interrupt() {
    let mut cpu = make_cpu();
    cpu.mmu.write(0xC000, 0x76);
    cpu.registers.pc = 0xC000;
    assert_eq!(cpu.step(), 4);
    assert!(matches!(cpu.status, rustboy::enums::Status::HALTED));
    // Halted with nothing pending: the CPU just ticks.
    assert_eq!(cpu.step(), 4);
    assert!(matches!(cpu.status, rustboy::enums::Status::HALTED));
    assert_eq!(cpu.registers.pc, 0xC001);
    // A pending but unserviced request wakes it without dispatch.
    cpu.mmu.write(0xFFFF, 0x01);
    cpu.mmu.write(0xFF0F, 0x01);
    assert_eq!(cpu.step(), 4);
    assert!(matches!(cpu.status, rustboy::enums::Status::RUNNING));
    assert_eq!(cpu.registers.pc, 0xC001);
}

#[test]
fn pop_af_masks_low_nibble() {
    let mut cpu = make_cpu();
    cpu.registers.sp = 0xD000;
    cpu.push_sp(0x12FF);
    assert_eq!(cpu.call_instruction(0xF1), 12);
    assert_eq!(cpu.registers.a, 0x12);
    // F bits 3..0 always read as zero.
    assert_eq!(cpu.registers.f, 0xF0);
}

#[test]
fn interrupt_priority_lowest_bit_first() {
    let mut cpu = make_cpu();
    cpu.mmu.write(0xFFFF, 0x1F);
    cpu.mmu.write(0xFF0F, 0x12);
    cpu.ime = rustboy::enums::IME::Enabled;
    cpu.registers.pc = 0xC000;
    // Bits 1 (STAT) and 4 (joypad) pending: STAT wins, vector 0x48.
    assert_eq!(cpu.step(), 20);
    assert_eq!(cpu.registers.pc, 0x0048);
    assert_eq!(cpu.mmu.read(0xFF0F), 0x10);
}

#[test]
fn stop_clears_div() {
    let mut cpu = make_cpu();
    cpu.mmu.run(256 * 2);
    assert_eq!(cpu.mmu.read(0xFF04), 2);
    cpu.mmu.write(0xC000, 0x10);
    cpu.registers.pc = 0xC000;
    assert_eq!(cpu.step(), 4);
    assert!(matches!(cpu.status, rustboy::enums::Status::STOPPED));
    assert_eq!(cpu.mmu.read(0xFF04), 0);
}

#[test]
fn run_loop_advances_devices() {
    let mut cpu = make_cpu();
    // A tight loop in WRAM: JR -2 jumps back onto itself.
    cpu.mmu.write(0xC000, 0x18);
    cpu.mmu.write(0xC001, 0xFE);
    cpu.registers.pc = 0xC000;
    cpu.run(1463);
    // 1463 taken jumps of 12 cycles each: one frame of PPU time.
    assert_eq!(cpu.registers.pc, 0xC000);
    assert_eq!(cpu.clock, 17556);
    assert_eq!(cpu.mmu.frames(), 1);
}

#[test]
fn cb_rotates_and_bit_ops() {
    let mut cpu = make_cpu();
    // RLC B: 0x85 rotates to 0x0B with carry set.
    cpu.registers.b = 0x85;
    cpu.use_cb_table = true;
    assert_eq!(cpu.call_instruction(0x00), 8);
    assert_eq!(cpu.registers.b, 0x0B);
    assert_eq!(cpu.registers.f, 0x10);

    // SWAP A: nibbles exchange, flags cleared but Z.
    cpu.registers.a = 0xF0;
    cpu.use_cb_table = true;
    assert_eq!(cpu.call_instruction(0x37), 8);
    assert_eq!(cpu.registers.a, 0x0F);
    assert_eq!(cpu.registers.f, 0x00);

    // BIT 7, A on a clear bit sets Z and H, keeps C.
    cpu.registers.a = 0x7F;
    cpu.registers.f = 0x10;
    cpu.use_cb_table = true;
    assert_eq!(cpu.call_instruction(0x7F), 8);
    assert_eq!(cpu.registers.f, 0xB0);

    // SET 3, C and RES 3, C round-trip the bit.
    cpu.registers.c = 0x00;
    cpu.use_cb_table = true;
    assert_eq!(cpu.call_instruction(0xD9), 8);
    assert_eq!(cpu.registers.c, 0x08);
    cpu.use_cb_table = true;
    assert_eq!(cpu.call_instruction(0x99), 8);
    assert_eq!(cpu.registers.c, 0x00);

    // SRL (HL) through memory.
    cpu.set_hl(0xC020);
    cpu.mmu.write(0xC020, 0x01);
    cpu.use_cb_table = true;
    assert_eq!(cpu.call_instruction(0x3E), 16);
    assert_eq!(cpu.mmu.read(0xC020), 0x00);
    // Z set and C took the shifted-out bit.
    assert_eq!(cpu.registers.f, 0x90);
}

#[test]
fn add_sp_signed_and_ld_hl_sp() {
    let mut cpu = make_cpu();
    // ADD SP, -2 from 0xFFF8: half and full carry come from the unsigned
    // low byte.
    cpu.registers.sp = 0xFFF8;
    cpu.mmu.write(0xC000, 0xFE);
    cpu.registers.pc = 0xC000;
    assert_eq!(cpu.call_instruction(0xE8), 16);
    assert_eq!(cpu.registers.sp, 0xFFF6);
    assert_eq!(cpu.registers.f, 0x30);

    // LD HL, SP+3.
    cpu.registers.sp = 0x1000;
    cpu.mmu.write(0xC001, 0x03);
    assert_eq!(cpu.call_instruction(0xF8), 12);
    assert_eq!(cpu.get_hl(), 0x1003);
    assert_eq!(cpu.registers.f, 0x00);
}

#[test]
fn ld_a16_sp_stores_both_bytes() {
    let mut cpu = make_cpu();
    cpu.registers.sp = 0xBEEF;
    cpu.mmu.write(0xC000, 0x40);
    cpu.mmu.write(0xC001, 0xC2);
    cpu.registers.pc = 0xC000;
    assert_eq!(cpu.call_instruction(0x08), 20);
    assert_eq!(cpu.mmu.read(0xC240), 0xEF);
    assert_eq!(cpu.mmu.read(0xC241), 0xBE);
}

#[test]
fn call_and_ret_round_trip() {
    let mut cpu = make_cpu();
    cpu.registers.sp = 0xD000;
    cpu.registers.pc = 0xC000;
    cpu.mmu.write(0xC000, 0x00);
    cpu.mmu.write(0xC001, 0xC3);
    assert_eq!(cpu.call_instruction(0xCD), 24);
    assert_eq!(cpu.registers.pc, 0xC300);
    assert_eq!(cpu.registers.sp, 0xCFFE);
    assert_eq!(cpu.call_instruction(0xC9), 16);
    assert_eq!(cpu.registers.pc, 0xC002);
    assert_eq!(cpu.registers.sp, 0xD000);
}

#[test]
fn sixteen_bit_add_flags() {
    let mut cpu = make_cpu();
    // ADD HL, DE: Z untouched, H from bit 11, C from bit 15.
    cpu.registers.f = 0x80;
    cpu.set_hl(0x0FFF);
    cpu.set_de(0x0001);
    assert_eq!(cpu.call_instruction(0x19), 8);
    assert_eq!(cpu.get_hl(), 0x1000);
    assert_eq!(cpu.registers.f, 0xA0);
    cpu.set_hl(0xFFFF);
    cpu.set_de(0x0001);
    assert_eq!(cpu.call_instruction(0x19), 8);
    assert_eq!(cpu.get_hl(), 0x0000);
    assert_eq!(cpu.registers.f, 0xB0);
}
