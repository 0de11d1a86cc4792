use rustboy::cartridge::Cartridge;
use rustboy::mbc;
use rustboy::mmu::MMU;

fn rom_with_header(size: usize, cartridge_type: u8, rom_size: u8, ram_size: u8) -> Vec<u8> {
    let mut rom = vec![0u8; size];
    rom[0x0147] = cartridge_type;
    rom[0x0148] = rom_size;
    rom[0x0149] = ram_size;
    rom
}

fn mmu_with(cartridge_type: u8, rom_size: u8, ram_size: u8) -> MMU {
    let size = 0x8000usize << rom_size;
    MMU::new(Cartridge::new(rom_with_header(size, cartridge_type, rom_size, ram_size)))
}

#[test]
fn word_round_trip_in_writable_regions() {
    let mut mmu = mmu_with(0x00, 0x00, 0x00);
    let addresses = [0xC000u16, 0xC001, 0xCFFF, 0xDFFE, 0xDFFF, 0xE000, 0xFDFE, 0xFF80, 0xFFFD];
    for (i, &a) in addresses.iter().enumerate() {
        let v = (i as u16) * 0x1357 + 0x0102;
        mmu.write_word(a, v);
        assert_eq!(mmu.read_word(a), v, "round trip at {:#06X}", a);
    }
    for step in 0..128u16 {
        let a = 0xC000 + step * 0x5D;
        let v = step * 521 + 7;
        mmu.write_word(a, v);
        assert_eq!(mmu.read_word(a), v);
    }
}

#[test]
fn echo_ram_mirrors_work_ram() {
    let mut mmu = mmu_with(0x00, 0x00, 0x00);
    mmu.write(0xC123, 0x5A);
    assert_eq!(mmu.read(0xE123), 0x5A);
    mmu.write(0xF000, 0xA5);
    assert_eq!(mmu.read(0xD000), 0xA5);
}

#[test]
fn unusable_region_reads_ff() {
    let mut mmu = mmu_with(0x00, 0x00, 0x00);
    mmu.write(0xFEA5, 0x77);
    assert_eq!(mmu.read(0xFEA5), 0xFF);
    assert_eq!(mmu.read(0xFF03), 0xFF);
    assert_eq!(mmu.read(0xFF7F), 0xFF);
}

#[test]
fn mbc1_banking_effective_bank() {
    // A 1 MiB image: bank b starts at b * 0x4000; tag each bank's first
    // byte with its number.
    let mut rom = rom_with_header(0x100000, 0x01, 0x05, 0x02);
    for bank in 0..64usize {
        rom[bank * 0x4000] = bank as u8;
    }
    let mut mmu = MMU::new(Cartridge::new(rom));
    mmu.write(0x2000, 0x21);
    mmu.write(0x4000, 0x01);
    mmu.write(0x6000, 0x00);
    // bank1 = 0x21 & 0x1F = 1, bank2 = 1: effective bank 0x21, raw address
    // 0x84000.
    assert_eq!(mmu.read(0x4000), 0x21);
}

#[test]
fn mbc1_bank_selection_all_latches() {
    let mut rom = rom_with_header(0x100000, 0x01, 0x05, 0x02);
    for bank in 0..64usize {
        rom[bank * 0x4000] = bank as u8;
        rom[bank * 0x4000 + 1] = 0xA0 + (bank as u8 % 16);
    }
    let rom_copy = rom.clone();
    let mut mmu = MMU::new(Cartridge::new(rom));
    for bank1 in 0..32u8 {
        for bank2 in 0..4u8 {
            for mode in 0..2u8 {
                mmu.write(0x2000, bank1);
                mmu.write(0x4000, bank2);
                mmu.write(0x6000, mode);
                let eff = ((bank2 as usize) << 5) | (if bank1 == 0 { 1 } else { bank1 as usize });
                let raw = (eff * 0x4000) % rom_copy.len();
                assert_eq!(mmu.read(0x4000), rom_copy[raw], "bank1={bank1} bank2={bank2}");
                assert_eq!(mmu.read(0x4001), rom_copy[raw + 1]);
            }
        }
    }
}

#[test]
fn mbc1_ram_enable_and_modes() {
    let mut mmu = mmu_with(0x03, 0x00, 0x03);
    // Disabled RAM reads 0xFF and drops writes.
    assert_eq!(mmu.read(0xA000), 0xFF);
    mmu.write(0xA000, 0x11);
    assert_eq!(mmu.read(0xA000), 0xFF);
    // The low nibble 0xA enables.
    mmu.write(0x0000, 0x0A);
    mmu.write(0xA000, 0x11);
    assert_eq!(mmu.read(0xA000), 0x11);
    // Mode 1 banks the RAM window by bank2.
    mmu.write(0x6000, 0x01);
    mmu.write(0x4000, 0x02);
    mmu.write(0xA000, 0x22);
    assert_eq!(mmu.read(0xA000), 0x22);
    mmu.write(0x4000, 0x00);
    assert_eq!(mmu.read(0xA000), 0x11);
    // Any other value disables again.
    mmu.write(0x0000, 0x00);
    assert_eq!(mmu.read(0xA000), 0xFF);
}

#[test]
fn mbc2_selector_and_nibble_ram() {
    let mut rom = rom_with_header(0x40000, 0x05, 0x03, 0x00);
    for bank in 0..16usize {
        rom[bank * 0x4000] = 0x30 + bank as u8;
    }
    let rom_copy = rom.clone();
    let mut mmu = MMU::new(Cartridge::new(rom));
    // Address bit 8 set selects the ROM bank.
    mmu.write(0x0100, 0x03);
    assert_eq!(mmu.read(0x4000), rom_copy[3 * 0x4000]);
    // A zero bank is corrected to one.
    mmu.write(0x0100, 0x00);
    assert_eq!(mmu.read(0x4000), rom_copy[0x4000]);
    // Address bit 8 clear toggles RAM enable; the RAM holds nibbles and
    // mirrors through the low nine bits.
    assert_eq!(mmu.read(0xA000), 0xFF);
    mmu.write(0x0000, 0x0A);
    mmu.write(0xA005, 0xAB);
    assert_eq!(mmu.read(0xA005), 0x0B);
    assert_eq!(mmu.read(0xA205), 0x0B);
}

#[test]
fn mbc3_banking_and_rtc_round_trip() {
    let mut rom = rom_with_header(0x80000, 0x10, 0x04, 0x03);
    for bank in 0..32usize {
        rom[bank * 0x4000] = 0x60 + bank as u8;
    }
    let rom_copy = rom.clone();
    let mut mmu = MMU::new(Cartridge::new(rom));
    mmu.write(0x2000, 0x1F);
    assert_eq!(mmu.read(0x4000), rom_copy[0x1F * 0x4000]);
    mmu.write(0x2000, 0x00);
    assert_eq!(mmu.read(0x4000), rom_copy[0x4000]);
    // RAM banked by the selector.
    mmu.write(0x0000, 0x0A);
    mmu.write(0x4000, 0x02);
    mmu.write(0xA000, 0x44);
    mmu.write(0x4000, 0x00);
    assert_eq!(mmu.read(0xA000), 0x00);
    mmu.write(0x4000, 0x02);
    assert_eq!(mmu.read(0xA000), 0x44);
    // RTC registers are opaque bytes that round-trip.
    mmu.write(0x4000, 0x08);
    mmu.write(0xA000, 0x3B);
    assert_eq!(mmu.read(0xA000), 0x3B);
}

#[test]
fn mbc5_nine_bit_bank() {
    let mut rom = rom_with_header(0x100000, 0x19, 0x05, 0x02);
    for bank in 0..64usize {
        rom[bank * 0x4000] = 0x80 + bank as u8;
    }
    let rom_copy = rom.clone();
    let mut mmu = MMU::new(Cartridge::new(rom));
    mmu.write(0x2000, 0x21);
    mmu.write(0x3000, 0x00);
    assert_eq!(mmu.read(0x4000), rom_copy[(0x21 * 0x4000) % rom_copy.len()]);
    // MBC5 allows bank zero.
    mmu.write(0x2000, 0x00);
    assert_eq!(mmu.read(0x4000), rom_copy[0]);
}

#[test]
fn unsupported_cartridge_type_is_rejected() {
    let cartridge = Cartridge::new(rom_with_header(0x8000, 0x04, 0x00, 0x00));
    assert!(mbc::from(cartridge).is_none());
    let cartridge = Cartridge::new(rom_with_header(0x8000, 0x01, 0x00, 0x00));
    assert!(mbc::from(cartridge).is_some());
}

#[test]
fn invalid_ram_size_code_is_rejected() {
    // Codes the header does not define are fatal for controllers with
    // external RAM...
    for bad in [0x01u8, 0x06, 0x07, 0xFF] {
        let cartridge = Cartridge::new(rom_with_header(0x8000, 0x03, 0x00, bad));
        assert!(mbc::from(cartridge).is_none(), "MBC1 with RAM code {bad:#04X}");
        let cartridge = Cartridge::new(rom_with_header(0x8000, 0x10, 0x00, bad));
        assert!(mbc::from(cartridge).is_none(), "MBC3 with RAM code {bad:#04X}");
        let cartridge = Cartridge::new(rom_with_header(0x8000, 0x19, 0x00, bad));
        assert!(mbc::from(cartridge).is_none(), "MBC5 with RAM code {bad:#04X}");
    }
    // ...but harmless for MBC0 and MBC2, which allocate none.
    let cartridge = Cartridge::new(rom_with_header(0x8000, 0x00, 0x00, 0x01));
    assert!(mbc::from(cartridge).is_some());
    let cartridge = Cartridge::new(rom_with_header(0x8000, 0x05, 0x00, 0x01));
    assert!(mbc::from(cartridge).is_some());
}

#[test]
fn rom_size_must_be_power_of_two() {
    assert!(Cartridge::load(vec![0u8; 0x8000]).is_some());
    assert!(Cartridge::load(vec![0u8; 0x8001]).is_none());
    assert!(Cartridge::load(vec![0u8; 0x4000]).is_none());
    assert!(Cartridge::load(vec![0u8; 0x200]).is_none());
    assert!(Cartridge::load(vec![0u8; 0x800000]).is_some());
}

#[test]
fn create_ram_sizes() {
    assert_eq!(mbc::create_ram(0).len(), 0);
    assert_eq!(mbc::create_ram(2).len(), 0x2000);
    assert_eq!(mbc::create_ram(3).len(), 4 * 0x2000);
    assert_eq!(mbc::create_ram(4).len(), 16 * 0x2000);
    assert_eq!(mbc::create_ram(5).len(), 8 * 0x2000);
}

#[test]
fn timer_interrupt_after_sixteen_cycles() {
    let mut mmu = mmu_with(0x00, 0x00, 0x00);
    mmu.write(0xFF07, 0x05);
    mmu.write(0xFF05, 0xFF);
    mmu.write(0xFF06, 0x40);
    mmu.run(16);
    assert_eq!(mmu.read(0xFF05), 0x40);
    assert_eq!(mmu.read(0xFF0F) & 0x04, 0x04);
}

#[test]
fn timer_div_counts_and_resets() {
    let mut mmu = mmu_with(0x00, 0x00, 0x00);
    mmu.run(256 * 3 + 5);
    assert_eq!(mmu.read(0xFF04), 3);
    mmu.write(0xFF04, 0x77);
    assert_eq!(mmu.read(0xFF04), 0);
}

#[test]
fn timer_disabled_keeps_tima() {
    let mut mmu = mmu_with(0x00, 0x00, 0x00);
    mmu.write(0xFF07, 0x01);
    mmu.write(0xFF05, 0x10);
    mmu.run(1024);
    assert_eq!(mmu.read(0xFF05), 0x10);
    assert_eq!(mmu.read(0xFF0F) & 0x04, 0x00);
}

#[test]
fn serial_registers_round_trip() {
    let mut mmu = mmu_with(0x00, 0x00, 0x00);
    mmu.write(0xFF01, 0x5C);
    mmu.write(0xFF02, 0x81);
    assert_eq!(mmu.read(0xFF01), 0x5C);
    assert_eq!(mmu.read(0xFF02), 0x81);
}

#[test]
fn sound_registers_round_trip() {
    let mut mmu = mmu_with(0x00, 0x00, 0x00);
    // Post-boot values per the power-up sequence.
    assert_eq!(mmu.read(0xFF10), 0x80);
    assert_eq!(mmu.read(0xFF26), 0xF1);
    mmu.write(0xFF11, 0x42);
    assert_eq!(mmu.read(0xFF11), 0x42);
    mmu.write(0xFF30, 0x9A);
    assert_eq!(mmu.read(0xFF30), 0x9A);
    mmu.write(0xFF3F, 0x77);
    assert_eq!(mmu.read(0xFF3F), 0x77);
}

#[test]
fn interrupt_flag_distributes_and_aggregates() {
    let mut mmu = mmu_with(0x00, 0x00, 0x00);
    mmu.write(0xFF0F, 0x15);
    assert_eq!(mmu.read(0xFF0F), 0x15);
    assert!(mmu.ppu.vblank_interrupt);
    assert!(!mmu.ppu.stat_interrupt);
    assert!(mmu.timer.interrupt);
    assert!(!mmu.serial.interrupt);
    assert!(mmu.joypad.interrupt);
    mmu.write(0xFF0F, 0x00);
    assert_eq!(mmu.read(0xFF0F), 0x00);
}

#[test]
fn oam_dma_copies_and_charges() {
    let mut mmu = mmu_with(0x00, 0x00, 0x00);
    for i in 0..0xA0u16 {
        mmu.write(0xC100 + i, (i as u8).wrapping_mul(3).wrapping_add(1));
    }
    mmu.write(0xFF46, 0xC1);
    for i in 0..0xA0u16 {
        assert_eq!(mmu.read(0xFE00 + i), (i as u8).wrapping_mul(3).wrapping_add(1));
    }
    assert_eq!(mmu.take_dma_cycles(), 640);
    assert_eq!(mmu.take_dma_cycles(), 0);
}

#[test]
fn joypad_matrix_and_interrupt() {
    let mut mmu = mmu_with(0x00, 0x00, 0x00);
    // Select the direction row (bit 4) only.
    mmu.write(0xFF00, 0x10);
    let mut pressed = rustboy::joypad::Buttons::none();
    pressed.down = true;
    mmu.set_buttons(pressed);
    // Bit 3 (Down/Start) falls to zero and the interrupt is raised.
    assert_eq!(mmu.read(0xFF00) & 0x08, 0x00);
    assert_eq!(mmu.read(0xFF0F) & 0x10, 0x10);
    // Releasing returns the bit to one.
    mmu.set_buttons(rustboy::joypad::Buttons::none());
    assert_eq!(mmu.read(0xFF00) & 0x0F, 0x0F);
}
