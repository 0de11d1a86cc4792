use rustboy::cartridge::Cartridge;
use rustboy::enums::Mode;
use rustboy::mmu::MMU;

fn fresh_mmu() -> MMU {
    let mut rom = vec![0u8; 0x8000];
    rom[0x0147] = 0x00;
    MMU::new(Cartridge::new(rom))
}

#[test]
fn vblank_cadence_one_frame() {
    let mut mmu = fresh_mmu();
    // 17556 CPU cycles = 70224 dots: one whole frame from reset.
    mmu.write(0xFF0F, 0x00);
    mmu.run(17556);
    assert_eq!(mmu.read(0xFF0F) & 0x01, 0x01, "VBlank raised");
    assert_eq!(mmu.frames(), 1, "raised exactly once");
    assert_eq!(mmu.read(0xFF44), 0, "LY wrapped to zero");
    // A second frame raises it exactly once more.
    mmu.write(0xFF0F, 0x00);
    mmu.run(17556);
    assert_eq!(mmu.read(0xFF0F) & 0x01, 0x01);
    assert_eq!(mmu.frames(), 2);
}

#[test]
fn ppu_mode_sequence_over_frame() {
    let mut mmu = fresh_mmu();
    // Walk a frame one scanline at a time; the canonical sequence holds on
    // every line.
    for line in 0..154u8 {
        // Just after entering the line: OAM search for visible lines,
        // VBlank for 144..153.
        mmu.run(1);
        assert_eq!(mmu.read(0xFF44), line, "LY at line {line}");
        let stat_mode = mmu.read(0xFF41) & 0x03;
        if line < 144 {
            assert_eq!(stat_mode, 2, "OAM search at line {line}");
        } else {
            assert_eq!(stat_mode, 1, "VBlank at line {line}");
        }
        // Inside pixel transfer (dot 100).
        mmu.run(24);
        let stat_mode = mmu.read(0xFF41) & 0x03;
        if line < 144 {
            assert_eq!(stat_mode, 3, "transfer at line {line}");
        } else {
            assert_eq!(stat_mode, 1);
        }
        // Inside HBlank (dot 300).
        mmu.run(50);
        let stat_mode = mmu.read(0xFF41) & 0x03;
        if line < 144 {
            assert_eq!(stat_mode, 0, "HBlank at line {line}");
        } else {
            assert_eq!(stat_mode, 1);
        }
        // Finish the line: 456 dots in all.
        mmu.run(39);
    }
    assert_eq!(mmu.read(0xFF44), 0);
    assert_eq!(mmu.frames(), 1);
}

#[test]
fn lyc_coincidence_raises_stat() {
    let mut mmu = fresh_mmu();
    // Enable the LYC interrupt and compare against line 2.
    mmu.write(0xFF45, 2);
    mmu.write(0xFF41, 0x40);
    mmu.run(114);
    assert_eq!(mmu.read(0xFF0F) & 0x02, 0x00);
    mmu.run(114);
    // LY has just advanced to 2: coincidence set, STAT raised.
    assert_eq!(mmu.read(0xFF44), 2);
    assert_eq!(mmu.read(0xFF41) & 0x04, 0x04);
    assert_eq!(mmu.read(0xFF0F) & 0x02, 0x02);
}

#[test]
fn vram_gated_during_pixel_transfer() {
    let mut mmu = fresh_mmu();
    mmu.write(0x8123, 0x42);
    assert_eq!(mmu.read(0x8123), 0x42);
    // Force pixel transfer: both VRAM and OAM read 0xFF and drop writes.
    mmu.ppu.mode = Mode::Mode3;
    mmu.ppu.lcds.set_mode(Mode::Mode3);
    assert_eq!(mmu.read(0x8123), 0xFF);
    mmu.write(0x8123, 0x99);
    mmu.write(0xFE00, 0x77);
    assert_eq!(mmu.read(0xFE00), 0xFF);
    // Back in HBlank the old byte is still there.
    mmu.ppu.mode = Mode::Mode0;
    mmu.ppu.lcds.set_mode(Mode::Mode0);
    assert_eq!(mmu.read(0x8123), 0x42);
    assert_eq!(mmu.read(0xFE00), 0x00);
}

#[test]
fn oam_gated_during_search() {
    let mut mmu = fresh_mmu();
    mmu.write(0xFE10, 0x55);
    assert_eq!(mmu.read(0xFE10), 0x55);
    mmu.ppu.mode = Mode::Mode2;
    mmu.ppu.lcds.set_mode(Mode::Mode2);
    assert_eq!(mmu.read(0xFE10), 0xFF);
    // VRAM stays open in OAM search.
    mmu.write(0x8000, 0x3C);
    assert_eq!(mmu.read(0x8000), 0x3C);
}

#[test]
fn lcd_off_clears_clock_and_ly() {
    let mut mmu = fresh_mmu();
    mmu.run(114 * 5);
    assert_eq!(mmu.read(0xFF44), 5);
    mmu.write(0xFF40, 0x11);
    assert_eq!(mmu.read(0xFF44), 0);
    // With the LCD off the clock stands still.
    mmu.run(114 * 3);
    assert_eq!(mmu.read(0xFF44), 0);
    assert_eq!(mmu.read(0xFF41) & 0x03, 0);
}

#[test]
fn background_row_renders_through_palette() {
    let mut mmu = fresh_mmu();
    // Tile 0: plane 0 all ones, plane 1 all zeroes: colour index 1
    // everywhere. The zeroed background map points every cell at tile 0.
    for row in 0..8u16 {
        mmu.write(0x8000 + row * 2, 0xFF);
        mmu.write(0x8000 + row * 2 + 1, 0x00);
    }
    // Identity palette: index i maps to shade i.
    mmu.write(0xFF47, 0xE4);
    // One scanline: the renderer runs on entering HBlank.
    mmu.run(114);
    let frame = mmu.frame();
    for x in 0..160usize {
        assert_eq!(frame[x], 1, "pixel {x} of row 0");
    }
    // Darken colour 1 via the palette and draw the next row.
    mmu.write(0xFF47, 0xEC);
    mmu.run(114);
    let frame = mmu.frame();
    for x in 0..160usize {
        assert_eq!(frame[160 + x], 3, "pixel {x} of row 1");
        assert_eq!(frame[x], 1, "row 0 untouched");
    }
}

#[test]
fn sprite_renders_over_background() {
    let mut mmu = fresh_mmu();
    // Background tile 0 is blank (colour 0); sprite tile 1 is solid colour
    // 3 (both planes set).
    for row in 0..8u16 {
        mmu.write(0x8010 + row * 2, 0xFF);
        mmu.write(0x8011 + row * 2, 0xFF);
    }
    mmu.write(0xFF47, 0xE4);
    mmu.write(0xFF48, 0xE4);
    // Sprite 0: top-left corner of the screen, tile 1.
    mmu.write(0xFE00, 16);
    mmu.write(0xFE01, 8);
    mmu.write(0xFE02, 1);
    mmu.write(0xFE03, 0x00);
    // Sprites on, background on, LCD on.
    mmu.write(0xFF40, 0x93);
    mmu.run(114);
    let frame = mmu.frame();
    for x in 0..8usize {
        assert_eq!(frame[x], 3, "sprite pixel {x}");
    }
    for x in 8..160usize {
        assert_eq!(frame[x], 0, "background pixel {x}");
    }
}

#[test]
fn tile_viewers_expose_vram() {
    let mut mmu = fresh_mmu();
    mmu.write(0x8000, 0xAB);
    mmu.write(0x9800, 0xCD);
    let set1 = mmu.ppu.get_tile_set_1();
    assert_eq!(set1[0], 0xAB);
    let map0 = mmu.ppu.get_tile_map_0();
    assert_eq!(map0[0], 0xCD);
}
