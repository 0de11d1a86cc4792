//! The pixel processing unit: VRAM and OAM with mode-gated access, the LCD
//! registers, the per-scanline mode state machine, and the renderer that
//! composes background, window and sprites into a 160 by 144 frame of 2-bit
//! colours.

use vstd::prelude::*;

use crate::enums::Mode;
use crate::lcdc::LCDC;
use crate::lcdc::bit_at;
use crate::lcds::LCDS;
use crate::lcds::lcds_read_spec;
use crate::oam::OAMEntry;
use crate::oam::oam_entry_spec;
use crate::util::zero_vec;

verus! {

pub const V_RAM_SIZE: usize = 0x2000;

pub const OAM_SIZE: usize = 0xA0;

/// Screen width in pixels.
pub const WIDTH: usize = 160;

/// Screen height in pixels.
pub const HEIGHT: u8 = 144;

pub const MAX_SCREEN_Y: u8 = 143;

/// Dots per scanline.
pub const DOTS_PER_LINE: u16 = 456;

/// Scanlines per frame, the ten VBlank lines included.
pub const TOTAL_LINES: u8 = 154;

/// Dots per frame.
pub const DOTS_PER_FRAME: u64 = 70224;

pub struct PPU {
    pub vram: Vec<u8>,
    pub oam: Vec<u8>,
    /// The rendered frame: one 2-bit colour per pixel, rows top to bottom.
    pub framebuffer: Vec<u8>,
    pub lcdc: LCDC,
    pub lcds: LCDS,
    pub scy: u8,
    pub scx: u8,
    pub ly: u8,
    pub lyc: u8,
    pub bgp: u8,
    pub obp0: u8,
    pub obp1: u8,
    pub wy: u8,
    pub wx: u8,
    pub mode: Mode,
    /// Dots consumed within the current scanline.
    pub clock: u16,
    /// Completed frames: how many times VBlank has been entered.
    pub frames: u64,
    /// The VBlank interrupt request: bit 0 of IF.
    pub vblank_interrupt: bool,
    /// The STAT interrupt request: bit 1 of IF.
    pub stat_interrupt: bool,
}

pub ghost struct PpuView {
    pub vram: Seq<u8>,
    pub oam: Seq<u8>,
    pub fb: Seq<u8>,
    pub lcdc: u8,
    pub lcds: LCDS,
    pub scy: u8,
    pub scx: u8,
    pub ly: u8,
    pub lyc: u8,
    pub bgp: u8,
    pub obp0: u8,
    pub obp1: u8,
    pub wy: u8,
    pub wx: u8,
    pub mode: Mode,
    pub clock: u16,
    pub frames: u64,
    pub vblank_interrupt: bool,
    pub stat_interrupt: bool,
}

impl View for PPU {
    type V = PpuView;

    open spec fn view(&self) -> PpuView {
        PpuView {
            vram: self.vram@,
            oam: self.oam@,
            fb: self.framebuffer@,
            lcdc: self.lcdc.value,
            lcds: self.lcds,
            scy: self.scy,
            scx: self.scx,
            ly: self.ly,
            lyc: self.lyc,
            bgp: self.bgp,
            obp0: self.obp0,
            obp1: self.obp1,
            wy: self.wy,
            wx: self.wx,
            mode: self.mode,
            clock: self.clock,
            frames: self.frames,
            vblank_interrupt: self.vblank_interrupt,
            stat_interrupt: self.stat_interrupt,
        }
    }
}

pub open spec fn ppu_wf(v: PpuView) -> bool {
    v.vram.len() == V_RAM_SIZE && v.oam.len() == OAM_SIZE && v.fb.len() == 160 * 144 && v.clock
        < 456 && v.ly < 154 && v.mode == v.lcds.mode
}

// ------------------------------------------------------------------
// Register and memory access.
// ------------------------------------------------------------------
/// Whether VRAM is open: every mode but pixel transfer.
pub open spec fn vram_accessible(m: Mode) -> bool {
    m != Mode::Mode3
}

/// Whether OAM is open: HBlank and VBlank only.
pub open spec fn oam_accessible(m: Mode) -> bool {
    m == Mode::Mode0 || m == Mode::Mode1
}

pub open spec fn ppu_read_spec(v: PpuView, addr: u16) -> u8 {
    if 0x8000 <= addr < 0xA000 {
        if vram_accessible(v.mode) {
            v.vram[addr - 0x8000]
        } else {
            0xFF
        }
    } else if 0xFE00 <= addr < 0xFEA0 {
        if oam_accessible(v.mode) {
            v.oam[addr - 0xFE00]
        } else {
            0xFF
        }
    } else if addr == 0xFF40 {
        v.lcdc
    } else if addr == 0xFF41 {
        lcds_read_spec(v.lcds)
    } else if addr == 0xFF42 {
        v.scy
    } else if addr == 0xFF43 {
        v.scx
    } else if addr == 0xFF44 {
        if bit_at(v.lcdc, 128) {
            v.ly
        } else {
            0
        }
    } else if addr == 0xFF45 {
        v.lyc
    } else if addr == 0xFF47 {
        v.bgp
    } else if addr == 0xFF48 {
        v.obp0
    } else if addr == 0xFF49 {
        v.obp1
    } else if addr == 0xFF4A {
        v.wy
    } else if addr == 0xFF4B {
        v.wx
    } else {
        0xFF
    }
}

pub open spec fn lcds_written(s: LCDS, value: u8) -> LCDS {
    LCDS { value: (value / 8 % 16 * 8 + s.value % 8) as u8, ..s }
}

pub open spec fn ppu_write_spec(v: PpuView, addr: u16, value: u8) -> PpuView {
    if 0x8000 <= addr < 0xA000 {
        if vram_accessible(v.mode) {
            PpuView { vram: v.vram.update(addr - 0x8000, value), ..v }
        } else {
            v
        }
    } else if 0xFE00 <= addr < 0xFEA0 {
        if oam_accessible(v.mode) {
            PpuView { oam: v.oam.update(addr - 0xFE00, value), ..v }
        } else {
            v
        }
    } else if addr == 0xFF40 {
        if bit_at(value, 128) {
            PpuView { lcdc: value, ..v }
        } else {
            // Switching the LCD off clears the line clock, forces HBlank and
            // resets LY.
            PpuView {
                lcdc: value,
                clock: 0,
                ly: 0,
                mode: Mode::Mode0,
                lcds: LCDS { mode: Mode::Mode0, ..v.lcds },
                ..v
            }
        }
    } else if addr == 0xFF41 {
        PpuView { lcds: lcds_written(v.lcds, value), ..v }
    } else if addr == 0xFF42 {
        PpuView { scy: value, ..v }
    } else if addr == 0xFF43 {
        PpuView { scx: value, ..v }
    } else if addr == 0xFF45 {
        PpuView { lyc: value, ..v }
    } else if addr == 0xFF47 {
        PpuView { bgp: value, ..v }
    } else if addr == 0xFF48 {
        PpuView { obp0: value, ..v }
    } else if addr == 0xFF49 {
        PpuView { obp1: value, ..v }
    } else if addr == 0xFF4A {
        PpuView { wy: value, ..v }
    } else if addr == 0xFF4B {
        PpuView { wx: value, ..v }
    } else {
        // 0xFF44 is read-only and 0xFF46 (DMA) is served by the MMU, which
        // owns the full address map.
        v
    }
}

// ------------------------------------------------------------------
// The renderer, as spec functions mirrored by the executable code.
// ------------------------------------------------------------------
/// 2^(7-c): the divisor that brings tile column `c` (0 = leftmost pixel,
/// stored in bit 7) down to bit 0.
pub open spec fn col_mask(c: int) -> u8 {
    if c == 0 {
        128
    } else if c == 1 {
        64
    } else if c == 2 {
        32
    } else if c == 3 {
        16
    } else if c == 4 {
        8
    } else if c == 5 {
        4
    } else if c == 6 {
        2
    } else {
        1
    }
}

/// The bit of `b` for tile column `c`.
pub open spec fn bit_of(b: u8, c: int) -> u8 {
    (b / col_mask(c) % 2) as u8
}

/// The 2-bit colour index of tile column `c` given the two bit-plane bytes.
pub open spec fn tile_color(b0: u8, b1: u8, c: int) -> u8 {
    (2 * bit_of(b1, c) + bit_of(b0, c)) as u8
}

/// 4^c for a 2-bit colour index `c`.
pub open spec fn quad_mask(c: u8) -> u8 {
    if c == 0 {
        1
    } else if c == 1 {
        4
    } else if c == 2 {
        16
    } else {
        64
    }
}

/// Map a 2-bit colour index through a palette byte.
pub open spec fn palette_map(pal: u8, c: u8) -> u8 {
    (pal / quad_mask(c) % 4) as u8
}

/// Where in VRAM the 16-byte data of a background or window tile starts,
/// honouring the LCDC addressing-mode bit.
pub open spec fn tile_data_base(lcdc: u8, tile: u8) -> int {
    if bit_at(lcdc, 16) {
        16 * tile
    } else {
        0x1000 + 16 * (if tile < 128 {
            tile as int
        } else {
            tile - 256
        })
    }
}

/// The tile-map area, relative to VRAM: `high` selects 0x9C00, else 0x9800.
pub open spec fn tile_map_base(high: bool) -> int {
    if high {
        0x1C00
    } else {
        0x1800
    }
}

/// The pre-palette background or window colour index at screen column `x` of
/// line `v.ly`.
pub open spec fn bg_pixel_index(v: PpuView, x: int) -> u8 {
    if !bit_at(v.lcdc, 1) {
        0
    } else {
        let in_window = bit_at(v.lcdc, 32) && v.wy <= v.ly && v.wx <= x + 7;
        let row = if in_window {
            v.ly - v.wy
        } else {
            (v.ly + v.scy) % 256
        };
        let col = if in_window {
            x + 7 - v.wx
        } else {
            (x + v.scx) % 256
        };
        let map = tile_map_base(
            if in_window {
                bit_at(v.lcdc, 64)
            } else {
                bit_at(v.lcdc, 8)
            },
        );
        let tile = v.vram[map + row / 8 * 32 + col / 8];
        let base = tile_data_base(v.lcdc, tile);
        let b0 = v.vram[base + row % 8 * 2];
        let b1 = v.vram[base + row % 8 * 2 + 1];
        tile_color(b0, b1, col % 8)
    }
}

/// Sprite height from LCDC bit 2.
pub open spec fn sprite_height(lcdc: u8) -> int {
    if bit_at(lcdc, 4) {
        16
    } else {
        8
    }
}

/// The OAM entry at table slot `n`.
pub open spec fn oam_entry_at(v: PpuView, n: int) -> OAMEntry {
    oam_entry_spec(v.oam[4 * n], v.oam[4 * n + 1], v.oam[4 * n + 2], v.oam[4 * n + 3])
}

/// Whether OAM slot `n` is visible on line `v.ly`.
pub open spec fn sprite_visible(v: PpuView, n: int) -> bool {
    let e = oam_entry_at(v, n);
    e.x != 0 && e.y <= v.ly + 16 < e.y + sprite_height(v.lcdc)
}

/// The sprites OAM search selects among the first `n` slots: the first ten
/// visible entries, in OAM order.
pub open spec fn selected_upto(v: PpuView, n: int) -> Seq<OAMEntry>
    decreases n,
{
    if n <= 0 {
        Seq::empty()
    } else {
        let s = selected_upto(v, n - 1);
        if s.len() < 10 && sprite_visible(v, n - 1) {
            s.push(oam_entry_at(v, n - 1))
        } else {
            s
        }
    }
}

pub open spec fn selected_sprites(v: PpuView) -> Seq<OAMEntry> {
    selected_upto(v, 40)
}

/// The 2-bit colour index of sprite `e` at screen column `x` on line `v.ly`,
/// honouring both flips; zero means transparent, and a sprite not covering
/// `x` reads as transparent.
pub open spec fn sprite_pixel_index(v: PpuView, e: OAMEntry, x: int) -> u8 {
    if e.x <= x + 8 < e.x + 8 && e.y <= v.ly + 16 < e.y + sprite_height(v.lcdc) {
        let h = sprite_height(v.lcdc);
        let row0 = v.ly + 16 - e.y;
        let row = if e.flags.flip_y {
            h - 1 - row0
        } else {
            row0
        };
        let col0 = x + 8 - e.x;
        let col = if e.flags.flip_x {
            7 - col0
        } else {
            col0
        };
        let tile = if h == 16 {
            e.tile_number / 2 * 2 + (if row >= 8 {
                1int
            } else {
                0int
            })
        } else {
            e.tile_number as int
        };
        let base = 16 * tile;
        let b0 = v.vram[base + row % 8 * 2];
        let b1 = v.vram[base + row % 8 * 2 + 1];
        tile_color(b0, b1, col)
    } else {
        0
    }
}

/// The sprite that wins screen column `x` among the first `k` selected
/// entries: the lowest x wins, ties going to the earlier OAM slot.
pub open spec fn sprite_winner_upto(v: PpuView, sel: Seq<OAMEntry>, x: int, k: int) -> Option<
    OAMEntry,
>
    decreases k,
{
    if k <= 0 {
        None
    } else {
        let prev = sprite_winner_upto(v, sel, x, k - 1);
        let e = sel[k - 1];
        if sprite_pixel_index(v, e, x) != 0 {
            match prev {
                None => Some(e),
                Some(w) => if e.x < w.x {
                    Some(e)
                } else {
                    prev
                },
            }
        } else {
            prev
        }
    }
}

/// The rendered 2-bit colour of screen column `x` on line `v.ly`.
pub open spec fn pixel_spec(v: PpuView, x: int) -> u8 {
    let bg_ci = bg_pixel_index(v, x);
    let bg_col = palette_map(v.bgp, bg_ci);
    if !bit_at(v.lcdc, 2) {
        bg_col
    } else {
        match sprite_winner_upto(v, selected_sprites(v), x, selected_sprites(v).len() as int) {
            None => bg_col,
            Some(w) => if w.flags.priority && bg_ci != 0 {
                bg_col
            } else {
                palette_map(
                    if w.flags.palette {
                        v.obp1
                    } else {
                        v.obp0
                    },
                    sprite_pixel_index(v, w, x),
                )
            },
        }
    }
}

/// The framebuffer after line `v.ly` is drawn: that row rendered, every
/// other pixel kept.
pub open spec fn render_row_spec(v: PpuView) -> Seq<u8> {
    Seq::new(
        v.fb.len(),
        |j: int|
            if v.ly * 160 <= j < v.ly * 160 + 160 {
                pixel_spec(v, j - v.ly * 160)
            } else {
                v.fb[j]
            },
    )
}

// ------------------------------------------------------------------
// The mode state machine, one dot at a time.
// ------------------------------------------------------------------
/// The mode the line position calls for.
pub open spec fn mode_for(ly: u8, clock: u16) -> Mode {
    if ly >= 144 {
        Mode::Mode1
    } else if clock < 80 {
        Mode::Mode2
    } else if clock < 252 {
        Mode::Mode3
    } else {
        Mode::Mode0
    }
}

/// Entering a mode: draw on HBlank, raise VBlank, and raise STAT per the
/// enable bits.
pub open spec fn enter_mode_spec(v: PpuView, m: Mode) -> PpuView {
    let w = PpuView { mode: m, lcds: LCDS { mode: m, ..v.lcds }, ..v };
    match m {
        Mode::Mode0 => PpuView {
            fb: if v.ly < 144 {
                render_row_spec(v)
            } else {
                v.fb
            },
            stat_interrupt: v.stat_interrupt || bit_at(v.lcds.value, 8),
            ..w
        },
        Mode::Mode1 => PpuView {
            vblank_interrupt: true,
            frames: if v.frames < 0xFFFF_FFFF_FFFF_FFFF {
                (v.frames + 1) as u64
            } else {
                0
            },
            stat_interrupt: v.stat_interrupt || bit_at(v.lcds.value, 16),
            ..w
        },
        Mode::Mode2 => PpuView { stat_interrupt: v.stat_interrupt || bit_at(v.lcds.value, 32), ..w },
        Mode::Mode3 => w,
    }
}

/// LY has advanced: update the coincidence bit, raising STAT on an enabled
/// match.
pub open spec fn ly_advanced_spec(v: PpuView) -> PpuView {
    let eq = v.ly == v.lyc;
    PpuView {
        lcds: LCDS {
            value: (v.lcds.value / 8 * 8 + (if eq {
                4int
            } else {
                0int
            }) + v.lcds.value % 4) as u8,
            ..v.lcds
        },
        stat_interrupt: v.stat_interrupt || (eq && bit_at(v.lcds.value, 64)),
        ..v
    }
}

/// One dot of PPU time.
pub open spec fn ppu_dot_spec(v: PpuView) -> PpuView {
    let moved = if v.clock + 1 == 456 {
        let w = PpuView {
            clock: 0,
            ly: ((v.ly + 1) % 154) as u8,
            ..v
        };
        ly_advanced_spec(w)
    } else {
        PpuView { clock: (v.clock + 1) as u16, ..v }
    };
    let target = mode_for(moved.ly, moved.clock);
    if moved.mode != target {
        enter_mode_spec(moved, target)
    } else {
        moved
    }
}

/// `dots` dots of PPU time.
pub open spec fn ppu_run_spec(v: PpuView, dots: u64) -> PpuView
    decreases dots,
{
    if dots == 0 || !bit_at(v.lcdc, 128) {
        v
    } else {
        ppu_run_spec(ppu_dot_spec(v), (dots - 1) as u64)
    }
}

// ------------------------------------------------------------------
// The canonical frame timing, proved of the mode machine.
// ------------------------------------------------------------------
/// The dot position within the frame: the line times 456 plus the line
/// clock.
pub open spec fn frame_pos(v: PpuView) -> int {
    v.ly * 456 + v.clock
}

/// How many of the next `n` dots from position `pos` land on the VBlank
/// entry position, 65664 = 144 * 456; each such dot raises VBlank once.
pub open spec fn vblank_entries(pos: int, n: nat) -> int
    decreases n,
{
    if n == 0 {
        0
    } else {
        (if (pos + 1) % 70224 == 65664 {
            1int
        } else {
            0int
        }) + vblank_entries((pos + 1) % 70224, (n - 1) as nat)
    }
}

/// One dot from a consistent state: the position advances by one around the
/// frame, the mode tracks the position, and VBlank fires exactly at
/// position 65664.
#[verifier::rlimit(100)]
#[verifier::spinoff_prover]
proof fn lemma_ppu_dot_char(p: PpuView)
    requires
        ppu_wf(p),
        0 <= frame_pos(p) < 70224,
        p.mode == mode_for(p.ly, p.clock),
        p.frames < 0xFFFF_FFFF_FFFF_FFFF,
    ensures
        ({
            let p1 = ppu_dot_spec(p);
            &&& ppu_wf(p1)
            &&& frame_pos(p1) == (frame_pos(p) + 1) % 70224
            &&& p1.mode == mode_for(p1.ly, p1.clock)
            &&& p1.frames == p.frames + (if (frame_pos(p) + 1) % 70224 == 65664 {
                1int
            } else {
                0int
            })
            &&& p1.vblank_interrupt == (p.vblank_interrupt || (frame_pos(p) + 1) % 70224 == 65664)
            &&& p1.lcdc == p.lcdc
        }),
{
    assert(p.ly * 456 + p.clock < 70224 && p.clock < 456 && p.ly < 154);
    if p.clock + 1 == 456 {
        assert((p.ly * 456 + 456) % 70224 == (if p.ly == 153 {
            0int
        } else {
            (p.ly + 1) * 456
        })) by (nonlinear_arith)
            requires
                p.ly < 154,
        ;
    } else {
        assert((p.ly * 456 + p.clock + 1) % 70224 == p.ly * 456 + p.clock + 1) by (nonlinear_arith)
            requires
                p.ly < 154 && p.clock + 1 < 456,
        ;
        assert(p.ly * 456 + p.clock + 1 == 65664 ==> p.ly == 144 && p.clock + 1 == 0) by (
        nonlinear_arith)
            requires
                p.clock + 1 < 456,
        ;
    }
}

/// Running `n` dots from a consistent position: LY and the clock follow the
/// canonical division of the total dot count, the mode always matches the
/// position, and VBlank fires once per crossing of the frame boundary.
#[verifier::rlimit(100)]
#[verifier::spinoff_prover]
pub proof fn lemma_ppu_run_characterization(p: PpuView, n: u64)
    requires
        ppu_wf(p),
        bit_at(p.lcdc, 128),
        0 <= frame_pos(p) < 70224,
        p.mode == mode_for(p.ly, p.clock),
        p.frames + n < 0xFFFF_FFFF_FFFF_FFFF,
    ensures
        ({
            let t = frame_pos(p) + n;
            let q = ppu_run_spec(p, n);
            &&& ppu_wf(q)
            &&& q.ly == t / 456 % 154
            &&& q.clock == t % 456
            &&& q.mode == mode_for(q.ly, q.clock)
            &&& q.frames == p.frames + vblank_entries(frame_pos(p), n as nat)
            &&& q.vblank_interrupt == (p.vblank_interrupt || vblank_entries(frame_pos(p), n as nat)
                > 0)
            &&& q.lcdc == p.lcdc
        }),
    decreases n,
{
    let pos = frame_pos(p);
    if n == 0 {
        assert(pos / 456 % 154 == p.ly && pos % 456 == p.clock) by (nonlinear_arith)
            requires
                pos == p.ly * 456 + p.clock && p.clock < 456 && p.ly < 154,
        ;
    } else {
        lemma_ppu_dot_char(p);
        let p1 = ppu_dot_spec(p);
        lemma_ppu_run_characterization(p1, (n - 1) as u64);
        let pos1 = frame_pos(p1);
        assert(pos1 == (pos + 1) % 70224);
        // The total-dot formulas agree whether or not the position wrapped.
        if pos + 1 < 70224 {
            assert(pos1 == pos + 1);
        } else {
            assert(pos == 70223 && pos1 == 0);
            assert((70224 + (pos1 + n - 1)) / 456 % 154 == (pos1 + n - 1) / 456 % 154) by (
            nonlinear_arith);
            assert((70224 + (pos1 + n - 1)) % 456 == (pos1 + n - 1) % 456) by (nonlinear_arith);
        }
        assert(vblank_entries(pos, n as nat) == (if (pos + 1) % 70224 == 65664 {
            1int
        } else {
            0int
        }) + vblank_entries(pos1, (n - 1) as nat));
        assert(vblank_entries(pos1, (n - 1) as nat) >= 0) by {
            lemma_vblank_entries_nonneg(pos1, (n - 1) as nat);
        }
    }
}

proof fn lemma_vblank_entries_nonneg(pos: int, n: nat)
    ensures
        0 <= vblank_entries(pos, n) <= n,
    decreases n,
{
    if n > 0 {
        lemma_vblank_entries_nonneg((pos + 1) % 70224, (n - 1) as nat);
    }
}

/// The dots of one frame from the top of the screen cross the VBlank entry
/// exactly once: over 70224 dots from position zero, VBlank fires once, and
/// fewer dots fire it exactly when they reach position 65664.
proof fn lemma_vblank_entries_one_frame(n: nat)
    requires
        n <= 70224,
    ensures
        vblank_entries(0, n) == (if n >= 65664 {
            1int
        } else {
            0int
        }),
    decreases n,
{
    lemma_vblank_entries_prefix(0, n);
}

/// Counting entries on a walk short of a second frame boundary: exactly one
/// when the walk starts below the VBlank entry and reaches it, none
/// otherwise.
proof fn lemma_vblank_entries_prefix(pos: int, n: nat)
    requires
        0 <= pos < 70224,
        pos + n < 70224 + 65664,
    ensures
        vblank_entries(pos, n) == (if pos < 65664 && pos + n >= 65664 {
            1int
        } else {
            0int
        }),
    decreases n,
{
    if n > 0 {
        lemma_vblank_entries_prefix((pos + 1) % 70224, (n - 1) as nat);
    }
}

/// One frame of dots from the reset position: LY runs through 0..153 and
/// back to 0, the mode at every intermediate count matches the canonical
/// (LY, mode) sequence (shown by `lemma_ppu_run_characterization` at each
/// prefix), and VBlank is raised exactly once.
pub proof fn lemma_frame_cadence(p: PpuView)
    requires
        ppu_wf(p),
        bit_at(p.lcdc, 128),
        p.ly == 0 && p.clock == 0,
        p.mode == mode_for(p.ly, p.clock),
        !p.vblank_interrupt,
        p.frames + 70224 < 0xFFFF_FFFF_FFFF_FFFF,
    ensures
        ({
            let q = ppu_run_spec(p, 70224);
            &&& q.ly == 0
            &&& q.clock == 0
            &&& q.frames == p.frames + 1
            &&& q.vblank_interrupt
        }),
{
    lemma_ppu_run_characterization(p, 70224);
    lemma_vblank_entries_one_frame(70224);
}

// ------------------------------------------------------------------
// The executable PPU.
// ------------------------------------------------------------------
impl PPU {
    pub fn new() -> (r: PPU)
        ensures
            ppu_wf(r@),
            r@.lcdc == 0 && r@.lcds.value == 0,
            r@.scy == 0 && r@.scx == 0 && r@.ly == 0 && r@.lyc == 0,
            r@.bgp == 0 && r@.obp0 == 0 && r@.obp1 == 0 && r@.wy == 0 && r@.wx == 0,
            r@.mode == Mode::Mode0 && r@.clock == 0 && r@.frames == 0,
            !r@.vblank_interrupt && !r@.stat_interrupt,
            forall|i: int| 0 <= i < V_RAM_SIZE ==> r@.vram[i] == 0u8,
            forall|i: int| 0 <= i < OAM_SIZE ==> r@.oam[i] == 0u8,
            forall|i: int| 0 <= i < 160 * 144 ==> r@.fb[i] == 0u8,
    {
        PPU {
            vram: zero_vec(V_RAM_SIZE),
            oam: zero_vec(OAM_SIZE),
            framebuffer: zero_vec(160 * 144),
            lcdc: LCDC::new(),
            lcds: LCDS::new(),
            scy: 0,
            scx: 0,
            ly: 0,
            lyc: 0,
            bgp: 0,
            obp0: 0,
            obp1: 0,
            wy: 0,
            wx: 0,
            mode: Mode::Mode0,
            clock: 0,
            frames: 0,
            vblank_interrupt: false,
            stat_interrupt: false,
        }
    }

    pub fn read(&self, address: u16) -> (r: u8)
        requires
            ppu_wf(self@),
        ensures
            r == ppu_read_spec(self@, address),
    {
        if 0x8000 <= address && address < 0xA000 {
            if !matches!(self.mode, Mode::Mode3) {
                self.vram[(address - 0x8000) as usize]
            } else {
                0xFF
            }
        } else if 0xFE00 <= address && address < 0xFEA0 {
            if matches!(self.mode, Mode::Mode0 | Mode::Mode1) {
                self.oam[(address - 0xFE00) as usize]
            } else {
                0xFF
            }
        } else if address == 0xFF40 {
            self.lcdc.read()
        } else if address == 0xFF41 {
            self.lcds.read()
        } else if address == 0xFF42 {
            self.scy
        } else if address == 0xFF43 {
            self.scx
        } else if address == 0xFF44 {
            if self.lcdc.lcd_display_enable() {
                self.ly
            } else {
                0
            }
        } else if address == 0xFF45 {
            self.lyc
        } else if address == 0xFF47 {
            self.bgp
        } else if address == 0xFF48 {
            self.obp0
        } else if address == 0xFF49 {
            self.obp1
        } else if address == 0xFF4A {
            self.wy
        } else if address == 0xFF4B {
            self.wx
        } else {
            0xFF
        }
    }

    pub fn write(&mut self, address: u16, value: u8)
        requires
            ppu_wf(old(self)@),
        ensures
            final(self)@ == ppu_write_spec(old(self)@, address, value),
            ppu_wf(final(self)@),
    {
        if 0x8000 <= address && address < 0xA000 {
            if !matches!(self.mode, Mode::Mode3) {
                self.vram.set((address - 0x8000) as usize, value);
            }
        } else if 0xFE00 <= address && address < 0xFEA0 {
            if matches!(self.mode, Mode::Mode0 | Mode::Mode1) {
                self.oam.set((address - 0xFE00) as usize, value);
            }
        } else if address == 0xFF40 {
            self.lcdc.write(value);
            if value / 128 % 2 == 0 {
                self.clock = 0;
                self.ly = 0;
                self.mode = Mode::Mode0;
                self.lcds.set_mode(Mode::Mode0);
            }
        } else if address == 0xFF41 {
            self.lcds.write(value);
        } else if address == 0xFF42 {
            self.scy = value;
        } else if address == 0xFF43 {
            self.scx = value;
        } else if address == 0xFF45 {
            self.lyc = value;
        } else if address == 0xFF47 {
            self.bgp = value;
        } else if address == 0xFF48 {
            self.obp0 = value;
        } else if address == 0xFF49 {
            self.obp1 = value;
        } else if address == 0xFF4A {
            self.wy = value;
        } else if address == 0xFF4B {
            self.wx = value;
        }
    }

    /// Load the whole OAM table at once: the DMA copy the MMU performs on a
    /// write to 0xFF46. DMA is not gated by the mode.
    pub fn dma_transfer(&mut self, data: &Vec<u8>)
        requires
            ppu_wf(old(self)@),
            data@.len() == OAM_SIZE,
        ensures
            final(self)@ == (PpuView { oam: data@, ..old(self)@ }),
            ppu_wf(final(self)@),
    {
        let mut i: usize = 0;
        while i < OAM_SIZE
            invariant
                ppu_wf(self@),
                i <= OAM_SIZE,
                data@.len() == OAM_SIZE,
                *self == (PPU { oam: self.oam, ..*old(self) }),
                self.oam@.len() == OAM_SIZE,
                forall|j: int| 0 <= j < i ==> self.oam@[j] == data@[j],
                forall|j: int| i <= j < OAM_SIZE ==> self.oam@[j] == old(self).oam@[j],
            decreases OAM_SIZE - i,
        {
            let b = data[i];
            self.oam.set(i, b);
            i = i + 1;
        }
        proof {
            assert(self.oam@ =~= data@);
        }
    }

    // ----------------------------------------------------------
    // Rendering.
    // ----------------------------------------------------------
    /// 2^(7-c) for a tile column.
    fn col_mask_at(c: usize) -> (r: u8)
        ensures
            r == col_mask(c as int),
            r > 0,
    {
        match c {
            0 => 128,
            1 => 64,
            2 => 32,
            3 => 16,
            4 => 8,
            5 => 4,
            6 => 2,
            _ => 1,
        }
    }

    /// 4^c for a 2-bit colour index.
    fn quad_mask_at(c: u8) -> (r: u8)
        ensures
            r == quad_mask(c),
            r > 0,
    {
        match c {
            0 => 1,
            1 => 4,
            2 => 16,
            _ => 64,
        }
    }

    /// Decode the OAM entry in table slot `n`.
    pub fn oam_entry(&self, entry_number: usize) -> (r: OAMEntry)
        requires
            ppu_wf(self@),
            entry_number < 40,
        ensures
            r == oam_entry_at(self@, entry_number as int),
    {
        let base: usize = 4 * entry_number;
        OAMEntry::from_bytes(self.oam[base], self.oam[base + 1], self.oam[base + 2], self.oam[base
            + 3])
    }

    /// OAM search: the first ten sprites visible on the current line, in
    /// OAM order.
    fn visible_sprites(&self) -> (r: Vec<OAMEntry>)
        requires
            ppu_wf(self@),
        ensures
            r@ == selected_sprites(self@),
    {
        let h: u16 = if self.lcdc.obj_size().1 == 16 {
            16
        } else {
            8
        };
        let mut sel: Vec<OAMEntry> = Vec::new();
        let mut n: usize = 0;
        while n < 40
            invariant
                ppu_wf(self@),
                n <= 40,
                h == sprite_height(self@.lcdc),
                sel@ == selected_upto(self@, n as int),
            decreases 40 - n,
        {
            let e = self.oam_entry(n);
            let line: u16 = self.ly as u16 + 16;
            if sel.len() < 10 && e.x != 0 && (e.y as u16) <= line && line < e.y as u16 + h {
                sel.push(e);
            }
            n = n + 1;
        }
        sel
    }

    /// The background or window colour index at screen column `x`.
    fn bg_index(&self, x: usize) -> (r: u8)
        requires
            ppu_wf(self@),
            x < 160,
            self@.ly < 144,
        ensures
            r == bg_pixel_index(self@, x as int),
            r < 4,
    {
        if !self.lcdc.bg_display() {
            return 0;
        }
        let in_window = self.lcdc.window_display_enable() && self.wy <= self.ly && (self.wx
            as usize) <= x + 7;
        let row: usize = if in_window {
            (self.ly - self.wy) as usize
        } else {
            ((self.ly as usize) + (self.scy as usize)) % 256
        };
        let col: usize = if in_window {
            x + 7 - (self.wx as usize)
        } else {
            (x + (self.scx as usize)) % 256
        };
        let map: usize = if in_window {
            if self.lcdc.window_tile_map_display_select().0 == 0x9C00 {
                0x1C00
            } else {
                0x1800
            }
        } else {
            if self.lcdc.bg_tile_map_display_select().0 == 0x9C00 {
                0x1C00
            } else {
                0x1800
            }
        };
        let tile: u8 = self.vram[map + row / 8 * 32 + col / 8];
        let base: usize = if self.lcdc.bg_window_tile_data_select().0 == 0x8000 {
            16 * (tile as usize)
        } else {
            if tile < 128 {
                0x1000 + 16 * (tile as usize)
            } else {
                0x1000 - 16 * (256 - tile as usize)
            }
        };
        let b0 = self.vram[base + row % 8 * 2];
        let b1 = self.vram[base + row % 8 * 2 + 1];
        let m = Self::col_mask_at(col % 8);
        2 * (b1 / m % 2) + (b0 / m % 2)
    }

    /// The colour index of sprite `e` at screen column `x`; zero when
    /// transparent or not covering `x`.
    fn sprite_index(&self, e: &OAMEntry, x: usize) -> (r: u8)
        requires
            ppu_wf(self@),
            x < 160,
            self@.ly < 144,
        ensures
            r == sprite_pixel_index(self@, *e, x as int),
            r < 4,
    {
        let h: u16 = if self.lcdc.obj_size().1 == 16 {
            16
        } else {
            8
        };
        let xs: u16 = x as u16 + 8;
        let line: u16 = self.ly as u16 + 16;
        if !((e.x as u16) <= xs && xs < e.x as u16 + 8 && (e.y as u16) <= line && line < e.y as u16
            + h) {
            return 0;
        }
        let row0: u16 = line - e.y as u16;
        let row: u16 = if e.flags.flip_y {
            h - 1 - row0
        } else {
            row0
        };
        let col0: u16 = xs - e.x as u16;
        let col: u16 = if e.flags.flip_x {
            7 - col0
        } else {
            col0
        };
        let tile: usize = if h == 16 {
            (e.tile_number as usize) / 2 * 2 + (if row >= 8 {
                1
            } else {
                0
            })
        } else {
            e.tile_number as usize
        };
        let base: usize = 16 * tile;
        let b0 = self.vram[base + (row as usize) % 8 * 2];
        let b1 = self.vram[base + (row as usize) % 8 * 2 + 1];
        let m = Self::col_mask_at(col as usize);
        2 * (b1 / m % 2) + (b0 / m % 2)
    }

    /// The final 2-bit colour of screen column `x`, sprites composed over
    /// the background per the priority rules.
    fn pixel_color(&self, sel: &Vec<OAMEntry>, x: usize) -> (r: u8)
        requires
            ppu_wf(self@),
            x < 160,
            self@.ly < 144,
            sel@ == selected_sprites(self@),
        ensures
            r == pixel_spec(self@, x as int),
    {
        let bg_ci = self.bg_index(x);
        let m = Self::quad_mask_at(bg_ci);
        let bg_col = self.bgp / m % 4;
        if !self.lcdc.obj_display_enable() {
            return bg_col;
        }
        let mut best: Option<OAMEntry> = None;
        let mut k: usize = 0;
        while k < sel.len()
            invariant
                ppu_wf(self@),
                x < 160,
                self@.ly < 144,
                sel@ == selected_sprites(self@),
                k <= sel@.len(),
                best == sprite_winner_upto(self@, sel@, x as int, k as int),
            decreases sel@.len() - k,
        {
            let e = sel[k];
            let c = self.sprite_index(&e, x);
            if c != 0 {
                best = match best {
                    None => Some(e),
                    Some(w) => if e.x < w.x {
                        Some(e)
                    } else {
                        Some(w)
                    },
                };
            }
            k = k + 1;
        }
        match best {
            None => bg_col,
            Some(w) => {
                if w.flags.priority && bg_ci != 0 {
                    bg_col
                } else {
                    let pal: u8 = if w.flags.palette {
                        self.obp1
                    } else {
                        self.obp0
                    };
                    let c = self.sprite_index(&w, x);
                    let qm = Self::quad_mask_at(c);
                    pal / qm % 4
                }
            },
        }
    }

    /// Draw the current scanline into the framebuffer.
    fn render_scanline(&mut self)
        requires
            ppu_wf(old(self)@),
            old(self)@.ly < 144,
        ensures
            final(self)@ == (PpuView { fb: render_row_spec(old(self)@), ..old(self)@ }),
            ppu_wf(final(self)@),
    {
        let sel = self.visible_sprites();
        let mut row: Vec<u8> = Vec::new();
        let mut x: usize = 0;
        while x < 160
            invariant
                *self == *old(self),
                ppu_wf(self@),
                self@.ly < 144,
                sel@ == selected_sprites(self@),
                x == row@.len() <= 160,
                forall|i: int| 0 <= i < x ==> row@[i] == pixel_spec(self@, i),
            decreases 160 - x,
        {
            let c = self.pixel_color(&sel, x);
            row.push(c);
            x = x + 1;
        }
        let base: usize = (self.ly as usize) * 160;
        let mut i: usize = 0;
        while i < 160
            invariant
                i <= 160,
                base == old(self)@.ly * 160,
                base + 160 <= self.framebuffer@.len(),
                *self == (PPU { framebuffer: self.framebuffer, ..*old(self) }),
                self.framebuffer@.len() == old(self)@.fb.len(),
                row@.len() == 160,
                forall|j: int| 0 <= j < 160 ==> row@[j] == pixel_spec(old(self)@, j),
                forall|j: int| base <= j < base + i ==> self.framebuffer@[j] == row@[j - base],
                forall|j: int|
                    0 <= j < self.framebuffer@.len() && !(base <= j < base + i)
                        ==> self.framebuffer@[j] == old(self)@.fb[j],
            decreases 160 - i,
        {
            let c = row[i];
            self.framebuffer.set(base + i, c);
            i = i + 1;
        }
        proof {
            assert(self.framebuffer@ =~= render_row_spec(old(self)@));
        }
    }

    /// Enter a mode, performing its entry effects.
    fn enter_mode(&mut self, m: Mode)
        requires
            ppu_wf(old(self)@),
        ensures
            final(self)@ == enter_mode_spec(old(self)@, m),
            ppu_wf(final(self)@),
    {
        match m {
            Mode::Mode0 => {
                if self.ly < 144 {
                    self.render_scanline();
                }
                if self.lcds.mode_0_h_blank_interrupt() {
                    self.stat_interrupt = true;
                }
            },
            Mode::Mode1 => {
                self.vblank_interrupt = true;
                self.frames = if self.frames < u64::MAX {
                    self.frames + 1
                } else {
                    0
                };
                if self.lcds.mode_1_v_blank_interrupt() {
                    self.stat_interrupt = true;
                }
            },
            Mode::Mode2 => {
                if self.lcds.mode_2_oam_interrupt() {
                    self.stat_interrupt = true;
                }
            },
            Mode::Mode3 => {
            },
        }
        self.mode = m;
        self.lcds.set_mode(m);
    }

    /// One dot of PPU time: advance the line clock, wrap lines, and switch
    /// modes with their entry effects.
    fn advance_dot(&mut self)
        requires
            ppu_wf(old(self)@),
        ensures
            final(self)@ == ppu_dot_spec(old(self)@),
            ppu_wf(final(self)@),
    {
        if self.clock + 1 == 456 {
            self.clock = 0;
            self.ly = (self.ly + 1) % 154;
            let eq = self.ly == self.lyc;
            self.lcds.set_coincidence(eq);
            if eq && self.lcds.lyc_interrupt() {
                self.stat_interrupt = true;
            }
        } else {
            self.clock = self.clock + 1;
        }
        let target = if self.ly >= 144 {
            Mode::Mode1
        } else if self.clock < 80 {
            Mode::Mode2
        } else if self.clock < 252 {
            Mode::Mode3
        } else {
            Mode::Mode0
        };
        let same = match (self.mode, target) {
            (Mode::Mode0, Mode::Mode0) => true,
            (Mode::Mode1, Mode::Mode1) => true,
            (Mode::Mode2, Mode::Mode2) => true,
            (Mode::Mode3, Mode::Mode3) => true,
            _ => false,
        };
        if !same {
            self.enter_mode(target);
        }
    }

    /// Advance the PPU by the given number of dots; with the LCD off the
    /// clock stands still.
    pub fn run(&mut self, dots: u64)
        requires
            ppu_wf(old(self)@),
        ensures
            final(self)@ == ppu_run_spec(old(self)@, dots),
            ppu_wf(final(self)@),
    {
        if !self.lcdc.lcd_display_enable() {
            return ;
        }
        let mut left: u64 = dots;
        while left > 0
            invariant
                ppu_wf(self@),
                bit_at(self@.lcdc, 128),
                ppu_run_spec(old(self)@, dots) == ppu_run_spec(self@, left),
            decreases left,
        {
            self.advance_dot();
            left = left - 1;
        }
    }

    // ----------------------------------------------------------
    // Raw tile viewers.
    // ----------------------------------------------------------
    /// The first tile-data block.
    pub fn get_tile_set_1(&self) -> (r: Vec<u8>)
        requires
            ppu_wf(self@),
        ensures
            r@ == self@.vram.subrange(0, 0x07FF),
    {
        self.vram_range(0, 0x07FF)
    }

    /// The tile-data block shared by both addressing modes.
    pub fn get_tile_set_1_and_0(&self) -> (r: Vec<u8>)
        requires
            ppu_wf(self@),
        ensures
            r@ == self@.vram.subrange(0x0800, 0x0FFF),
    {
        self.vram_range(0x0800, 0x0FFF)
    }

    /// The second tile-data block.
    pub fn get_tile_set_0(&self) -> (r: Vec<u8>)
        requires
            ppu_wf(self@),
        ensures
            r@ == self@.vram.subrange(0x1000, 0x17FF),
    {
        self.vram_range(0x1000, 0x17FF)
    }

    /// The low tile map.
    pub fn get_tile_map_0(&self) -> (r: Vec<u8>)
        requires
            ppu_wf(self@),
        ensures
            r@ == self@.vram.subrange(0x1800, 0x1BFF),
    {
        self.vram_range(0x1800, 0x1BFF)
    }

    /// The high tile map.
    pub fn get_tile_map_1(&self) -> (r: Vec<u8>)
        requires
            ppu_wf(self@),
        ensures
            r@ == self@.vram.subrange(0x1C00, 0x1FFF),
    {
        self.vram_range(0x1C00, 0x1FFF)
    }

    fn vram_range(&self, a: usize, b: usize) -> (r: Vec<u8>)
        requires
            ppu_wf(self@),
            a <= b <= V_RAM_SIZE,
        ensures
            r@ == self@.vram.subrange(a as int, b as int),
    {
        let mut v: Vec<u8> = Vec::new();
        let mut k: usize = a;
        while k < b
            invariant
                ppu_wf(self@),
                a <= k <= b <= V_RAM_SIZE,
                v@ == self@.vram.subrange(a as int, k as int),
            decreases b - k,
        {
            v.push(self.vram[k]);
            proof {
                assert(v@ =~= self@.vram.subrange(a as int, k + 1));
            }
            k = k + 1;
        }
        v
    }
}

} // verus!
