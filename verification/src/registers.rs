//! The LR35902 register file: eight 8-bit registers pairing into AF, BC, DE
//! and HL, the 16-bit PC and SP, and the four condition flags held in the
//! upper nibble of F (Z = bit 7, N = bit 6, H = bit 5, C = bit 4).

use vstd::prelude::*;

verus! {

/// The zero flag: bit 7 of F.
pub open spec fn z_flag(f: u8) -> bool {
    f / 128 % 2 == 1
}

/// The subtract flag: bit 6 of F.
pub open spec fn n_flag(f: u8) -> bool {
    f / 64 % 2 == 1
}

/// The half-carry flag: bit 5 of F.
pub open spec fn h_flag(f: u8) -> bool {
    f / 32 % 2 == 1
}

/// The carry flag: bit 4 of F.
pub open spec fn c_flag(f: u8) -> bool {
    f / 16 % 2 == 1
}

/// The low nibble of F, which the flag operations leave untouched.
pub open spec fn low_nibble(f: u8) -> u8 {
    f % 16
}

/// The F byte holding the four given flags and a zero low nibble.
pub open spec fn flags_byte(z: bool, n: bool, h: bool, c: bool) -> u8 {
    ((if z { 128int } else { 0int }) + (if n { 64int } else { 0int })
        + (if h { 32int } else { 0int }) + (if c { 16int } else { 0int })) as u8
}

/// Build an F byte from the four flags, the low nibble zero.
pub fn compose_flags(z: bool, n: bool, h: bool, c: bool) -> (r: u8)
    ensures
        r == flags_byte(z, n, h, c),
{
    (if z {
        128u8
    } else {
        0u8
    }) + (if n {
        64u8
    } else {
        0u8
    }) + (if h {
        32u8
    } else {
        0u8
    }) + (if c {
        16u8
    } else {
        0u8
    })
}

pub struct Registers {
    pub a: u8,
    pub b: u8,
    pub c: u8,
    pub d: u8,
    pub e: u8,
    pub h: u8,
    pub l: u8,
    pub f: u8,
    pub pc: u16,
    pub sp: u16,
    pub ime: bool,
}

impl Registers {
    /// The post-boot register values of the DMG.
    pub fn new() -> (r: Registers)
        ensures
            r.a == 0x01 && r.f == 0xB0,
            r.b == 0x00 && r.c == 0x13,
            r.d == 0x00 && r.e == 0xD8,
            r.h == 0x01 && r.l == 0x4D,
            r.pc == 0x0100,
            r.sp == 0xFFFE,
            !r.ime,
    {
        Registers {
            a: 0x01,
            f: 0xB0,
            b: 0x00,
            c: 0x13,
            d: 0x00,
            e: 0xD8,
            h: 0x01,
            l: 0x4D,
            pc: 0x0100,
            sp: 0xFFFE,
            ime: false,
        }
    }

    /// Get the register pair AF as a u16.
    pub fn get_af(&self) -> (r: u16)
        ensures
            r == self.a * 256 + self.f,
    {
        (self.a as u16) * 256 + (self.f as u16)
    }

    /// Set the register pair AF to the given u16.
    pub fn set_af(&mut self, x: u16)
        ensures
            *final(self) == (Registers { a: (x / 256) as u8, f: (x % 256) as u8, ..*old(self) }),
    {
        self.a = (x / 256) as u8;
        self.f = (x % 256) as u8;
    }

    /// Get the register pair BC as a u16.
    pub fn get_bc(&self) -> (r: u16)
        ensures
            r == self.b * 256 + self.c,
    {
        (self.b as u16) * 256 + (self.c as u16)
    }

    /// Set the register pair BC to the given u16.
    pub fn set_bc(&mut self, x: u16)
        ensures
            *final(self) == (Registers { b: (x / 256) as u8, c: (x % 256) as u8, ..*old(self) }),
    {
        self.b = (x / 256) as u8;
        self.c = (x % 256) as u8;
    }

    /// Get the register pair DE as a u16.
    pub fn get_de(&self) -> (r: u16)
        ensures
            r == self.d * 256 + self.e,
    {
        (self.d as u16) * 256 + (self.e as u16)
    }

    /// Set the register pair DE to the given u16.
    pub fn set_de(&mut self, x: u16)
        ensures
            *final(self) == (Registers { d: (x / 256) as u8, e: (x % 256) as u8, ..*old(self) }),
    {
        self.d = (x / 256) as u8;
        self.e = (x % 256) as u8;
    }

    /// Get the register pair HL as a u16.
    pub fn get_hl(&self) -> (r: u16)
        ensures
            r == self.h * 256 + self.l,
    {
        (self.h as u16) * 256 + (self.l as u16)
    }

    /// Set the register pair HL to the given u16.
    pub fn set_hl(&mut self, x: u16)
        ensures
            *final(self) == (Registers { h: (x / 256) as u8, l: (x % 256) as u8, ..*old(self) }),
    {
        self.h = (x / 256) as u8;
        self.l = (x % 256) as u8;
    }

    /// Set the Zero (Z) flag of the F register.
    pub fn set_zero(&mut self)
        ensures
            *final(self) == (Registers { f: (old(self).f % 128 + 128) as u8, ..*old(self) }),
            z_flag(final(self).f),
            n_flag(final(self).f) == n_flag(old(self).f),
            h_flag(final(self).f) == h_flag(old(self).f),
            c_flag(final(self).f) == c_flag(old(self).f),
            low_nibble(final(self).f) == low_nibble(old(self).f),
    {
        self.f = self.f % 128 + 128;
        proof {
            lemma_bit_update(old(self).f, self.f);
        }
    }

    /// Unset the Zero (Z) flag of the F register.
    pub fn unset_zero(&mut self)
        ensures
            *final(self) == (Registers { f: (old(self).f % 128) as u8, ..*old(self) }),
            !z_flag(final(self).f),
            n_flag(final(self).f) == n_flag(old(self).f),
            h_flag(final(self).f) == h_flag(old(self).f),
            c_flag(final(self).f) == c_flag(old(self).f),
            low_nibble(final(self).f) == low_nibble(old(self).f),
    {
        self.f = self.f % 128;
        proof {
            lemma_bit_update(old(self).f, self.f);
        }
    }

    /// Check the Zero (Z) flag of the F register.
    pub fn is_zero(&self) -> (r: bool)
        ensures
            r == z_flag(self.f),
    {
        self.f / 128 % 2 == 1
    }

    /// Set the Subtract (N) flag of the F register.
    pub fn set_subtraction(&mut self)
        ensures
            z_flag(final(self).f) == z_flag(old(self).f),
            n_flag(final(self).f),
            h_flag(final(self).f) == h_flag(old(self).f),
            c_flag(final(self).f) == c_flag(old(self).f),
            low_nibble(final(self).f) == low_nibble(old(self).f),
            final(self).f == (if n_flag(old(self).f) {
                old(self).f
            } else {
                (old(self).f + 64) as u8
            }),
            *final(self) == (Registers { f: final(self).f, ..*old(self) }),
    {
        if self.f / 64 % 2 == 0 {
            self.f = self.f + 64;
            proof {
                lemma_bit_update(old(self).f, self.f);
            }
        }
    }

    /// Unset the Subtract (N) flag of the F register.
    pub fn unset_subtraction(&mut self)
        ensures
            z_flag(final(self).f) == z_flag(old(self).f),
            !n_flag(final(self).f),
            h_flag(final(self).f) == h_flag(old(self).f),
            c_flag(final(self).f) == c_flag(old(self).f),
            low_nibble(final(self).f) == low_nibble(old(self).f),
            final(self).f == (if n_flag(old(self).f) {
                (old(self).f - 64) as u8
            } else {
                old(self).f
            }),
            *final(self) == (Registers { f: final(self).f, ..*old(self) }),
    {
        if self.f / 64 % 2 == 1 {
            self.f = self.f - 64;
            proof {
                lemma_bit_update(old(self).f, self.f);
            }
        }
    }

    /// Check the Subtract (N) flag of the F register.
    pub fn is_subtraction(&self) -> (r: bool)
        ensures
            r == n_flag(self.f),
    {
        self.f / 64 % 2 == 1
    }

    /// Set the Half Carry (H) flag of the F register.
    pub fn set_half_carry(&mut self)
        ensures
            z_flag(final(self).f) == z_flag(old(self).f),
            n_flag(final(self).f) == n_flag(old(self).f),
            h_flag(final(self).f),
            c_flag(final(self).f) == c_flag(old(self).f),
            low_nibble(final(self).f) == low_nibble(old(self).f),
            final(self).f == (if h_flag(old(self).f) {
                old(self).f
            } else {
                (old(self).f + 32) as u8
            }),
            *final(self) == (Registers { f: final(self).f, ..*old(self) }),
    {
        if self.f / 32 % 2 == 0 {
            self.f = self.f + 32;
            proof {
                lemma_bit_update(old(self).f, self.f);
            }
        }
    }

    /// Unset the Half Carry (H) flag of the F register.
    pub fn unset_half_carry(&mut self)
        ensures
            z_flag(final(self).f) == z_flag(old(self).f),
            n_flag(final(self).f) == n_flag(old(self).f),
            !h_flag(final(self).f),
            c_flag(final(self).f) == c_flag(old(self).f),
            low_nibble(final(self).f) == low_nibble(old(self).f),
            final(self).f == (if h_flag(old(self).f) {
                (old(self).f - 32) as u8
            } else {
                old(self).f
            }),
            *final(self) == (Registers { f: final(self).f, ..*old(self) }),
    {
        if self.f / 32 % 2 == 1 {
            self.f = self.f - 32;
            proof {
                lemma_bit_update(old(self).f, self.f);
            }
        }
    }

    /// Check the Half Carry (H) flag of the F register.
    pub fn is_half_carry(&self) -> (r: bool)
        ensures
            r == h_flag(self.f),
    {
        self.f / 32 % 2 == 1
    }

    /// Set the Carry (C) flag of the F register.
    pub fn set_full_carry(&mut self)
        ensures
            z_flag(final(self).f) == z_flag(old(self).f),
            n_flag(final(self).f) == n_flag(old(self).f),
            h_flag(final(self).f) == h_flag(old(self).f),
            c_flag(final(self).f),
            low_nibble(final(self).f) == low_nibble(old(self).f),
            final(self).f == (if c_flag(old(self).f) {
                old(self).f
            } else {
                (old(self).f + 16) as u8
            }),
            *final(self) == (Registers { f: final(self).f, ..*old(self) }),
    {
        if self.f / 16 % 2 == 0 {
            self.f = self.f + 16;
            proof {
                lemma_bit_update(old(self).f, self.f);
            }
        }
    }

    /// Unset the Carry (C) flag of the F register.
    pub fn unset_full_carry(&mut self)
        ensures
            z_flag(final(self).f) == z_flag(old(self).f),
            n_flag(final(self).f) == n_flag(old(self).f),
            h_flag(final(self).f) == h_flag(old(self).f),
            !c_flag(final(self).f),
            low_nibble(final(self).f) == low_nibble(old(self).f),
            final(self).f == (if c_flag(old(self).f) {
                (old(self).f - 16) as u8
            } else {
                old(self).f
            }),
            *final(self) == (Registers { f: final(self).f, ..*old(self) }),
    {
        if self.f / 16 % 2 == 1 {
            self.f = self.f - 16;
            proof {
                lemma_bit_update(old(self).f, self.f);
            }
        }
    }

    /// Check the Carry (C) flag of the F register.
    pub fn is_full_carry(&self) -> (r: bool)
        ensures
            r == c_flag(self.f),
    {
        self.f / 16 % 2 == 1
    }
}

/// Relates the flag projections of two F bytes that differ by one flag bit,
/// covering every single-bit set or clear the flag operations perform.
#[verifier::rlimit(100)]
proof fn lemma_bit_update(f0: u8, f1: u8)
    requires
        f1 == f0 % 128 + 128 || f1 == f0 % 128 || (f0 / 64 % 2 == 0 && f1 == f0 + 64) || (f0 / 64
            % 2 == 1 && f1 == f0 - 64) || (f0 / 32 % 2 == 0 && f1 == f0 + 32) || (f0 / 32 % 2 == 1
            && f1 == f0 - 32) || (f0 / 16 % 2 == 0 && f1 == f0 + 16) || (f0 / 16 % 2 == 1 && f1
            == f0 - 16),
    ensures
        f1 == f0 % 128 + 128 ==> z_flag(f1) && n_flag(f1) == n_flag(f0) && h_flag(f1) == h_flag(f0)
            && c_flag(f1) == c_flag(f0) && low_nibble(f1) == low_nibble(f0),
        f1 == f0 % 128 ==> !z_flag(f1) && n_flag(f1) == n_flag(f0) && h_flag(f1) == h_flag(f0)
            && c_flag(f1) == c_flag(f0) && low_nibble(f1) == low_nibble(f0),
        (f0 / 64 % 2 == 0 && f1 == f0 + 64) || (f0 / 64 % 2 == 1 && f1 == f0 - 64) ==> z_flag(f1)
            == z_flag(f0) && n_flag(f1) == (f0 / 64 % 2 == 0) && h_flag(f1) == h_flag(f0) && c_flag(
            f1,
        ) == c_flag(f0) && low_nibble(f1) == low_nibble(f0),
        (f0 / 32 % 2 == 0 && f1 == f0 + 32) || (f0 / 32 % 2 == 1 && f1 == f0 - 32) ==> z_flag(f1)
            == z_flag(f0) && n_flag(f1) == n_flag(f0) && h_flag(f1) == (f0 / 32 % 2 == 0) && c_flag(
            f1,
        ) == c_flag(f0) && low_nibble(f1) == low_nibble(f0),
        (f0 / 16 % 2 == 0 && f1 == f0 + 16) || (f0 / 16 % 2 == 1 && f1 == f0 - 16) ==> z_flag(f1)
            == z_flag(f0) && n_flag(f1) == n_flag(f0) && h_flag(f1) == h_flag(f0) && c_flag(f1) == (
        f0 / 16 % 2 == 0) && low_nibble(f1) == low_nibble(f0),
{
}

} // verus!
