//! The small state enums shared across the system: the CPU run status, the
//! interrupt-master-enable latch, and the PPU mode.

use vstd::prelude::*;

verus! {

/// The CPU's running status.
#[derive(Clone, Copy, PartialEq, Eq, Structural, Debug)]
pub enum Status {
    STOPPED,
    HALTED,
    RUNNING,
}

/// The interrupt-master-enable latch. EI asks for `OneCycleDelay`; the latch
/// then advances one stage at the start of each CPU step, so the interrupt
/// check sees `Enabled` only after one whole instruction has run.
#[derive(Clone, Copy, PartialEq, Eq, Structural, Debug)]
pub enum IME {
    Enabled,
    OneCycleDelay,
    ReadyToEnable,
    Disabled,
}

/// Advance the latch by one CPU step.
pub open spec fn ime_advance(i: IME) -> IME {
    match i {
        IME::OneCycleDelay => IME::ReadyToEnable,
        IME::ReadyToEnable => IME::Enabled,
        IME::Enabled => IME::Enabled,
        IME::Disabled => IME::Disabled,
    }
}

/// The PPU mode: HBlank, VBlank, OAM search, pixel transfer.
#[derive(Clone, Copy, PartialEq, Eq, Structural, Debug)]
pub enum Mode {
    Mode0,
    Mode1,
    Mode2,
    Mode3,
}

/// The mode as it appears in bits 1..0 of the STAT register.
pub open spec fn mode_bits(m: Mode) -> u8 {
    match m {
        Mode::Mode0 => 0,
        Mode::Mode1 => 1,
        Mode::Mode2 => 2,
        Mode::Mode3 => 3,
    }
}

} // verus!
