//! The joypad: 0xFF00 exposes a four-bit button nibble selected by two
//! control bits. The host hands in the set of currently pressed buttons; a
//! data bit falling from released to pressed while its selector is active
//! raises the joypad interrupt.

use vstd::prelude::*;

verus! {

/// The set of pressed logical buttons, as the host input layer reports them.
#[derive(Clone, Copy, PartialEq, Eq, Structural, Debug)]
pub struct Buttons {
    pub up: bool,
    pub down: bool,
    pub left: bool,
    pub right: bool,
    pub a: bool,
    pub b: bool,
    pub start: bool,
    pub select: bool,
}

impl Buttons {
    /// No button pressed.
    pub fn none() -> (r: Buttons)
        ensures
            r == (Buttons {
                up: false,
                down: false,
                left: false,
                right: false,
                a: false,
                b: false,
                start: false,
                select: false,
            }),
    {
        Buttons {
            up: false,
            down: false,
            left: false,
            right: false,
            a: false,
            b: false,
            start: false,
            select: false,
        }
    }
}

pub struct Joypad {
    /// Select action buttons (bit 5 of 0xFF00).
    pub bit_5: bool,
    /// Select direction buttons (bit 4 of 0xFF00).
    pub bit_4: bool,
    /// Down or Start; true means not pressed.
    pub bit_3: bool,
    /// Up or Select; true means not pressed.
    pub bit_2: bool,
    /// Left or B; true means not pressed.
    pub bit_1: bool,
    /// Right or A; true means not pressed.
    pub bit_0: bool,
    /// The joypad interrupt request: bit 4 of IF.
    pub interrupt: bool,
}

pub open spec fn joypad_read_spec(j: Joypad) -> u8 {
    ((if j.bit_5 {
        32int
    } else {
        0int
    }) + (if j.bit_4 {
        16int
    } else {
        0int
    }) + (if j.bit_3 {
        8int
    } else {
        0int
    }) + (if j.bit_2 {
        4int
    } else {
        0int
    }) + (if j.bit_1 {
        2int
    } else {
        0int
    }) + (if j.bit_0 {
        1int
    } else {
        0int
    })) as u8
}

pub open spec fn joypad_write_spec(j: Joypad, v: u8) -> Joypad {
    Joypad { bit_5: v / 32 % 2 == 1, bit_4: v / 16 % 2 == 1, ..j }
}

/// Whether each matrix row's bit reads pressed for the given button set and
/// selectors.
pub open spec fn row_pressed_3(j: Joypad, p: Buttons) -> bool {
    (p.down && j.bit_4) || (p.start && j.bit_5)
}

pub open spec fn row_pressed_2(j: Joypad, p: Buttons) -> bool {
    (p.up && j.bit_4) || (p.select && j.bit_5)
}

pub open spec fn row_pressed_1(j: Joypad, p: Buttons) -> bool {
    (p.left && j.bit_4) || (p.b && j.bit_5)
}

pub open spec fn row_pressed_0(j: Joypad, p: Buttons) -> bool {
    (p.right && j.bit_4) || (p.a && j.bit_5)
}

pub open spec fn joypad_set_spec(j: Joypad, p: Buttons) -> Joypad {
    Joypad {
        bit_3: !row_pressed_3(j, p),
        bit_2: !row_pressed_2(j, p),
        bit_1: !row_pressed_1(j, p),
        bit_0: !row_pressed_0(j, p),
        interrupt: j.interrupt || (j.bit_3 && row_pressed_3(j, p)) || (j.bit_2 && row_pressed_2(
            j,
            p,
        )) || (j.bit_1 && row_pressed_1(j, p)) || (j.bit_0 && row_pressed_0(j, p)),
        ..j
    }
}

impl Joypad {
    pub fn new() -> (r: Joypad)
        ensures
            r.bit_5 && r.bit_4 && r.bit_3 && r.bit_2 && r.bit_1 && r.bit_0,
            !r.interrupt,
    {
        Joypad {
            bit_5: true,
            bit_4: true,
            bit_3: true,
            bit_2: true,
            bit_1: true,
            bit_0: true,
            interrupt: false,
        }
    }

    /// The 0xFF00 byte: both select bits and the four live data bits.
    pub fn read(&self) -> (r: u8)
        ensures
            r == joypad_read_spec(*self),
    {
        let mut result: u8 = 0;
        if self.bit_5 {
            result = result + 32;
        }
        if self.bit_4 {
            result = result + 16;
        }
        if self.bit_3 {
            result = result + 8;
        }
        if self.bit_2 {
            result = result + 4;
        }
        if self.bit_1 {
            result = result + 2;
        }
        if self.bit_0 {
            result = result + 1;
        }
        result
    }

    /// A write to 0xFF00 sets the two select bits; the data bits are owned by
    /// the button matrix.
    pub fn write(&mut self, value: u8)
        ensures
            *final(self) == joypad_write_spec(*old(self), value),
    {
        self.bit_5 = value / 32 % 2 == 1;
        self.bit_4 = value / 16 % 2 == 1;
    }

    /// Feed the currently pressed buttons into the matrix, raising the
    /// joypad interrupt on any selected data bit falling from released to
    /// pressed.
    pub fn set_buttons(&mut self, pressed: Buttons)
        ensures
            *final(self) == joypad_set_spec(*old(self), pressed),
    {
        let b3 = (pressed.down && self.bit_4) || (pressed.start && self.bit_5);
        if self.bit_3 && b3 {
            self.interrupt = true;
        }
        let b2 = (pressed.up && self.bit_4) || (pressed.select && self.bit_5);
        if self.bit_2 && b2 {
            self.interrupt = true;
        }
        let b1 = (pressed.left && self.bit_4) || (pressed.b && self.bit_5);
        if self.bit_1 && b1 {
            self.interrupt = true;
        }
        let b0 = (pressed.right && self.bit_4) || (pressed.a && self.bit_5);
        if self.bit_0 && b0 {
            self.interrupt = true;
        }
        self.bit_3 = !b3;
        self.bit_2 = !b2;
        self.bit_1 = !b1;
        self.bit_0 = !b0;
    }
}

} // verus!
