//! The controller: a serial shift register latched by the strobe bit.

use vstd::prelude::*;

verus! {

/// Button masks for the controller bitmask, one bit per button.
pub struct JoypadButton;

impl JoypadButton {
    /// A button, bit 0.
    pub const BUTTON_A: u8 = 0b0000_0001;
    /// B button, bit 1.
    pub const BUTTON_B: u8 = 0b0000_0010;
    /// Select, bit 2.
    pub const SELECT: u8 = 0b0000_0100;
    /// Start, bit 3.
    pub const START: u8 = 0b0000_1000;
    /// Up, bit 4.
    pub const UP: u8 = 0b0001_0000;
    /// Down, bit 5.
    pub const DOWN: u8 = 0b0010_0000;
    /// Left, bit 6.
    pub const LEFT: u8 = 0b0100_0000;
    /// Right, bit 7.
    pub const RIGHT: u8 = 0b1000_0000;
}

/// Controller state: the latched button bitmask, the strobe latch, and the
/// shift index of the next bit a read will report.
#[derive(Clone, Copy, Debug, PartialEq, Eq, Structural)]
pub struct Joypad {
    pub strobe: bool,
    pub button_index: u8,
    pub button_status: u8,
}

/// What a strobe-port write does: bit 0 sets the strobe, and while the
/// strobe is high the shift index stays at 0.
pub open spec fn joypad_write(j: Joypad, data: u8) -> Joypad {
    let strobe = data & 1 == 1;
    if strobe {
        Joypad { strobe, button_index: 0, ..j }
    } else {
        Joypad { strobe, ..j }
    }
}

/// The bit a read reports: button `index` of the mask, or 1 once all
/// eight buttons have been shifted out.
pub open spec fn joypad_read_value(j: Joypad) -> u8 {
    if j.button_index > 7 {
        1
    } else {
        (j.button_status >> j.button_index) & 1
    }
}

/// The state after a read: the shift index advances only when the strobe
/// is low and buttons remain to be shifted out.
pub open spec fn joypad_after_read(j: Joypad) -> Joypad {
    if !j.strobe && j.button_index <= 7 {
        Joypad { button_index: (j.button_index + 1) as u8, ..j }
    } else {
        j
    }
}

/// What pressing or releasing a button does to the bitmask.
pub open spec fn joypad_set_button(j: Joypad, button: u8, pressed: bool) -> Joypad {
    if pressed {
        Joypad { button_status: j.button_status | button, ..j }
    } else {
        Joypad { button_status: j.button_status & !button, ..j }
    }
}

impl Joypad {
    /// No buttons pressed, strobe low, shift index at the first button.
    pub fn new() -> (r: Joypad)
        ensures
            r == (Joypad { strobe: false, button_index: 0, button_status: 0 }),
    {
        Joypad { strobe: false, button_index: 0, button_status: 0 }
    }

    /// CPU write to the strobe port.
    pub fn write(&mut self, data: u8)
        ensures
            *final(self) == joypad_write(*old(self), data),
    {
        self.strobe = data & 1 == 1;
        if self.strobe {
            self.button_index = 0;
        }
    }

    /// CPU read: reports one button bit and advances the shift index when
    /// the strobe is low.
    pub fn read(&mut self) -> (r: u8)
        ensures
            r == joypad_read_value(*old(self)),
            *final(self) == joypad_after_read(*old(self)),
    {
        if self.button_index > 7 {
            return 1;
        }
        let response = (self.button_status >> self.button_index) & 1;
        if !self.strobe && self.button_index <= 7 {
            self.button_index += 1;
        }
        response
    }

    /// Host-side ingress: press or release one button.
    pub fn set_button_pressed_status(&mut self, button: u8, pressed: bool)
        ensures
            *final(self) == joypad_set_button(*old(self), button, pressed),
    {
        if pressed {
            self.button_status = self.button_status | button;
        } else {
            self.button_status = self.button_status & !button;
        }
    }
}

} // verus!
