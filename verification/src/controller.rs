//! The standard gamepad: an eight-bit latch of instantaneous button state and
//! a shift register the CPU clocks out one bit at a time through $4016.

use vstd::prelude::*;

verus! {

/// One of the eight pad buttons, in shift-register order.
pub enum Button {
    A,
    B,
    Select,
    Start,
    Up,
    Down,
    Left,
    Right,
}

impl Button {
    /// The button's position in the serial read-out, and so its bit in the mask.
    pub open spec fn spec_position(self) -> u8 {
        match self {
            Button::A => 0,
            Button::B => 1,
            Button::Select => 2,
            Button::Start => 3,
            Button::Up => 4,
            Button::Down => 5,
            Button::Left => 6,
            Button::Right => 7,
        }
    }

    /// The button's position in the serial read-out, and so its bit in the mask.
    pub fn position(&self) -> (r: u8)
        ensures
            r == self.spec_position(),
            r < 8,
    {
        match self {
            Button::A => 0,
            Button::B => 1,
            Button::Select => 2,
            Button::Start => 3,
            Button::Up => 4,
            Button::Down => 5,
            Button::Left => 6,
            Button::Right => 7,
        }
    }
}

/// An instantaneous button mask: bit n is high while button n is held.
#[derive(Clone, Copy, Debug, PartialEq, Eq, Structural)]
pub struct ButtonState(pub u8);

impl Default for ButtonState {
    /// No buttons held.
    fn default() -> (r: Self)
        ensures
            r.0 == 0,
    {
        ButtonState(0)
    }
}

impl ButtonState {
    /// Raise the button's bit, leaving the others alone.
    pub fn set(&mut self, button: Button)
        ensures
            final(self).0 == old(self).0 | (1u8 << button.spec_position()),
    {
        let pos = button.position();
        self.0 = self.0 | (1u8 << pos);
    }

    /// Clear the button's bit, leaving the others alone.
    pub fn unset(&mut self, button: Button)
        ensures
            final(self).0 == old(self).0 & !(1u8 << button.spec_position()),
    {
        let pos = button.position();
        self.0 = self.0 & !(1u8 << pos);
    }
}


/// What a controller-port read reports: the bit under the cursor for the
/// first eight reads, then zeroes.
pub open spec fn spec_controller_read_value(c: Controller) -> u8 {
    if c.index < 8 {
        (c.button_state.0 >> c.index) & 1
    } else {
        0
    }
}

/// The controller after a port read: the cursor advances only while the
/// strobe is low and bits remain.
pub open spec fn spec_controller_read_post(c: Controller) -> Controller {
    if c.index < 8 && !c.strobe {
        Controller { index: (c.index + 1) as u8, ..c }
    } else {
        c
    }
}

/// The controller after a port write: bit 0 becomes the strobe, and raising
/// it rewinds the cursor.
pub open spec fn spec_controller_write_post(c: Controller, data: u8) -> Controller {
    if (data & 1) == 1 {
        Controller { strobe: true, index: 0, ..c }
    } else {
        Controller { strobe: false, ..c }
    }
}

/// The pad itself: the latched mask, the strobe line, and the read cursor.
#[derive(Clone, Copy, Debug, PartialEq)]
pub struct Controller {
    pub button_state: ButtonState,
    pub strobe: bool,
    pub index: u8,
}

impl Default for Controller {
    /// Power-up state: nothing held, strobe low, cursor at the first bit.
    fn default() -> (r: Self)
        ensures
            r.button_state.0 == 0,
            !r.strobe,
            r.index == 0,
    {
        Controller { button_state: ButtonState(0), strobe: false, index: 0 }
    }
}

impl Controller {
    /// Latch a fresh instantaneous mask; the read cursor is untouched.
    pub fn update_buttons(&mut self, state: ButtonState)
        ensures
            final(self).button_state == state,
            final(self).strobe == old(self).strobe,
            final(self).index == old(self).index,
    {
        self.button_state = state;
    }

    /// Clock one bit out of the shift register.
    ///
    /// The first eight reads report the latched buttons from bit 0 upward;
    /// every later read returns 0. The cursor advances only while the strobe
    /// is low; while it is high the same bit is reported again.
    pub fn read(&mut self) -> (r: u8)
        ensures
            r == spec_controller_read_value(*old(self)),
            *final(self) == spec_controller_read_post(*old(self)),
            old(self).index < 8 ==> r == (old(self).button_state.0 >> old(self).index) & 1,
            old(self).index >= 8 ==> r == 0,
            old(self).index < 8 && !old(self).strobe ==> final(self).index == old(self).index + 1,
            old(self).index < 8 && old(self).strobe ==> final(self).index == old(self).index,
            old(self).index >= 8 ==> final(self).index == old(self).index,
            final(self).button_state == old(self).button_state,
            final(self).strobe == old(self).strobe,
    {
        let mut result: u8 = 0;
        if self.index < 8 {
            result = (self.button_state.0 >> self.index) & 1;
            if !self.strobe {
                self.index = self.index + 1;
            }
        }
        result
    }

    /// Copy bit 0 of the written byte into the strobe; raising it rewinds the
    /// read cursor to the first bit.
    pub fn write(&mut self, data: u8)
        ensures
            *final(self) == spec_controller_write_post(*old(self), data),
            final(self).strobe == ((data & 1) == 1),
            (data & 1) == 1 ==> final(self).index == 0,
            (data & 1) != 1 ==> final(self).index == old(self).index,
            final(self).button_state == old(self).button_state,
    {
        self.strobe = (data & 1) == 1;
        if self.strobe {
            self.index = 0;
        }
    }
}

} // verus!
