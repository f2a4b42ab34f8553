use vstd::prelude::*;
use crate::{Button, ControllerType};

verus! {

/// The ID halfword of a digital controller.
pub const DIGITAL_INFO: u16 = 0x5A41;

/// The bit of a button in the button state (a pressed button reads as 0).
pub open spec fn button_index(button: Button) -> u16 {
    match button {
        Button::Select => 0,
        Button::L3 => 1,
        Button::R3 => 2,
        Button::Start => 3,
        Button::DUp => 4,
        Button::DRight => 5,
        Button::DDown => 6,
        Button::DLeft => 7,
        Button::L2 => 8,
        Button::R2 => 9,
        Button::L1 => 10,
        Button::R1 => 11,
        Button::Triangle => 12,
        Button::Circle => 13,
        Button::Cross => 14,
        Button::Square => 15,
    }
}

/// The bit position of a button.
pub fn button_bit(button: Button) -> (r: u16)
    ensures
        r == button_index(button),
        r < 16,
{
    match button {
        Button::Select => 0,
        Button::L3 => 1,
        Button::R3 => 2,
        Button::Start => 3,
        Button::DUp => 4,
        Button::DRight => 5,
        Button::DDown => 6,
        Button::DLeft => 7,
        Button::L2 => 8,
        Button::R2 => 9,
        Button::L1 => 10,
        Button::R1 => 11,
        Button::Triangle => 12,
        Button::Circle => 13,
        Button::Cross => 14,
        Button::Square => 15,
    }
}

/// A position of an analog stick.
#[derive(Clone, Copy)]
pub struct StickAxis {
    pub x: u8,
    pub y: u8,
}

impl StickAxis {
    /// X in the low byte, Y in the high byte.
    pub fn get_binary(&self) -> (r: u16)
        ensures
            r == (self.x as u16) | ((self.y as u16) << 8),
    {
        (self.x as u16) | ((self.y as u16) << 8)
    }
}

/// The four halfwords a controller sends: ID, buttons, left and right stick.
pub open spec fn controller_binary(c: ControllerState) -> Seq<u16> {
    seq![
        c.info,
        c.buttons,
        match c.left_stick { Some(s) => ((s.x as u16) | ((s.y as u16) << 8)) as u16, None => 0u16 },
        match c.right_stick { Some(s) => ((s.x as u16) | ((s.y as u16) << 8)) as u16, None => 0u16 },
    ]
}

/// The state of a controller as the console reads it.
#[derive(Clone, Copy)]
pub struct ControllerState {
    pub info: u16,
    pub buttons: u16,
    pub right_stick: Option<StickAxis>,
    pub left_stick: Option<StickAxis>,
}

impl ControllerState {
    /// A controller with no button pressed.
    ///
    /// Only digital controllers are modelled.
    pub fn new(controller: ControllerType) -> (r: Self)
        requires
            controller == ControllerType::Digital,
        ensures
            r.info == DIGITAL_INFO,
            r.buttons == 0xFFFF,
            r.left_stick is None,
            r.right_stick is None,
    {
        Self { info: DIGITAL_INFO, buttons: 0xFFFF, left_stick: None, right_stick: None }
    }

    /// Press or release a button: its bit is cleared while pressed.
    pub fn press_button(&mut self, button: Button, pressed: bool)
        ensures
            final(self).buttons == if pressed {
                old(self).buttons & !((1u16 << button_index(button)) as u16)
            } else {
                old(self).buttons | ((1u16 << button_index(button)) as u16)
            },
            final(self).info == old(self).info,
            final(self).left_stick == old(self).left_stick,
            final(self).right_stick == old(self).right_stick,
    {
        let bit: u16 = 1u16 << button_bit(button);
        if pressed {
            self.buttons = self.buttons & !bit;
        } else {
            self.buttons = self.buttons | bit;
        }
    }

    /// The four halfwords the controller sends: ID, buttons, left and right stick.
    pub fn get_binary(&self, data: &mut [u16; 4])
        ensures
            final(data)@ == controller_binary(*self),
    {
        data[0] = self.info;
        data[1] = self.buttons;
        if let Some(left) = self.left_stick {
            data[2] = left.get_binary();
        } else {
            data[2] = 0x0000;
        }
        if let Some(right) = self.right_stick {
            data[3] = right.get_binary();
        } else {
            data[3] = 0x0000;
        }
        assert(data@ =~= seq![
            self.info,
            self.buttons,
            match self.left_stick { Some(s) => ((s.x as u16) | ((s.y as u16) << 8)) as u16, None => 0u16 },
            match self.right_stick { Some(s) => ((s.x as u16) | ((s.y as u16) << 8)) as u16, None => 0u16 },
        ]);
    }
}

/// Clearing and setting one bit of the button word, seen at any bit.
proof fn lemma_button_bit(buttons: u16, bit: u16, other: u16)
    by (bit_vector)
    requires
        bit < 16,
        other < 16,
    ensures
        ((buttons & !((1u16 << bit) as u16)) >> bit) & 1 == 0,
        (((buttons & !((1u16 << bit) as u16)) | ((1u16 << bit) as u16)) >> bit) & 1 == 1,
        other != bit ==> ((buttons & !((1u16 << bit) as u16)) >> other) & 1 == (buttons >> other) & 1,
{
}

/// Pressing a button clears exactly its bit; releasing it sets the bit again,
/// so a press followed by a release restores the state of that button.
pub proof fn lemma_press_release(buttons: u16, bit: u16)
    requires
        bit < 16,
    ensures
        ((buttons & !((1u16 << bit) as u16)) >> bit) & 1 == 0,
        (((buttons & !((1u16 << bit) as u16)) | ((1u16 << bit) as u16)) >> bit) & 1 == 1,
        forall|other: u16| other < 16 && other != bit ==>
            #[trigger] ((buttons & !((1u16 << bit) as u16)) >> other) & 1 == (buttons >> other) & 1,
{
    lemma_button_bit(buttons, bit, 0);
    assert forall|other: u16| other < 16 && other != bit implies
        #[trigger] ((buttons & !((1u16 << bit) as u16)) >> other) & 1 == (buttons >> other) & 1 by {
        lemma_button_bit(buttons, bit, other);
    }
}

} // verus!
