use vstd::prelude::*;
use crate::mmu::Memory;

verus! {

/// Address of the joypad register.
pub const JOYPAD_REG_LOC: u16 = 0xFF00;

pub const RIGHT_A: u8 = 0b0000_0001;
pub const LEFT_B: u8 = 0b0000_0010;
pub const UP_SELECT: u8 = 0b0000_0100;
pub const DOWN_START: u8 = 0b0000_1000;

/// Select bit of the button row (active low).
pub const BUTTON: u8 = 0b0010_0000;
/// Select bit of the direction row (active low).
pub const DIRECTION: u8 = 0b0001_0000;

/// The eight keys of the console, and `Nothing` for a key it does not have.
#[derive(Clone, Copy, PartialEq, Eq, Structural, Debug)]
pub enum ButtonEvent {
    Nothing,
    Start,
    Select,
    A,
    B,
    Up,
    Down,
    Left,
    Right,
}

/// Whether a key went down or up.
#[derive(Clone, Copy, PartialEq, Eq, Structural, Debug)]
pub enum KeyState {
    Pressed,
    Released,
}

/// One input event: a key and its new state.
#[derive(Clone, Copy, PartialEq, Eq, Structural, Debug)]
pub struct ButtonEventWrapper {
    pub event: ButtonEvent,
    pub new_state: KeyState,
}

impl ButtonEvent {
    pub open spec fn is_button_spec(self) -> bool {
        self is A || self is B || self is Select || self is Start
    }

    pub open spec fn is_direction_spec(self) -> bool {
        self is Right || self is Left || self is Up || self is Down
    }

    /// The key's bit within its row: Right/A, Left/B, Up/Select, Down/Start.
    pub open spec fn mask_spec(self) -> u8 {
        match self {
            ButtonEvent::A | ButtonEvent::Right => RIGHT_A,
            ButtonEvent::B | ButtonEvent::Left => LEFT_B,
            ButtonEvent::Select | ButtonEvent::Up => UP_SELECT,
            ButtonEvent::Start | ButtonEvent::Down => DOWN_START,
            ButtonEvent::Nothing => 0,
        }
    }

    pub fn is_button(&self) -> (r: bool)
        ensures
            r == self.is_button_spec(),
    {
        match self {
            Self::A | Self::B | Self::Select | Self::Start => true,
            _ => false,
        }
    }

    pub fn is_direction(&self) -> (r: bool)
        ensures
            r == self.is_direction_spec(),
    {
        match self {
            Self::Right | Self::Left | Self::Up | Self::Down => true,
            _ => false,
        }
    }

    pub fn is_none(&self) -> (r: bool)
        ensures
            r == (*self is Nothing),
    {
        match self {
            Self::Nothing => true,
            _ => false,
        }
    }

    fn mask(&self) -> (r: u8)
        ensures
            r == self.mask_spec(),
    {
        match self {
            ButtonEvent::A | ButtonEvent::Right => RIGHT_A,
            ButtonEvent::B | ButtonEvent::Left => LEFT_B,
            ButtonEvent::Select | ButtonEvent::Up => UP_SELECT,
            ButtonEvent::Start | ButtonEvent::Down => DOWN_START,
            ButtonEvent::Nothing => 0,
        }
    }
}

/// The joypad: the row selection last written, the state of both rows
/// (active low: a set bit is a released key) and a pending press edge.
pub struct Joypad {
    /// The select bits (4 and 5) of the last value written.
    pub joypad_reg: u8,
    pub direction_byte: u8,
    pub button_byte: u8,
    /// Set when a key of a selected row went down; taken by the bus.
    pub interupt_possible: bool,
}

impl Default for Joypad {
    fn default() -> (r: Self)
        ensures
            r.joypad_reg == 0x30,
            r.direction_byte == 0xF,
            r.button_byte == 0xF,
            !r.interupt_possible,
    {
        Joypad { joypad_reg: 0x30, direction_byte: 0xF, button_byte: 0xF, interupt_possible: false }
    }
}

impl Memory for Joypad {
    open spec fn inv(&self) -> bool {
        true
    }

    open spec fn owns(index: u16) -> bool {
        index == JOYPAD_REG_LOC
    }

    /// Bits 6 and 7 read as one, bits 4 and 5 as selected, bits 0 to 3 give
    /// the selected row (directions first), all ones when none is selected.
    open spec fn read_at(&self, index: u16) -> u8 {
        if self.joypad_reg & DIRECTION == 0 {
            0xC0 | self.joypad_reg | (self.direction_byte & 0x0F)
        } else if self.joypad_reg & BUTTON == 0 {
            0xC0 | self.joypad_reg | (self.button_byte & 0x0F)
        } else {
            0xFF
        }
    }

    /// Only the select bits are writable.
    open spec fn written(&self, after: &Self, index: u16, val: u8) -> bool {
        *after == Joypad { joypad_reg: val & 0x30, ..*self }
    }

    fn handle_write(&mut self, index: u16, val: u8) {
        self.joypad_reg = val & 0x30;
    }

    fn handle_read(&self, index: u16) -> (r: u8) {
        if self.joypad_reg & DIRECTION == 0 {
            0xC0 | self.joypad_reg | (self.direction_byte & 0x0F)
        } else if self.joypad_reg & BUTTON == 0 {
            0xC0 | self.joypad_reg | (self.button_byte & 0x0F)
        } else {
            0xFF
        }
    }
}

impl Joypad {
    /// Applies one key event. A press clears the key's bit in its row, a
    /// release sets it. A press of a released key whose row is selected
    /// raises the joypad interrupt edge.
    pub fn update_state(&mut self, wrapper: ButtonEventWrapper)
        requires
            !(wrapper.event is Nothing),
        ensures
            final(self).joypad_reg == old(self).joypad_reg,
            ({
                let m = wrapper.event.mask_spec();
                let pressed = wrapper.new_state is Pressed;
                let row_before = if wrapper.event.is_button_spec() {
                    old(self).button_byte
                } else {
                    old(self).direction_byte
                };
                let row_after = if pressed {
                    row_before & !m
                } else {
                    row_before | m
                };
                let selected = if wrapper.event.is_button_spec() {
                    old(self).joypad_reg & BUTTON == 0
                } else {
                    old(self).joypad_reg & DIRECTION == 0
                };
                &&& wrapper.event.is_button_spec() ==> final(self).button_byte == row_after
                    && final(self).direction_byte == old(self).direction_byte
                &&& !wrapper.event.is_button_spec() ==> final(self).direction_byte == row_after
                    && final(self).button_byte == old(self).button_byte
                &&& final(self).interupt_possible == (old(self).interupt_possible || (pressed
                    && row_before & m != 0 && selected))
            }),
    {
        let button = wrapper.event.is_button();
        let base = wrapper.event.mask();
        let row = if button {
            self.button_byte
        } else {
            self.direction_byte
        };
        let pressed = matches!(wrapper.new_state, KeyState::Pressed);
        let selected = if button {
            self.joypad_reg & BUTTON == 0
        } else {
            self.joypad_reg & DIRECTION == 0
        };
        if pressed && row & base != 0 && selected {
            self.interupt_possible = true;
        }
        let new_row = if pressed {
            row & !base
        } else {
            row | base
        };
        if button {
            self.button_byte = new_row;
        } else {
            self.direction_byte = new_row;
        }
    }

    /// Takes the pending press edge, clearing it.
    pub fn take_interupt(&mut self) -> (r: bool)
        ensures
            r == old(self).interupt_possible,
            *final(self) == (Joypad { interupt_possible: false, ..*old(self) }),
    {
        let r = self.interupt_possible;
        self.interupt_possible = false;
        r
    }
}

} // verus!
