//! The device's key state: a bitmask of held direction keys and an exit flag.
use vstd::prelude::*;

verus! {

/// The keys of the device.
#[derive(Clone, Copy, Debug, PartialEq, Eq, Structural)]
pub enum Key {
    Up,
    Down,
    Left,
    Right,
    Center,
    Back,
}

/// The kinds of key event.
#[derive(Clone, Copy, Debug, PartialEq, Eq, Structural)]
pub enum KeyAction {
    Press,
    Release,
    Short,
    Long,
    Repeat,
}

/// The bit that a direction key holds in the mask; no bit for the others.
pub open spec fn key_bit(key: Key) -> u8 {
    match key {
        Key::Up => 1,
        Key::Down => 2,
        Key::Left => 4,
        Key::Right => 8,
        _ => 0,
    }
}

/// The held keys and whether the user has asked to leave.
#[derive(Clone, Copy, Debug, PartialEq, Eq, Structural)]
pub struct InputState {
    pub mask: u8,
    pub exit: bool,
}

impl InputState {
    /// No key held, no exit asked.
    pub fn new() -> (s: InputState)
        ensures
            s.mask == 0,
            !s.exit,
    {
        InputState { mask: 0, exit: false }
    }

    /// Applies one key event. Back in a press or a release asks to exit. A
    /// press (short or long too) of a direction key sets its bit; a release
    /// clears it. Repeats and the center key change nothing.
    pub fn apply(&mut self, key: Key, action: KeyAction)
        ensures
            final(self).exit == (old(self).exit || (key == Key::Back && action != KeyAction::Repeat)),
            action == KeyAction::Release ==> final(self).mask == old(self).mask & !key_bit(key),
            action == KeyAction::Repeat ==> final(self).mask == old(self).mask,
            (action != KeyAction::Release && action != KeyAction::Repeat) ==> final(self).mask
                == old(self).mask | key_bit(key),
    {
        let bit: u8 = match key {
            Key::Up => 1,
            Key::Down => 2,
            Key::Left => 4,
            Key::Right => 8,
            Key::Center => 0,
            Key::Back => 0,
        };
        match action {
            KeyAction::Repeat => {},
            KeyAction::Release => {
                if key == Key::Back {
                    self.exit = true;
                }
                let m = self.mask;
                proof {
                    assert(m & !0u8 == m) by (bit_vector);
                }
                self.mask = m & !bit;
            },
            _ => {
                if key == Key::Back {
                    self.exit = true;
                }
                let m = self.mask;
                proof {
                    assert(m | 0u8 == m) by (bit_vector);
                }
                self.mask = m | bit;
            },
        }
    }
}

} // verus!
