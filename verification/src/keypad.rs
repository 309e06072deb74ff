//! The hexadecimal keypad and the wait for a key press.
use vstd::prelude::*;
use crate::machine::{Computer, Machine};

verus! {

/// The keys the interpreter tells apart: the sixteen keypad keys, the key
/// that stops the wait for a key press, and every other key.
#[derive(PartialEq, Eq, Structural, Clone, Copy, Debug)]
pub enum KeyCode {
    X,
    Num1,
    Num2,
    Num3,
    Q,
    W,
    E,
    A,
    S,
    D,
    Z,
    C,
    Num4,
    R,
    F,
    V,
    K,
    Other,
}

/// What a key press does while the machine waits for one.
#[derive(PartialEq, Eq, Structural, Clone, Copy, Debug)]
pub enum KeyWait {
    /// A keypad key: its value was stored and the wait is over.
    Loaded,
    /// Not a keypad key: the wait goes on.
    Ignored,
    /// The stop key: the interpreter is to stop.
    Quit,
}

/// The keypad value of a key: 0..=15 for the sixteen keypad keys, 16 for any other key.
pub open spec fn key_value(key: KeyCode) -> u8 {
    match key {
        KeyCode::X => 0,
        KeyCode::Num1 => 1,
        KeyCode::Num2 => 2,
        KeyCode::Num3 => 3,
        KeyCode::Q => 4,
        KeyCode::W => 5,
        KeyCode::E => 6,
        KeyCode::A => 7,
        KeyCode::S => 8,
        KeyCode::D => 9,
        KeyCode::Z => 10,
        KeyCode::C => 11,
        KeyCode::Num4 => 12,
        KeyCode::R => 13,
        KeyCode::F => 14,
        KeyCode::V => 15,
        _ => 16,
    }
}

/// What pressing `key` does while the machine waits for a key.
pub open spec fn key_wait(key: KeyCode) -> KeyWait {
    if key == KeyCode::K {
        KeyWait::Quit
    } else if key_value(key) < 16 {
        KeyWait::Loaded
    } else {
        KeyWait::Ignored
    }
}

/// The keypad value of a key (16 for keys off the keypad).
pub fn key_char_to_u8(key: KeyCode) -> (code: u8)
    ensures
        code == key_value(key),
{
    match key {
        KeyCode::X => 0,
        KeyCode::Num1 => 1,
        KeyCode::Num2 => 2,
        KeyCode::Num3 => 3,
        KeyCode::Q => 4,
        KeyCode::W => 5,
        KeyCode::E => 6,
        KeyCode::A => 7,
        KeyCode::S => 8,
        KeyCode::D => 9,
        KeyCode::Z => 10,
        KeyCode::C => 11,
        KeyCode::Num4 => 12,
        KeyCode::R => 13,
        KeyCode::F => 14,
        KeyCode::V => 15,
        _ => 16,
    }
}

impl Computer {
    /// Handles one key press while waiting for a key: a keypad key is stored
    /// in `Vx`; the stop key and other keys leave the machine unchanged.
    pub fn ld_vx_k(&mut self, inst: &[u8; 4], key: KeyCode) -> (w: KeyWait)
        requires
            Machine::x_ok(inst@),
        ensures
            w == key_wait(key),
            w == KeyWait::Loaded ==> final(self)@ == old(self)@.ld_vx_k(inst@, key_value(key)),
            w != KeyWait::Loaded ==> final(self)@ == old(self)@,
    {
        match key {
            KeyCode::X | KeyCode::Num1 | KeyCode::Num2 | KeyCode::Num3 | KeyCode::Q | KeyCode::W
            | KeyCode::E | KeyCode::A | KeyCode::S | KeyCode::D | KeyCode::Z | KeyCode::C
            | KeyCode::Num4 | KeyCode::R | KeyCode::F | KeyCode::V => {
                let key_code: u8 = key_char_to_u8(key);
                self.cpu.v[inst[1] as usize] = key_code;
                KeyWait::Loaded
            },
            KeyCode::K => KeyWait::Quit,
            _ => KeyWait::Ignored,
        }
    }
}

/// Distinct keypad keys have distinct values, and every value 0..=15 belongs to a keypad key.
pub proof fn lemma_keypad_is_a_bijection(k1: KeyCode, k2: KeyCode, d: u8)
    ensures
        key_value(k1) < 16 && key_value(k1) == key_value(k2) ==> k1 == k2,
        d < 16 ==> exists|k: KeyCode| key_value(k) == d,
{
    if d < 16 {
        let k = if d == 0 { KeyCode::X } else if d == 1 { KeyCode::Num1 } else if d == 2 {
            KeyCode::Num2
        } else if d == 3 { KeyCode::Num3 } else if d == 4 { KeyCode::Q } else if d == 5 {
            KeyCode::W
        } else if d == 6 { KeyCode::E } else if d == 7 { KeyCode::A } else if d == 8 {
            KeyCode::S
        } else if d == 9 { KeyCode::D } else if d == 10 { KeyCode::Z } else if d == 11 {
            KeyCode::C
        } else if d == 12 { KeyCode::Num4 } else if d == 13 { KeyCode::R } else if d == 14 {
            KeyCode::F
        } else { KeyCode::V };
        assert(key_value(k) == d);
    }
}

} // verus!
