//! User-input values: key/button codes and touch points.
use vstd::prelude::*;

verus! {

/// Number of distinct input codes.
pub const KEY_CODE_COUNT: u8 = 48;

/// Enum for keyboard keys and mouse buttons.
#[derive(Debug, Copy, Clone, PartialEq, Eq, Hash, Structural)]
pub enum KeyCode {
    A,
    B,
    C,
    D,
    E,
    F,
    G,
    H,
    I,
    J,
    K,
    L,
    M,
    N,
    O,
    P,
    Q,
    R,
    S,
    T,
    U,
    V,
    W,
    X,
    Y,
    Z,
    Num0,
    Num1,
    Num2,
    Num3,
    Num4,
    Num5,
    Num6,
    Num7,
    Num8,
    Num9,
    Right,
    Left,
    Down,
    Up,
    Return,
    Space,
    Backspace,
    Delete,
    MouseLeft,
    MouseRight,
    MouseMiddle,
    Touch,
}

/// The position of a code in the fixed enumeration of all codes.
pub open spec fn key_index(k: KeyCode) -> u8 {
    match k {
        KeyCode::A => 0,
        KeyCode::B => 1,
        KeyCode::C => 2,
        KeyCode::D => 3,
        KeyCode::E => 4,
        KeyCode::F => 5,
        KeyCode::G => 6,
        KeyCode::H => 7,
        KeyCode::I => 8,
        KeyCode::J => 9,
        KeyCode::K => 10,
        KeyCode::L => 11,
        KeyCode::M => 12,
        KeyCode::N => 13,
        KeyCode::O => 14,
        KeyCode::P => 15,
        KeyCode::Q => 16,
        KeyCode::R => 17,
        KeyCode::S => 18,
        KeyCode::T => 19,
        KeyCode::U => 20,
        KeyCode::V => 21,
        KeyCode::W => 22,
        KeyCode::X => 23,
        KeyCode::Y => 24,
        KeyCode::Z => 25,
        KeyCode::Num0 => 26,
        KeyCode::Num1 => 27,
        KeyCode::Num2 => 28,
        KeyCode::Num3 => 29,
        KeyCode::Num4 => 30,
        KeyCode::Num5 => 31,
        KeyCode::Num6 => 32,
        KeyCode::Num7 => 33,
        KeyCode::Num8 => 34,
        KeyCode::Num9 => 35,
        KeyCode::Right => 36,
        KeyCode::Left => 37,
        KeyCode::Down => 38,
        KeyCode::Up => 39,
        KeyCode::Return => 40,
        KeyCode::Space => 41,
        KeyCode::Backspace => 42,
        KeyCode::Delete => 43,
        KeyCode::MouseLeft => 44,
        KeyCode::MouseRight => 45,
        KeyCode::MouseMiddle => 46,
        KeyCode::Touch => 47,
    }
}

/// The code standing at a given position of the enumeration.
pub open spec fn key_from_index(i: int) -> KeyCode {
    if i == 0 {
        KeyCode::A
    } else if i == 1 {
        KeyCode::B
    } else if i == 2 {
        KeyCode::C
    } else if i == 3 {
        KeyCode::D
    } else if i == 4 {
        KeyCode::E
    } else if i == 5 {
        KeyCode::F
    } else if i == 6 {
        KeyCode::G
    } else if i == 7 {
        KeyCode::H
    } else if i == 8 {
        KeyCode::I
    } else if i == 9 {
        KeyCode::J
    } else if i == 10 {
        KeyCode::K
    } else if i == 11 {
        KeyCode::L
    } else if i == 12 {
        KeyCode::M
    } else if i == 13 {
        KeyCode::N
    } else if i == 14 {
        KeyCode::O
    } else if i == 15 {
        KeyCode::P
    } else if i == 16 {
        KeyCode::Q
    } else if i == 17 {
        KeyCode::R
    } else if i == 18 {
        KeyCode::S
    } else if i == 19 {
        KeyCode::T
    } else if i == 20 {
        KeyCode::U
    } else if i == 21 {
        KeyCode::V
    } else if i == 22 {
        KeyCode::W
    } else if i == 23 {
        KeyCode::X
    } else if i == 24 {
        KeyCode::Y
    } else if i == 25 {
        KeyCode::Z
    } else if i == 26 {
        KeyCode::Num0
    } else if i == 27 {
        KeyCode::Num1
    } else if i == 28 {
        KeyCode::Num2
    } else if i == 29 {
        KeyCode::Num3
    } else if i == 30 {
        KeyCode::Num4
    } else if i == 31 {
        KeyCode::Num5
    } else if i == 32 {
        KeyCode::Num6
    } else if i == 33 {
        KeyCode::Num7
    } else if i == 34 {
        KeyCode::Num8
    } else if i == 35 {
        KeyCode::Num9
    } else if i == 36 {
        KeyCode::Right
    } else if i == 37 {
        KeyCode::Left
    } else if i == 38 {
        KeyCode::Down
    } else if i == 39 {
        KeyCode::Up
    } else if i == 40 {
        KeyCode::Return
    } else if i == 41 {
        KeyCode::Space
    } else if i == 42 {
        KeyCode::Backspace
    } else if i == 43 {
        KeyCode::Delete
    } else if i == 44 {
        KeyCode::MouseLeft
    } else if i == 45 {
        KeyCode::MouseRight
    } else if i == 46 {
        KeyCode::MouseMiddle
    } else {
        KeyCode::Touch
    }
}

/// Every code's index lies below the code count, and indexing is the inverse
/// of enumeration, so distinct codes have distinct indices.
pub proof fn lemma_key_index_inverse(k: KeyCode)
    ensures
        key_index(k) < KEY_CODE_COUNT,
        key_from_index(key_index(k) as int) == k,
{
}

/// Enumeration is the inverse of indexing on positions below the code count.
pub proof fn lemma_key_from_index_inverse(i: int)
    requires
        0 <= i < KEY_CODE_COUNT,
    ensures
        key_index(key_from_index(i)) == i,
{
}

impl KeyCode {
    /// How many distinct codes there are.
    pub fn count() -> (r: u8)
        ensures
            r == KEY_CODE_COUNT,
    {
        KEY_CODE_COUNT
    }

    /// The position of this code in the fixed enumeration.
    pub fn index(self) -> (r: u8)
        ensures
            r == key_index(self),
    {
        match self {
            KeyCode::A => 0,
            KeyCode::B => 1,
            KeyCode::C => 2,
            KeyCode::D => 3,
            KeyCode::E => 4,
            KeyCode::F => 5,
            KeyCode::G => 6,
            KeyCode::H => 7,
            KeyCode::I => 8,
            KeyCode::J => 9,
            KeyCode::K => 10,
            KeyCode::L => 11,
            KeyCode::M => 12,
            KeyCode::N => 13,
            KeyCode::O => 14,
            KeyCode::P => 15,
            KeyCode::Q => 16,
            KeyCode::R => 17,
            KeyCode::S => 18,
            KeyCode::T => 19,
            KeyCode::U => 20,
            KeyCode::V => 21,
            KeyCode::W => 22,
            KeyCode::X => 23,
            KeyCode::Y => 24,
            KeyCode::Z => 25,
            KeyCode::Num0 => 26,
            KeyCode::Num1 => 27,
            KeyCode::Num2 => 28,
            KeyCode::Num3 => 29,
            KeyCode::Num4 => 30,
            KeyCode::Num5 => 31,
            KeyCode::Num6 => 32,
            KeyCode::Num7 => 33,
            KeyCode::Num8 => 34,
            KeyCode::Num9 => 35,
            KeyCode::Right => 36,
            KeyCode::Left => 37,
            KeyCode::Down => 38,
            KeyCode::Up => 39,
            KeyCode::Return => 40,
            KeyCode::Space => 41,
            KeyCode::Backspace => 42,
            KeyCode::Delete => 43,
            KeyCode::MouseLeft => 44,
            KeyCode::MouseRight => 45,
            KeyCode::MouseMiddle => 46,
            KeyCode::Touch => 47,
        }
    }

    /// The code at a given position, or `None` past the end of the
    /// enumeration.
    pub fn from_u8(id: u8) -> (r: Option<KeyCode>)
        ensures
            r is Some <==> id < KEY_CODE_COUNT,
            id < KEY_CODE_COUNT ==> r == Some(key_from_index(id as int)),
    {
        if id < KEY_CODE_COUNT {
            let k = if id == 0 {
                KeyCode::A
            } else if id == 1 {
                KeyCode::B
            } else if id == 2 {
                KeyCode::C
            } else if id == 3 {
                KeyCode::D
            } else if id == 4 {
                KeyCode::E
            } else if id == 5 {
                KeyCode::F
            } else if id == 6 {
                KeyCode::G
            } else if id == 7 {
                KeyCode::H
            } else if id == 8 {
                KeyCode::I
            } else if id == 9 {
                KeyCode::J
            } else if id == 10 {
                KeyCode::K
            } else if id == 11 {
                KeyCode::L
            } else if id == 12 {
                KeyCode::M
            } else if id == 13 {
                KeyCode::N
            } else if id == 14 {
                KeyCode::O
            } else if id == 15 {
                KeyCode::P
            } else if id == 16 {
                KeyCode::Q
            } else if id == 17 {
                KeyCode::R
            } else if id == 18 {
                KeyCode::S
            } else if id == 19 {
                KeyCode::T
            } else if id == 20 {
                KeyCode::U
            } else if id == 21 {
                KeyCode::V
            } else if id == 22 {
                KeyCode::W
            } else if id == 23 {
                KeyCode::X
            } else if id == 24 {
                KeyCode::Y
            } else if id == 25 {
                KeyCode::Z
            } else if id == 26 {
                KeyCode::Num0
            } else if id == 27 {
                KeyCode::Num1
            } else if id == 28 {
                KeyCode::Num2
            } else if id == 29 {
                KeyCode::Num3
            } else if id == 30 {
                KeyCode::Num4
            } else if id == 31 {
                KeyCode::Num5
            } else if id == 32 {
                KeyCode::Num6
            } else if id == 33 {
                KeyCode::Num7
            } else if id == 34 {
                KeyCode::Num8
            } else if id == 35 {
                KeyCode::Num9
            } else if id == 36 {
                KeyCode::Right
            } else if id == 37 {
                KeyCode::Left
            } else if id == 38 {
                KeyCode::Down
            } else if id == 39 {
                KeyCode::Up
            } else if id == 40 {
                KeyCode::Return
            } else if id == 41 {
                KeyCode::Space
            } else if id == 42 {
                KeyCode::Backspace
            } else if id == 43 {
                KeyCode::Delete
            } else if id == 44 {
                KeyCode::MouseLeft
            } else if id == 45 {
                KeyCode::MouseRight
            } else if id == 46 {
                KeyCode::MouseMiddle
            } else {
                KeyCode::Touch
            };
            Some(k)
        } else {
            None
        }
    }
}

/// A touch point reported by the host, in host-space integer coordinates.
#[derive(Debug, Copy, Clone, PartialEq, Eq, Structural)]
pub struct TouchPoint {
    pub id: u32,
    pub x: i32,
    pub y: i32,
}

impl TouchPoint {
    pub fn new(id: u32, x: i32, y: i32) -> (r: TouchPoint)
        ensures
            r == (TouchPoint { id, x, y }),
    {
        TouchPoint { id, x, y }
    }

    /// Return the touch identifier.
    pub fn id(&self) -> (r: u32)
        ensures
            r == self.id,
    {
        self.id
    }

    /// Return the touch position (x, y).
    pub fn pos(&self) -> (r: (i32, i32))
        ensures
            r == (self.x, self.y),
    {
        (self.x, self.y)
    }
}

} // verus!
