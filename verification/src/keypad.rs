//! The sixteen-key pad and the keyboard keys that act on it.

use vstd::prelude::*;

verus! {

/// A key of the keyboard. The sixteen named keys are laid out as the pad is;
/// `Other` stands for every key that the pad does not use.
#[derive(Copy, Clone, Debug, PartialEq, Eq, Structural)]
pub enum Keycode {
    Num4,
    Num5,
    Num6,
    Num7,
    R,
    T,
    Y,
    U,
    F,
    G,
    H,
    J,
    V,
    B,
    N,
    M,
    Other,
}

/// The key of the pad that a key of the keyboard stands for.
pub open spec fn pad_key(keycode: Keycode) -> Option<u8> {
    match keycode {
        Keycode::Num4 => Some(0x1u8),
        Keycode::Num5 => Some(0x2u8),
        Keycode::Num6 => Some(0x3u8),
        Keycode::Num7 => Some(0xCu8),
        Keycode::R => Some(0x4u8),
        Keycode::T => Some(0x5u8),
        Keycode::Y => Some(0x6u8),
        Keycode::U => Some(0xDu8),
        Keycode::F => Some(0x7u8),
        Keycode::G => Some(0x8u8),
        Keycode::H => Some(0x9u8),
        Keycode::J => Some(0xEu8),
        Keycode::V => Some(0xAu8),
        Keycode::B => Some(0x0u8),
        Keycode::N => Some(0xBu8),
        Keycode::M => Some(0xFu8),
        Keycode::Other => None,
    }
}

/// The pad with the key of `keycode`, if it has one, set to `pressed`.
pub open spec fn with_key(keys: Seq<bool>, keycode: Keycode, pressed: bool) -> Seq<bool> {
    match pad_key(keycode) {
        Some(key) => keys.update(key as int, pressed),
        None => keys,
    }
}

/// The lowest key at or above `from` that is pressed.
pub open spec fn lowest_pressed_from(keys: Seq<bool>, from: int) -> Option<u8>
    decreases keys.len() - from,
{
    if from < 0 || from >= keys.len() {
        None
    } else if keys[from] {
        Some(from as u8)
    } else {
        lowest_pressed_from(keys, from + 1)
    }
}

/// The lowest key that is pressed.
pub open spec fn lowest_pressed(keys: Seq<bool>) -> Option<u8> {
    lowest_pressed_from(keys, 0)
}

/// What `lowest_pressed_from` finds is pressed and has no pressed key
/// between `from` and itself; it finds nothing only where no key at or above
/// `from` is pressed.
pub proof fn lowest_pressed_from_is_lowest(keys: Seq<bool>, from: int)
    requires
        0 <= from,
        keys.len() <= 256,
    ensures
        match lowest_pressed_from(keys, from) {
            Some(key) => from <= key < keys.len() && keys[key as int] && forall|i: int|
                from <= i < key ==> !keys[i],
            None => forall|i: int| from <= i < keys.len() ==> !keys[i],
        },
    decreases keys.len() - from,
{
    if from < keys.len() && !keys[from] {
        lowest_pressed_from_is_lowest(keys, from + 1);
    }
}

/// The state of the pad: for each key, whether it is held down.
#[derive(Copy, Clone, Debug, Hash, PartialEq, Eq)]
pub struct Keypad(pub [bool; 16]);

impl View for Keypad {
    type V = Seq<bool>;

    open spec fn view(&self) -> Seq<bool> {
        self.0@
    }
}

impl Keypad {
    /// The pad key of a keyboard key.
    fn key_of(keycode: Keycode) -> (key: Option<u8>)
        ensures
            key == pad_key(keycode),
            key matches Some(k) ==> k < 16,
    {
        match keycode {
            Keycode::Num4 => Some(0x1),
            Keycode::Num5 => Some(0x2),
            Keycode::Num6 => Some(0x3),
            Keycode::Num7 => Some(0xC),
            Keycode::R => Some(0x4),
            Keycode::T => Some(0x5),
            Keycode::Y => Some(0x6),
            Keycode::U => Some(0xD),
            Keycode::F => Some(0x7),
            Keycode::G => Some(0x8),
            Keycode::H => Some(0x9),
            Keycode::J => Some(0xE),
            Keycode::V => Some(0xA),
            Keycode::B => Some(0x0),
            Keycode::N => Some(0xB),
            Keycode::M => Some(0xF),
            Keycode::Other => None,
        }
    }

    /// Marks the pad key of `keycode` as held down. A key that the pad does
    /// not use changes nothing.
    pub fn press(&mut self, keycode: Keycode)
        ensures
            final(self)@ == with_key(old(self)@, keycode, true),
    {
        if let Some(key) = Self::key_of(keycode) {
            self.0[key as usize] = true;
        }
        assert(self@ =~= with_key(old(self)@, keycode, true));
    }

    /// Marks the pad key of `keycode` as released. A key that the pad does
    /// not use changes nothing.
    pub fn release(&mut self, keycode: Keycode)
        ensures
            final(self)@ == with_key(old(self)@, keycode, false),
    {
        if let Some(key) = Self::key_of(keycode) {
            self.0[key as usize] = false;
        }
        assert(self@ =~= with_key(old(self)@, keycode, false));
    }

    /// Whether pad key `key` is held down.
    pub fn is_pressed(&self, key: u8) -> (pressed: bool)
        requires
            key < 16,
        ensures
            pressed == self@[key as int],
    {
        self.0[key as usize]
    }

    /// The lowest pad key that is held down, if any is.
    pub fn first_pressed(&self) -> (found: Option<u8>)
        ensures
            found == lowest_pressed(self@),
            match found {
                Some(key) => key < 16 && self@[key as int] && forall|i: int|
                    0 <= i < key ==> !self@[i],
                None => forall|i: int| 0 <= i < 16 ==> !self@[i],
            },
    {
        proof {
            lowest_pressed_from_is_lowest(self@, 0);
        }
        let ghost lowest = lowest_pressed(self@);
        let mut key: u8 = 0;
        while key < 16
            invariant
                key <= 16,
                lowest == lowest_pressed(self@),
                lowest == lowest_pressed_from(self@, key as int),
                match lowest {
                    Some(k) => k < 16 && self@[k as int] && forall|i: int|
                        0 <= i < k ==> !self@[i],
                    None => forall|i: int| 0 <= i < 16 ==> !self@[i],
                },
            decreases 16 - key,
        {
            if self.0[key as usize] {
                return Some(key);
            }
            key += 1;
        }
        None
    }
}

} // verus!
