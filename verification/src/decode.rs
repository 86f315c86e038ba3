//! Instruction words and their decoding into typed operations.
//!
//! A word is four nibbles, `n3 n2 n1 n0` from high to low. `n3` selects the
//! family, `n2` is the `x` register, `n1` the `y` register, `n0` the fourth
//! nibble; the low byte is a literal and the low twelve bits an address.

use vstd::prelude::*;

verus! {

/// A raw 16-bit instruction word as fetched from memory.
#[derive(Copy, Clone, Debug, PartialEq, Eq, Structural)]
pub struct Instr(pub u16);

/// A decoded operation. Register fields hold a register number below 16,
/// address fields an address below 4096 (see [`DecodedInstr::wf`]).
#[derive(Copy, Clone, Debug, PartialEq, Eq, Structural)]
#[allow(inconsistent_fields)]
pub enum DecodedInstr {
    ClearScreen,
    Return,
    Jump { address: u16 },
    Call { address: u16 },
    SkipIfEqual { register: u8, value: u8 },
    SkipIfNotEqual { register: u8, value: u8 },
    SkipIfRegisterEqual { x: u8, y: u8 },
    LoadRegister { register: u8, value: u8 },
    CopyRegister { x: u8, y: u8 },
    OrRegisters { x: u8, y: u8 },
    AndRegisters { x: u8, y: u8 },
    XorRegisters { x: u8, y: u8 },
    AddToRegister { register: u8, value: u8 },
    SkipIfRegisterNotEqual { x: u8, y: u8 },
    AddRegisters { x: u8, y: u8 },
    SubtractRegisters { x: u8, y: u8 },
    ShiftRight { x: u8, y: u8 },
    SubtractRegistersReverse { x: u8, y: u8 },
    ShiftLeft { x: u8, y: u8 },
    LoadIRegister { value: u16 },
    JumpWithOffset { address: u16 },
    DrawSprite { x: u8, y: u8, bytes: u8 },
    SkipIfPressed { key: u8 },
    SkipIfNotPressed { key: u8 },
    StoreDelayTimer { register: u8 },
    WaitForKeyPress { register: u8 },
    SetDelayTimer { register: u8 },
    AddToIRegister { register: u8 },
    BinaryCodedDecimal { register: u8 },
    StoreRegisters { register: u8 },
    LoadRegisters { register: u8 },
    IllegalInstruction(u16),
}

impl DecodedInstr {
    /// Every four-bit field is below 16 and every twelve-bit field below 4096.
    pub open spec fn wf(self) -> bool {
        match self {
            DecodedInstr::ClearScreen | DecodedInstr::Return => true,
            DecodedInstr::Jump { address }
            | DecodedInstr::Call { address }
            | DecodedInstr::JumpWithOffset { address } => address < 0x1000,
            DecodedInstr::LoadIRegister { value } => value < 0x1000,
            DecodedInstr::SkipIfEqual { register, .. }
            | DecodedInstr::SkipIfNotEqual { register, .. }
            | DecodedInstr::LoadRegister { register, .. }
            | DecodedInstr::AddToRegister { register, .. }
            | DecodedInstr::StoreDelayTimer { register }
            | DecodedInstr::WaitForKeyPress { register }
            | DecodedInstr::SetDelayTimer { register }
            | DecodedInstr::AddToIRegister { register }
            | DecodedInstr::BinaryCodedDecimal { register }
            | DecodedInstr::StoreRegisters { register }
            | DecodedInstr::LoadRegisters { register } => register < 16,
            DecodedInstr::SkipIfRegisterEqual { x, y }
            | DecodedInstr::CopyRegister { x, y }
            | DecodedInstr::OrRegisters { x, y }
            | DecodedInstr::AndRegisters { x, y }
            | DecodedInstr::XorRegisters { x, y }
            | DecodedInstr::SkipIfRegisterNotEqual { x, y }
            | DecodedInstr::AddRegisters { x, y }
            | DecodedInstr::SubtractRegisters { x, y }
            | DecodedInstr::ShiftRight { x, y }
            | DecodedInstr::SubtractRegistersReverse { x, y }
            | DecodedInstr::ShiftLeft { x, y } => x < 16 && y < 16,
            DecodedInstr::DrawSprite { x, y, bytes } => x < 16 && y < 16 && bytes < 16,
            DecodedInstr::SkipIfPressed { key } | DecodedInstr::SkipIfNotPressed { key } => key
                < 16,
            DecodedInstr::IllegalInstruction(_) => true,
        }
    }
}

/// The family nibble `n3` of a word.
pub open spec fn family_of(word: u16) -> int {
    word as int / 0x1000
}

/// The `x` register nibble `n2` of a word.
pub open spec fn x_of(word: u16) -> u8 {
    ((word as int / 0x100) % 0x10) as u8
}

/// The `y` register nibble `n1` of a word.
pub open spec fn y_of(word: u16) -> u8 {
    ((word as int / 0x10) % 0x10) as u8
}

/// The fourth nibble `n0` of a word.
pub open spec fn nibble_of(word: u16) -> u8 {
    (word as int % 0x10) as u8
}

/// The byte literal of a word, its low byte.
pub open spec fn byte_of(word: u16) -> u8 {
    (word as int % 0x100) as u8
}

/// The address of a word, its low twelve bits.
pub open spec fn address_of(word: u16) -> u16 {
    (word as int % 0x1000) as u16
}

/// The operation of the arithmetic and logic family `8xy_` that the fourth
/// nibble selects.
pub open spec fn decode_arithmetic(word: u16) -> DecodedInstr {
    let x = x_of(word);
    let y = y_of(word);
    let selector = nibble_of(word);
    if selector == 0x0 {
        DecodedInstr::CopyRegister { x, y }
    } else if selector == 0x1 {
        DecodedInstr::OrRegisters { x, y }
    } else if selector == 0x2 {
        DecodedInstr::AndRegisters { x, y }
    } else if selector == 0x3 {
        DecodedInstr::XorRegisters { x, y }
    } else if selector == 0x4 {
        DecodedInstr::AddRegisters { x, y }
    } else if selector == 0x5 {
        DecodedInstr::SubtractRegisters { x, y }
    } else if selector == 0x6 {
        DecodedInstr::ShiftRight { x, y }
    } else if selector == 0x7 {
        DecodedInstr::SubtractRegistersReverse { x, y }
    } else if selector == 0xE {
        DecodedInstr::ShiftLeft { x, y }
    } else {
        DecodedInstr::IllegalInstruction(word)
    }
}

/// The operation of the keypad family `Ex__` that the low byte selects.
pub open spec fn decode_keypad(word: u16) -> DecodedInstr {
    let key = x_of(word);
    let selector = byte_of(word);
    if selector == 0x9E {
        DecodedInstr::SkipIfPressed { key }
    } else if selector == 0xA1 {
        DecodedInstr::SkipIfNotPressed { key }
    } else {
        DecodedInstr::IllegalInstruction(word)
    }
}

/// The operation of the timer, decimal and register-block family `Fx__` that
/// the low byte selects.
pub open spec fn decode_system(word: u16) -> DecodedInstr {
    let register = x_of(word);
    let selector = byte_of(word);
    if selector == 0x07 {
        DecodedInstr::StoreDelayTimer { register }
    } else if selector == 0x0A {
        DecodedInstr::WaitForKeyPress { register }
    } else if selector == 0x15 {
        DecodedInstr::SetDelayTimer { register }
    } else if selector == 0x1E {
        DecodedInstr::AddToIRegister { register }
    } else if selector == 0x33 {
        DecodedInstr::BinaryCodedDecimal { register }
    } else if selector == 0x55 {
        DecodedInstr::StoreRegisters { register }
    } else if selector == 0x65 {
        DecodedInstr::LoadRegisters { register }
    } else {
        DecodedInstr::IllegalInstruction(word)
    }
}

/// The operation that an instruction word stands for.
pub open spec fn decode_spec(word: u16) -> DecodedInstr {
    let family = family_of(word);
    let x = x_of(word);
    let y = y_of(word);
    let value = byte_of(word);
    let address = address_of(word);
    if word == 0x00E0 {
        DecodedInstr::ClearScreen
    } else if word == 0x00EE {
        DecodedInstr::Return
    } else if family == 0x1 {
        DecodedInstr::Jump { address }
    } else if family == 0x2 {
        DecodedInstr::Call { address }
    } else if family == 0x3 {
        DecodedInstr::SkipIfEqual { register: x, value }
    } else if family == 0x4 {
        DecodedInstr::SkipIfNotEqual { register: x, value }
    } else if family == 0x5 && nibble_of(word) == 0 {
        DecodedInstr::SkipIfRegisterEqual { x, y }
    } else if family == 0x6 {
        DecodedInstr::LoadRegister { register: x, value }
    } else if family == 0x7 {
        DecodedInstr::AddToRegister { register: x, value }
    } else if family == 0x8 {
        decode_arithmetic(word)
    } else if family == 0x9 && nibble_of(word) == 0 {
        DecodedInstr::SkipIfRegisterNotEqual { x, y }
    } else if family == 0xA {
        DecodedInstr::LoadIRegister { value: address }
    } else if family == 0xB {
        DecodedInstr::JumpWithOffset { address }
    } else if family == 0xD {
        DecodedInstr::DrawSprite { x, y, bytes: nibble_of(word) }
    } else if family == 0xE {
        decode_keypad(word)
    } else if family == 0xF {
        decode_system(word)
    } else {
        DecodedInstr::IllegalInstruction(word)
    }
}

/// Whether a word matches one of the patterns of the instruction table.
pub open spec fn is_recognized(word: u16) -> bool {
    let family = family_of(word);
    let low_nibble = nibble_of(word);
    let low_byte = byte_of(word);
    ||| word == 0x00E0
    ||| word == 0x00EE
    ||| family == 0x1
    ||| family == 0x2
    ||| family == 0x3
    ||| family == 0x4
    ||| family == 0x5 && low_nibble == 0
    ||| family == 0x6
    ||| family == 0x7
    ||| family == 0x8 && (low_nibble <= 7 || low_nibble == 0xE)
    ||| family == 0x9 && low_nibble == 0
    ||| family == 0xA
    ||| family == 0xB
    ||| family == 0xD
    ||| family == 0xE && (low_byte == 0x9E || low_byte == 0xA1)
    ||| family == 0xF && (low_byte == 0x07 || low_byte == 0x0A || low_byte == 0x15 || low_byte
        == 0x1E || low_byte == 0x33 || low_byte == 0x55 || low_byte == 0x65)
}

/// Decoding is total: every word has exactly one operation, its fields are in
/// range, and the operation is `IllegalInstruction`, carrying the word
/// itself, exactly for the words that match no pattern of the table.
pub proof fn decode_is_total(word: u16)
    ensures
        decode_spec(word).wf(),
        decode_spec(word) is IllegalInstruction <==> !is_recognized(word),
        decode_spec(word) is IllegalInstruction ==> decode_spec(word)
            == DecodedInstr::IllegalInstruction(word),
{
}

/// The mask-and-shift form of the fields of a word equals their positional
/// form.
proof fn fields_by_mask(word: u16)
    ensures
        (word >> 12) as int == family_of(word),
        ((word & 0x0F00) >> 8) == x_of(word),
        ((word & 0x00F0) >> 4) == y_of(word),
        (word & 0x000F) == nibble_of(word),
        (word & 0x00FF) == byte_of(word),
        (word & 0x0FFF) == address_of(word),
{
    assert(word >> 12 == word / 0x1000) by (bit_vector);
    assert((word & 0x0F00) >> 8 == (word / 0x100) % 0x10) by (bit_vector);
    assert((word & 0x00F0) >> 4 == (word / 0x10) % 0x10) by (bit_vector);
    assert(word & 0x000F == word % 0x10) by (bit_vector);
    assert(word & 0x00FF == word % 0x100) by (bit_vector);
    assert(word & 0x0FFF == word % 0x1000) by (bit_vector);
}

impl Instr {
    /// Decodes the word. Never fails: a word that matches no pattern becomes
    /// `IllegalInstruction` and carries the word.
    pub fn decode(self) -> (op: DecodedInstr)
        ensures
            op == decode_spec(self.0),
            op.wf(),
            op is IllegalInstruction <==> !is_recognized(self.0),
    {
        let word: u16 = self.0;
        proof {
            fields_by_mask(word);
            decode_is_total(word);
        }
        let x: u8 = ((word & 0x0F00) >> 8) as u8;
        let y: u8 = ((word & 0x00F0) >> 4) as u8;
        let nibble: u8 = (word & 0x000F) as u8;
        let value: u8 = (word & 0x00FF) as u8;
        let address: u16 = word & 0x0FFF;
        match word {
            0x00E0 => DecodedInstr::ClearScreen,
            0x00EE => DecodedInstr::Return,
            0x1000..=0x1FFF => DecodedInstr::Jump { address },
            0x2000..=0x2FFF => DecodedInstr::Call { address },
            0x3000..=0x3FFF => DecodedInstr::SkipIfEqual { register: x, value },
            0x4000..=0x4FFF => DecodedInstr::SkipIfNotEqual { register: x, value },
            0x5000..=0x5FFF if nibble == 0 => DecodedInstr::SkipIfRegisterEqual { x, y },
            0x6000..=0x6FFF => DecodedInstr::LoadRegister { register: x, value },
            0x7000..=0x7FFF => DecodedInstr::AddToRegister { register: x, value },
            0x8000..=0x8FFF => match nibble {
                0x0 => DecodedInstr::CopyRegister { x, y },
                0x1 => DecodedInstr::OrRegisters { x, y },
                0x2 => DecodedInstr::AndRegisters { x, y },
                0x3 => DecodedInstr::XorRegisters { x, y },
                0x4 => DecodedInstr::AddRegisters { x, y },
                0x5 => DecodedInstr::SubtractRegisters { x, y },
                0x6 => DecodedInstr::ShiftRight { x, y },
                0x7 => DecodedInstr::SubtractRegistersReverse { x, y },
                0xE => DecodedInstr::ShiftLeft { x, y },
                _ => DecodedInstr::IllegalInstruction(word),
            },
            0x9000..=0x9FFF if nibble == 0 => DecodedInstr::SkipIfRegisterNotEqual { x, y },
            0xA000..=0xAFFF => DecodedInstr::LoadIRegister { value: address },
            0xB000..=0xBFFF => DecodedInstr::JumpWithOffset { address },
            0xD000..=0xDFFF => DecodedInstr::DrawSprite { x, y, bytes: nibble },
            0xE000..=0xEFFF => match value {
                0x9E => DecodedInstr::SkipIfPressed { key: x },
                0xA1 => DecodedInstr::SkipIfNotPressed { key: x },
                _ => DecodedInstr::IllegalInstruction(word),
            },
            0xF000..=0xFFFF => match value {
                0x07 => DecodedInstr::StoreDelayTimer { register: x },
                0x0A => DecodedInstr::WaitForKeyPress { register: x },
                0x15 => DecodedInstr::SetDelayTimer { register: x },
                0x1E => DecodedInstr::AddToIRegister { register: x },
                0x33 => DecodedInstr::BinaryCodedDecimal { register: x },
                0x55 => DecodedInstr::StoreRegisters { register: x },
                0x65 => DecodedInstr::LoadRegisters { register: x },
                _ => DecodedInstr::IllegalInstruction(word),
            },
            _ => DecodedInstr::IllegalInstruction(word),
        }
    }
}

} // verus!
