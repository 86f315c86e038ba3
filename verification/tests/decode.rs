use chip8::decode::{DecodedInstr, Instr};

fn decoded(word: u16) -> DecodedInstr {
    Instr(word).decode()
}

#[test]
fn decodes_clear_screen_and_return() {
    assert_eq!(decoded(0x00E0), DecodedInstr::ClearScreen);
    assert_eq!(decoded(0x00EE), DecodedInstr::Return);
}

#[test]
fn other_words_of_family_zero_are_illegal() {
    assert_eq!(decoded(0x0000), DecodedInstr::IllegalInstruction(0x0000));
    assert_eq!(decoded(0x00E1), DecodedInstr::IllegalInstruction(0x00E1));
    assert_eq!(decoded(0x0123), DecodedInstr::IllegalInstruction(0x0123));
    assert_eq!(decoded(0x0FFF), DecodedInstr::IllegalInstruction(0x0FFF));
}

#[test]
fn decodes_jump_and_call() {
    assert_eq!(decoded(0x1200), DecodedInstr::Jump { address: 0x200 });
    assert_eq!(decoded(0x1FFF), DecodedInstr::Jump { address: 0xFFF });
    assert_eq!(decoded(0x1000), DecodedInstr::Jump { address: 0x000 });
    assert_eq!(decoded(0x2ABC), DecodedInstr::Call { address: 0xABC });
}

#[test]
fn decodes_skips_on_literal() {
    assert_eq!(decoded(0x3A42), DecodedInstr::SkipIfEqual { register: 0xA, value: 0x42 });
    assert_eq!(decoded(0x4B17), DecodedInstr::SkipIfNotEqual { register: 0xB, value: 0x17 });
}

#[test]
fn decodes_skips_on_registers() {
    assert_eq!(decoded(0x5120), DecodedInstr::SkipIfRegisterEqual { x: 1, y: 2 });
    assert_eq!(decoded(0x9EF0), DecodedInstr::SkipIfRegisterNotEqual { x: 0xE, y: 0xF });
}

#[test]
fn register_skips_need_a_zero_low_nibble() {
    assert_eq!(decoded(0x5121), DecodedInstr::IllegalInstruction(0x5121));
    assert_eq!(decoded(0x512F), DecodedInstr::IllegalInstruction(0x512F));
    assert_eq!(decoded(0x9EF1), DecodedInstr::IllegalInstruction(0x9EF1));
}

#[test]
fn decodes_load_and_add_literal() {
    assert_eq!(decoded(0x6005), DecodedInstr::LoadRegister { register: 0, value: 5 });
    assert_eq!(decoded(0x6FFF), DecodedInstr::LoadRegister { register: 0xF, value: 0xFF });
    assert_eq!(decoded(0x7C01), DecodedInstr::AddToRegister { register: 0xC, value: 1 });
}

#[test]
fn decodes_arithmetic_family() {
    assert_eq!(decoded(0x8120), DecodedInstr::CopyRegister { x: 1, y: 2 });
    assert_eq!(decoded(0x8121), DecodedInstr::OrRegisters { x: 1, y: 2 });
    assert_eq!(decoded(0x8122), DecodedInstr::AndRegisters { x: 1, y: 2 });
    assert_eq!(decoded(0x8123), DecodedInstr::XorRegisters { x: 1, y: 2 });
    assert_eq!(decoded(0x8014), DecodedInstr::AddRegisters { x: 0, y: 1 });
    assert_eq!(decoded(0x8125), DecodedInstr::SubtractRegisters { x: 1, y: 2 });
    assert_eq!(decoded(0x8126), DecodedInstr::ShiftRight { x: 1, y: 2 });
    assert_eq!(decoded(0x8127), DecodedInstr::SubtractRegistersReverse { x: 1, y: 2 });
    assert_eq!(decoded(0x812E), DecodedInstr::ShiftLeft { x: 1, y: 2 });
}

#[test]
fn other_arithmetic_selectors_are_illegal() {
    for selector in [0x8u16, 0x9, 0xA, 0xB, 0xC, 0xD, 0xF] {
        let word = 0x8120 | selector;
        assert_eq!(decoded(word), DecodedInstr::IllegalInstruction(word));
    }
}

#[test]
fn decodes_index_and_offset_jump() {
    assert_eq!(decoded(0xA123), DecodedInstr::LoadIRegister { value: 0x123 });
    assert_eq!(decoded(0xB456), DecodedInstr::JumpWithOffset { address: 0x456 });
}

#[test]
fn family_c_is_illegal() {
    assert_eq!(decoded(0xC000), DecodedInstr::IllegalInstruction(0xC000));
    assert_eq!(decoded(0xC1FF), DecodedInstr::IllegalInstruction(0xC1FF));
}

#[test]
fn decodes_draw_sprite() {
    assert_eq!(decoded(0xD125), DecodedInstr::DrawSprite { x: 1, y: 2, bytes: 5 });
    assert_eq!(decoded(0xDAB0), DecodedInstr::DrawSprite { x: 0xA, y: 0xB, bytes: 0 });
    assert_eq!(decoded(0xDFFF), DecodedInstr::DrawSprite { x: 0xF, y: 0xF, bytes: 0xF });
}

#[test]
fn decodes_keypad_family() {
    assert_eq!(decoded(0xE39E), DecodedInstr::SkipIfPressed { key: 3 });
    assert_eq!(decoded(0xE4A1), DecodedInstr::SkipIfNotPressed { key: 4 });
    assert_eq!(decoded(0xE300), DecodedInstr::IllegalInstruction(0xE300));
    assert_eq!(decoded(0xE39F), DecodedInstr::IllegalInstruction(0xE39F));
}

#[test]
fn decodes_system_family() {
    assert_eq!(decoded(0xF107), DecodedInstr::StoreDelayTimer { register: 1 });
    assert_eq!(decoded(0xF20A), DecodedInstr::WaitForKeyPress { register: 2 });
    assert_eq!(decoded(0xF315), DecodedInstr::SetDelayTimer { register: 3 });
    assert_eq!(decoded(0xF41E), DecodedInstr::AddToIRegister { register: 4 });
    assert_eq!(decoded(0xF533), DecodedInstr::BinaryCodedDecimal { register: 5 });
    assert_eq!(decoded(0xF655), DecodedInstr::StoreRegisters { register: 6 });
    assert_eq!(decoded(0xF765), DecodedInstr::LoadRegisters { register: 7 });
}

#[test]
fn other_system_selectors_are_illegal() {
    assert_eq!(decoded(0xF118), DecodedInstr::IllegalInstruction(0xF118));
    assert_eq!(decoded(0xF129), DecodedInstr::IllegalInstruction(0xF129));
    assert_eq!(decoded(0xFFFF), DecodedInstr::IllegalInstruction(0xFFFF));
}

#[test]
fn every_word_decodes_to_one_operation() {
    let mut legal = 0u32;
    for word in 0..=0xFFFFu16 {
        match decoded(word) {
            DecodedInstr::IllegalInstruction(carried) => assert_eq!(carried, word),
            _ => legal += 1,
        }
    }
    // 2 words of family 0, nine families of 4096 words, two of 256, one of
    // 9 * 256, one of 2 * 16 and one of 7 * 16.
    assert_eq!(legal, 2 + 9 * 4096 + 2 * 256 + 9 * 256 + 2 * 16 + 7 * 16);
}

#[test]
fn decoded_fields_are_in_range() {
    for word in 0..=0xFFFFu16 {
        match decoded(word) {
            DecodedInstr::Jump { address }
            | DecodedInstr::Call { address }
            | DecodedInstr::JumpWithOffset { address } => {
                assert_eq!(address, word & 0x0FFF)
            }
            DecodedInstr::LoadIRegister { value } => assert_eq!(value, word & 0x0FFF),
            DecodedInstr::DrawSprite { x, y, bytes } => {
                assert_eq!(x as u16, (word >> 8) & 0xF);
                assert_eq!(y as u16, (word >> 4) & 0xF);
                assert_eq!(bytes as u16, word & 0xF);
            }
            DecodedInstr::LoadRegister { register, value }
            | DecodedInstr::AddToRegister { register, value }
            | DecodedInstr::SkipIfEqual { register, value }
            | DecodedInstr::SkipIfNotEqual { register, value } => {
                assert_eq!(register as u16, (word >> 8) & 0xF);
                assert_eq!(value as u16, word & 0xFF);
            }
            _ => {}
        }
    }
}
