use chip8::keypad::{Keycode, Keypad};

fn pad_with(keys: &[usize]) -> Keypad {
    let mut pad = Keypad([false; 16]);
    for key in keys {
        pad.0[*key] = true;
    }
    pad
}

#[test]
fn press_sets_the_mapped_key() {
    let layout = [
        (Keycode::Num4, 0x1),
        (Keycode::Num5, 0x2),
        (Keycode::Num6, 0x3),
        (Keycode::Num7, 0xC),
        (Keycode::R, 0x4),
        (Keycode::T, 0x5),
        (Keycode::Y, 0x6),
        (Keycode::U, 0xD),
        (Keycode::F, 0x7),
        (Keycode::G, 0x8),
        (Keycode::H, 0x9),
        (Keycode::J, 0xE),
        (Keycode::V, 0xA),
        (Keycode::B, 0x0),
        (Keycode::N, 0xB),
        (Keycode::M, 0xF),
    ];
    for (keycode, key) in layout {
        let mut pad = Keypad([false; 16]);
        pad.press(keycode);
        assert_eq!(pad, pad_with(&[key]));
    }
}

#[test]
fn release_clears_the_mapped_key() {
    let layout = [
        (Keycode::Num4, 0x1),
        (Keycode::Num5, 0x2),
        (Keycode::Num6, 0x3),
        (Keycode::Num7, 0xC),
        (Keycode::R, 0x4),
        (Keycode::T, 0x5),
        (Keycode::Y, 0x6),
        (Keycode::U, 0xD),
        (Keycode::F, 0x7),
        (Keycode::G, 0x8),
        (Keycode::H, 0x9),
        (Keycode::J, 0xE),
        (Keycode::V, 0xA),
        (Keycode::B, 0x0),
        (Keycode::N, 0xB),
        (Keycode::M, 0xF),
    ];
    for (keycode, key) in layout {
        let mut pad = Keypad([true; 16]);
        pad.release(keycode);
        let mut expected = Keypad([true; 16]);
        expected.0[key] = false;
        assert_eq!(pad, expected);
    }
}

#[test]
fn other_keys_change_nothing() {
    let mut pad = pad_with(&[3, 9]);
    pad.press(Keycode::Other);
    assert_eq!(pad, pad_with(&[3, 9]));
    pad.release(Keycode::Other);
    assert_eq!(pad, pad_with(&[3, 9]));
}

#[test]
fn press_then_release_restores_the_pad() {
    let mut pad = pad_with(&[2]);
    pad.press(Keycode::R);
    assert_eq!(pad, pad_with(&[2, 4]));
    pad.release(Keycode::R);
    assert_eq!(pad, pad_with(&[2]));
}

#[test]
fn is_pressed_reads_each_key() {
    let pad = pad_with(&[0, 7, 15]);
    for key in 0..16u8 {
        assert_eq!(pad.is_pressed(key), key == 0 || key == 7 || key == 15);
    }
}

#[test]
fn first_pressed_is_the_lowest_key() {
    assert_eq!(pad_with(&[]).first_pressed(), None);
    assert_eq!(pad_with(&[0]).first_pressed(), Some(0));
    assert_eq!(pad_with(&[15]).first_pressed(), Some(15));
    assert_eq!(pad_with(&[9, 4, 12]).first_pressed(), Some(4));
    assert_eq!(Keypad([true; 16]).first_pressed(), Some(0));
}
