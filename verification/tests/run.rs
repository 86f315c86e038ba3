use chip8::keypad::Keypad;
use chip8::machine::{ExitReason, State};
use chip8::run::{decay, is_audible, RunState};

fn loaded(rom: Vec<u8>) -> State {
    State::new([false; 2048], Keypad([false; 16]), 0, 0, rom)
}

#[test]
fn timer_decays_by_one_and_stops_at_zero() {
    assert_eq!(decay(60), 59);
    assert_eq!(decay(255), 254);
    assert_eq!(decay(1), 0);
    assert_eq!(decay(0), 0);
}

#[test]
fn sound_is_audible_above_one() {
    assert!(!is_audible(0));
    assert!(!is_audible(1));
    assert!(is_audible(2));
    assert!(is_audible(255));
}

#[test]
fn running_machine_executes_one_instruction_per_turn() {
    let mut state = loaded(vec![0x60, 0x05, 0x61, 0x03, 0x80, 0x14, 0x00, 0x00]);
    let mut mode = RunState::Running;
    for _ in 0..3 {
        assert!(state.can_step());
        mode = state.advance(mode);
        assert_eq!(mode, RunState::Running);
    }
    assert_eq!(state.registers.0[0], 8);
    assert_eq!(state.registers.0[15], 0);
    assert_eq!(state.pc, 0x206);
}

#[test]
fn illegal_instruction_halts_the_run() {
    let mut state = loaded(vec![0x60, 0x05, 0x00, 0x00]);
    assert_eq!(state.advance(RunState::Running), RunState::Running);
    assert!(state.can_step());
    let mode = state.advance(RunState::Running);
    assert_eq!(mode, RunState::Halted(ExitReason::IllegalInstruction(0x0000)));
}

#[test]
fn jump_to_self_halts_the_run() {
    let mut state = loaded(vec![0x12, 0x00]);
    let mode = state.advance(RunState::Running);
    assert_eq!(mode, RunState::Halted(ExitReason::InfiniteLoop));
}

#[test]
fn halted_machine_stays_halted() {
    let mut state = loaded(vec![0x12, 0x00]);
    let mode = state.advance(RunState::Running);
    let pc = state.pc;
    assert_eq!(state.advance(mode), mode);
    assert_eq!(state.pc, pc);
    let other = RunState::Halted(ExitReason::IllegalInstruction(7));
    assert_eq!(state.advance(other), other);
}

#[test]
fn wait_rewinds_the_program_counter() {
    let mut state = loaded(vec![0xF3, 0x0A]);
    let mode = state.advance(RunState::Running);
    assert_eq!(mode, RunState::WaitingForKeyPress);
    assert_eq!(state.pc, 0x200);
    assert_eq!(state.last_key_press, None);
}

#[test]
fn wait_latches_a_key_that_is_down_on_entry() {
    let mut state = loaded(vec![0xF3, 0x0A]);
    state.keypad.0[6] = true;
    let mode = state.advance(RunState::Running);
    assert_eq!(mode, RunState::WaitingForKeyPress);
    assert_eq!(state.pc, 0x200);
    assert_eq!(state.last_key_press, Some(6));
}

#[test]
fn wait_goes_on_while_no_key_was_seen() {
    let mut state = loaded(vec![0xF3, 0x0A]);
    let mut mode = state.advance(RunState::Running);
    for _ in 0..5 {
        mode = state.advance(mode);
        assert_eq!(mode, RunState::WaitingForKeyPress);
        assert_eq!(state.last_key_press, None);
        assert_eq!(state.pc, 0x200);
    }
}

#[test]
fn wait_ends_at_the_poll_after_the_latch_with_the_key_held() {
    let mut state = loaded(vec![0xF3, 0x0A, 0x00, 0x00]);
    let mut mode = state.advance(RunState::Running);
    for _ in 0..3 {
        mode = state.advance(mode);
        assert_eq!(mode, RunState::WaitingForKeyPress);
        assert_eq!(state.last_key_press, None);
    }
    state.keypad.0[9] = true;
    mode = state.advance(mode);
    assert_eq!(mode, RunState::WaitingForKeyPress);
    assert_eq!(state.last_key_press, Some(9));
    assert_eq!(state.pc, 0x200);
    mode = state.advance(mode);
    assert_eq!(mode, RunState::Running);
    assert_eq!(state.last_key_press, Some(9));
    assert_eq!(state.pc, 0x200);
    assert_eq!(state.registers.0[3], 0);
    mode = state.advance(mode);
    assert_eq!(mode, RunState::Running);
    assert_eq!(state.registers.0[3], 9);
    assert_eq!(state.last_key_press, None);
    assert_eq!(state.pc, 0x202);
}

#[test]
fn wait_ends_at_the_poll_after_the_latch_with_the_key_released() {
    let mut state = loaded(vec![0xF3, 0x0A]);
    let mut mode = state.advance(RunState::Running);
    state.keypad.0[9] = true;
    mode = state.advance(mode);
    assert_eq!(mode, RunState::WaitingForKeyPress);
    state.keypad.0[9] = false;
    mode = state.advance(mode);
    assert_eq!(mode, RunState::Running);
    assert_eq!(state.last_key_press, Some(9));
    mode = state.advance(mode);
    assert_eq!(mode, RunState::Running);
    assert_eq!(state.registers.0[3], 9);
}

#[test]
fn wait_that_starts_with_a_key_down_ends_at_the_next_poll() {
    let mut state = loaded(vec![0xF3, 0x0A]);
    state.keypad.0[6] = true;
    let mut mode = state.advance(RunState::Running);
    assert_eq!(mode, RunState::WaitingForKeyPress);
    assert_eq!(state.last_key_press, Some(6));
    mode = state.advance(mode);
    assert_eq!(mode, RunState::Running);
    mode = state.advance(mode);
    assert_eq!(mode, RunState::Running);
    assert_eq!(state.registers.0[3], 6);
}

#[test]
fn wait_keeps_the_key_that_was_latched_first() {
    let mut state = loaded(vec![0xF3, 0x0A]);
    let mut mode = state.advance(RunState::Running);
    state.keypad.0[9] = true;
    state.keypad.0[12] = true;
    mode = state.advance(mode);
    assert_eq!(mode, RunState::WaitingForKeyPress);
    assert_eq!(state.last_key_press, Some(9));
    state.keypad.0[4] = true;
    mode = state.advance(mode);
    assert_eq!(mode, RunState::Running);
    assert_eq!(state.last_key_press, Some(9));
    mode = state.advance(mode);
    assert_eq!(mode, RunState::Running);
    assert_eq!(state.registers.0[3], 9);
}

#[test]
fn wait_never_ends_while_the_pad_shows_no_key() {
    let mut state = loaded(vec![0xF3, 0x0A]);
    let mut mode = state.advance(RunState::Running);
    for _ in 0..1000 {
        mode = state.advance(mode);
        assert_eq!(mode, RunState::WaitingForKeyPress);
    }
    assert_eq!(state.last_key_press, None);
    assert_eq!(state.pc, 0x200);
    assert_eq!(state.registers.0[3], 0);
}

#[test]
fn poll_key_alone_follows_the_same_rule() {
    let mut state = loaded(vec![]);
    assert_eq!(state.poll_key(), RunState::WaitingForKeyPress);
    assert_eq!(state.last_key_press, None);
    state.keypad.0[2] = true;
    assert_eq!(state.poll_key(), RunState::WaitingForKeyPress);
    assert_eq!(state.last_key_press, Some(2));
    assert_eq!(state.poll_key(), RunState::Running);
    assert_eq!(state.last_key_press, Some(2));
    state.keypad.0[2] = false;
    assert_eq!(state.poll_key(), RunState::Running);
    assert_eq!(state.last_key_press, Some(2));
}

#[test]
fn machine_cannot_step_below_the_program_area() {
    let mut state = loaded(vec![0x10, 0x00]);
    assert!(state.can_step());
    assert_eq!(state.advance(RunState::Running), RunState::Running);
    assert_eq!(state.pc, 0);
    assert!(!state.can_step());
}

#[test]
fn machine_cannot_step_into_a_fault() {
    // Store the decimal digits of register 0 at index 0, in the reserved area.
    let state = loaded(vec![0xF0, 0x33]);
    assert!(!state.can_step());
    // Ask for key 0x20, which the pad does not have.
    let state = loaded(vec![0x60, 0x20, 0xE0, 0x9E]);
    assert!(state.can_step());
    let mut state = state;
    state.advance(RunState::Running);
    assert!(!state.can_step());
}
