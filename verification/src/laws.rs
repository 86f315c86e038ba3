//! What holds of the machine's operations on every state.

use crate::alu::decimal_digits;
use crate::decode::{decode_spec, DecodedInstr};
use crate::display::{collides, draw_twice_restores};
use crate::keypad::lowest_pressed;
use crate::machine::{add16, ExitReason, MachineView};
use crate::memory::{
    read_after_write, read_block, read_block_after_write, read_byte, write_keeps_length,
};
use crate::registers::FLAG_REGISTER;
use crate::run::RunState;
use std::ops::ControlFlow;
use vstd::prelude::*;

verus! {

/// Adding register `y` to register `x` sets the flag register to 1 exactly
/// when the sum of the two values is 256 or more, and leaves the sum modulo
/// 256 in register `x`, unless `x` is the flag register itself, which holds
/// the flag.
pub proof fn add_wraps_and_carries(machine: MachineView, x: u8, y: u8)
    requires
        machine.wf(),
        x < 16,
        y < 16,
    ensures
        ({
            let after = machine.after(DecodedInstr::AddRegisters { x, y });
            let sum = machine.register(x) + machine.register(y);
            &&& after.register(FLAG_REGISTER) == 1 <==> sum >= 256
            &&& after.register(FLAG_REGISTER) == 0 <==> sum < 256
            &&& x != FLAG_REGISTER ==> after.register(x) == sum % 256
        }),
{
}

/// Subtracting register `y` from register `x` sets the flag register to 1
/// exactly when no borrow is needed, that is when the value of `x` is at
/// least that of `y`, and leaves the difference modulo 256 in register `x`,
/// unless `x` is the flag register itself.
pub proof fn subtract_wraps_and_borrows(machine: MachineView, x: u8, y: u8)
    requires
        machine.wf(),
        x < 16,
        y < 16,
    ensures
        ({
            let after = machine.after(DecodedInstr::SubtractRegisters { x, y });
            let difference = machine.register(x) - machine.register(y);
            &&& after.register(FLAG_REGISTER) == 1 <==> machine.register(x) >= machine.register(y)
            &&& after.register(FLAG_REGISTER) == 0 <==> machine.register(x) < machine.register(y)
            &&& x != FLAG_REGISTER ==> after.register(x) == difference % 256
        }),
{
}

/// Subtracting register `x` from register `y` into register `x` follows the
/// same rule with the operands exchanged.
pub proof fn subtract_reverse_wraps_and_borrows(machine: MachineView, x: u8, y: u8)
    requires
        machine.wf(),
        x < 16,
        y < 16,
    ensures
        ({
            let after = machine.after(DecodedInstr::SubtractRegistersReverse { x, y });
            let difference = machine.register(y) - machine.register(x);
            &&& after.register(FLAG_REGISTER) == 1 <==> machine.register(y) >= machine.register(x)
            &&& after.register(FLAG_REGISTER) == 0 <==> machine.register(y) < machine.register(x)
            &&& x != FLAG_REGISTER ==> after.register(x) == difference % 256
        }),
{
}

/// Shifting register `y` right into register `x` sets the flag register to
/// the lowest bit of the source and leaves the source shifted right by one,
/// which is half of it rounded down, in register `x`, unless `x` is the flag
/// register itself.
pub proof fn shift_right_keeps_lost_bit(machine: MachineView, x: u8, y: u8)
    requires
        machine.wf(),
        x < 16,
        y < 16,
    ensures
        ({
            let after = machine.after(DecodedInstr::ShiftRight { x, y });
            let source = machine.register(y);
            &&& after.register(FLAG_REGISTER) == source & 1
            &&& after.register(FLAG_REGISTER) == source % 2
            &&& x != FLAG_REGISTER ==> after.register(x) == source >> 1
            &&& x != FLAG_REGISTER ==> after.register(x) == source / 2
        }),
{
    let source = machine.register(y);
    assert(source >> 1 == source / 2) by (bit_vector);
    assert(source & 1 == source % 2) by (bit_vector);
}

/// Shifting register `y` left into register `x` sets the flag register to
/// the highest bit of the source and leaves twice the source modulo 256 in
/// register `x`, unless `x` is the flag register itself.
pub proof fn shift_left_keeps_lost_bit(machine: MachineView, x: u8, y: u8)
    requires
        machine.wf(),
        x < 16,
        y < 16,
    ensures
        ({
            let after = machine.after(DecodedInstr::ShiftLeft { x, y });
            let source = machine.register(y);
            &&& after.register(FLAG_REGISTER) == source / 128
            &&& x != FLAG_REGISTER ==> after.register(x) == (source * 2) % 256
        }),
{
    let source = machine.register(y);
    assert(source << 1 == (source * 2) % 256) by (bit_vector);
    assert((source & 0x80) >> 7 == source / 128) by (bit_vector);
}

/// The bitwise operations reset the flag register to 0, whatever the
/// operands hold.
pub proof fn bitwise_operations_clear_flag(machine: MachineView, x: u8, y: u8)
    requires
        machine.wf(),
        x < 16,
        y < 16,
    ensures
        machine.after(DecodedInstr::OrRegisters { x, y }).register(FLAG_REGISTER) == 0,
        machine.after(DecodedInstr::AndRegisters { x, y }).register(FLAG_REGISTER) == 0,
        machine.after(DecodedInstr::XorRegisters { x, y }).register(FLAG_REGISTER) == 0,
{
}

/// The flag register after a draw is 1 exactly when some pixel of the
/// display was lit where a lit pixel of the sprite lands, else 0.
pub proof fn draw_flags_collision(machine: MachineView, x: u8, y: u8, bytes: u8)
    requires
        machine.wf(),
        x < 16,
        y < 16,
        bytes < 16,
    ensures
        ({
            let after = machine.after(DecodedInstr::DrawSprite { x, y, bytes });
            let column = machine.register(x) as int % 64;
            let row = machine.register(y) as int % 32;
            let collision = collides(
                machine.display,
                machine.sprite_rows(bytes, row),
                column,
                row,
            );
            &&& after.register(FLAG_REGISTER) == 1 <==> collision
            &&& after.register(FLAG_REGISTER) == 0 <==> !collision
        }),
{
}

/// Drawing the same sprite at the same place twice in succession restores
/// the display. The place is read from registers `x` and `y`, so neither may
/// be the flag register, which the first draw overwrites.
pub proof fn draw_twice_restores_display(machine: MachineView, x: u8, y: u8, bytes: u8)
    requires
        machine.wf(),
        x < 16,
        y < 16,
        bytes < 16,
        x != FLAG_REGISTER,
        y != FLAG_REGISTER,
    ensures
        ({
            let draw = DecodedInstr::DrawSprite { x, y, bytes };
            machine.after(draw).after(draw).display == machine.display
        }),
{
    let column = machine.register(x) as int % 64;
    let row = machine.register(y) as int % 32;
    draw_twice_restores(machine.display, machine.sprite_rows(bytes, row), column, row);
}

/// The decimal conversion leaves three digits in the cells at the index
/// register, hundreds first: each is at most 9, and read as a decimal number
/// they are the value of the register.
pub proof fn decimal_digits_spell_value(machine: MachineView, register: u8)
    requires
        machine.wf(),
        register < 16,
        machine.can_execute(DecodedInstr::BinaryCodedDecimal { register }),
    ensures
        ({
            let after = machine.after(DecodedInstr::BinaryCodedDecimal { register });
            let hundreds = read_byte(after.memory, machine.index as int);
            let tens = read_byte(after.memory, machine.index + 1);
            let ones = read_byte(after.memory, machine.index + 2);
            &&& hundreds <= 9 && tens <= 9 && ones <= 9
            &&& 100 * hundreds + 10 * tens + ones == machine.register(register)
        }),
{
    let digits = decimal_digits(machine.register(register));
    read_after_write(machine.memory, machine.index as int, digits, machine.index as int);
    read_after_write(machine.memory, machine.index as int, digits, machine.index + 1);
    read_after_write(machine.memory, machine.index as int, digits, machine.index + 2);
}

/// Storing registers 0 to `last` and loading them again from the same
/// address gives every register the value it had. Each of the two moves the
/// index register `last + 1` further, in sixteen bits.
pub proof fn store_then_load_restores_registers(machine: MachineView, last: u8)
    requires
        machine.wf(),
        last < 16,
        machine.can_execute(DecodedInstr::StoreRegisters { register: last }),
    ensures
        ({
            let stored = machine.after(DecodedInstr::StoreRegisters { register: last });
            let back = MachineView { index: machine.index, ..stored };
            let loaded = back.after(DecodedInstr::LoadRegisters { register: last });
            &&& back.can_execute(DecodedInstr::LoadRegisters { register: last })
            &&& loaded.registers == machine.registers
            &&& stored.index == add16(machine.index, last + 1)
            &&& loaded.index == add16(machine.index, last + 1)
            &&& machine.index + last + 1 <= u16::MAX ==> stored.index == machine.index + last
                + 1
        }),
{
    let stored = machine.after(DecodedInstr::StoreRegisters { register: last });
    let back = MachineView { index: machine.index, ..stored };
    let loaded = back.after(DecodedInstr::LoadRegisters { register: last });
    let block = machine.registers.subrange(0, last + 1);
    read_block_after_write(machine.memory, machine.index as int, block);
    assert(read_block(stored.memory, machine.index as int, (last + 1) as nat) == block);
    assert(loaded.registers =~= machine.registers);
}

/// An operation stops the machine only in three cases: a jump to its own
/// address, a wait for a key while none is latched, and an illegal
/// instruction, whose word the reason carries.
pub proof fn exits_are_exactly_three(machine: MachineView, instr: DecodedInstr)
    ensures
        machine.outcome(instr) is Break <==> (instr matches DecodedInstr::Jump { address }
            && address == machine.pc) || (instr is WaitForKeyPress && machine.last_key_press
            is None) || instr is IllegalInstruction,
        instr matches DecodedInstr::IllegalInstruction(word) ==> machine.outcome(instr)
            == ControlFlow::<ExitReason>::Break(ExitReason::IllegalInstruction(word)),
{
}

/// An operation keeps the sizes of the display, the register file and the
/// pad.
pub proof fn operations_keep_sizes(machine: MachineView, instr: DecodedInstr)
    requires
        machine.wf(),
        instr.wf(),
    ensures
        machine.after(instr).wf(),
{
}

/// No operation writes the pad or the sound timer, and memory never
/// shrinks.
pub proof fn operations_leave_pad_and_sound(machine: MachineView, instr: DecodedInstr)
    requires
        machine.wf(),
        instr.wf(),
        machine.can_execute(instr),
    ensures
        machine.after(instr).keypad == machine.keypad,
        machine.after(instr).sound_timer == machine.sound_timer,
        machine.after(instr).memory.len() >= machine.memory.len(),
{
    match instr {
        DecodedInstr::BinaryCodedDecimal { register } => {
            write_keeps_length(
                machine.memory,
                machine.index as int,
                decimal_digits(machine.register(register)),
            );
        },
        DecodedInstr::StoreRegisters { register } => {
            write_keeps_length(
                machine.memory,
                machine.index as int,
                machine.registers.subrange(0, register + 1),
            );
        },
        _ => {},
    }
}

/// A running machine whose instruction waits for a key while none is
/// latched ends the turn waiting, with the program counter back on that
/// instruction. The turn latches the lowest key that is held down, if any,
/// and changes nothing else.
pub proof fn wait_returns_to_its_instruction(machine: MachineView)
    requires
        machine.wf(),
        decode_spec(machine.fetch_word()) is WaitForKeyPress,
        machine.last_key_press is None,
    ensures
        machine.turn(RunState::Running) == (
            MachineView { last_key_press: lowest_pressed(machine.keypad), ..machine },
            RunState::WaitingForKeyPress,
        ),
{
    let instr = decode_spec(machine.fetch_word());
    let parked = machine.after(instr).rewound();
    assert(parked =~= machine);
    let turned = machine.turn(RunState::Running);
    assert(turned.0 =~= MachineView {
        last_key_press: lowest_pressed(machine.keypad),
        ..machine
    });
}

/// A waiting machine with a key latched resumes at its next poll, whether or
/// not a key is still held down, and resuming changes nothing. The
/// instruction that waited then runs again, puts the latched key into its
/// register and clears the latch.
pub proof fn wait_delivers_latched_key(machine: MachineView, register: u8, key: u8)
    requires
        machine.wf(),
        register < 16,
        decode_spec(machine.fetch_word()) == (DecodedInstr::WaitForKeyPress { register }),
        machine.last_key_press == Some(key),
    ensures
        machine.turn(RunState::WaitingForKeyPress) == (machine, RunState::Running),
        machine.turn(RunState::Running) == (
            MachineView {
                last_key_press: None,
                ..machine.advanced().with_register(register, key)
            },
            RunState::Running,
        ),
{
}

/// A key that goes down during a wait and stays down ends the wait at the
/// second poll that sees it: the first of the two polls latches it, the
/// second resumes the machine.
pub proof fn wait_ends_one_poll_after_latch(machine: MachineView, key: u8)
    requires
        machine.wf(),
        machine.last_key_press is None,
        lowest_pressed(machine.keypad) == Some(key),
    ensures
        ({
            let first = machine.turn(RunState::WaitingForKeyPress);
            let second = first.0.turn(first.1);
            &&& first == (
                MachineView { last_key_press: Some(key), ..machine },
                RunState::WaitingForKeyPress,
            )
            &&& second == (first.0, RunState::Running)
        }),
{
}

/// A waiting machine resumes exactly when a key is latched, so a pad that
/// never shows a key never ends the wait; a wait never halts the machine,
/// and a halted machine never changes.
pub proof fn wait_and_halt_hold(machine: MachineView, reason: ExitReason)
    ensures
        machine.turn(RunState::WaitingForKeyPress).1 is Running <==> machine.last_key_press
            is Some,
        machine.last_key_press is None && lowest_pressed(machine.keypad) is None
            ==> machine.turn(RunState::WaitingForKeyPress) == (
            machine,
            RunState::WaitingForKeyPress,
        ),
        !(machine.turn(RunState::WaitingForKeyPress).1 is Halted),
        machine.turn(RunState::Halted(reason)) == (machine, RunState::Halted(reason)),
{
}

} // verus!
