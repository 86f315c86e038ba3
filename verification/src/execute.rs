//! The executor: one decoded operation applied to the machine.

use crate::alu::{add_with_carry, binary_coded_decimal, shift_left, shift_right, sub_with_borrow};
use crate::decode::DecodedInstr;
use crate::display::{clear, collides, draw, draw_nothing, draw_push_row, draw_row};
use crate::machine::{visible_rows, ExitReason, MachineView, State};
use crate::memory::{
    read_block, readable, writable, write_block, write_block_push, write_keeps_length,
};
use crate::registers::FLAG_REGISTER;
use std::ops::ControlFlow;
use vstd::prelude::*;

verus! {

impl State {
    /// Moves the program counter two further, wrapping around.
    fn advance_pc(&mut self)
        ensures
            final(self)@ == old(self)@.advanced(),
    {
        self.pc = self.pc.wrapping_add(2);
    }

    /// Skips the next instruction if `condition` holds.
    fn skip_if(&mut self, condition: bool)
        ensures
            final(self)@ == old(self)@.skip_if(condition),
    {
        if condition {
            self.advance_pc();
        }
    }

    /// Sets register `number` to `value`.
    fn set_register(&mut self, number: u8, value: u8)
        requires
            number < 16,
        ensures
            final(self)@ == old(self)@.with_register(number, value),
    {
        self.registers.set(number, value);
    }

    /// Sets register `x` to `value` and then the flag register to `flag`.
    fn set_result(&mut self, x: u8, value: u8, flag: u8)
        requires
            x < 16,
        ensures
            final(self)@ == old(self)@.with_register(x, value).with_flag(flag),
    {
        self.registers.set(x, value);
        self.registers.set(FLAG_REGISTER, flag);
    }

    /// Draws the sprite of `bytes` rows at the index register. Registers `x`
    /// and `y` give the place of its top left corner, reduced to the width
    /// and height of the display. Rows below the last row of the display are
    /// neither read nor drawn. The flag register becomes 1 if a lit pixel was
    /// turned off, else 0.
    pub fn draw_sprite(&mut self, x: u8, y: u8, bytes: u8)
        requires
            x < 16,
            y < 16,
            bytes < 16,
            old(self)@.can_execute(DecodedInstr::DrawSprite { x, y, bytes }),
        ensures
            final(self)@ == old(self)@.drawn(x, y, bytes),
    {
        let column: u8 = self.registers.get(x) % 0x40;
        let top: u8 = self.registers.get(y) % 0x20;
        let ghost before = self@;
        let ghost count = visible_rows(bytes, top as int);
        let mut collision = false;
        let mut row: u8 = 0;
        proof {
            draw_nothing(before.display, column as int, top as int);
            assert(read_block(before.memory, before.index as int, 0) =~= Seq::<u8>::empty());
        }
        while row < bytes && top + row < 32
            invariant
                row <= count,
                bytes < 16,
                top < 32,
                column < 64,
                count == visible_rows(bytes, top as int),
                count > 0 ==> readable(before.index as int) && readable(
                    before.index + count - 1,
                ),
                self@ == (MachineView {
                    display: draw(
                        before.display,
                        read_block(before.memory, before.index as int, row as nat),
                        column as int,
                        top as int,
                    ),
                    ..before
                }),
                collision == collides(
                    before.display,
                    read_block(before.memory, before.index as int, row as nat),
                    column as int,
                    top as int,
                ),
            decreases bytes - row,
        {
            let ghost rows = read_block(before.memory, before.index as int, row as nat);
            let bits: u8 = self.memory.read(self.vi + row as u16);
            let hit: bool = draw_row(&mut self.vram, bits, column, top + row);
            proof {
                draw_push_row(before.display, rows, column as int, top as int, bits);
                assert(read_block(before.memory, before.index as int, (row + 1) as nat)
                    =~= rows.push(bits));
            }
            collision = collision || hit;
            row += 1;
        }
        self.registers.set(
            FLAG_REGISTER,
            if collision {
                1
            } else {
                0
            },
        );
    }

    /// Writes the three decimal digits of register `register`, hundreds
    /// first, to the three cells at the index register.
    pub fn store_decimal(&mut self, register: u8)
        requires
            register < 16,
            old(self)@.can_execute(DecodedInstr::BinaryCodedDecimal { register }),
        ensures
            final(self)@ == old(self)@.stored_decimal(register),
    {
        let digits: [u8; 3] = binary_coded_decimal(self.registers.get(register));
        let ghost before = self@;
        let mut place: u16 = 0;
        proof {
            write_keeps_length(before.memory, before.index as int, digits@.subrange(0, 0));
        }
        while place < 3
            invariant
                place <= 3,
                writable(before.index as int),
                before.index + 2 <= u16::MAX,
                self@ == (MachineView {
                    memory: write_block(
                        before.memory,
                        before.index as int,
                        digits@.subrange(0, place as int),
                    ),
                    ..before
                }),
            decreases 3 - place,
        {
            let ghost written = digits@.subrange(0, place as int);
            self.memory.write(self.vi + place, digits[place as usize]);
            proof {
                write_block_push(
                    before.memory,
                    before.index as int,
                    written,
                    digits@[place as int],
                );
                assert(written.push(digits@[place as int]) =~= digits@.subrange(
                    0,
                    place + 1,
                ));
            }
            place += 1;
        }
        assert(digits@.subrange(0, 3) =~= digits@);
    }

    /// Writes registers 0 to `last` to the cells at the index register, then
    /// moves the index register behind them.
    pub fn store_registers(&mut self, last: u8)
        requires
            last < 16,
            old(self)@.can_execute(DecodedInstr::StoreRegisters { register: last }),
        ensures
            final(self)@ == old(self)@.stored_registers(last),
    {
        let ghost before = self@;
        let mut number: u8 = 0;
        proof {
            write_keeps_length(before.memory, before.index as int, before.registers.subrange(0, 0));
        }
        while number <= last
            invariant
                number <= last + 1,
                last < 16,
                before.registers.len() == 16,
                writable(before.index as int),
                before.index + last <= u16::MAX,
                self@ == (MachineView {
                    memory: write_block(
                        before.memory,
                        before.index as int,
                        before.registers.subrange(0, number as int),
                    ),
                    ..before
                }),
            decreases last + 1 - number,
        {
            let ghost written = before.registers.subrange(0, number as int);
            let value: u8 = self.registers.get(number);
            self.memory.write(self.vi + number as u16, value);
            proof {
                write_block_push(before.memory, before.index as int, written, value);
                assert(written.push(value) =~= before.registers.subrange(0, number + 1));
            }
            number += 1;
        }
        self.vi = self.vi.wrapping_add(last as u16 + 1);
    }

    /// Reads registers 0 to `last` from the cells at the index register,
    /// then moves the index register behind them.
    pub fn load_registers(&mut self, last: u8)
        requires
            last < 16,
            old(self)@.can_execute(DecodedInstr::LoadRegisters { register: last }),
        ensures
            final(self)@ == old(self)@.loaded_registers(last),
    {
        let ghost before = self@;
        let mut number: u8 = 0;
        proof {
            assert(read_block(before.memory, before.index as int, 0)
                + before.registers.subrange(0, 16) =~= before.registers);
        }
        while number <= last
            invariant
                number <= last + 1,
                last < 16,
                before.registers.len() == 16,
                readable(before.index as int),
                before.index + last <= u16::MAX,
                self@ == (MachineView {
                    registers: read_block(before.memory, before.index as int, number as nat)
                        + before.registers.subrange(number as int, 16),
                    ..before
                }),
            decreases last + 1 - number,
        {
            let value: u8 = self.memory.read(self.vi + number as u16);
            self.registers.set(number, value);
            proof {
                assert(self.registers@ =~= read_block(
                    before.memory,
                    before.index as int,
                    (number + 1) as nat,
                ) + before.registers.subrange(number + 1, 16));
            }
            number += 1;
        }
        self.vi = self.vi.wrapping_add(last as u16 + 1);
    }

    /// Carries out one decoded operation. The program counter first moves
    /// past the instruction; the operation then does its work. Returns
    /// whether the machine goes on, or the reason why it stops or stalls.
    pub fn execute(&mut self, instr: DecodedInstr) -> (flow: ControlFlow<ExitReason>)
        requires
            instr.wf(),
            old(self)@.can_execute(instr),
        ensures
            final(self)@ == old(self)@.after(instr),
            flow == old(self)@.outcome(instr),
    {
        let own_address: u16 = self.pc;
        self.advance_pc();
        match instr {
            DecodedInstr::ClearScreen => {
                clear(&mut self.vram);
            },
            DecodedInstr::Return => {
                if let Some(address) = self.stack.pop() {
                    self.pc = address;
                }
            },
            DecodedInstr::Jump { address } => {
                if own_address == address {
                    return ControlFlow::Break(ExitReason::InfiniteLoop);
                }
                self.pc = address;
            },
            DecodedInstr::Call { address } => {
                self.stack.push(self.pc);
                self.pc = address;
            },
            DecodedInstr::SkipIfEqual { register, value } => {
                let held: u8 = self.registers.get(register);
                self.skip_if(held == value);
            },
            DecodedInstr::SkipIfNotEqual { register, value } => {
                let held: u8 = self.registers.get(register);
                self.skip_if(held != value);
            },
            DecodedInstr::SkipIfRegisterEqual { x, y } => {
                let left: u8 = self.registers.get(x);
                let right: u8 = self.registers.get(y);
                self.skip_if(left == right);
            },
            DecodedInstr::LoadRegister { register, value } => {
                self.set_register(register, value);
            },
            DecodedInstr::AddToRegister { register, value } => {
                let (sum, _) = add_with_carry(self.registers.get(register), value);
                self.set_register(register, sum);
            },
            DecodedInstr::CopyRegister { x, y } => {
                let source: u8 = self.registers.get(y);
                self.set_register(x, source);
            },
            DecodedInstr::OrRegisters { x, y } => {
                let left: u8 = self.registers.get(x);
                let right: u8 = self.registers.get(y);
                self.set_result(x, left | right, 0);
            },
            DecodedInstr::AndRegisters { x, y } => {
                let left: u8 = self.registers.get(x);
                let right: u8 = self.registers.get(y);
                self.set_result(x, left & right, 0);
            },
            DecodedInstr::XorRegisters { x, y } => {
                let left: u8 = self.registers.get(x);
                let right: u8 = self.registers.get(y);
                self.set_result(x, left ^ right, 0);
            },
            DecodedInstr::SkipIfRegisterNotEqual { x, y } => {
                let left: u8 = self.registers.get(x);
                let right: u8 = self.registers.get(y);
                self.skip_if(left != right);
            },
            DecodedInstr::AddRegisters { x, y } => {
                let (sum, carry) = add_with_carry(self.registers.get(x), self.registers.get(y));
                self.set_result(x, sum, carry);
            },
            DecodedInstr::SubtractRegisters { x, y } => {
                let (difference, flag) = sub_with_borrow(
                    self.registers.get(x),
                    self.registers.get(y),
                );
                self.set_result(x, difference, flag);
            },
            DecodedInstr::ShiftRight { x, y } => {
                let (shifted, out) = shift_right(self.registers.get(y));
                self.set_result(x, shifted, out);
            },
            DecodedInstr::SubtractRegistersReverse { x, y } => {
                let (difference, flag) = sub_with_borrow(
                    self.registers.get(y),
                    self.registers.get(x),
                );
                self.set_result(x, difference, flag);
            },
            DecodedInstr::ShiftLeft { x, y } => {
                let (shifted, out) = shift_left(self.registers.get(y));
                self.set_result(x, shifted, out);
            },
            DecodedInstr::LoadIRegister { value } => {
                self.vi = value;
            },
            DecodedInstr::JumpWithOffset { address } => {
                let offset: u8 = self.registers.get(0);
                self.pc = address.wrapping_add(offset as u16);
            },
            DecodedInstr::DrawSprite { x, y, bytes } => {
                self.draw_sprite(x, y, bytes);
            },
            DecodedInstr::SkipIfPressed { key } => {
                let key: u8 = self.registers.get(key);
                let pressed: bool = self.keypad.is_pressed(key);
                self.skip_if(pressed);
            },
            DecodedInstr::SkipIfNotPressed { key } => {
                let key: u8 = self.registers.get(key);
                let pressed: bool = self.keypad.is_pressed(key);
                self.skip_if(!pressed);
            },
            DecodedInstr::StoreDelayTimer { register } => {
                let timer: u8 = self.delay_timer;
                self.set_register(register, timer);
            },
            DecodedInstr::WaitForKeyPress { register } => {
                if let Some(key) = self.last_key_press {
                    self.set_register(register, key);
                    self.last_key_press = None;
                } else {
                    return ControlFlow::Break(ExitReason::WaitingForKeyPress);
                }
            },
            DecodedInstr::SetDelayTimer { register } => {
                self.delay_timer = self.registers.get(register);
            },
            DecodedInstr::AddToIRegister { register } => {
                let offset: u8 = self.registers.get(register);
                self.vi = self.vi.wrapping_add(offset as u16);
            },
            DecodedInstr::BinaryCodedDecimal { register } => {
                self.store_decimal(register);
            },
            DecodedInstr::StoreRegisters { register } => {
                self.store_registers(register);
            },
            DecodedInstr::LoadRegisters { register } => {
                self.load_registers(register);
            },
            DecodedInstr::IllegalInstruction(word) => {
                return ControlFlow::Break(ExitReason::IllegalInstruction(word));
            },
        }
        ControlFlow::Continue(())
    }
}

} // verus!
