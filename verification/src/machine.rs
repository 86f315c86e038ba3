//! The state of the machine and its mathematical model: what one operation
//! does to the state, stated over sequences and integers.

use crate::alu::{carry_flag, decimal_digits, difference_byte, no_borrow_flag, sum_byte};
use crate::decode::{DecodedInstr, Instr};
use crate::display::{blank, collides, draw};
use crate::keypad::Keypad;
use crate::memory::{read_block, read_byte, readable, writable, write_block, Memory, PROGRAM_BASE};
use crate::registers::{Registers, FLAG_REGISTER};
use std::ops::ControlFlow;
use vstd::prelude::*;

verus! {

/// Why the machine stopped, or stalls.
#[derive(Copy, Clone, Debug, PartialEq, Eq, Structural)]
pub enum ExitReason {
    /// A jump to its own address.
    InfiniteLoop,
    /// The operation needs a key press that has not been latched yet.
    WaitingForKeyPress,
    /// The word, carried here, is no operation.
    IllegalInstruction(u16),
}

/// `base + offset` in sixteen bits, wrapping around.
pub open spec fn add16(base: u16, offset: int) -> u16 {
    ((base + offset) % 0x1_0000) as u16
}

/// The number of rows of a sprite of `bytes` rows that lie on the display
/// when its top row is display row `y`.
pub open spec fn visible_rows(bytes: u8, y: int) -> nat {
    if bytes <= 32 - y {
        bytes as nat
    } else {
        (32 - y) as nat
    }
}

/// The machine as a mathematical value.
#[verifier::ext_equal]
pub struct MachineView {
    /// The address of the next instruction.
    pub pc: u16,
    /// The 2048 pixels of the display, row by row.
    pub display: Seq<bool>,
    /// The memory image from the program base on.
    pub memory: Seq<u8>,
    /// The return addresses, the most recent last.
    pub stack: Seq<u16>,
    /// The sixteen general-purpose registers.
    pub registers: Seq<u8>,
    /// The index register.
    pub index: u16,
    /// The sixteen keys of the pad.
    pub keypad: Seq<bool>,
    pub delay_timer: u8,
    pub sound_timer: u8,
    /// The key that a pending wait has observed.
    pub last_key_press: Option<u8>,
}

impl MachineView {
    /// The display, the register file and the pad have their sizes.
    pub open spec fn wf(self) -> bool {
        &&& self.display.len() == 2048
        &&& self.registers.len() == 16
        &&& self.keypad.len() == 16
    }

    /// The value of register `number`.
    pub open spec fn register(self, number: u8) -> u8 {
        self.registers[number as int]
    }

    /// The machine with the program counter two further.
    pub open spec fn advanced(self) -> MachineView {
        MachineView { pc: add16(self.pc, 2), ..self }
    }

    /// The machine with the program counter two further if `condition`
    /// holds.
    pub open spec fn skip_if(self, condition: bool) -> MachineView {
        if condition {
            self.advanced()
        } else {
            self
        }
    }

    /// The machine with register `number` set to `value`.
    pub open spec fn with_register(self, number: u8, value: u8) -> MachineView {
        MachineView { registers: self.registers.update(number as int, value), ..self }
    }

    /// The machine with the flag register set to `value`.
    pub open spec fn with_flag(self, value: u8) -> MachineView {
        self.with_register(FLAG_REGISTER, value)
    }

    /// The rows of the sprite at the index register that a draw of `bytes`
    /// rows from display row `y` down reads.
    pub open spec fn sprite_rows(self, bytes: u8, y: int) -> Seq<u8> {
        read_block(self.memory, self.index as int, visible_rows(bytes, y))
    }

    /// The machine after the sprite of `bytes` rows at the index register has
    /// been drawn at the place that registers `x` and `y` give, reduced to
    /// the display's width and height. The flag register tells whether a lit
    /// pixel was turned off.
    pub open spec fn drawn(self, x: u8, y: u8, bytes: u8) -> MachineView {
        let column = self.register(x) as int % 64;
        let row = self.register(y) as int % 32;
        let rows = self.sprite_rows(bytes, row);
        MachineView { display: draw(self.display, rows, column, row), ..self }.with_flag(
            if collides(self.display, rows, column, row) {
                1
            } else {
                0
            },
        )
    }

    /// The machine after the three decimal digits of register `register`
    /// have been written to the cells at the index register.
    pub open spec fn stored_decimal(self, register: u8) -> MachineView {
        MachineView {
            memory: write_block(
                self.memory,
                self.index as int,
                decimal_digits(self.register(register)),
            ),
            ..self
        }
    }

    /// The machine after registers 0 to `last` have been written to the
    /// cells at the index register and the index register has moved behind
    /// them.
    pub open spec fn stored_registers(self, last: u8) -> MachineView {
        MachineView {
            memory: write_block(
                self.memory,
                self.index as int,
                self.registers.subrange(0, last + 1),
            ),
            index: add16(self.index, last + 1),
            ..self
        }
    }

    /// The machine after registers 0 to `last` have been read from the cells
    /// at the index register and the index register has moved behind them.
    pub open spec fn loaded_registers(self, last: u8) -> MachineView {
        MachineView {
            registers: read_block(self.memory, self.index as int, (last + 1) as nat)
                + self.registers.subrange(last + 1, 16),
            index: add16(self.index, last + 1),
            ..self
        }
    }

    /// Whether an instruction can be fetched: both of its bytes lie at
    /// readable addresses.
    pub open spec fn can_fetch(self) -> bool {
        readable(self.pc as int) && readable(self.pc + 1)
    }

    /// The word at the program counter, high byte first.
    pub open spec fn fetch_word(self) -> u16 {
        (read_byte(self.memory, self.pc as int) * 0x100 + read_byte(
            self.memory,
            self.pc + 1,
        )) as u16
    }

    /// Whether the machine can carry out `instr`: every memory cell that the
    /// operation reads is readable, every cell that it writes is writable,
    /// and a key that it asks for is a key of the pad.
    pub open spec fn can_execute(self, instr: DecodedInstr) -> bool {
        match instr {
            DecodedInstr::DrawSprite { x, y, bytes } => {
                let rows = visible_rows(bytes, self.register(y) as int % 32);
                rows == 0 || (readable(self.index as int) && readable(self.index + rows - 1))
            },
            DecodedInstr::SkipIfPressed { key } | DecodedInstr::SkipIfNotPressed { key } => {
                self.register(key) < 16
            },
            DecodedInstr::BinaryCodedDecimal { register } => {
                writable(self.index as int) && writable(self.index + 2)
            },
            DecodedInstr::StoreRegisters { register } => {
                writable(self.index as int) && writable(self.index + register)
            },
            DecodedInstr::LoadRegisters { register } => {
                readable(self.index as int) && readable(self.index + register)
            },
            _ => true,
        }
    }

    /// Whether the machine goes on after `instr`, or why it does not.
    pub open spec fn outcome(self, instr: DecodedInstr) -> ControlFlow<ExitReason> {
        match instr {
            DecodedInstr::Jump { address } => {
                if self.pc == address {
                    ControlFlow::Break(ExitReason::InfiniteLoop)
                } else {
                    ControlFlow::Continue(())
                }
            },
            DecodedInstr::WaitForKeyPress { register } => {
                if self.last_key_press is None {
                    ControlFlow::Break(ExitReason::WaitingForKeyPress)
                } else {
                    ControlFlow::Continue(())
                }
            },
            DecodedInstr::IllegalInstruction(word) => {
                ControlFlow::Break(ExitReason::IllegalInstruction(word))
            },
            _ => ControlFlow::Continue(()),
        }
    }

    /// The machine after `instr`. The program counter first moves past the
    /// instruction; the operation then does its work, and an operation of
    /// control flow sets the program counter anew.
    pub open spec fn after(self, instr: DecodedInstr) -> MachineView {
        let next = self.advanced();
        match instr {
            DecodedInstr::ClearScreen => MachineView { display: blank(), ..next },
            DecodedInstr::Return => {
                if self.stack.len() > 0 {
                    MachineView { pc: self.stack.last(), stack: self.stack.drop_last(), ..next }
                } else {
                    next
                }
            },
            DecodedInstr::Jump { address } => {
                if self.pc == address {
                    next
                } else {
                    MachineView { pc: address, ..next }
                }
            },
            DecodedInstr::Call { address } => {
                MachineView { pc: address, stack: self.stack.push(next.pc), ..next }
            },
            DecodedInstr::SkipIfEqual { register, value } => {
                next.skip_if(self.register(register) == value)
            },
            DecodedInstr::SkipIfNotEqual { register, value } => {
                next.skip_if(self.register(register) != value)
            },
            DecodedInstr::SkipIfRegisterEqual { x, y } => {
                next.skip_if(self.register(x) == self.register(y))
            },
            DecodedInstr::SkipIfRegisterNotEqual { x, y } => {
                next.skip_if(self.register(x) != self.register(y))
            },
            DecodedInstr::LoadRegister { register, value } => next.with_register(register, value),
            DecodedInstr::AddToRegister { register, value } => {
                next.with_register(register, sum_byte(self.register(register), value))
            },
            DecodedInstr::CopyRegister { x, y } => next.with_register(x, self.register(y)),
            DecodedInstr::OrRegisters { x, y } => {
                next.with_register(x, self.register(x) | self.register(y)).with_flag(0)
            },
            DecodedInstr::AndRegisters { x, y } => {
                next.with_register(x, self.register(x) & self.register(y)).with_flag(0)
            },
            DecodedInstr::XorRegisters { x, y } => {
                next.with_register(x, self.register(x) ^ self.register(y)).with_flag(0)
            },
            DecodedInstr::AddRegisters { x, y } => {
                next.with_register(x, sum_byte(self.register(x), self.register(y))).with_flag(
                    carry_flag(self.register(x), self.register(y)),
                )
            },
            DecodedInstr::SubtractRegisters { x, y } => {
                next.with_register(
                    x,
                    difference_byte(self.register(x), self.register(y)),
                ).with_flag(no_borrow_flag(self.register(x), self.register(y)))
            },
            DecodedInstr::ShiftRight { x, y } => {
                next.with_register(x, self.register(y) >> 1).with_flag(self.register(y) & 1)
            },
            DecodedInstr::SubtractRegistersReverse { x, y } => {
                next.with_register(
                    x,
                    difference_byte(self.register(y), self.register(x)),
                ).with_flag(no_borrow_flag(self.register(y), self.register(x)))
            },
            DecodedInstr::ShiftLeft { x, y } => {
                next.with_register(x, self.register(y) << 1).with_flag(
                    (self.register(y) & 0x80) >> 7,
                )
            },
            DecodedInstr::LoadIRegister { value } => MachineView { index: value, ..next },
            DecodedInstr::JumpWithOffset { address } => {
                MachineView { pc: add16(address, self.register(0) as int), ..next }
            },
            DecodedInstr::DrawSprite { x, y, bytes } => next.drawn(x, y, bytes),
            DecodedInstr::SkipIfPressed { key } => {
                next.skip_if(self.keypad[self.register(key) as int])
            },
            DecodedInstr::SkipIfNotPressed { key } => {
                next.skip_if(!self.keypad[self.register(key) as int])
            },
            DecodedInstr::StoreDelayTimer { register } => {
                next.with_register(register, self.delay_timer)
            },
            DecodedInstr::WaitForKeyPress { register } => {
                match self.last_key_press {
                    Some(key) => MachineView {
                        last_key_press: None,
                        ..next.with_register(register, key)
                    },
                    None => next,
                }
            },
            DecodedInstr::SetDelayTimer { register } => {
                MachineView { delay_timer: self.register(register), ..next }
            },
            DecodedInstr::AddToIRegister { register } => {
                MachineView { index: add16(self.index, self.register(register) as int), ..next }
            },
            DecodedInstr::BinaryCodedDecimal { register } => next.stored_decimal(register),
            DecodedInstr::StoreRegisters { register } => next.stored_registers(register),
            DecodedInstr::LoadRegisters { register } => next.loaded_registers(register),
            DecodedInstr::IllegalInstruction(word) => next,
        }
    }
}

/// The machine: program counter, display, memory, call stack, registers,
/// index register, pad, timers and the key latch of a pending wait.
#[derive(Clone, Debug)]
pub struct State {
    pub pc: u16,
    pub vram: [bool; 2048],
    pub memory: Memory,
    pub stack: Vec<u16>,
    pub registers: Registers,
    pub vi: u16,
    pub keypad: Keypad,
    pub delay_timer: u8,
    pub sound_timer: u8,
    pub last_key_press: Option<u8>,
}

impl View for State {
    type V = MachineView;

    open spec fn view(&self) -> MachineView {
        MachineView {
            pc: self.pc,
            display: self.vram@,
            memory: self.memory@,
            stack: self.stack@,
            registers: self.registers@,
            index: self.vi,
            keypad: self.keypad@,
            delay_timer: self.delay_timer,
            sound_timer: self.sound_timer,
            last_key_press: self.last_key_press,
        }
    }
}

impl State {
    /// A machine about to run the program `rom`: the program counter at the
    /// program base, the registers and the index register zero, the call
    /// stack empty and no key latched. Display, pad and timers are as given.
    pub fn new(
        vram: [bool; 2048],
        keypad: Keypad,
        delay_timer: u8,
        sound_timer: u8,
        rom: Vec<u8>,
    ) -> (state: State)
        ensures
            state@ == (MachineView {
                pc: PROGRAM_BASE,
                display: vram@,
                memory: rom@,
                stack: Seq::empty(),
                registers: Seq::new(16, |i: int| 0u8),
                index: 0,
                keypad: keypad@,
                delay_timer,
                sound_timer,
                last_key_press: None,
            }),
            state@.wf(),
    {
        State {
            pc: PROGRAM_BASE,
            vram,
            memory: Memory::new(rom),
            stack: Vec::new(),
            registers: Registers::new(),
            vi: 0,
            keypad,
            delay_timer,
            sound_timer,
            last_key_press: None,
        }
    }

    /// The model of every machine is well formed.
    pub proof fn view_is_wf(&self)
        ensures
            self@.wf(),
    {
    }

    /// Reads the instruction word at the program counter, high byte first.
    pub fn fetch(&self) -> (instr: Instr)
        requires
            self@.can_fetch(),
        ensures
            instr.0 == self@.fetch_word(),
    {
        let high: u8 = self.memory.read(self.pc);
        let low: u8 = self.memory.read(self.pc + 1);
        Instr(high as u16 * 0x100 + low as u16)
    }
}

} // verus!
