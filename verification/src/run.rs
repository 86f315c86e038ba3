//! The decisions of the run loop and of the timers. The caller owns the
//! loop: between two calls of [`State::advance`] it yields to the other
//! tasks, and it calls [`decay`] once for each timer period.

use crate::decode::{decode_spec, DecodedInstr};
use crate::keypad::lowest_pressed;
use crate::machine::{add16, ExitReason, MachineView, State};
use crate::memory::PROGRAM_BASE;
use std::ops::ControlFlow;
use vstd::prelude::*;

verus! {

/// What the run loop is doing.
#[derive(Copy, Clone, Debug, PartialEq, Eq, Structural)]
pub enum RunState {
    /// The next turn fetches, decodes and executes an instruction.
    Running,
    /// The next turn polls the pad for the key that the instruction at the
    /// program counter waits for.
    WaitingForKeyPress,
    /// The machine has stopped for good.
    Halted(ExitReason),
}

impl MachineView {
    /// Whether the machine can fetch an instruction and carry it out.
    pub open spec fn can_step(self) -> bool {
        self.can_fetch() && self.can_execute(decode_spec(self.fetch_word()))
    }

    /// The machine with the program counter two back.
    pub open spec fn rewound(self) -> MachineView {
        MachineView { pc: add16(self.pc, -2), ..self }
    }

    /// One poll of the pad during a wait, which has two phases. While no key
    /// is latched, the poll latches the lowest key that is held down, if any,
    /// and the wait goes on. Once a key is latched, the next poll ends the
    /// wait and leaves the latch as it is; it does not look at the pad, so
    /// the wait ends whether or not the key is still held.
    ///
    /// A key is therefore accepted one poll after it was first seen. The
    /// instruction set is commonly read otherwise, with the wait ending on
    /// the very turn on which a key goes down. Programs may lean on either
    /// reading: which one to offer is an open decision, and until it is
    /// taken the two-poll rule stands.
    pub open spec fn poll(self) -> (MachineView, RunState) {
        if self.last_key_press is Some {
            (self, RunState::Running)
        } else {
            match lowest_pressed(self.keypad) {
                Some(key) => (
                    MachineView { last_key_press: Some(key), ..self },
                    RunState::WaitingForKeyPress,
                ),
                None => (self, RunState::WaitingForKeyPress),
            }
        }
    }

    /// One turn of the run loop. A running machine executes the instruction
    /// at the program counter; it runs on where the operation says so, halts
    /// where it gives a terminal reason, and where it asks for a key, the
    /// program counter goes back to the instruction and the pad is polled
    /// for the first time. A waiting machine polls the pad. A halted machine
    /// stays as it is.
    pub open spec fn turn(self, mode: RunState) -> (MachineView, RunState) {
        match mode {
            RunState::Running => {
                let instr = decode_spec(self.fetch_word());
                match self.outcome(instr) {
                    ControlFlow::Continue(_) => (self.after(instr), RunState::Running),
                    ControlFlow::Break(ExitReason::WaitingForKeyPress) => {
                        self.after(instr).rewound().poll()
                    },
                    ControlFlow::Break(reason) => (self.after(instr), RunState::Halted(reason)),
                }
            },
            RunState::WaitingForKeyPress => self.poll(),
            RunState::Halted(reason) => (self, RunState::Halted(reason)),
        }
    }
}

/// A timer one period later: one less, and zero stays zero.
pub fn decay(timer: u8) -> (next: u8)
    ensures
        next == if timer == 0 {
            0
        } else {
            timer - 1
        },
{
    timer.saturating_sub(1)
}

/// Whether a sound timer of this value calls for the tone: it does above 1.
pub fn is_audible(sound_timer: u8) -> (audible: bool)
    ensures
        audible == (sound_timer > 1),
{
    sound_timer > 1
}

impl State {
    /// Whether [`State::fetch`] may be called.
    pub fn can_fetch(&self) -> (ok: bool)
        ensures
            ok == self@.can_fetch(),
    {
        self.pc >= PROGRAM_BASE - 1 && self.pc < u16::MAX
    }

    /// Whether [`State::execute`] may be called with `instr`.
    pub fn can_execute(&self, instr: DecodedInstr) -> (ok: bool)
        requires
            instr.wf(),
        ensures
            ok == self@.can_execute(instr),
    {
        match instr {
            DecodedInstr::DrawSprite { x, y, bytes } => {
                let top: u8 = self.registers.get(y) % 0x20;
                let rows: u8 = if bytes <= 32 - top {
                    bytes
                } else {
                    32 - top
                };
                rows == 0 || (self.vi >= PROGRAM_BASE - 1 && self.vi <= u16::MAX - (rows as u16
                    - 1))
            },
            DecodedInstr::SkipIfPressed { key } | DecodedInstr::SkipIfNotPressed { key } => {
                self.registers.get(key) < 16
            },
            DecodedInstr::BinaryCodedDecimal { register } => {
                self.vi >= PROGRAM_BASE && self.vi <= u16::MAX - 2
            },
            DecodedInstr::StoreRegisters { register } => {
                self.vi >= PROGRAM_BASE && self.vi <= u16::MAX - register as u16
            },
            DecodedInstr::LoadRegisters { register } => {
                self.vi >= PROGRAM_BASE - 1 && self.vi <= u16::MAX - register as u16
            },
            _ => true,
        }
    }

    /// Whether a running machine can take its next turn: the instruction at
    /// the program counter can be fetched and carried out.
    pub fn can_step(&self) -> (ok: bool)
        ensures
            ok == self@.can_step(),
    {
        if !self.can_fetch() {
            return false;
        }
        let instr: DecodedInstr = self.fetch().decode();
        self.can_execute(instr)
    }

    /// Polls once during a wait for a key press. With a key latched the wait
    /// is over; without one, the lowest key that is held down is latched and
    /// the wait goes on.
    pub fn poll_key(&mut self) -> (next: RunState)
        ensures
            (final(self)@, next) == old(self)@.poll(),
    {
        if self.last_key_press.is_some() {
            return RunState::Running;
        }
        if let Some(key) = self.keypad.first_pressed() {
            self.last_key_press = Some(key);
        }
        RunState::WaitingForKeyPress
    }

    /// Takes one turn of the run loop and returns what the next turn is to
    /// do. The caller yields between two turns.
    pub fn advance(&mut self, mode: RunState) -> (next: RunState)
        requires
            mode is Running ==> old(self)@.can_step(),
        ensures
            (final(self)@, next) == old(self)@.turn(mode),
    {
        match mode {
            RunState::Running => {
                let instr: DecodedInstr = self.fetch().decode();
                match self.execute(instr) {
                    ControlFlow::Continue(_) => RunState::Running,
                    ControlFlow::Break(ExitReason::WaitingForKeyPress) => {
                        self.pc = self.pc.wrapping_sub(2);
                        self.poll_key()
                    },
                    ControlFlow::Break(reason) => RunState::Halted(reason),
                }
            },
            RunState::WaitingForKeyPress => self.poll_key(),
            RunState::Halted(reason) => RunState::Halted(reason),
        }
    }
}

} // verus!
