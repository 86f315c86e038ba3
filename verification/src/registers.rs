//! The sixteen general-purpose byte registers.

use vstd::prelude::*;

verus! {

/// The number of the register that operations use as carry, borrow and
/// collision flag.
pub const FLAG_REGISTER: u8 = 0xF;

/// The register file, indexed by register number.
#[derive(Copy, Clone, Debug, PartialEq, Eq)]
pub struct Registers(pub [u8; 16]);

impl View for Registers {
    type V = Seq<u8>;

    open spec fn view(&self) -> Seq<u8> {
        self.0@
    }
}

impl Registers {
    /// A register file with every register zero.
    pub fn new() -> (registers: Registers)
        ensures
            registers@ == Seq::new(16, |i: int| 0u8),
    {
        let registers = Registers([0u8; 16]);
        assert(registers@ =~= Seq::new(16, |i: int| 0u8));
        registers
    }

    /// The value of register `number`.
    pub fn get(&self, number: u8) -> (value: u8)
        requires
            number < 16,
        ensures
            value == self@[number as int],
    {
        self.0[number as usize]
    }

    /// Sets register `number` to `value`.
    pub fn set(&mut self, number: u8, value: u8)
        requires
            number < 16,
        ensures
            final(self)@ == old(self)@.update(number as int, value),
    {
        self.0[number as usize] = value;
        assert(self@ =~= old(self)@.update(number as int, value));
    }
}

} // verus!
