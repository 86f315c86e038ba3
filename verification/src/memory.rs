//! The machine's linear memory: the program image, addressed from a fixed
//! base, that grows when a cell beyond its end is written.

use vstd::prelude::*;

verus! {

/// The address at which the program image begins.
pub const PROGRAM_BASE: u16 = 0x200;

/// The byte that address `address` holds in a memory whose image is `image`:
/// the image's byte where the address falls inside it, zero elsewhere.
pub open spec fn read_byte(image: Seq<u8>, address: int) -> u8 {
    if PROGRAM_BASE <= address < PROGRAM_BASE + image.len() {
        image[address - PROGRAM_BASE]
    } else {
        0
    }
}

/// The addresses that can be read: the image's range and the one cell below
/// it. The rest of the area below the base is reserved.
pub open spec fn readable(address: int) -> bool {
    PROGRAM_BASE - 1 <= address <= u16::MAX
}

/// The addresses that can be written: the image's range.
pub open spec fn writable(address: int) -> bool {
    PROGRAM_BASE <= address <= u16::MAX
}

/// The image after `data` has been written to the cells from `address` on.
/// An image too short to hold the last cell is first extended with zeros.
pub open spec fn write_block(image: Seq<u8>, address: int, data: Seq<u8>) -> Seq<u8> {
    let start = address - PROGRAM_BASE;
    let end = start + data.len();
    let length = if data.len() > 0 && end > image.len() {
        end
    } else {
        image.len() as int
    };
    Seq::new(
        length as nat,
        |i: int|
            if start <= i < end {
                data[i - start]
            } else if i < image.len() {
                image[i]
            } else {
                0
            },
    )
}

/// The image after `value` has been written to the cell at `address`.
pub open spec fn write_byte(image: Seq<u8>, address: int, value: u8) -> Seq<u8> {
    write_block(image, address, seq![value])
}

/// The `count` bytes that the cells from `address` on hold.
pub open spec fn read_block(image: Seq<u8>, address: int, count: nat) -> Seq<u8> {
    Seq::new(count, |i: int| read_byte(image, address + i))
}

/// A cell that was written holds what was written to it, and every other
/// cell holds what it held before.
pub proof fn read_after_write(image: Seq<u8>, address: int, data: Seq<u8>, probe: int)
    requires
        writable(address),
    ensures
        read_byte(write_block(image, address, data), probe) == if address <= probe < address
            + data.len() {
            data[probe - address]
        } else {
            read_byte(image, probe)
        },
{
}

/// A block that was written reads back as it was written.
pub proof fn read_block_after_write(image: Seq<u8>, address: int, data: Seq<u8>)
    requires
        writable(address),
    ensures
        read_block(write_block(image, address, data), address, data.len()) == data,
{
    assert(read_block(write_block(image, address, data), address, data.len()) =~= data);
}

/// Memory never shrinks, and writing nothing changes nothing.
pub proof fn write_keeps_length(image: Seq<u8>, address: int, data: Seq<u8>)
    requires
        writable(address),
    ensures
        write_block(image, address, data).len() >= image.len(),
        data.len() == 0 ==> write_block(image, address, data) == image,
{
    if data.len() == 0 {
        assert(write_block(image, address, data) =~= image);
    }
}

/// Writing a block and then one more byte behind it is writing the block
/// with that byte appended.
pub proof fn write_block_push(image: Seq<u8>, address: int, data: Seq<u8>, value: u8)
    requires
        writable(address),
    ensures
        write_byte(write_block(image, address, data), address + data.len(), value)
            == write_block(image, address, data.push(value)),
{
    assert(write_byte(write_block(image, address, data), address + data.len(), value)
        =~= write_block(image, address, data.push(value)));
}

/// The memory of the machine. `rom` holds the cells from [`PROGRAM_BASE`] on.
#[derive(Clone, Debug)]
pub struct Memory {
    pub rom: Vec<u8>,
}

impl View for Memory {
    type V = Seq<u8>;

    open spec fn view(&self) -> Seq<u8> {
        self.rom@
    }
}

impl Memory {
    /// A memory that holds `rom` from [`PROGRAM_BASE`] on.
    pub fn new(rom: Vec<u8>) -> (memory: Memory)
        ensures
            memory@ == rom@,
    {
        Memory { rom }
    }

    /// Reads the cell at `address`.
    pub fn read(&self, address: u16) -> (value: u8)
        requires
            readable(address as int),
        ensures
            value == read_byte(self@, address as int),
    {
        if address < PROGRAM_BASE {
            0
        } else {
            let offset: usize = (address - PROGRAM_BASE) as usize;
            if offset < self.rom.len() {
                self.rom[offset]
            } else {
                0
            }
        }
    }

    /// Writes `value` to the cell at `address`, extending the image with
    /// zeros where it ends before that cell.
    pub fn write(&mut self, address: u16, value: u8)
        requires
            writable(address as int),
        ensures
            final(self)@ == write_byte(old(self)@, address as int, value),
    {
        let offset: usize = (address - PROGRAM_BASE) as usize;
        if self.rom.len() <= offset {
            self.rom.resize(offset + 1, 0);
        }
        self.rom[offset] = value;
        assert(self@ =~= write_byte(old(self)@, address as int, value));
    }
}

} // verus!
