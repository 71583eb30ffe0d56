//! The addressable memory unit: 4096 bytes, the first 80 of which hold the
//! built-in font after a reset, and the bytes from 512 on the loaded program.

use vstd::prelude::*;
use crate::error::Chip8Error;

verus! {

/// Number of addressable bytes.
pub const MEMORY_SIZE: usize = 4096;

/// Address at which a loaded program starts.
pub const PROGRAM_START: usize = 512;

/// Number of bytes of the built-in font: sixteen glyphs of five rows each.
pub const FONT_SIZE: usize = 80;

/// The built-in font. Glyph `d` (a hexadecimal digit) occupies bytes `5 * d`
/// to `5 * d + 4`; each byte is one row, its high four bits the pixels.
pub const FONT_SET: [u8; 80] = [
    0xF0, 0x90, 0x90, 0x90, 0xF0,
    0x20, 0x60, 0x20, 0x20, 0x70,
    0xF0, 0x10, 0xF0, 0x80, 0xF0,
    0xF0, 0x10, 0xF0, 0x10, 0xF0,
    0x90, 0x90, 0xF0, 0x10, 0x10,
    0xF0, 0x80, 0xF0, 0x10, 0xF0,
    0xF0, 0x80, 0xF0, 0x90, 0xF0,
    0xF0, 0x10, 0x20, 0x40, 0x40,
    0xF0, 0x90, 0xF0, 0x90, 0xF0,
    0xF0, 0x90, 0xF0, 0x10, 0xF0,
    0xF0, 0x90, 0xF0, 0x90, 0x90,
    0xE0, 0x90, 0xE0, 0x90, 0xE0,
    0xF0, 0x80, 0x80, 0x80, 0xF0,
    0xE0, 0x90, 0x90, 0x90, 0xE0,
    0xF0, 0x80, 0xF0, 0x80, 0xF0,
    0xF0, 0x80, 0xF0, 0x80, 0x80,
];

/// Memory after a reset: the font at address 0, zero everywhere else.
pub open spec fn fresh_memory() -> Seq<u8> {
    Seq::new(4096, |a: int| if a < 80 { FONT_SET@[a] } else { 0u8 })
}

/// `memory` with `rom` copied to address 512 and up.
pub open spec fn with_program(memory: Seq<u8>, rom: Seq<u8>) -> Seq<u8> {
    Seq::new(4096, |a: int| if 512 <= a < 512 + rom.len() { rom[a - 512] } else { memory[a] })
}

/// The big-endian 16-bit word whose high byte is at `address`.
pub open spec fn word_at(memory: Seq<u8>, address: int) -> int {
    memory[address] * 256 + memory[address + 1]
}

/// Where the byte at `address` lies in the loaded program: its offset from
/// address 512, if it is not below that.
pub fn rom_offset(address: u16) -> (offset: Option<u16>)
    ensures
        address >= 512 ==> offset == Some((address - 512) as u16),
        address < 512 ==> offset is None,
{
    if address >= PROGRAM_START as u16 {
        Some(address - PROGRAM_START as u16)
    } else {
        None
    }
}

/// The memory unit.
pub struct Mmu {
    memory: Vec<u8>,
}

impl Mmu {
    /// The content of the memory, indexed by address.
    pub closed spec fn view(&self) -> Seq<u8> {
        self.memory@
    }

    /// A memory unit always holds 4096 bytes.
    #[verifier::type_invariant]
    pub open spec fn wf(&self) -> bool {
        self@.len() == 4096
    }

    /// A memory unit that has just been reset.
    pub fn new() -> (mmu: Mmu)
        ensures
            mmu@ == fresh_memory(),
    {
        let mut mmu = Mmu { memory: vec![0u8; MEMORY_SIZE] };
        mmu.reset();
        mmu
    }

    /// Zeroes the memory and writes the font to address 0 and up.
    pub fn reset(&mut self)
        ensures
            final(self)@ == fresh_memory(),
    {
        let mut memory = vec![0u8; MEMORY_SIZE];
        let mut i: usize = 0;
        while i < FONT_SIZE
            invariant
                i <= 80,
                memory@.len() == 4096,
                forall|a: int| 0 <= a < i ==> memory@[a] == FONT_SET@[a],
                forall|a: int| i <= a < 4096 ==> memory@[a] == 0,
            decreases 80 - i,
        {
            memory[i] = FONT_SET[i];
            i += 1;
        }
        self.memory = memory;
    }

    /// Writes `value` to `address`. Fails, and writes nothing, if the address
    /// is not below 4096.
    pub fn write_byte(&mut self, address: usize, value: u8) -> (res: Result<(), Chip8Error>)
        ensures
            final(self)@.len() == 4096,
            address < 4096 ==> res == Ok::<(), Chip8Error>(()) && final(self)@ == old(self)@.update(
                address as int,
                value,
            ),
            address >= 4096 ==> res == Err::<(), Chip8Error>(Chip8Error::OutOfBounds { address })
                && final(self)@ == old(self)@,
        no_unwind
    {
        proof {
            use_type_invariant(&*self);
        }
        if address < MEMORY_SIZE {
            self.memory[address] = value;
            Ok(())
        } else {
            Err(Chip8Error::OutOfBounds { address })
        }
    }

    /// Reads the byte at `address`. Fails if the address is not below 4096.
    pub fn read_byte(&self, address: usize) -> (res: Result<u8, Chip8Error>)
        ensures
            self@.len() == 4096,
            address < 4096 ==> res == Ok::<u8, Chip8Error>(self@[address as int]),
            address >= 4096 ==> res == Err::<u8, Chip8Error>(Chip8Error::OutOfBounds { address }),
        no_unwind
    {
        proof {
            use_type_invariant(self);
        }
        if address < MEMORY_SIZE {
            Ok(self.memory[address])
        } else {
            Err(Chip8Error::OutOfBounds { address })
        }
    }

    /// Reads the big-endian 16-bit word at `address` and `address + 1`. Fails
    /// if `address + 1` is not below 4096.
    pub fn read_word(&self, address: usize) -> (res: Result<u16, Chip8Error>)
        ensures
            self@.len() == 4096,
            address + 1 < 4096 ==> res == Ok::<u16, Chip8Error>(
                word_at(self@, address as int) as u16,
            ),
            address + 1 >= 4096 ==> res == Err::<u16, Chip8Error>(
                Chip8Error::OutOfBounds { address },
            ),
    {
        proof {
            use_type_invariant(self);
        }
        if address < MEMORY_SIZE - 1 {
            let high = self.memory[address] as u16;
            let low = self.memory[address + 1] as u16;
            assert(high << 8 | low == high * 256 + low) by (bit_vector)
                requires
                    high < 256,
                    low < 256,
            ;
            Ok(high << 8 | low)
        } else {
            Err(Chip8Error::OutOfBounds { address })
        }
    }

    /// Copies the program `rom` to address 512 and up. Fails, and leaves the
    /// memory as it is, if the program is longer than the 3584 bytes from
    /// there to the end of memory.
    pub fn load_rom(&mut self, rom: &[u8]) -> (res: Result<(), Chip8Error>)
        ensures
            final(self)@.len() == 4096,
            rom@.len() <= 3584 ==> res == Ok::<(), Chip8Error>(()) && final(self)@ == with_program(
                old(self)@,
                rom@,
            ),
            rom@.len() > 3584 ==> res == Err::<(), Chip8Error>(
                Chip8Error::CapacityExceeded { len: rom@.len() as usize },
            ) && final(self)@ == old(self)@,
    {
        proof {
            use_type_invariant(&*self);
        }
        let len = rom.len();
        if len > MEMORY_SIZE - PROGRAM_START {
            return Err(Chip8Error::CapacityExceeded { len });
        }
        let mut i: usize = 0;
        while i < len
            invariant
                i <= len,
                len == rom@.len(),
                len <= 3584,
                self.memory@.len() == 4096,
                forall|a: int| 512 <= a < 512 + i ==> self.memory@[a] == rom@[a - 512],
                forall|a: int|
                    0 <= a < 4096 && !(512 <= a < 512 + i) ==> self.memory@[a] == old(
                        self,
                    ).memory@[a],
            decreases len - i,
        {
            self.memory[i + PROGRAM_START] = rom[i];
            i += 1;
        }
        Ok(())
    }
}

} // verus!
