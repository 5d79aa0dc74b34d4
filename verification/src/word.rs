//! The 16-bit big-endian instruction word and its four nibbles.

use vstd::prelude::*;
use crate::registers::Register;

verus! {

/// A two-byte, big-endian encoded instruction word read from memory.
#[derive(Copy, Clone)]
pub struct Word(pub u16);

/// The big-endian word held at byte offset `pc` of `mem`.
pub open spec fn word_at(mem: Seq<u8>, pc: int) -> u16 {
    (mem[pc] * 256 + mem[pc + 1]) as u16
}

/// Top nibble: the instruction family selector.
pub open spec fn nib_c(w: u16) -> u8 {
    (w / 0x1000) as u8
}

/// Second nibble: typically a register number.
pub open spec fn nib_x(w: u16) -> u8 {
    ((w / 0x100) % 0x10) as u8
}

/// Third nibble: typically a register number.
pub open spec fn nib_y(w: u16) -> u8 {
    ((w / 0x10) % 0x10) as u8
}

/// Bottom nibble: typically a small immediate.
pub open spec fn nib_n(w: u16) -> u8 {
    (w % 0x10) as u8
}

/// Bottom byte: an 8-bit immediate.
pub open spec fn low_byte(w: u16) -> u8 {
    (w % 0x100) as u8
}

/// Bottom 12 bits: a memory address.
pub open spec fn addr_of(w: u16) -> u16 {
    w % 0x1000
}

impl Word {
    /// Loads the word at byte offset `pc` of `memory`; the caller must leave
    /// two bytes of room, which the engine guarantees for a validated
    /// program counter.
    pub fn new(memory: &[u8], pc: usize) -> (r: Self)
        requires
            pc + 1 < memory.len(),
        ensures
            r.0 == word_at(memory@, pc as int),
    {
        let hi = memory[pc];
        let lo = memory[pc + 1];
        let w: u16 = ((hi as u16) << 8) | (lo as u16);
        proof {
            assert(w == hi * 256 + lo) by (bit_vector)
                requires
                    w == ((hi as u16) << 8) | (lo as u16),
            ;
        }
        Word(w)
    }

    /// The instruction family selector, always below 16.
    pub fn c(self) -> (r: u8)
        ensures
            r == nib_c(self.0),
            r < 16,
    {
        let w = self.0;
        let r = ((w >> 12) & 0xF) as u8;
        proof {
            assert(r == w / 0x1000 && r < 16) by (bit_vector)
                requires
                    r == ((w >> 12) & 0xF) as u8,
            ;
        }
        r
    }

    /// The register named by the second nibble.
    pub fn x(self) -> (r: Register)
        ensures
            r.0 == nib_x(self.0),
    {
        let w = self.0;
        let nib = ((w >> 8) & 0xF) as u8;
        proof {
            assert(nib == (w / 0x100) % 0x10 && nib < 16) by (bit_vector)
                requires
                    nib == ((w >> 8) & 0xF) as u8,
            ;
        }
        Register::new(nib)
    }

    /// The register named by the third nibble.
    pub fn y(self) -> (r: Register)
        ensures
            r.0 == nib_y(self.0),
    {
        let w = self.0;
        let nib = ((w >> 4) & 0xF) as u8;
        proof {
            assert(nib == (w / 0x10) % 0x10 && nib < 16) by (bit_vector)
                requires
                    nib == ((w >> 4) & 0xF) as u8,
            ;
        }
        Register::new(nib)
    }

    /// The bottom nibble, a 4-bit immediate.
    pub fn n(self) -> (r: u8)
        ensures
            r == nib_n(self.0),
            r < 16,
    {
        let w = self.0;
        let r = (w & 0xF) as u8;
        proof {
            assert(r == w % 0x10 && r < 16) by (bit_vector)
                requires
                    r == (w & 0xF) as u8,
            ;
        }
        r
    }

    /// The bottom byte, an 8-bit immediate.
    pub fn nn(self) -> (r: u8)
        ensures
            r == low_byte(self.0),
    {
        let w = self.0;
        let r = (w & 0xFF) as u8;
        proof {
            assert(r == w % 0x100) by (bit_vector)
                requires
                    r == (w & 0xFF) as u8,
            ;
        }
        r
    }

    /// The bottom 12 bits, a memory address.
    pub fn nnn(self) -> (r: u16)
        ensures
            r == addr_of(self.0),
            r < 0x1000,
    {
        let w = self.0;
        let r = w & 0xFFF;
        proof {
            assert(r == w % 0x1000 && r < 0x1000) by (bit_vector)
                requires
                    r == w & 0xFFF,
            ;
        }
        r
    }
}

} // verus!
