//! Flat addressable memory: 4096 bytes holding the glyph table and the
//! loaded program.

use vstd::prelude::*;

verus! {

pub const MEMORY_SIZE: usize = 4096;

pub const SIGILS_LENGTH: usize = 80;

/// Base offset of the glyph table: 5-byte bitmaps for the digits 0 to F.
pub const OFFSET_FONT: usize = 0x050;

/// Base offset of the program region; the program counter starts here.
pub const OFFSET_DATA: usize = 0x200;

/// The 80 bytes of the glyph table: one 5-byte bitmap per hexadecimal digit.
pub open spec fn font_seq() -> Seq<u8> {
    seq![
        0xF0u8, 0x90, 0x90, 0x90, 0xF0,
        0x20, 0x60, 0x20, 0x20, 0x70,
        0xF0, 0x10, 0xF0, 0x80, 0xF0,
        0xF0, 0x10, 0xF0, 0x10, 0xF0,
        0x90, 0x90, 0xF0, 0x10, 0x10,
        0xF0, 0x80, 0xF0, 0x10, 0xF0,
        0xF0, 0x80, 0xF0, 0x90, 0xF0,
        0xF0, 0x10, 0x20, 0x40, 0x40,
        0xF0, 0x90, 0xF0, 0x90, 0xF0,
        0xF0, 0x90, 0xF0, 0x10, 0xF0,
        0xF0, 0x90, 0xF0, 0x90, 0x90,
        0xE0, 0x90, 0xE0, 0x90, 0xE0,
        0xF0, 0x80, 0x80, 0x80, 0xF0,
        0xE0, 0x90, 0x90, 0x90, 0xE0,
        0xF0, 0x80, 0xF0, 0x80, 0xF0,
        0xF0, 0x80, 0xF0, 0x80, 0x80,
    ]
}

/// Memory as it stands at machine construction: zeroed, with the glyph
/// table at its fixed offset and the program copied in verbatim.
pub open spec fn init_mem(program: Seq<u8>) -> Seq<u8> {
    Seq::new(
        MEMORY_SIZE as nat,
        |i: int|
            if OFFSET_FONT <= i < OFFSET_FONT + SIGILS_LENGTH {
                font_seq()[i - OFFSET_FONT]
            } else if OFFSET_DATA <= i < OFFSET_DATA + program.len() {
                program[i - OFFSET_DATA]
            } else {
                0u8
            },
    )
}

/// `mem` with `values` written starting at byte offset `index`.
pub open spec fn write_seq(mem: Seq<u8>, index: int, values: Seq<u8>) -> Seq<u8> {
    Seq::new(
        mem.len(),
        |i: int|
            if index <= i < index + values.len() {
                values[i - index]
            } else {
                mem[i]
            },
    )
}

/// The three binary-coded decimal digits of `value`, most significant first.
pub open spec fn bcd_seq(value: u8) -> Seq<u8> {
    seq![(value / 100) as u8, ((value / 10) % 10) as u8, (value % 10) as u8]
}

pub struct Heap {
    pub elements: Vec<u8>,
}

impl Heap {
    /// The memory contents, one byte per address.
    pub open spec fn view(&self) -> Seq<u8> {
        self.elements@
    }

    /// Memory always spans exactly `MEMORY_SIZE` bytes.
    pub open spec fn wf(&self) -> bool {
        self@.len() == MEMORY_SIZE
    }

    /// Builds memory from a program image: the glyph table sits at its fixed
    /// offset, the program at its own, and every other byte is zero.
    pub fn new(program_bytes: Vec<u8>) -> (r: Self)
        requires
            program_bytes@.len() <= MEMORY_SIZE - OFFSET_DATA,
        ensures
            r.wf(),
            r@ == init_mem(program_bytes@),
    {
        let mut elements: Vec<u8> = Vec::new();
        let mut i: usize = 0;
        while i < MEMORY_SIZE
            invariant
                i <= MEMORY_SIZE,
                elements@.len() == i,
                forall|j: int| 0 <= j < i ==> elements@[j] == 0u8,
            decreases MEMORY_SIZE - i,
        {
            elements.push(0u8);
            i += 1;
        }

        let font = font_sigils();
        let mut i: usize = 0;
        while i < SIGILS_LENGTH
            invariant
                i <= SIGILS_LENGTH,
                font@ == font_seq(),
                elements@.len() == MEMORY_SIZE,
                forall|j: int|
                    OFFSET_FONT <= j < OFFSET_FONT + i ==> elements@[j] == font_seq()[j - OFFSET_FONT],
                forall|j: int|
                    0 <= j < MEMORY_SIZE && !(OFFSET_FONT <= j < OFFSET_FONT + i) ==> elements@[j]
                        == 0u8,
            decreases SIGILS_LENGTH - i,
        {
            elements[OFFSET_FONT + i] = font[i];
            i += 1;
        }

        let mut i: usize = 0;
        while i < program_bytes.len()
            invariant
                i <= program_bytes@.len(),
                program_bytes@.len() <= MEMORY_SIZE - OFFSET_DATA,
                elements@.len() == MEMORY_SIZE,
                forall|j: int|
                    OFFSET_FONT <= j < OFFSET_FONT + SIGILS_LENGTH ==> elements@[j] == font_seq()[j
                        - OFFSET_FONT],
                forall|j: int|
                    OFFSET_DATA <= j < OFFSET_DATA + i ==> elements@[j] == program_bytes@[j
                        - OFFSET_DATA],
                forall|j: int|
                    0 <= j < MEMORY_SIZE && !(OFFSET_FONT <= j < OFFSET_FONT + SIGILS_LENGTH) && !(
                    OFFSET_DATA <= j < OFFSET_DATA + i) ==> elements@[j] == 0u8,
            decreases program_bytes@.len() - i,
        {
            elements[OFFSET_DATA + i] = program_bytes[i];
            i += 1;
        }

        let r = Heap { elements };
        proof {
            assert(r@ =~= init_mem(program_bytes@));
        }
        r
    }

    /// Writes one byte; the address must lie within memory.
    pub fn set_byte(&mut self, index: usize, value: u8)
        requires
            old(self).wf(),
            index < MEMORY_SIZE,
        ensures
            final(self).wf(),
            final(self)@ == old(self)@.update(index as int, value),
    {
        self.elements[index] = value;
        proof {
            assert(self@ =~= old(self)@.update(index as int, value));
        }
    }

    /// Writes a run of bytes starting at `index`; the run must fit in memory.
    pub fn set_bytes(&mut self, index: usize, values: &[u8])
        requires
            old(self).wf(),
            index + values@.len() <= MEMORY_SIZE,
        ensures
            final(self).wf(),
            final(self)@ == write_seq(old(self)@, index as int, values@),
    {
        let mut i: usize = 0;
        while i < values.len()
            invariant
                i <= values@.len(),
                old(self).wf(),
                self.wf(),
                index + values@.len() <= MEMORY_SIZE,
                self@.len() == old(self)@.len(),
                forall|j: int| index <= j < index + i ==> self@[j] == values@[j - index],
                forall|j: int|
                    0 <= j < self@.len() && !(index <= j < index + i) ==> self@[j] == old(self)@[j],
            decreases values@.len() - i,
        {
            self.set_byte(index + i, values[i]);
            i += 1;
        }
        proof {
            assert(self@ =~= write_seq(old(self)@, index as int, values@));
        }
    }

    /// Writes the three decimal digits of `value` at `index`, most
    /// significant first.
    pub fn set_as_decimal(&mut self, index: usize, value: u8)
        requires
            old(self).wf(),
            index + 3 <= MEMORY_SIZE,
        ensures
            final(self).wf(),
            final(self)@ == write_seq(old(self)@, index as int, bcd_seq(value)),
    {
        self.set_byte(index + 0, value / 100);
        self.set_byte(index + 1, (value / 10) % 10);
        self.set_byte(index + 2, (value % 100) % 10);
        proof {
            assert((value % 100) % 10 == value % 10) by (bit_vector);
            assert(self@ =~= write_seq(old(self)@, index as int, bcd_seq(value)));
        }
    }

    /// Copies the `len + 1` bytes starting at `index`.
    pub fn get_bytes(&self, index: usize, len: usize) -> (r: Vec<u8>)
        requires
            self.wf(),
            index + len + 1 <= MEMORY_SIZE,
        ensures
            r@ == self@.subrange(index as int, index + len + 1),
    {
        let mut r: Vec<u8> = Vec::new();
        let mut i: usize = 0;
        while i < len + 1
            invariant
                i <= len + 1,
                self.wf(),
                index + len + 1 <= MEMORY_SIZE,
                r@.len() == i,
                forall|j: int| 0 <= j < i ==> r@[j] == self@[index + j],
            decreases len + 1 - i,
        {
            r.push(self.elements[index + i]);
            i += 1;
        }
        proof {
            assert(r@ =~= self@.subrange(index as int, index + len + 1));
        }
        r
    }

    /// The whole memory, for instruction fetch.
    pub fn get_all_bytes(&self) -> (r: &[u8])
        ensures
            r@ == self@,
    {
        self.elements.as_slice()
    }

    /// Copies the `sprite_height` sprite rows starting at `index`.
    pub fn get_sprite(&self, index: usize, sprite_height: u8) -> (r: Vec<u8>)
        requires
            self.wf(),
            index + sprite_height <= MEMORY_SIZE,
        ensures
            r@ == self@.subrange(index as int, index + sprite_height),
    {
        let mut r: Vec<u8> = Vec::new();
        let mut i: usize = 0;
        while i < sprite_height as usize
            invariant
                i <= sprite_height,
                self.wf(),
                index + sprite_height <= MEMORY_SIZE,
                r@.len() == i,
                forall|j: int| 0 <= j < i ==> r@[j] == self@[index + j],
            decreases sprite_height - i,
        {
            r.push(self.elements[index + i]);
            i += 1;
        }
        proof {
            assert(r@ =~= self@.subrange(index as int, index + sprite_height));
        }
        r
    }
}

/// The glyph table as executable data.
fn font_sigils() -> (v: Vec<u8>)
    ensures
        v@ == font_seq(),
{
    let mut v: Vec<u8> = Vec::new();
    v.push(0xF0); v.push(0x90); v.push(0x90); v.push(0x90); v.push(0xF0);
    v.push(0x20); v.push(0x60); v.push(0x20); v.push(0x20); v.push(0x70);
    v.push(0xF0); v.push(0x10); v.push(0xF0); v.push(0x80); v.push(0xF0);
    v.push(0xF0); v.push(0x10); v.push(0xF0); v.push(0x10); v.push(0xF0);
    v.push(0x90); v.push(0x90); v.push(0xF0); v.push(0x10); v.push(0x10);
    v.push(0xF0); v.push(0x80); v.push(0xF0); v.push(0x10); v.push(0xF0);
    v.push(0xF0); v.push(0x80); v.push(0xF0); v.push(0x90); v.push(0xF0);
    v.push(0xF0); v.push(0x10); v.push(0x20); v.push(0x40); v.push(0x40);
    v.push(0xF0); v.push(0x90); v.push(0xF0); v.push(0x90); v.push(0xF0);
    v.push(0xF0); v.push(0x90); v.push(0xF0); v.push(0x10); v.push(0xF0);
    v.push(0xF0); v.push(0x90); v.push(0xF0); v.push(0x90); v.push(0x90);
    v.push(0xE0); v.push(0x90); v.push(0xE0); v.push(0x90); v.push(0xE0);
    v.push(0xF0); v.push(0x80); v.push(0x80); v.push(0x80); v.push(0xF0);
    v.push(0xE0); v.push(0x90); v.push(0x90); v.push(0x90); v.push(0xE0);
    v.push(0xF0); v.push(0x80); v.push(0xF0); v.push(0x80); v.push(0xF0);
    v.push(0xF0); v.push(0x80); v.push(0xF0); v.push(0x80); v.push(0x80);
    proof {
        assert(v@ =~= font_seq());
    }
    v
}

} // verus!
