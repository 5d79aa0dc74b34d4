//! The register file: sixteen 8-bit general registers (register 15 doubles
//! as the carry/borrow/collision flag), the 16-bit index register, and the
//! program counter.

use vstd::prelude::*;
use crate::heap;

verus! {

pub const GENERAL_REGISTER_COUNT: usize = 16;

pub const FLAG_REGISTER_IDX: usize = 15;

/// A validated general-register number, always 0 to 15.
#[derive(Copy, Clone, Debug, PartialEq, Eq, Structural)]
pub struct Register(pub usize);

impl Register {
    /// Wraps a register number; only four bits are ever available from
    /// decoding, so a larger number is a fatal fault.
    pub fn new(register: u8) -> (r: Self)
        requires
            register < GENERAL_REGISTER_COUNT,
        ensures
            r.0 == register,
    {
        Register(register as usize)
    }

    /// The carry/borrow/collision flag register.
    pub fn flag() -> (r: Self)
        ensures
            r.0 == FLAG_REGISTER_IDX,
    {
        Register(FLAG_REGISTER_IDX)
    }

    /// Register 0.
    pub fn first() -> (r: Self)
        ensures
            r.0 == 0,
    {
        Register(0)
    }

    pub fn idx(self) -> (r: usize)
        ensures
            r == self.0,
    {
        self.0
    }
}

/// General registers after `to := to + from`: the flag takes the carry, the
/// target the sum modulo 256. Writing the flag first matches the engine:
/// an addition targeting register 15 leaves the sum there, not the carry.
pub open spec fn add_spec(gen: Seq<u8>, to: int, from: int) -> Seq<u8> {
    let sum = gen[to] + gen[from];
    gen.update(FLAG_REGISTER_IDX as int, if sum > 255 { 1u8 } else { 0u8 }).update(
        to,
        (sum % 256) as u8,
    )
}

/// General registers after `to := to - from`: the flag is 1 exactly when no
/// borrow occurred (`to >= from`), the target the wrapped difference.
pub open spec fn sub_spec(gen: Seq<u8>, to: int, from: int) -> Seq<u8> {
    let diff = gen[to] - gen[from] + 256;
    gen.update(FLAG_REGISTER_IDX as int, if gen[to] >= gen[from] { 1u8 } else { 0u8 }).update(
        to,
        (diff % 256) as u8,
    )
}

/// General registers after `to := from - to`, the mirrored subtraction.
pub open spec fn sub_rev_spec(gen: Seq<u8>, to: int, from: int) -> Seq<u8> {
    let diff = gen[from] - gen[to] + 256;
    gen.update(FLAG_REGISTER_IDX as int, if gen[from] >= gen[to] { 1u8 } else { 0u8 }).update(
        to,
        (diff % 256) as u8,
    )
}

/// General registers after a shift right by one into `to`: the flag takes
/// the shifted-out low bit. The source is `to` itself under the lazy-shift
/// quirk and `from` otherwise.
pub open spec fn shr_spec(gen: Seq<u8>, to: int, from: int, is_lazy_shift: bool) -> Seq<u8> {
    let src = if is_lazy_shift {
        gen[to]
    } else {
        gen[from]
    };
    gen.update(FLAG_REGISTER_IDX as int, (src % 2) as u8).update(to, (src / 2) as u8)
}

/// General registers after a shift left by one into `to`: the flag takes
/// the shifted-out high bit. The source is chosen as for the right shift.
pub open spec fn shl_spec(gen: Seq<u8>, to: int, from: int, is_lazy_shift: bool) -> Seq<u8> {
    let src = if is_lazy_shift {
        gen[to]
    } else {
        gen[from]
    };
    gen.update(FLAG_REGISTER_IDX as int, if src >= 128 { 1u8 } else { 0u8 }).update(
        to,
        ((src * 2) % 256) as u8,
    )
}

/// With the lazy-shift quirk active a shift reads the register it writes,
/// so it acts exactly as the quirk-free shift with both operands equal.
pub proof fn lemma_shift_quirk(gen: Seq<u8>, to: int, from: int)
    ensures
        shr_spec(gen, to, from, true) == shr_spec(gen, to, to, false),
        shl_spec(gen, to, from, true) == shl_spec(gen, to, to, false),
{
}

pub struct Registers {
    pub general: Vec<u8>,
    pub index: u16,
    pub program_counter: usize,
}

impl Registers {
    /// The sixteen general registers, register number to value.
    pub open spec fn view(&self) -> Seq<u8> {
        self.general@
    }

    pub open spec fn wf(&self) -> bool {
        self@.len() == GENERAL_REGISTER_COUNT
    }

    /// Fresh register file: all general registers zero, index zero, and the
    /// program counter at the program region's base offset.
    pub fn new() -> (r: Registers)
        ensures
            r.wf(),
            forall|i: int| 0 <= i < GENERAL_REGISTER_COUNT ==> r@[i] == 0u8,
            r.index == 0,
            r.program_counter == heap::OFFSET_DATA,
    {
        let mut general: Vec<u8> = Vec::new();
        let mut i: usize = 0;
        while i < GENERAL_REGISTER_COUNT
            invariant
                i <= GENERAL_REGISTER_COUNT,
                general@.len() == i,
                forall|j: int| 0 <= j < i ==> general@[j] == 0u8,
            decreases GENERAL_REGISTER_COUNT - i,
        {
            general.push(0u8);
            i += 1;
        }
        Registers { general, index: 0, program_counter: heap::OFFSET_DATA }
    }

    pub fn get_value(&self, register: Register) -> (r: u8)
        requires
            self.wf(),
            register.0 < GENERAL_REGISTER_COUNT,
        ensures
            r == self@[register.0 as int],
    {
        self.general[register.idx()]
    }

    pub fn set_value(&mut self, register: Register, value: u8)
        requires
            old(self).wf(),
            register.0 < GENERAL_REGISTER_COUNT,
        ensures
            final(self)@ == old(self)@.update(register.0 as int, value),
            final(self).index == old(self).index,
            final(self).program_counter == old(self).program_counter,
    {
        let i = register.idx();
        self.general[i] = value;
    }

    /// Adds an immediate into a register, wrapping modulo 256 and leaving
    /// the flag alone.
    pub fn add_value(&mut self, register: Register, value: u8)
        requires
            old(self).wf(),
            register.0 < GENERAL_REGISTER_COUNT,
        ensures
            final(self)@ == old(self)@.update(
                register.0 as int,
                ((old(self)@[register.0 as int] + value) % 256) as u8,
            ),
            final(self).index == old(self).index,
            final(self).program_counter == old(self).program_counter,
    {
        let current = self.get_value(register);
        let new = current.wrapping_add(value);
        self.set_value(register, new);
    }

    pub fn copy_registers(&mut self, to: Register, from: Register)
        requires
            old(self).wf(),
            to.0 < GENERAL_REGISTER_COUNT,
            from.0 < GENERAL_REGISTER_COUNT,
        ensures
            final(self)@ == old(self)@.update(to.0 as int, old(self)@[from.0 as int]),
            final(self).index == old(self).index,
            final(self).program_counter == old(self).program_counter,
    {
        let v = self.get_value(from);
        self.set_value(to, v);
    }

    pub fn or_registers(&mut self, to: Register, from: Register)
        requires
            old(self).wf(),
            to.0 < GENERAL_REGISTER_COUNT,
            from.0 < GENERAL_REGISTER_COUNT,
        ensures
            final(self)@ == old(self)@.update(
                to.0 as int,
                old(self)@[to.0 as int] | old(self)@[from.0 as int],
            ),
            final(self).index == old(self).index,
            final(self).program_counter == old(self).program_counter,
    {
        let to_val = self.get_value(to);
        let from_val = self.get_value(from);
        self.set_value(to, to_val | from_val);
    }

    pub fn and_registers(&mut self, to: Register, from: Register)
        requires
            old(self).wf(),
            to.0 < GENERAL_REGISTER_COUNT,
            from.0 < GENERAL_REGISTER_COUNT,
        ensures
            final(self)@ == old(self)@.update(
                to.0 as int,
                old(self)@[to.0 as int] & old(self)@[from.0 as int],
            ),
            final(self).index == old(self).index,
            final(self).program_counter == old(self).program_counter,
    {
        let to_val = self.get_value(to);
        let from_val = self.get_value(from);
        self.set_value(to, to_val & from_val);
    }

    pub fn xor_registers(&mut self, to: Register, from: Register)
        requires
            old(self).wf(),
            to.0 < GENERAL_REGISTER_COUNT,
            from.0 < GENERAL_REGISTER_COUNT,
        ensures
            final(self)@ == old(self)@.update(
                to.0 as int,
                old(self)@[to.0 as int] ^ old(self)@[from.0 as int],
            ),
            final(self).index == old(self).index,
            final(self).program_counter == old(self).program_counter,
    {
        let to_val = self.get_value(to);
        let from_val = self.get_value(from);
        self.set_value(to, to_val ^ from_val);
    }

    /// `to := to + from`; the flag becomes 1 exactly when the unsigned sum
    /// exceeds 255, and the stored value is the sum modulo 256.
    pub fn add_registers(&mut self, to: Register, from: Register)
        requires
            old(self).wf(),
            to.0 < GENERAL_REGISTER_COUNT,
            from.0 < GENERAL_REGISTER_COUNT,
        ensures
            final(self)@ == add_spec(old(self)@, to.0 as int, from.0 as int),
            final(self)@[to.0 as int] == ((old(self)@[to.0 as int] + old(self)@[from.0 as int])
                % 256) as u8,
            to.0 != FLAG_REGISTER_IDX ==> final(self)@[FLAG_REGISTER_IDX as int] == (if old(self)@[to.0 as int] + old(self)@[from.0 as int] > 255 {
                1u8
            } else {
                0u8
            }),
            final(self).index == old(self).index,
            final(self).program_counter == old(self).program_counter,
    {
        let to_val = self.get_value(to);
        let from_val = self.get_value(from);
        self.set_flag((to_val as u16) + (from_val as u16) > 255);
        self.set_value(to, to_val.wrapping_add(from_val));
    }

    /// `to := to - from`; the flag becomes 1 exactly when no borrow
    /// occurred, that is when `to >= from`.
    pub fn sub_registers(&mut self, to: Register, from: Register)
        requires
            old(self).wf(),
            to.0 < GENERAL_REGISTER_COUNT,
            from.0 < GENERAL_REGISTER_COUNT,
        ensures
            final(self)@ == sub_spec(old(self)@, to.0 as int, from.0 as int),
            to.0 != FLAG_REGISTER_IDX ==> final(self)@[FLAG_REGISTER_IDX as int] == (if old(self)@[to.0 as int] >= old(self)@[from.0 as int] {
                1u8
            } else {
                0u8
            }),
            final(self).index == old(self).index,
            final(self).program_counter == old(self).program_counter,
    {
        let to_val = self.get_value(to);
        let from_val = self.get_value(from);
        self.set_flag(to_val >= from_val);
        self.set_value(to, to_val.wrapping_sub(from_val));
    }

    /// `to := from - to`, the mirrored subtraction with the same borrow
    /// polarity.
    pub fn sub_registers_reversed(&mut self, to: Register, from: Register)
        requires
            old(self).wf(),
            to.0 < GENERAL_REGISTER_COUNT,
            from.0 < GENERAL_REGISTER_COUNT,
        ensures
            final(self)@ == sub_rev_spec(old(self)@, to.0 as int, from.0 as int),
            final(self).index == old(self).index,
            final(self).program_counter == old(self).program_counter,
    {
        let to_val = self.get_value(to);
        let from_val = self.get_value(from);
        self.set_flag(from_val >= to_val);
        self.set_value(to, from_val.wrapping_sub(to_val));
    }

    /// Shift right by one into `to`, reading `to` itself under the
    /// lazy-shift quirk and `from` otherwise; the flag takes the
    /// shifted-out low bit.
    pub fn shr_registers(&mut self, to: Register, from: Register, is_lazy_shift: bool)
        requires
            old(self).wf(),
            to.0 < GENERAL_REGISTER_COUNT,
            from.0 < GENERAL_REGISTER_COUNT,
        ensures
            final(self)@ == shr_spec(old(self)@, to.0 as int, from.0 as int, is_lazy_shift),
            final(self).index == old(self).index,
            final(self).program_counter == old(self).program_counter,
    {
        let from_val = if !is_lazy_shift {
            self.get_value(from)
        } else {
            self.get_value(to)
        };
        self.set_flag((from_val & 1) != 0);
        proof {
            assert((from_val & 1) == from_val % 2 && (from_val >> 1) == from_val / 2)
                by (bit_vector);
        }
        self.set_value(to, from_val >> 1);
    }

    /// Shift left by one into `to`, with the source chosen as for the right
    /// shift; the flag takes the shifted-out high bit.
    pub fn shl_registers(&mut self, to: Register, from: Register, is_lazy_shift: bool)
        requires
            old(self).wf(),
            to.0 < GENERAL_REGISTER_COUNT,
            from.0 < GENERAL_REGISTER_COUNT,
        ensures
            final(self)@ == shl_spec(old(self)@, to.0 as int, from.0 as int, is_lazy_shift),
            final(self).index == old(self).index,
            final(self).program_counter == old(self).program_counter,
    {
        let from_val = if !is_lazy_shift {
            self.get_value(from)
        } else {
            self.get_value(to)
        };
        self.set_flag((from_val & 0b1000_0000) != 0);
        proof {
            assert(((from_val & 0b1000_0000) != 0 <==> from_val >= 128) && (from_val << 1)
                == (from_val * 2) % 256) by (bit_vector);
        }
        self.set_value(to, from_val << 1);
    }

    /// Sets the flag register to 1 or 0.
    pub fn set_flag(&mut self, enable: bool)
        requires
            old(self).wf(),
        ensures
            final(self)@ == old(self)@.update(
                FLAG_REGISTER_IDX as int,
                if enable {
                    1u8
                } else {
                    0u8
                },
            ),
            final(self).index == old(self).index,
            final(self).program_counter == old(self).program_counter,
    {
        self.set_value(Register::flag(), if enable { 1 } else { 0 });
    }

    /// Copies registers 0 through `max_register` out, for a bulk dump.
    pub fn dump(&self, max_register: Register) -> (r: Vec<u8>)
        requires
            self.wf(),
            max_register.0 < GENERAL_REGISTER_COUNT,
        ensures
            r@ == self@.subrange(0, max_register.0 + 1),
    {
        let mut r: Vec<u8> = Vec::new();
        let mut i: usize = 0;
        while i < max_register.idx() + 1
            invariant
                self.wf(),
                max_register.0 < GENERAL_REGISTER_COUNT,
                i <= max_register.0 + 1,
                r@.len() == i,
                forall|j: int| 0 <= j < i ==> r@[j] == self@[j],
            decreases max_register.0 + 1 - i,
        {
            r.push(self.general[i]);
            i += 1;
        }
        proof {
            assert(r@ =~= self@.subrange(0, max_register.0 + 1));
        }
        r
    }

    /// Fills registers 0 onward from `bytes`, for a bulk load; the rest
    /// keep their values.
    pub fn load(&mut self, bytes: &[u8])
        requires
            old(self).wf(),
            bytes@.len() <= GENERAL_REGISTER_COUNT,
        ensures
            final(self).wf(),
            forall|j: int| 0 <= j < bytes@.len() ==> final(self)@[j] == bytes@[j],
            forall|j: int| bytes@.len() <= j < GENERAL_REGISTER_COUNT ==> final(self)@[j] == old(self)@[j],
            final(self).index == old(self).index,
            final(self).program_counter == old(self).program_counter,
    {
        let mut i: usize = 0;
        while i < bytes.len()
            invariant
                self.wf(),
                bytes@.len() <= GENERAL_REGISTER_COUNT,
                i <= bytes@.len(),
                forall|j: int| 0 <= j < i ==> self@[j] == bytes@[j],
                forall|j: int| i <= j < GENERAL_REGISTER_COUNT ==> self@[j] == old(self)@[j],
                self.index == old(self).index,
                self.program_counter == old(self).program_counter,
            decreases bytes@.len() - i,
        {
            self.general[i] = bytes[i];
            i += 1;
        }
    }
}

} // verus!
