//! Instruction decoding: a pure, total classification of 16-bit words.

use vstd::prelude::*;
use crate::registers::Register;
use crate::word::Word;
use crate::word::addr_of;
use crate::word::low_byte;
use crate::word::nib_c;
use crate::word::nib_n;
use crate::word::nib_x;
use crate::word::nib_y;
use crate::word::word_at;

verus! {

/// A decoded instruction. Dispatch is two-level: the top nibble selects a
/// family; families 0x0, 0x8, 0xE and 0xF dispatch further on the low
/// nibble or byte. Any word matching no known operation decodes to
/// `Unimplemented` carrying the raw opcode — a soft anomaly, not a fault.
#[derive(Copy, Clone, Debug, PartialEq, Eq, Structural)]
pub enum Instruction {
    /// This word names no known operation; the engine skips it.
    Unimplemented { opcode: u16 },
    /// End of program execution.
    EndProgram,
    /// Clear the screen.
    ClearScreen,
    /// Return from a subroutine.
    ReturnSubroutine,
    /// Jump to address `NNN`.
    Goto { address: u16 },
    /// Execute the subroutine starting at address `NNN`.
    CallSubroutine { address: u16 },
    /// Skip the following instruction if `VX` equals `NN`.
    SkipIfValueEq { register: Register, value: u8 },
    /// Skip the following instruction if `VX` differs from `NN`.
    SkipIfValueNe { register: Register, value: u8 },
    /// Skip the following instruction if `VX` equals `VY`.
    SkipIfRegistersEq { register_x: Register, register_y: Register },
    /// Store `NN` in `VX`.
    RegisterValueStore { register: Register, value: u8 },
    /// Add `NN` to `VX`, wrapping, without touching the flag.
    RegisterValueAdd { register: Register, value: u8 },
    /// Store the value of `VY` in `VX`.
    RegistersCopy { register_to: Register, register_from: Register },
    /// Set `VX` to `VX` OR `VY`.
    RegistersOrEq { register_to: Register, register_from: Register },
    /// Set `VX` to `VX` AND `VY`.
    RegistersAndEq { register_to: Register, register_from: Register },
    /// Set `VX` to `VX` XOR `VY`.
    RegistersXorEq { register_to: Register, register_from: Register },
    /// Add `VY` to `VX`; the flag takes the carry.
    RegistersAdd { register_to: Register, register_from: Register },
    /// Subtract `VY` from `VX`; the flag is 1 when no borrow occurred.
    RegistersSub { register_to: Register, register_from: Register },
    /// Shift right one bit into `VX`; the flag takes the shifted-out bit.
    RegistersShiftRightEq { register_to: Register, register_from: Register },
    /// Set `VX` to `VY` minus `VX`; the flag is 1 when no borrow occurred.
    RegistersSubReversed { register_to: Register, register_from: Register },
    /// Shift left one bit into `VX`; the flag takes the shifted-out bit.
    RegistersShiftLeftEq { register_to: Register, register_from: Register },
    /// Skip the following instruction if `VX` differs from `VY`.
    SkipIfRegistersNe { register_x: Register, register_y: Register },
    /// Store address `NNN` in the index register.
    IStoreAddress { address: u16 },
    /// Jump to address `NNN` plus `V0`.
    GotoOffsetted { address: u16 },
    /// Set `VX` to a random number masked with `NN`.
    RegisterStoreRandom { register: Register, mask: u8 },
    /// Draw an `N`-row sprite from the index register at `(VX, VY)`; the
    /// flag reports a collision.
    DrawSprite { register_x: Register, register_y: Register, sprite_height: u8 },
    /// Skip the following instruction if the key numbered by `VX` is pressed.
    SkipIfKeyOn { register: Register },
    /// Skip the following instruction if the key numbered by `VX` is not
    /// pressed.
    SkipIfKeyOff { register: Register },
    /// Store the delay timer in `VX`.
    DelayTimerToRegister { register: Register },
    /// Busy-wait for a keypress and store the key in `VX`.
    WaitForAnyKey { register: Register },
    /// Set the delay timer to `VX`.
    RegisterToDelayTimer { register: Register },
    /// Set the sound timer to `VX`.
    RegisterToSoundTimer { register: Register },
    /// Add `VX` to the index register.
    IAddOffset { register: Register },
    /// Point the index register at the glyph for the digit in `VX`.
    IStoreDigitAddress { register: Register },
    /// Store the three decimal digits of `VX` at the index register.
    HexToDecimal { register: Register },
    /// Dump registers `V0` to `VX` to memory at the index register.
    RegistersDump { max_register: Register },
    /// Load registers `V0` to `VX` from memory at the index register.
    RegistersLoad { max_register: Register },
}

/// The instruction a 16-bit word decodes to. Decoding is a total pure
/// function: every word maps to exactly one instruction, with the
/// `Unimplemented` fallback in place of any decode fault.
pub open spec fn decode_word(w: u16) -> Instruction {
    let x = Register(nib_x(w) as usize);
    let y = Register(nib_y(w) as usize);
    let c = nib_c(w);
    if c == 0x0 {
        if addr_of(w) == 0x000 {
            Instruction::EndProgram
        } else if addr_of(w) == 0x0E0 {
            Instruction::ClearScreen
        } else if addr_of(w) == 0x0EE {
            Instruction::ReturnSubroutine
        } else {
            Instruction::Unimplemented { opcode: w }
        }
    } else if c == 0x1 {
        Instruction::Goto { address: addr_of(w) }
    } else if c == 0x2 {
        Instruction::CallSubroutine { address: addr_of(w) }
    } else if c == 0x3 {
        Instruction::SkipIfValueEq { register: x, value: low_byte(w) }
    } else if c == 0x4 {
        Instruction::SkipIfValueNe { register: x, value: low_byte(w) }
    } else if c == 0x5 {
        Instruction::SkipIfRegistersEq { register_x: x, register_y: y }
    } else if c == 0x6 {
        Instruction::RegisterValueStore { register: x, value: low_byte(w) }
    } else if c == 0x7 {
        Instruction::RegisterValueAdd { register: x, value: low_byte(w) }
    } else if c == 0x8 {
        if nib_n(w) == 0x0 {
            Instruction::RegistersCopy { register_to: x, register_from: y }
        } else if nib_n(w) == 0x1 {
            Instruction::RegistersOrEq { register_to: x, register_from: y }
        } else if nib_n(w) == 0x2 {
            Instruction::RegistersAndEq { register_to: x, register_from: y }
        } else if nib_n(w) == 0x3 {
            Instruction::RegistersXorEq { register_to: x, register_from: y }
        } else if nib_n(w) == 0x4 {
            Instruction::RegistersAdd { register_to: x, register_from: y }
        } else if nib_n(w) == 0x5 {
            Instruction::RegistersSub { register_to: x, register_from: y }
        } else if nib_n(w) == 0x6 {
            Instruction::RegistersShiftRightEq { register_to: x, register_from: y }
        } else if nib_n(w) == 0x7 {
            Instruction::RegistersSubReversed { register_to: x, register_from: y }
        } else if nib_n(w) == 0xE {
            Instruction::RegistersShiftLeftEq { register_to: x, register_from: y }
        } else {
            Instruction::Unimplemented { opcode: w }
        }
    } else if c == 0x9 {
        Instruction::SkipIfRegistersNe { register_x: x, register_y: y }
    } else if c == 0xA {
        Instruction::IStoreAddress { address: addr_of(w) }
    } else if c == 0xB {
        Instruction::GotoOffsetted { address: addr_of(w) }
    } else if c == 0xC {
        Instruction::RegisterStoreRandom { register: x, mask: low_byte(w) }
    } else if c == 0xD {
        Instruction::DrawSprite { register_x: x, register_y: y, sprite_height: nib_n(w) }
    } else if c == 0xE {
        if low_byte(w) == 0x9E {
            Instruction::SkipIfKeyOn { register: x }
        } else if low_byte(w) == 0xA1 {
            Instruction::SkipIfKeyOff { register: x }
        } else {
            Instruction::Unimplemented { opcode: w }
        }
    } else {
        if low_byte(w) == 0x07 {
            Instruction::DelayTimerToRegister { register: x }
        } else if low_byte(w) == 0x0A {
            Instruction::WaitForAnyKey { register: x }
        } else if low_byte(w) == 0x15 {
            Instruction::RegisterToDelayTimer { register: x }
        } else if low_byte(w) == 0x18 {
            Instruction::RegisterToSoundTimer { register: x }
        } else if low_byte(w) == 0x1E {
            Instruction::IAddOffset { register: x }
        } else if low_byte(w) == 0x29 {
            Instruction::IStoreDigitAddress { register: x }
        } else if low_byte(w) == 0x33 {
            Instruction::HexToDecimal { register: x }
        } else if low_byte(w) == 0x55 {
            Instruction::RegistersDump { max_register: x }
        } else if low_byte(w) == 0x65 {
            Instruction::RegistersLoad { max_register: x }
        } else {
            Instruction::Unimplemented { opcode: w }
        }
    }
}

/// The instruction decoded from the big-endian word at byte offset `pc`.
pub open spec fn decode_at(mem: Seq<u8>, pc: int) -> Instruction {
    decode_word(word_at(mem, pc))
}

/// Every register operand a decode produces is a valid register number,
/// every address fits in 12 bits, and every sprite height in 4.
pub open spec fn instr_wf(i: Instruction) -> bool {
    match i {
        Instruction::Goto { address } => address < 0x1000,
        Instruction::CallSubroutine { address } => address < 0x1000,
        Instruction::SkipIfValueEq { register, .. } => register.0 < 16,
        Instruction::SkipIfValueNe { register, .. } => register.0 < 16,
        Instruction::SkipIfRegistersEq { register_x, register_y } => register_x.0 < 16
            && register_y.0 < 16,
        Instruction::RegisterValueStore { register, .. } => register.0 < 16,
        Instruction::RegisterValueAdd { register, .. } => register.0 < 16,
        Instruction::RegistersCopy { register_to, register_from } => register_to.0 < 16
            && register_from.0 < 16,
        Instruction::RegistersOrEq { register_to, register_from } => register_to.0 < 16
            && register_from.0 < 16,
        Instruction::RegistersAndEq { register_to, register_from } => register_to.0 < 16
            && register_from.0 < 16,
        Instruction::RegistersXorEq { register_to, register_from } => register_to.0 < 16
            && register_from.0 < 16,
        Instruction::RegistersAdd { register_to, register_from } => register_to.0 < 16
            && register_from.0 < 16,
        Instruction::RegistersSub { register_to, register_from } => register_to.0 < 16
            && register_from.0 < 16,
        Instruction::RegistersShiftRightEq { register_to, register_from } => register_to.0 < 16
            && register_from.0 < 16,
        Instruction::RegistersSubReversed { register_to, register_from } => register_to.0 < 16
            && register_from.0 < 16,
        Instruction::RegistersShiftLeftEq { register_to, register_from } => register_to.0 < 16
            && register_from.0 < 16,
        Instruction::SkipIfRegistersNe { register_x, register_y } => register_x.0 < 16
            && register_y.0 < 16,
        Instruction::IStoreAddress { address } => address < 0x1000,
        Instruction::GotoOffsetted { address } => address < 0x1000,
        Instruction::RegisterStoreRandom { register, .. } => register.0 < 16,
        Instruction::DrawSprite { register_x, register_y, sprite_height } => register_x.0 < 16
            && register_y.0 < 16 && sprite_height < 16,
        Instruction::SkipIfKeyOn { register } => register.0 < 16,
        Instruction::SkipIfKeyOff { register } => register.0 < 16,
        Instruction::DelayTimerToRegister { register } => register.0 < 16,
        Instruction::WaitForAnyKey { register } => register.0 < 16,
        Instruction::RegisterToDelayTimer { register } => register.0 < 16,
        Instruction::RegisterToSoundTimer { register } => register.0 < 16,
        Instruction::IAddOffset { register } => register.0 < 16,
        Instruction::IStoreDigitAddress { register } => register.0 < 16,
        Instruction::HexToDecimal { register } => register.0 < 16,
        Instruction::RegistersDump { max_register } => max_register.0 < 16,
        Instruction::RegistersLoad { max_register } => max_register.0 < 16,
        _ => true,
    }
}

/// Decoding is total and never yields an out-of-range operand: whatever the
/// word, each produced register number, address and height is in range.
pub proof fn lemma_decode_wf(w: u16)
    ensures
        instr_wf(decode_word(w)),
{
}

impl Instruction {
    /// Decodes the word at byte offset `pc`, a pure function of the memory
    /// contents and the offset; the caller must leave two bytes of room.
    pub fn new(memory: &[u8], pc: usize) -> (r: Self)
        requires
            pc + 1 < memory.len(),
        ensures
            r == decode_at(memory@, pc as int),
            instr_wf(r),
    {
        proof {
            lemma_decode_wf(word_at(memory@, pc as int));
        }
        let word = Word::new(memory, pc);
        match word.c() {
            0x0 => match word.nnn() {
                0x000 => Instruction::EndProgram,
                0x0E0 => Instruction::ClearScreen,
                0x0EE => Instruction::ReturnSubroutine,
                _ => Instruction::Unimplemented { opcode: word.0 },
            },
            0x1 => Instruction::Goto { address: word.nnn() },
            0x2 => Instruction::CallSubroutine { address: word.nnn() },
            0x3 => Instruction::SkipIfValueEq { register: word.x(), value: word.nn() },
            0x4 => Instruction::SkipIfValueNe { register: word.x(), value: word.nn() },
            0x5 => Instruction::SkipIfRegistersEq { register_x: word.x(), register_y: word.y() },
            0x6 => Instruction::RegisterValueStore { register: word.x(), value: word.nn() },
            0x7 => Instruction::RegisterValueAdd { register: word.x(), value: word.nn() },
            0x8 => {
                let register_to: Register = word.x();
                let register_from: Register = word.y();
                match word.n() {
                    0x0 => Instruction::RegistersCopy { register_to, register_from },
                    0x1 => Instruction::RegistersOrEq { register_to, register_from },
                    0x2 => Instruction::RegistersAndEq { register_to, register_from },
                    0x3 => Instruction::RegistersXorEq { register_to, register_from },
                    0x4 => Instruction::RegistersAdd { register_to, register_from },
                    0x5 => Instruction::RegistersSub { register_to, register_from },
                    0x6 => Instruction::RegistersShiftRightEq { register_to, register_from },
                    0x7 => Instruction::RegistersSubReversed { register_to, register_from },
                    0xE => Instruction::RegistersShiftLeftEq { register_to, register_from },
                    _ => Instruction::Unimplemented { opcode: word.0 },
                }
            },
            0x9 => Instruction::SkipIfRegistersNe { register_x: word.x(), register_y: word.y() },
            0xA => Instruction::IStoreAddress { address: word.nnn() },
            0xB => Instruction::GotoOffsetted { address: word.nnn() },
            0xC => Instruction::RegisterStoreRandom { register: word.x(), mask: word.nn() },
            0xD => Instruction::DrawSprite {
                register_x: word.x(),
                register_y: word.y(),
                sprite_height: word.n(),
            },
            0xE => match word.nn() {
                0x9E => Instruction::SkipIfKeyOn { register: word.x() },
                0xA1 => Instruction::SkipIfKeyOff { register: word.x() },
                _ => Instruction::Unimplemented { opcode: word.0 },
            },
            0xF => {
                let register = word.x();
                match word.nn() {
                    0x07 => Instruction::DelayTimerToRegister { register },
                    0x0A => Instruction::WaitForAnyKey { register },
                    0x15 => Instruction::RegisterToDelayTimer { register },
                    0x18 => Instruction::RegisterToSoundTimer { register },
                    0x1E => Instruction::IAddOffset { register },
                    0x29 => Instruction::IStoreDigitAddress { register },
                    0x33 => Instruction::HexToDecimal { register },
                    0x55 => Instruction::RegistersDump { max_register: register },
                    0x65 => Instruction::RegistersLoad { max_register: register },
                    _ => Instruction::Unimplemented { opcode: word.0 },
                }
            },
            _ => {
                // the family selector is a nibble, so this arm is provably
                // unreachable
                proof {
                    assert(false);
                }
                Instruction::Unimplemented { opcode: word.0 }
            },
        }
    }
}

} // verus!
