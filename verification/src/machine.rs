//! The execution engine: one fetch-decode-execute-tick cycle per call.

use vstd::prelude::*;
use crate::display::BUFFER_SIZE;
use crate::display::Display;
use crate::display::draw_bits;
use crate::display::draw_collision;
use crate::display::frame_of;
use crate::heap::Heap;
use crate::heap::MEMORY_SIZE;
use crate::heap::OFFSET_DATA;
use crate::heap::OFFSET_FONT;
use crate::heap::bcd_seq;
use crate::heap::init_mem;
use crate::heap::write_seq;
use crate::instruction::Instruction;
use crate::instruction::decode_at;
use crate::quirks::Quirks;
use crate::registers::FLAG_REGISTER_IDX;
use crate::registers::Register;
use crate::registers::GENERAL_REGISTER_COUNT;
use crate::registers::Registers;
use crate::registers::add_spec;
use crate::registers::shl_spec;
use crate::registers::shr_spec;
use crate::registers::sub_rev_spec;
use crate::registers::sub_spec;
use crate::stack::MAX_ELEMENTS;
use crate::stack::Stack;
use crate::timers::Timers;
use crate::timers::timer_tick_spec;

verus! {

/// An unrecoverable fault: a corrupted invariant or a program violating
/// the architecture's hard limits. The engine reports it instead of
/// mutating anything; the host decides how to abort.
#[derive(Copy, Clone, Debug, PartialEq, Eq, Structural)]
pub enum Fault {
    /// The program counter leaves no room to fetch a two-byte word.
    OutOfBoundsFetch,
    /// A subroutine call found all 16 stack slots in use.
    StackOverflow,
    /// A subroutine return found the stack empty.
    StackUnderflow,
    /// A memory access reached past the end of the 4096 bytes.
    OutOfBoundsMemory,
    /// The 16-bit index register was pushed past its range.
    IndexOverflow,
}

/// The whole machine state as one mathematical value.
#[verifier::ext_equal]
pub struct MachineView {
    pub mem: Seq<u8>,
    pub stack: Seq<usize>,
    pub general: Seq<u8>,
    pub index: u16,
    pub pc: usize,
    pub delay: u8,
    pub sound: u8,
    pub until_tick: u8,
    pub pixels: Seq<bool>,
    pub is_lazy_shift: bool,
    pub is_static_dump_index: bool,
}

/// Structural soundness of a machine state: fixed memory, register and
/// framebuffer sizes, a stack within capacity whose return addresses all
/// leave room for a fetch.
pub open spec fn wf_view(m: MachineView) -> bool {
    &&& m.mem.len() == MEMORY_SIZE
    &&& m.general.len() == GENERAL_REGISTER_COUNT
    &&& m.pixels.len() == BUFFER_SIZE
    &&& m.stack.len() <= MAX_ELEMENTS
    &&& forall|i: int| 0 <= i < m.stack.len() ==> #[trigger] m.stack[i] + 1 < MEMORY_SIZE
}

/// The smallest key code in a non-empty prefix of `keys`.
pub open spec fn key_min_upto(keys: Seq<u8>, n: int) -> u8
    decreases n,
{
    if n <= 1 {
        keys[0]
    } else {
        let p = key_min_upto(keys, n - 1);
        if keys[n - 1] < p {
            keys[n - 1]
        } else {
            p
        }
    }
}

/// The smallest key code in a non-empty set of pressed keys.
pub open spec fn key_min(keys: Seq<u8>) -> u8 {
    key_min_upto(keys, keys.len() as int)
}

/// `key_min` really is the minimum: it is one of the pressed keys and no
/// pressed key is smaller.
pub proof fn lemma_key_min(keys: Seq<u8>)
    requires
        keys.len() > 0,
    ensures
        keys.contains(key_min(keys)),
        forall|i: int| 0 <= i < keys.len() ==> key_min(keys) <= #[trigger] keys[i],
{
    lemma_key_min_upto(keys, keys.len() as int);
}

proof fn lemma_key_min_upto(keys: Seq<u8>, n: int)
    requires
        1 <= n <= keys.len(),
    ensures
        exists|i: int| 0 <= i < n && keys[i] == key_min_upto(keys, n),
        forall|i: int| 0 <= i < n ==> key_min_upto(keys, n) <= #[trigger] keys[i],
    decreases n,
{
    if n == 1 {
        assert(keys[0] == key_min_upto(keys, n));
    } else {
        lemma_key_min_upto(keys, n - 1);
        let p = key_min_upto(keys, n - 1);
        if keys[n - 1] < p {
            assert(keys[n - 1] == key_min_upto(keys, n));
        } else {
            let i = choose|i: int| 0 <= i < n - 1 && keys[i] == key_min_upto(keys, n - 1);
            assert(keys[i] == key_min_upto(keys, n));
        }
    }
}

/// The direct effect of one decoded instruction: the machine after the
/// instruction's own mutations (timers not yet advanced, program counter
/// field untouched), the candidate next program counter, and whether the
/// step pauses. Meaningful only when `step_fault` reports no fault.
/// `rand` stands for the byte the random source produced this step.
pub open spec fn instr_effect(
    m: MachineView,
    instr: Instruction,
    keys: Seq<u8>,
    rand: u8,
) -> (MachineView, usize, bool) {
    let pc = m.pc;
    match instr {
        Instruction::Unimplemented { .. } => (m, pc, false),
        Instruction::EndProgram => (m, pc, true),
        Instruction::ClearScreen => (
            MachineView { pixels: Seq::new(BUFFER_SIZE as nat, |i: int| false), ..m },
            pc,
            false,
        ),
        Instruction::ReturnSubroutine => (
            MachineView { stack: m.stack.drop_last(), ..m },
            (m.stack.last() + 2) as usize,
            false,
        ),
        Instruction::Goto { address } => if pc == address {
            (m, pc, true)
        } else {
            (m, address as usize, false)
        },
        Instruction::CallSubroutine { address } => (
            MachineView { stack: m.stack.push(pc), ..m },
            address as usize,
            false,
        ),
        Instruction::SkipIfValueEq { register, value } => (
            m,
            if m.general[register.0 as int] == value {
                (pc + 4) as usize
            } else {
                pc
            },
            false,
        ),
        Instruction::SkipIfValueNe { register, value } => (
            m,
            if m.general[register.0 as int] != value {
                (pc + 4) as usize
            } else {
                pc
            },
            false,
        ),
        Instruction::SkipIfRegistersEq { register_x, register_y } => (
            m,
            if m.general[register_x.0 as int] == m.general[register_y.0 as int] {
                (pc + 4) as usize
            } else {
                pc
            },
            false,
        ),
        Instruction::RegisterValueStore { register, value } => (
            MachineView { general: m.general.update(register.0 as int, value), ..m },
            pc,
            false,
        ),
        Instruction::RegisterValueAdd { register, value } => (
            MachineView {
                general: m.general.update(
                    register.0 as int,
                    ((m.general[register.0 as int] + value) % 256) as u8,
                ),
                ..m
            },
            pc,
            false,
        ),
        Instruction::RegistersCopy { register_to, register_from } => (
            MachineView {
                general: m.general.update(register_to.0 as int, m.general[register_from.0 as int]),
                ..m
            },
            pc,
            false,
        ),
        Instruction::RegistersOrEq { register_to, register_from } => (
            MachineView {
                general: m.general.update(
                    register_to.0 as int,
                    m.general[register_to.0 as int] | m.general[register_from.0 as int],
                ),
                ..m
            },
            pc,
            false,
        ),
        Instruction::RegistersAndEq { register_to, register_from } => (
            MachineView {
                general: m.general.update(
                    register_to.0 as int,
                    m.general[register_to.0 as int] & m.general[register_from.0 as int],
                ),
                ..m
            },
            pc,
            false,
        ),
        Instruction::RegistersXorEq { register_to, register_from } => (
            MachineView {
                general: m.general.update(
                    register_to.0 as int,
                    m.general[register_to.0 as int] ^ m.general[register_from.0 as int],
                ),
                ..m
            },
            pc,
            false,
        ),
        Instruction::RegistersAdd { register_to, register_from } => (
            MachineView {
                general: add_spec(m.general, register_to.0 as int, register_from.0 as int),
                ..m
            },
            pc,
            false,
        ),
        Instruction::RegistersSub { register_to, register_from } => (
            MachineView {
                general: sub_spec(m.general, register_to.0 as int, register_from.0 as int),
                ..m
            },
            pc,
            false,
        ),
        Instruction::RegistersShiftRightEq { register_to, register_from } => (
            MachineView {
                general: shr_spec(
                    m.general,
                    register_to.0 as int,
                    register_from.0 as int,
                    m.is_lazy_shift,
                ),
                ..m
            },
            pc,
            false,
        ),
        Instruction::RegistersSubReversed { register_to, register_from } => (
            MachineView {
                general: sub_rev_spec(m.general, register_to.0 as int, register_from.0 as int),
                ..m
            },
            pc,
            false,
        ),
        Instruction::RegistersShiftLeftEq { register_to, register_from } => (
            MachineView {
                general: shl_spec(
                    m.general,
                    register_to.0 as int,
                    register_from.0 as int,
                    m.is_lazy_shift,
                ),
                ..m
            },
            pc,
            false,
        ),
        Instruction::SkipIfRegistersNe { register_x, register_y } => (
            m,
            if m.general[register_x.0 as int] != m.general[register_y.0 as int] {
                (pc + 4) as usize
            } else {
                pc
            },
            false,
        ),
        Instruction::IStoreAddress { address } => (
            MachineView { index: address as u16, ..m },
            pc,
            false,
        ),
        Instruction::GotoOffsetted { address } => {
            let adjusted = address + m.general[0];
            if pc == adjusted {
                (m, pc, true)
            } else {
                (m, adjusted as usize, false)
            }
        },
        Instruction::RegisterStoreRandom { register, mask } => (
            MachineView { general: m.general.update(register.0 as int, rand & mask), ..m },
            pc,
            false,
        ),
        Instruction::DrawSprite { register_x, register_y, sprite_height } => {
            let sprite = m.mem.subrange(m.index as int, m.index + sprite_height);
            let x = m.general[register_x.0 as int] as int;
            let y = m.general[register_y.0 as int] as int;
            let collision = draw_collision(m.pixels, x, y, sprite);
            (
                MachineView {
                    pixels: draw_bits(m.pixels, x, y, sprite),
                    general: m.general.update(
                        FLAG_REGISTER_IDX as int,
                        if collision {
                            1u8
                        } else {
                            0u8
                        },
                    ),
                    ..m
                },
                pc,
                false,
            )
        },
        Instruction::SkipIfKeyOn { register } => (
            m,
            if keys.contains(m.general[register.0 as int]) {
                (pc + 4) as usize
            } else {
                pc
            },
            false,
        ),
        Instruction::SkipIfKeyOff { register } => (
            m,
            if !keys.contains(m.general[register.0 as int]) {
                (pc + 4) as usize
            } else {
                pc
            },
            false,
        ),
        Instruction::DelayTimerToRegister { register } => (
            MachineView { general: m.general.update(register.0 as int, m.delay), ..m },
            pc,
            false,
        ),
        Instruction::WaitForAnyKey { register } => if keys.len() == 0 {
            (m, pc, true)
        } else {
            (
                MachineView { general: m.general.update(register.0 as int, key_min(keys)), ..m },
                pc,
                false,
            )
        },
        Instruction::RegisterToDelayTimer { register } => (
            MachineView { delay: m.general[register.0 as int], ..m },
            pc,
            false,
        ),
        Instruction::RegisterToSoundTimer { register } => (
            MachineView { sound: m.general[register.0 as int], ..m },
            pc,
            false,
        ),
        Instruction::IAddOffset { register } => (
            MachineView { index: (m.index + m.general[register.0 as int]) as u16, ..m },
            pc,
            false,
        ),
        Instruction::IStoreDigitAddress { register } => (
            MachineView { index: (OFFSET_FONT + m.general[register.0 as int] * 5) as u16, ..m },
            pc,
            false,
        ),
        Instruction::HexToDecimal { register } => (
            MachineView {
                mem: write_seq(m.mem, m.index as int, bcd_seq(m.general[register.0 as int])),
                ..m
            },
            pc,
            false,
        ),
        Instruction::RegistersDump { max_register } => (
            MachineView {
                mem: write_seq(
                    m.mem,
                    m.index as int,
                    m.general.subrange(0, max_register.0 + 1),
                ),
                index: if m.is_static_dump_index {
                    m.index
                } else {
                    (m.index + max_register.0 + 1) as u16
                },
                ..m
            },
            pc,
            false,
        ),
        Instruction::RegistersLoad { max_register } => (
            MachineView {
                general: Seq::new(
                    GENERAL_REGISTER_COUNT as nat,
                    |j: int|
                        if j <= max_register.0 {
                            m.mem[m.index + j]
                        } else {
                            m.general[j]
                        },
                ),
                index: if m.is_static_dump_index {
                    m.index
                } else {
                    (m.index + max_register.0 + 1) as u16
                },
                ..m
            },
            pc,
            false,
        ),
    }
}

/// The fatal fault one step from `m` would hit, if any: no room to fetch,
/// stack overflow or underflow, a memory access past the end, or the index
/// register pushed past 16 bits. `None` means the step completes.
pub open spec fn step_fault(m: MachineView, keys: Seq<u8>) -> Option<Fault> {
    if m.pc + 1 >= MEMORY_SIZE {
        Some(Fault::OutOfBoundsFetch)
    } else {
        match decode_at(m.mem, m.pc as int) {
            Instruction::ReturnSubroutine => if m.stack.len() == 0 {
                Some(Fault::StackUnderflow)
            } else {
                None
            },
            Instruction::CallSubroutine { .. } => if m.stack.len() >= MAX_ELEMENTS {
                Some(Fault::StackOverflow)
            } else {
                None
            },
            Instruction::DrawSprite { sprite_height, .. } => if m.index + sprite_height
                > MEMORY_SIZE {
                Some(Fault::OutOfBoundsMemory)
            } else {
                None
            },
            Instruction::IAddOffset { register } => if m.index + m.general[register.0 as int]
                > 0xFFFF {
                Some(Fault::IndexOverflow)
            } else {
                None
            },
            Instruction::HexToDecimal { .. } => if m.index + 3 > MEMORY_SIZE {
                Some(Fault::OutOfBoundsMemory)
            } else {
                None
            },
            Instruction::RegistersDump { max_register } => if m.index + max_register.0 + 1
                > MEMORY_SIZE {
                Some(Fault::OutOfBoundsMemory)
            } else {
                None
            },
            Instruction::RegistersLoad { max_register } => if m.index + max_register.0 + 1
                > MEMORY_SIZE {
                Some(Fault::OutOfBoundsMemory)
            } else {
                None
            },
            _ => None,
        }
    }
}

/// The machine after one fault-free step with random byte `rand`: the
/// decoded instruction's effect, then one timer tick, then the program
/// counter update — advance by one word unless the instruction already
/// moved it or the step paused.
pub open spec fn step_ok(m: MachineView, keys: Seq<u8>, rand: u8) -> MachineView {
    let instr = decode_at(m.mem, m.pc as int);
    let e = instr_effect(m, instr, keys, rand);
    let m1 = e.0;
    let pc1 = e.1;
    let pause = e.2;
    let t = timer_tick_spec(m1.delay, m1.sound, m1.until_tick);
    let pc2 = if !pause && pc1 == m.pc {
        (pc1 + 2) as usize
    } else {
        pc1
    };
    MachineView { delay: t.0, sound: t.1, until_tick: t.2, pc: pc2, ..m1 }
}

/// Relies on `fastrand::u8` over the full range, which never panics; the
/// byte it returns is random, so nothing is promised of it.
#[verifier::external_body]
fn random_byte() -> u8 {
    fastrand::u8(..)
}

/// The virtual machine: memory, call stack, register file, timers,
/// framebuffer and quirks, created together from a program image and
/// mutated only by `tick`.
pub struct Machine {
    pub heap: Heap,
    pub stack: Stack,
    pub registers: Registers,
    pub timers: Timers,
    pub display: Display,
    pub quirks: Quirks,
}

impl Machine {
    pub open spec fn view(&self) -> MachineView {
        MachineView {
            mem: self.heap@,
            stack: self.stack@,
            general: self.registers@,
            index: self.registers.index,
            pc: self.registers.program_counter,
            delay: self.timers.delay,
            sound: self.timers.sound,
            until_tick: self.timers.until_tick(),
            pixels: self.display@,
            is_lazy_shift: self.quirks.is_lazy_shift,
            is_static_dump_index: self.quirks.is_static_dump_index,
        }
    }

    pub open spec fn wf(&self) -> bool {
        wf_view(self@)
    }

    /// A fresh machine: the program copied into memory at its base offset,
    /// everything else zeroed, the program counter at that offset.
    pub fn new(program_bytes: Vec<u8>, quirks: Quirks) -> (r: Self)
        requires
            program_bytes@.len() <= MEMORY_SIZE - OFFSET_DATA,
        ensures
            r.wf(),
            r@.mem == init_mem(program_bytes@),
            r@.stack == Seq::<usize>::empty(),
            forall|i: int| 0 <= i < GENERAL_REGISTER_COUNT ==> r@.general[i] == 0u8,
            r@.index == 0,
            r@.pc == OFFSET_DATA,
            r@.delay == 0,
            r@.sound == 0,
            r@.until_tick == 0,
            forall|i: int| 0 <= i < BUFFER_SIZE ==> !r@.pixels[i],
            r@.is_lazy_shift == quirks.is_lazy_shift,
            r@.is_static_dump_index == quirks.is_static_dump_index,
    {
        Machine {
            heap: Heap::new(program_bytes),
            stack: Stack::new(),
            registers: Registers::new(),
            timers: Timers::new(),
            display: Display::new(),
            quirks,
        }
    }

    /// Renders the framebuffer into a 4-bytes-per-pixel color buffer.
    pub fn draw(&self, frame: &mut Vec<u8>)
        requires
            self.wf(),
            old(frame)@.len() == 4 * BUFFER_SIZE,
        ensures
            final(frame)@ == frame_of(self@.pixels),
    {
        self.display.draw(frame);
    }

    /// One fetch-decode-execute-tick cycle. `keys_pressed` is the set of
    /// currently pressed key codes; order is irrelevant and duplicates are
    /// ignored. On a fatal fault nothing changes and the fault is
    /// reported; otherwise the machine advances exactly as `step_ok`
    /// describes, for the byte the random source produced.
    #[verifier::rlimit(100)]
    pub fn tick(&mut self, keys_pressed: Vec<u8>) -> (r: Result<(), Fault>)
        requires
            old(self).wf(),
        ensures
            final(self).wf(),
            match r {
                Ok(()) => step_fault(old(self)@, keys_pressed@) is None && exists|b: u8|
                    final(self)@ == #[trigger] step_ok(old(self)@, keys_pressed@, b),
                Err(f) => step_fault(old(self)@, keys_pressed@) == Some(f) && final(self)@ == old(
                    self,
                )@,
            },
    {
        let pc = self.registers.program_counter;
        if pc >= MEMORY_SIZE - 1 {
            return Err(Fault::OutOfBoundsFetch);
        }
        let instruction = Instruction::new(self.heap.get_all_bytes(), pc);
        let ghost m0 = self@;
        let mut new_pc = pc;
        let mut pause = false;
        let ghost mut rb: u8 = 0u8;

        match instruction {
            Instruction::Unimplemented { .. } => {
                // a soft anomaly: the step is a no-op aside from the timer
                // decay and counter advance
            },
            Instruction::EndProgram => {
                pause = true;
            },
            Instruction::ClearScreen => {
                self.display.clear();
                proof {
                    assert(self@.pixels =~= Seq::new(BUFFER_SIZE as nat, |i: int| false));
                }
            },
            Instruction::ReturnSubroutine => {
                if self.stack.len() == 0 {
                    return Err(Fault::StackUnderflow);
                }
                new_pc = self.stack.pop() + 2;
            },
            Instruction::Goto { address } => {
                if pc == address as usize {
                    pause = true;
                } else {
                    new_pc = address as usize;
                }
            },
            Instruction::CallSubroutine { address } => {
                if self.stack.len() >= MAX_ELEMENTS {
                    return Err(Fault::StackOverflow);
                }
                self.stack.push(pc);
                new_pc = address as usize;
            },
            Instruction::SkipIfValueEq { register, value } => {
                if self.registers.get_value(register) == value {
                    new_pc = pc + 4;
                }
            },
            Instruction::SkipIfValueNe { register, value } => {
                if self.registers.get_value(register) != value {
                    new_pc = pc + 4;
                }
            },
            Instruction::SkipIfRegistersEq { register_x, register_y } => {
                if self.registers.get_value(register_x) == self.registers.get_value(register_y) {
                    new_pc = pc + 4;
                }
            },
            Instruction::RegisterValueStore { register, value } => {
                self.registers.set_value(register, value);
            },
            Instruction::RegisterValueAdd { register, value } => {
                self.registers.add_value(register, value);
            },
            Instruction::RegistersCopy { register_to, register_from } => {
                self.registers.copy_registers(register_to, register_from);
            },
            Instruction::RegistersOrEq { register_to, register_from } => {
                self.registers.or_registers(register_to, register_from);
            },
            Instruction::RegistersAndEq { register_to, register_from } => {
                self.registers.and_registers(register_to, register_from);
            },
            Instruction::RegistersXorEq { register_to, register_from } => {
                self.registers.xor_registers(register_to, register_from);
            },
            Instruction::RegistersAdd { register_to, register_from } => {
                self.registers.add_registers(register_to, register_from);
            },
            Instruction::RegistersSub { register_to, register_from } => {
                self.registers.sub_registers(register_to, register_from);
            },
            Instruction::RegistersShiftRightEq { register_to, register_from } => {
                self.registers.shr_registers(register_to, register_from, self.quirks.is_lazy_shift);
            },
            Instruction::RegistersSubReversed { register_to, register_from } => {
                self.registers.sub_registers_reversed(register_to, register_from);
            },
            Instruction::RegistersShiftLeftEq { register_to, register_from } => {
                self.registers.shl_registers(register_to, register_from, self.quirks.is_lazy_shift);
            },
            Instruction::SkipIfRegistersNe { register_x, register_y } => {
                if self.registers.get_value(register_x) != self.registers.get_value(register_y) {
                    new_pc = pc + 4;
                }
            },
            Instruction::IStoreAddress { address } => {
                self.registers.index = address;
            },
            Instruction::GotoOffsetted { address } => {
                let offset = self.registers.get_value(Register::first()) as usize;
                let adjusted_address = address as usize + offset;
                if pc == adjusted_address {
                    pause = true;
                } else {
                    new_pc = adjusted_address;
                }
            },
            Instruction::RegisterStoreRandom { register, mask } => {
                let b = random_byte();
                proof {
                    rb = b;
                }
                self.registers.set_value(register, b & mask);
            },
            Instruction::DrawSprite { register_x, register_y, sprite_height } => {
                let index = self.registers.index as usize;
                if index + sprite_height as usize > MEMORY_SIZE {
                    return Err(Fault::OutOfBoundsMemory);
                }
                let sprite = self.heap.get_sprite(index, sprite_height);
                let x = self.registers.get_value(register_x) as usize;
                let y = self.registers.get_value(register_y) as usize;
                let is_collision = self.display.render_sprite(x, y, sprite.as_slice());
                self.registers.set_flag(is_collision);
            },
            Instruction::SkipIfKeyOn { register } => {
                if contains_key(&keys_pressed, self.registers.get_value(register)) {
                    new_pc = pc + 4;
                }
            },
            Instruction::SkipIfKeyOff { register } => {
                if !contains_key(&keys_pressed, self.registers.get_value(register)) {
                    new_pc = pc + 4;
                }
            },
            Instruction::DelayTimerToRegister { register } => {
                let d = self.timers.delay;
                self.registers.set_value(register, d);
            },
            Instruction::WaitForAnyKey { register } => {
                if keys_pressed.len() == 0 {
                    pause = true;
                } else {
                    let k = min_key(&keys_pressed);
                    self.registers.set_value(register, k);
                }
            },
            Instruction::RegisterToDelayTimer { register } => {
                self.timers.delay = self.registers.get_value(register);
            },
            Instruction::RegisterToSoundTimer { register } => {
                self.timers.sound = self.registers.get_value(register);
            },
            Instruction::IAddOffset { register } => {
                let v = self.registers.get_value(register);
                let sum: u32 = self.registers.index as u32 + v as u32;
                if sum > 0xFFFF {
                    return Err(Fault::IndexOverflow);
                }
                self.registers.index = sum as u16;
            },
            Instruction::IStoreDigitAddress { register } => {
                let digit = self.registers.get_value(register) as u16;
                self.registers.index = OFFSET_FONT as u16 + digit * 5;
            },
            Instruction::HexToDecimal { register } => {
                let index = self.registers.index as usize;
                if index + 3 > MEMORY_SIZE {
                    return Err(Fault::OutOfBoundsMemory);
                }
                let v = self.registers.get_value(register);
                self.heap.set_as_decimal(index, v);
            },
            Instruction::RegistersDump { max_register } => {
                let index = self.registers.index as usize;
                let count = max_register.idx() + 1;
                if index + count > MEMORY_SIZE {
                    return Err(Fault::OutOfBoundsMemory);
                }
                let values = self.registers.dump(max_register);
                self.heap.set_bytes(index, values.as_slice());
                if !self.quirks.is_static_dump_index {
                    self.registers.index = self.registers.index + count as u16;
                }
            },
            Instruction::RegistersLoad { max_register } => {
                let index = self.registers.index as usize;
                let count = max_register.idx() + 1;
                if index + count > MEMORY_SIZE {
                    return Err(Fault::OutOfBoundsMemory);
                }
                let bytes = self.heap.get_bytes(index, max_register.idx());
                self.registers.load(bytes.as_slice());
                if !self.quirks.is_static_dump_index {
                    self.registers.index = self.registers.index + count as u16;
                }
                proof {
                    let max = max_register.0 as int;
                    assert(bytes@.len() == max + 1);
                    assert forall|j: int| 0 <= j < GENERAL_REGISTER_COUNT implies self.registers@[j]
                        == (if j <= max {
                        m0.mem[m0.index + j]
                    } else {
                        m0.general[j]
                    }) by {
                        if j <= max {
                            assert(self.registers@[j] == bytes@[j]);
                            assert(bytes@[j] == m0.mem[m0.index + j]);
                        }
                    }
                    assert(self.registers@ =~= Seq::new(
                        GENERAL_REGISTER_COUNT as nat,
                        |j: int|
                            if j <= max_register.0 {
                                m0.mem[m0.index + j]
                            } else {
                                m0.general[j]
                            },
                    ));
                }
            },
        }
        let ghost mid = self@;
        proof {
            let eff = instr_effect(m0, instruction, keys_pressed@, rb);
            assert(mid =~= eff.0);
            assert(new_pc == eff.1);
            assert(pause == eff.2);
            assert(step_fault(m0, keys_pressed@) is None);
        }

        self.timers.tick();

        if !pause && new_pc == pc {
            // by default, advance the program counter by one word
            new_pc = pc + 2;
        }
        self.registers.program_counter = new_pc;

        proof {
            let eff = instr_effect(m0, instruction, keys_pressed@, rb);
            let t = timer_tick_spec(eff.0.delay, eff.0.sound, eff.0.until_tick);
            assert(self@ =~= (MachineView {
                delay: t.0,
                sound: t.1,
                until_tick: t.2,
                pc: self.registers.program_counter,
                ..eff.0
            }));
            assert(self@ =~= step_ok(m0, keys_pressed@, rb));
            assert(exists|b: u8| self@ == #[trigger] step_ok(m0, keys_pressed@, b));
        }
        Ok(())
    }
}

/// Whether `value` occurs in the pressed-key set.
fn contains_key(keys: &Vec<u8>, value: u8) -> (r: bool)
    ensures
        r == keys@.contains(value),
{
    let mut i: usize = 0;
    while i < keys.len()
        invariant
            i <= keys@.len(),
            forall|j: int| 0 <= j < i ==> keys@[j] != value,
        decreases keys@.len() - i,
    {
        if keys[i] == value {
            return true;
        }
        i += 1;
    }
    false
}

/// The smallest key code in a non-empty pressed-key set.
fn min_key(keys: &Vec<u8>) -> (r: u8)
    requires
        keys@.len() > 0,
    ensures
        r == key_min(keys@),
{
    let mut acc = keys[0];
    let mut i: usize = 1;
    while i < keys.len()
        invariant
            1 <= i <= keys@.len(),
            acc == key_min_upto(keys@, i as int),
        decreases keys@.len() - i,
    {
        let k = keys[i];
        if k < acc {
            acc = k;
        }
        i += 1;
    }
    acc
}

} // verus!
