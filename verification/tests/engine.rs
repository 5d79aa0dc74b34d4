//! Engine behavior: register arithmetic, shifts and quirks, sprite XOR and
//! clipping, stack discipline, timer decay, faults, and a whole program.

use chip8_engine::Machine;
use chip8_engine::Quirks;
use chip8_engine::display::Display;
use chip8_engine::heap::Heap;
use chip8_engine::machine::Fault;
use chip8_engine::registers::Register;
use chip8_engine::registers::Registers;
use chip8_engine::stack::Stack;
use chip8_engine::timers::Timers;

fn machine_of(words: &[u16], quirks_active: bool) -> Machine {
    let mut program: Vec<u8> = Vec::new();
    for w in words {
        program.push((w >> 8) as u8);
        program.push(*w as u8);
    }
    Machine::new(program, Quirks::from_flag(quirks_active))
}

fn tick_ok(m: &mut Machine) {
    let keys: Vec<u8> = Vec::new();
    m.tick(keys).expect("step faulted");
}

#[test]
fn test_add_carry_flag() {
    let mut r = Registers::new();
    r.set_value(Register::new(0), 200);
    r.set_value(Register::new(1), 100);
    r.add_registers(Register::new(0), Register::new(1));
    assert_eq!(r.get_value(Register::new(0)), 44); // 300 mod 256
    assert_eq!(r.get_value(Register::flag()), 1);

    r.set_value(Register::new(2), 10);
    r.set_value(Register::new(3), 20);
    r.add_registers(Register::new(2), Register::new(3));
    assert_eq!(r.get_value(Register::new(2)), 30);
    assert_eq!(r.get_value(Register::flag()), 0);
}

#[test]
fn test_sub_borrow_flag() {
    let mut r = Registers::new();
    r.set_value(Register::new(0), 30);
    r.set_value(Register::new(1), 10);
    r.sub_registers(Register::new(0), Register::new(1));
    assert_eq!(r.get_value(Register::new(0)), 20);
    assert_eq!(r.get_value(Register::flag()), 1); // no borrow

    r.set_value(Register::new(2), 10);
    r.set_value(Register::new(3), 30);
    r.sub_registers(Register::new(2), Register::new(3));
    assert_eq!(r.get_value(Register::new(2)), 236); // wrapped
    assert_eq!(r.get_value(Register::flag()), 0); // borrow

    r.set_value(Register::new(4), 5);
    r.set_value(Register::new(5), 12);
    r.sub_registers_reversed(Register::new(4), Register::new(5));
    assert_eq!(r.get_value(Register::new(4)), 7);
    assert_eq!(r.get_value(Register::flag()), 1);
}

#[test]
fn test_add_value_keeps_flag() {
    let mut r = Registers::new();
    r.set_flag(true);
    r.set_value(Register::new(0), 250);
    r.add_value(Register::new(0), 10);
    assert_eq!(r.get_value(Register::new(0)), 4); // wraps
    assert_eq!(r.get_value(Register::flag()), 1); // untouched
}

#[test]
fn test_shift_right_quirk_inactive() {
    let mut r = Registers::new();
    r.set_value(Register::new(1), 0b0000_0011);
    r.shr_registers(Register::new(0), Register::new(1), false);
    assert_eq!(r.get_value(Register::new(0)), 0b0000_0001);
    assert_eq!(r.get_value(Register::flag()), 1);
    assert_eq!(r.get_value(Register::new(1)), 0b0000_0011); // source unchanged
}

#[test]
fn test_shift_right_quirk_active_self_shifts() {
    let mut a = Registers::new();
    a.set_value(Register::new(0), 0b0000_0011);
    a.set_value(Register::new(1), 0xAA);
    a.shr_registers(Register::new(0), Register::new(1), true);

    let mut b = Registers::new();
    b.set_value(Register::new(0), 0b0000_0011);
    b.set_value(Register::new(1), 0xAA);
    b.shr_registers(Register::new(0), Register::new(0), false);

    assert_eq!(a.get_value(Register::new(0)), b.get_value(Register::new(0)));
    assert_eq!(a.get_value(Register::flag()), b.get_value(Register::flag()));
    assert_eq!(a.get_value(Register::new(0)), 0b0000_0001);
}

#[test]
fn test_shift_left_flag() {
    let mut r = Registers::new();
    r.set_value(Register::new(1), 0b1100_0000);
    r.shl_registers(Register::new(0), Register::new(1), false);
    assert_eq!(r.get_value(Register::new(0)), 0b1000_0000);
    assert_eq!(r.get_value(Register::flag()), 1);
}

#[test]
fn test_draw_twice_collides_then_clears() {
    let mut d = Display::new();
    let first = d.render_sprite(4, 3, &[0xFF]);
    assert!(!first);
    assert!(d.bits[3 * 64 + 4]);
    assert!(d.bits[3 * 64 + 11]);
    let second = d.render_sprite(4, 3, &[0xFF]);
    assert!(second);
    for i in 0..(64 * 32) {
        assert!(!d.bits[i]);
    }
}

#[test]
fn test_draw_clipped_at_edges() {
    let mut d = Display::new();
    // 60..67 horizontally: only 60..63 are on the grid; row 31 is the last
    let collision = d.render_sprite(60, 31, &[0xFF, 0xFF]);
    assert!(!collision);
    let mut set_count = 0;
    for i in 0..(64 * 32) {
        if d.bits[i] {
            set_count += 1;
        }
    }
    assert_eq!(set_count, 4);
    assert!(d.bits[31 * 64 + 60]);
    assert!(d.bits[31 * 64 + 63]);

    // fully off the grid: nothing set, no fault
    let mut e = Display::new();
    let collision = e.render_sprite(100, 200, &[0xFF]);
    assert!(!collision);
    for i in 0..(64 * 32) {
        assert!(!e.bits[i]);
    }
}

#[test]
fn test_stack_push_pop_roundtrip() {
    let mut s = Stack::new();
    for i in 0..16usize {
        s.push(0x200 + 2 * i);
    }
    assert_eq!(s.len(), 16);
    for i in (0..16usize).rev() {
        assert_eq!(s.pop(), 0x200 + 2 * i);
    }
    assert_eq!(s.len(), 0);
}

#[test]
fn test_stack_overflow_fault() {
    // two subroutine calls bouncing between each other push one frame per
    // step and never return
    let mut m = machine_of(&[0x2202, 0x2200], false);
    for _ in 0..16 {
        tick_ok(&mut m);
    }
    let keys: Vec<u8> = Vec::new();
    assert_eq!(m.tick(keys), Err(Fault::StackOverflow));
}

#[test]
fn test_stack_underflow_fault() {
    let mut m = machine_of(&[0x00EE], false);
    let keys: Vec<u8> = Vec::new();
    assert_eq!(m.tick(keys), Err(Fault::StackUnderflow));
}

#[test]
fn test_fetch_out_of_bounds_fault() {
    // jump to the last byte of memory: the next fetch has no room
    let mut m = machine_of(&[0x1FFF], false);
    tick_ok(&mut m);
    assert_eq!(m.registers.program_counter, 0xFFF);
    let keys: Vec<u8> = Vec::new();
    assert_eq!(m.tick(keys), Err(Fault::OutOfBoundsFetch));
}

#[test]
fn test_draw_out_of_bounds_fault() {
    // index at 0xFFF, then a 5-row sprite reaches past the end of memory
    let mut m = machine_of(&[0xAFFF, 0xD005], false);
    tick_ok(&mut m);
    let keys: Vec<u8> = Vec::new();
    assert_eq!(m.tick(keys), Err(Fault::OutOfBoundsMemory));
}

#[test]
fn test_index_overflow_fault() {
    // V0 = 255, then add it to the index register forever
    let mut m = machine_of(&[0x60FF, 0xF01E, 0x1202], false);
    let mut result = Ok(());
    for _ in 0..2000 {
        let keys: Vec<u8> = Vec::new();
        result = m.tick(keys);
        if result.is_err() {
            break;
        }
    }
    assert_eq!(result, Err(Fault::IndexOverflow));
}

#[test]
fn test_timer_decay_per_eight_steps() {
    let mut t = Timers::new();
    t.delay = 10;
    t.sound = 1;
    for _ in 0..8 {
        t.tick();
    }
    assert_eq!(t.delay, 9);
    assert_eq!(t.sound, 0);
    for _ in 0..8 {
        t.tick();
    }
    assert_eq!(t.delay, 8);
    assert_eq!(t.sound, 0); // floored at zero, never wraps
    for _ in 0..64 {
        t.tick();
    }
    assert_eq!(t.delay, 0);
    t.tick();
    assert_eq!(t.delay, 0);
}

#[test]
fn test_end_to_end_clear_and_park() {
    // draw one glyph so the screen is dirty, then run clear + jump-back
    let mut m = machine_of(&[0x00E0, 0x1200], false);
    m.display.set_pixel(0, 0, true);
    tick_ok(&mut m); // clear screen
    tick_ok(&mut m); // jump back to 0x200
    assert_eq!(m.registers.program_counter, 0x200);
    for i in 0..(64 * 32) {
        assert!(!m.display.bits[i]);
    }
    // the program makes no further progress: it keeps parking at 0x200
    for _ in 0..5 {
        tick_ok(&mut m);
        tick_ok(&mut m);
        assert_eq!(m.registers.program_counter, 0x200);
        for i in 0..(64 * 32) {
            assert!(!m.display.bits[i]);
        }
    }
}

#[test]
fn test_jump_to_self_pauses() {
    let mut m = machine_of(&[0x1200], false);
    for _ in 0..3 {
        tick_ok(&mut m);
        assert_eq!(m.registers.program_counter, 0x200);
    }
}

#[test]
fn test_end_program_pauses() {
    let mut m = machine_of(&[0x0000], false);
    tick_ok(&mut m);
    assert_eq!(m.registers.program_counter, 0x200);
}

#[test]
fn test_random_respects_mask() {
    let mut m = machine_of(&[0xC00F], false);
    tick_ok(&mut m);
    assert_eq!(m.registers.get_value(Register::new(0)) & 0xF0, 0);
}

#[test]
fn test_wait_for_key_takes_lowest() {
    let mut m = machine_of(&[0xF50A], false);
    let keys: Vec<u8> = Vec::new();
    m.tick(keys).expect("step faulted");
    assert_eq!(m.registers.program_counter, 0x200); // still waiting
    let keys: Vec<u8> = vec![7, 3, 9];
    m.tick(keys).expect("step faulted");
    assert_eq!(m.registers.get_value(Register::new(5)), 3);
    assert_eq!(m.registers.program_counter, 0x202);
}

#[test]
fn test_skip_if_key() {
    let mut m = machine_of(&[0x6005, 0xE09E], false);
    tick_ok(&mut m);
    let keys: Vec<u8> = vec![5];
    m.tick(keys).expect("step faulted");
    assert_eq!(m.registers.program_counter, 0x206); // skipped

    let mut m = machine_of(&[0x6005, 0xE0A1], false);
    tick_ok(&mut m);
    let keys: Vec<u8> = vec![5];
    m.tick(keys).expect("step faulted");
    assert_eq!(m.registers.program_counter, 0x204); // not skipped
}

#[test]
fn test_dump_and_index_quirk() {
    let words = [0xA300, 0x6007, 0x6105, 0xF155];
    let mut m = machine_of(&words, false);
    for _ in 0..4 {
        tick_ok(&mut m);
    }
    assert_eq!(m.heap.elements[0x300], 7);
    assert_eq!(m.heap.elements[0x301], 5);
    assert_eq!(m.registers.index, 0x302); // advanced by two registers

    let mut m = machine_of(&words, true);
    for _ in 0..4 {
        tick_ok(&mut m);
    }
    assert_eq!(m.heap.elements[0x300], 7);
    assert_eq!(m.registers.index, 0x300); // static under the quirk
}

#[test]
fn test_load_registers() {
    // dump V0..V1 at 0x300, zero them, then load them back
    let words = [0xA300, 0x6007, 0x6105, 0xF155, 0x6000, 0x6100, 0xA300, 0xF165];
    let mut m = machine_of(&words, false);
    for _ in 0..8 {
        tick_ok(&mut m);
    }
    assert_eq!(m.registers.get_value(Register::new(0)), 7);
    assert_eq!(m.registers.get_value(Register::new(1)), 5);
    assert_eq!(m.registers.index, 0x302);
}

#[test]
fn test_bcd() {
    let mut m = machine_of(&[0x60FE, 0xA300, 0xF033], false);
    for _ in 0..3 {
        tick_ok(&mut m);
    }
    assert_eq!(m.heap.elements[0x300], 2);
    assert_eq!(m.heap.elements[0x301], 5);
    assert_eq!(m.heap.elements[0x302], 4);
}

#[test]
fn test_font_glyph_address() {
    let h = Heap::new(Vec::new());
    assert_eq!(h.elements[0x50], 0xF0); // top row of glyph 0
    assert_eq!(h.elements[0x50 + 79], 0x80); // last row of glyph F

    let mut m = machine_of(&[0x6007, 0xF029], false);
    tick_ok(&mut m);
    tick_ok(&mut m);
    assert_eq!(m.registers.index, 0x50 + 7 * 5);
}

#[test]
fn test_timers_through_machine() {
    // V10 = 10, delay = V10, then spin on the jump below
    let mut m = machine_of(&[0x6A0A, 0xFA15, 0x1204], false);
    tick_ok(&mut m);
    tick_ok(&mut m);
    assert_eq!(m.timers.delay, 10);
    // the decay window restarted at the first step; the next decay lands
    // on the ninth step, eight steps after it
    for _ in 0..6 {
        tick_ok(&mut m);
    }
    assert_eq!(m.timers.delay, 10);
    tick_ok(&mut m);
    assert_eq!(m.timers.delay, 9);
}

#[test]
fn test_subroutine_call_and_return() {
    // call 0x206; the subroutine sets V0 = 9 and returns
    let mut m = machine_of(&[0x2206, 0x0000, 0x0000, 0x6009, 0x00EE], false);
    tick_ok(&mut m); // call
    assert_eq!(m.registers.program_counter, 0x206);
    tick_ok(&mut m); // V0 = 9
    tick_ok(&mut m); // return
    assert_eq!(m.registers.get_value(Register::new(0)), 9);
    assert_eq!(m.registers.program_counter, 0x202);
}

#[test]
fn test_goto_offsetted() {
    let mut m = machine_of(&[0x6004, 0xB2F0], false);
    tick_ok(&mut m);
    tick_ok(&mut m);
    assert_eq!(m.registers.program_counter, 0x2F4);
}

#[test]
fn test_skip_families() {
    let mut m = machine_of(&[0x6005, 0x3005], false);
    tick_ok(&mut m);
    tick_ok(&mut m);
    assert_eq!(m.registers.program_counter, 0x206);

    let mut m = machine_of(&[0x6005, 0x4005], false);
    tick_ok(&mut m);
    tick_ok(&mut m);
    assert_eq!(m.registers.program_counter, 0x204);
}
