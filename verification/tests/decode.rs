//! Decoding tests: every instruction family classifies as expected.

use chip8_engine::instruction::Instruction;
use chip8_engine::registers::Register;

fn get_instr(opcode: u16) -> Instruction {
    let mem = [(opcode >> 8) as u8, opcode as u8];
    Instruction::new(&mem, 0)
}

#[test]
pub fn test_c0() {
    let instr = get_instr(0x00E0);
    assert_eq!(instr, Instruction::ClearScreen);

    let instr = get_instr(0x00EE);
    assert_eq!(instr, Instruction::ReturnSubroutine);
}

#[test]
pub fn test_c1() {
    let instr = get_instr(0x1234);
    assert_eq!(instr, Instruction::Goto { address: 0x234 });
}

#[test]
pub fn test_c2() {
    let instr = get_instr(0x2345);
    assert_eq!(instr, Instruction::CallSubroutine { address: 0x345 });
}

#[test]
pub fn test_c3() {
    let instr = get_instr(0x3A11);
    assert_eq!(
        instr,
        Instruction::SkipIfValueEq { register: Register::new(0xA), value: 0x11 }
    );
}

#[test]
pub fn test_c4() {
    let instr = get_instr(0x4A11);
    assert_eq!(
        instr,
        Instruction::SkipIfValueNe { register: Register::new(0xA), value: 0x11 }
    );
}

#[test]
pub fn test_c5() {
    let instr = get_instr(0x5AB0);
    assert_eq!(
        instr,
        Instruction::SkipIfRegistersEq {
            register_x: Register::new(0xA),
            register_y: Register::new(0xB),
        }
    );
}

#[test]
pub fn test_c6() {
    let instr = get_instr(0x6FAB);
    assert_eq!(
        instr,
        Instruction::RegisterValueStore { register: Register::new(0xF), value: 0xAB }
    );
}

#[test]
pub fn test_c7() {
    let instr = get_instr(0x7042);
    assert_eq!(
        instr,
        Instruction::RegisterValueAdd { register: Register::first(), value: 0x42 }
    );
}

#[test]
pub fn test_c8() {
    let instr = get_instr(0x8AF0);
    assert_eq!(
        instr,
        Instruction::RegistersCopy {
            register_to: Register::new(0xA),
            register_from: Register::new(0xF),
        }
    );

    let instr = get_instr(0x8AF1);
    assert_eq!(
        instr,
        Instruction::RegistersOrEq {
            register_to: Register::new(0xA),
            register_from: Register::new(0xF),
        }
    );

    let instr = get_instr(0x8AF2);
    assert_eq!(
        instr,
        Instruction::RegistersAndEq {
            register_to: Register::new(0xA),
            register_from: Register::new(0xF),
        }
    );

    let instr = get_instr(0x8AF3);
    assert_eq!(
        instr,
        Instruction::RegistersXorEq {
            register_to: Register::new(0xA),
            register_from: Register::new(0xF),
        }
    );

    let instr = get_instr(0x8AF4);
    assert_eq!(
        instr,
        Instruction::RegistersAdd {
            register_to: Register::new(0xA),
            register_from: Register::new(0xF),
        }
    );

    let instr = get_instr(0x8AF5);
    assert_eq!(
        instr,
        Instruction::RegistersSub {
            register_to: Register::new(0xA),
            register_from: Register::new(0xF),
        }
    );

    let instr = get_instr(0x8AF6);
    assert_eq!(
        instr,
        Instruction::RegistersShiftRightEq {
            register_to: Register::new(0xA),
            register_from: Register::new(0xF),
        }
    );

    let instr = get_instr(0x8AF7);
    assert_eq!(
        instr,
        Instruction::RegistersSubReversed {
            register_to: Register::new(0xA),
            register_from: Register::new(0xF),
        }
    );

    let instr = get_instr(0x8AFE);
    assert_eq!(
        instr,
        Instruction::RegistersShiftLeftEq {
            register_to: Register::new(0xA),
            register_from: Register::new(0xF),
        }
    );
}

#[test]
pub fn test_c9() {
    let instr = get_instr(0x90F0);
    assert_eq!(
        instr,
        Instruction::SkipIfRegistersNe {
            register_x: Register::first(),
            register_y: Register::new(0xF),
        }
    );
}

#[test]
pub fn test_c10() {
    let instr = get_instr(0xA09F);
    assert_eq!(instr, Instruction::IStoreAddress { address: 0x09F });
}

#[test]
pub fn test_c11() {
    let instr = get_instr(0xBABE);
    assert_eq!(instr, Instruction::GotoOffsetted { address: 0xABE });
}

#[test]
pub fn test_c12() {
    let instr = get_instr(0xCABE);
    assert_eq!(
        instr,
        Instruction::RegisterStoreRandom { register: Register::new(0xA), mask: 0xBE }
    );
}

#[test]
pub fn test_c13() {
    let instr = get_instr(0xD123);
    assert_eq!(
        instr,
        Instruction::DrawSprite {
            register_x: Register::new(0x1),
            register_y: Register::new(0x2),
            sprite_height: 0x3,
        }
    );
}

#[test]
pub fn test_c14() {
    let instr = get_instr(0xE09E);
    assert_eq!(instr, Instruction::SkipIfKeyOn { register: Register::first() });

    let instr = get_instr(0xE0A1);
    assert_eq!(instr, Instruction::SkipIfKeyOff { register: Register::first() });
}

#[test]
pub fn test_c15() {
    let instr = get_instr(0xF007);
    assert_eq!(instr, Instruction::DelayTimerToRegister { register: Register::first() });

    let instr = get_instr(0xF00A);
    assert_eq!(instr, Instruction::WaitForAnyKey { register: Register::first() });

    let instr = get_instr(0xF015);
    assert_eq!(instr, Instruction::RegisterToDelayTimer { register: Register::first() });

    let instr = get_instr(0xF018);
    assert_eq!(instr, Instruction::RegisterToSoundTimer { register: Register::first() });

    let instr = get_instr(0xF01E);
    assert_eq!(instr, Instruction::IAddOffset { register: Register::first() });

    let instr = get_instr(0xF029);
    assert_eq!(instr, Instruction::IStoreDigitAddress { register: Register::first() });

    let instr = get_instr(0xF033);
    assert_eq!(instr, Instruction::HexToDecimal { register: Register::first() });

    let instr = get_instr(0xF055);
    assert_eq!(instr, Instruction::RegistersDump { max_register: Register::first() });

    let instr = get_instr(0xF065);
    assert_eq!(instr, Instruction::RegistersLoad { max_register: Register::first() });
}

#[test]
fn test_decode_deterministic() {
    let mem = [0x8Au8, 0xF4];
    let a = Instruction::new(&mem, 0);
    let b = Instruction::new(&mem, 0);
    assert_eq!(a, b);
}

#[test]
fn test_decode_unknown_is_soft() {
    assert_eq!(get_instr(0x00DE), Instruction::Unimplemented { opcode: 0x00DE });
    assert_eq!(get_instr(0x8AF8), Instruction::Unimplemented { opcode: 0x8AF8 });
    assert_eq!(get_instr(0xE000), Instruction::Unimplemented { opcode: 0xE000 });
    assert_eq!(get_instr(0xFFFF), Instruction::Unimplemented { opcode: 0xFFFF });
    assert_eq!(get_instr(0x0000), Instruction::EndProgram);
}
