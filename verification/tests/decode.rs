//! Decoding each defined opcode from its canonical bit pattern, and the
//! two decode error classes.

use chip_8::instructions::Instruction;
use chip_8::Chip8Error;

fn ok(raw: u16) -> Instruction {
    Instruction::new(raw).expect("opcode should decode")
}

#[test]
fn decodes_clear() {
    assert_eq!(ok(0x00E0), Instruction::Clear);
}

#[test]
fn decodes_return() {
    assert_eq!(ok(0x00EE), Instruction::Return);
}

#[test]
fn decodes_jump() {
    assert_eq!(ok(0x1ABC), Instruction::Jump { nnn: 0xABC });
}

#[test]
fn decodes_call() {
    assert_eq!(ok(0x2ABC), Instruction::Call { nnn: 0xABC });
}

#[test]
fn decodes_skip_if_register_equals() {
    assert_eq!(ok(0x3A12), Instruction::SkipIfRegisterEquals { vx: 0xA, nn: 0x12 });
}

#[test]
fn decodes_skip_if_register_not_equals() {
    assert_eq!(ok(0x4A12), Instruction::SkipIfRegisterNotEquals { vx: 0xA, nn: 0x12 });
}

#[test]
fn decodes_skip_if_vx_equals_vy() {
    assert_eq!(ok(0x5AB0), Instruction::SkipIfRegisterVxEqualsVy { vx: 0xA, vy: 0xB });
}

#[test]
fn decodes_set_immediate() {
    assert_eq!(ok(0x6A12), Instruction::SetImmediate { vx: 0xA, nn: 0x12 });
}

#[test]
fn decodes_add_immediate() {
    assert_eq!(ok(0x7A12), Instruction::AddImmediate { vx: 0xA, nn: 0x12 });
}

#[test]
fn decodes_copy() {
    assert_eq!(ok(0x8AB0), Instruction::Copy { vx: 0xA, vy: 0xB });
}

#[test]
fn decodes_bitwise_or() {
    assert_eq!(ok(0x8AB1), Instruction::BitwiseOr { vx: 0xA, vy: 0xB });
}

#[test]
fn decodes_bitwise_and() {
    assert_eq!(ok(0x8AB2), Instruction::BitwiseAnd { vx: 0xA, vy: 0xB });
}

#[test]
fn decodes_bitwise_xor() {
    assert_eq!(ok(0x8AB3), Instruction::BitwiseXor { vx: 0xA, vy: 0xB });
}

#[test]
fn decodes_add() {
    assert_eq!(ok(0x8AB4), Instruction::Add { vx: 0xA, vy: 0xB });
}

#[test]
fn decodes_subtract() {
    assert_eq!(ok(0x8AB5), Instruction::Subtract { vx: 0xA, vy: 0xB });
}

#[test]
fn decodes_right_shift() {
    assert_eq!(ok(0x8AB6), Instruction::RightShift { vx: 0xA });
}

#[test]
fn decodes_set_vx_to_vy_minus_vx() {
    assert_eq!(ok(0x8AB7), Instruction::SetVxToVyMinusVx { vx: 0xA, vy: 0xB });
}

#[test]
fn decodes_left_shift() {
    assert_eq!(ok(0x8ABE), Instruction::LeftShift { vx: 0xA });
}

#[test]
fn decodes_skip_if_vx_not_equals_vy() {
    assert_eq!(ok(0x9AB0), Instruction::SkipIfRegisterVxNotEqualsVy { vx: 0xA, vy: 0xB });
}

#[test]
fn decodes_set_index_register() {
    assert_eq!(ok(0xAABC), Instruction::SetIndexRegister { nnn: 0xABC });
}

#[test]
fn decodes_jump_with_pc_offset() {
    assert_eq!(ok(0xBABC), Instruction::JumpWithPcOffset { nnn: 0xABC });
}

#[test]
fn decodes_random() {
    assert_eq!(ok(0xCA12), Instruction::Random { vx: 0xA, nn: 0x12 });
}

#[test]
fn decodes_draw() {
    assert_eq!(ok(0xDAB5), Instruction::Draw { vx: 0xA, vy: 0xB, n: 5 });
}

#[test]
fn decodes_skip_if_key_pressed() {
    assert_eq!(ok(0xEA9E), Instruction::SkipIfKeyPressed { vx: 0xA });
}

#[test]
fn decodes_skip_if_key_not_pressed() {
    assert_eq!(ok(0xEAA1), Instruction::SkipIfKeyNotPressed { vx: 0xA });
}

#[test]
fn decodes_set_vx_to_delay_timer() {
    assert_eq!(ok(0xFA07), Instruction::SetVxToDelayTimer { vx: 0xA });
}

#[test]
fn decodes_await_key_input() {
    assert_eq!(ok(0xFA0A), Instruction::AwaitKeyInput { vx: 0xA });
}

#[test]
fn decodes_set_delay_timer() {
    assert_eq!(ok(0xFA15), Instruction::SetDelayTimer { vx: 0xA });
}

#[test]
fn decodes_set_sound_timer() {
    assert_eq!(ok(0xFA18), Instruction::SetSoundTimer { vx: 0xA });
}

#[test]
fn decodes_add_to_index() {
    assert_eq!(ok(0xFA1E), Instruction::AddToIndex { vx: 0xA });
}

#[test]
fn decodes_set_index_to_font_character() {
    assert_eq!(ok(0xFA29), Instruction::SetIndexToFontCharacter { vx: 0xA });
}

#[test]
fn decodes_set_index_to_binary_coded_vx() {
    assert_eq!(ok(0xFA33), Instruction::SetIndexToBinaryCodedVx { vx: 0xA });
}

#[test]
fn decodes_dump_registers() {
    assert_eq!(ok(0xFA55), Instruction::DumpRegisters { vx: 0xA });
}

#[test]
fn decodes_load_registers() {
    assert_eq!(ok(0xFA65), Instruction::LoadRegisters { vx: 0xA });
}

#[test]
fn operand_extraction_is_positional() {
    assert_eq!(ok(0x1000), Instruction::Jump { nnn: 0x000 });
    assert_eq!(ok(0x1FFF), Instruction::Jump { nnn: 0xFFF });
    assert_eq!(ok(0x6F00), Instruction::SetImmediate { vx: 0xF, nn: 0x00 });
    assert_eq!(ok(0x60FF), Instruction::SetImmediate { vx: 0x0, nn: 0xFF });
    assert_eq!(ok(0xD00F), Instruction::Draw { vx: 0, vy: 0, n: 0xF });
}

#[test]
fn native_call_opcodes_are_incompatible_not_malformed() {
    assert_eq!(Instruction::new(0x0123), Err(Chip8Error::ProgramNotCompatible));
    assert_eq!(Instruction::new(0x0000), Err(Chip8Error::ProgramNotCompatible));
    assert_eq!(Instruction::new(0x00FF), Err(Chip8Error::ProgramNotCompatible));
    assert_eq!(Instruction::new(0x0FFF), Err(Chip8Error::ProgramNotCompatible));
}

#[test]
fn unused_arithmetic_selectors_are_malformed() {
    assert_eq!(
        Instruction::new(0x8AB8),
        Err(Chip8Error::InvalidInstruction { instruction: 0x8AB8 })
    );
    assert_eq!(
        Instruction::new(0x8AB9),
        Err(Chip8Error::InvalidInstruction { instruction: 0x8AB9 })
    );
    assert_eq!(
        Instruction::new(0x8ABF),
        Err(Chip8Error::InvalidInstruction { instruction: 0x8ABF })
    );
}

#[test]
fn unused_key_and_timer_selectors_are_malformed() {
    assert_eq!(
        Instruction::new(0xEA00),
        Err(Chip8Error::InvalidInstruction { instruction: 0xEA00 })
    );
    assert_eq!(
        Instruction::new(0xFAFF),
        Err(Chip8Error::InvalidInstruction { instruction: 0xFAFF })
    );
}
