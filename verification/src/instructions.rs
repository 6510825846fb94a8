//! Opcode decoding: from a raw 16-bit machine word to a tagged instruction.
//!
//! The encoding is dense and overlapping: the top nibble selects a primary
//! group, and the groups `0x0`, `0x8`, `0xE` and `0xF` multiplex several
//! instructions on the low byte or low nibble. Operand extraction is
//! positional and identical for every group: register `X` is bits 8..12,
//! register `Y` is bits 4..8, the 8-bit immediate is bits 0..8, the 4-bit
//! immediate is bits 0..4 and the 12-bit address is bits 0..12.

use crate::Chip8Error;
use vstd::prelude::*;

verus! {

/// A decoded CHIP-8 instruction.
///
/// Operand meanings follow the conventional opcode table notation:
/// `NNN` is a 12-bit address, `NN` an 8-bit constant, `N` a 4-bit constant,
/// and `X`/`Y` are 4-bit register identifiers.
#[derive(Debug, Clone, Copy, PartialEq, Eq, Structural)]
pub enum Instruction {
    /// `0NNN`: run a native routine on the host machine.
    ///
    /// Deliberately unsupported: it ran hardware-specific code and is not
    /// compatible with every CHIP-8 machine. Decoding such an opcode reports
    /// [`Chip8Error::ProgramNotCompatible`] instead of producing this
    /// variant.
    CallMachineCodeRoutine,
    /// `00E0`: clear the screen.
    Clear,
    /// `00EE`: return from a subroutine by popping the program counter from
    /// the stack.
    Return,
    /// `1NNN`: set the program counter to `NNN`.
    Jump { nnn: u16 },
    /// `2NNN`: call a subroutine by pushing the advanced program counter and
    /// jumping to `NNN`.
    Call { nnn: u16 },
    /// `3XNN`: skip the next instruction if `VX == NN`.
    SkipIfRegisterEquals { vx: u8, nn: u8 },
    /// `4XNN`: skip the next instruction if `VX != NN`.
    SkipIfRegisterNotEquals { vx: u8, nn: u8 },
    /// `5XY0`: skip the next instruction if `VX == VY`.
    SkipIfRegisterVxEqualsVy { vx: u8, vy: u8 },
    /// `6XNN`: set `VX` to `NN`.
    SetImmediate { vx: u8, nn: u8 },
    /// `7XNN`: add `NN` to `VX`, wrapping, without touching `VF`.
    AddImmediate { vx: u8, nn: u8 },
    /// `8XY0`: copy `VY` into `VX`.
    Copy { vx: u8, vy: u8 },
    /// `8XY1`: set `VX = VX | VY`.
    BitwiseOr { vx: u8, vy: u8 },
    /// `8XY2`: set `VX = VX & VY`.
    BitwiseAnd { vx: u8, vy: u8 },
    /// `8XY3`: set `VX = VX ^ VY`.
    BitwiseXor { vx: u8, vy: u8 },
    /// `8XY4`: set `VX = VX + VY`; `VF` becomes 1 on unsigned overflow and
    /// 0 otherwise.
    Add { vx: u8, vy: u8 },
    /// `8XY5`: set `VX = VX - VY`; `VF` becomes 1 when there is no borrow
    /// (`VX >= VY` before the operation) and 0 otherwise.
    Subtract { vx: u8, vy: u8 },
    /// `8XY6`: store the least significant bit of `VX` in `VF`, then shift
    /// `VX` right by one.
    RightShift { vx: u8 },
    /// `8XY7`: set `VX = VY - VX`; `VF` becomes 1 when there is no borrow
    /// (`VY >= VX`) and 0 otherwise.
    SetVxToVyMinusVx { vx: u8, vy: u8 },
    /// `8XYE`: store the most significant bit of `VX` in `VF`, then shift
    /// `VX` left by one.
    LeftShift { vx: u8 },
    /// `9XY0`: skip the next instruction if `VX != VY`.
    SkipIfRegisterVxNotEqualsVy { vx: u8, vy: u8 },
    /// `ANNN`: set the index register to `NNN`.
    SetIndexRegister { nnn: u16 },
    /// `BNNN`: set the program counter to `NNN + V0`.
    JumpWithPcOffset { nnn: u16 },
    /// `CXNN`: set `VX` to a random byte ANDed with `NN`.
    Random { vx: u8, nn: u8 },
    /// `DXYN`: draw an 8-pixel-wide, `N`-pixel-tall sprite read from memory
    /// at the index register, at coordinates `(VX, VY)`, by XOR; `VF`
    /// becomes 1 if any pixel was toggled from lit to unlit.
    Draw { vx: u8, vy: u8, n: u8 },
    /// `EX9E`: skip the next instruction if the key named by the low nibble
    /// of `VX` is pressed.
    SkipIfKeyPressed { vx: u8 },
    /// `EXA1`: skip the next instruction if the key named by the low nibble
    /// of `VX` is not pressed.
    SkipIfKeyNotPressed { vx: u8 },
    /// `FX07`: set `VX` to the delay timer's value.
    SetVxToDelayTimer { vx: u8 },
    /// `FX0A`: wait for a key press, then store the key in `VX`. The one
    /// instruction that may stall the program counter across cycles.
    AwaitKeyInput { vx: u8 },
    /// `FX15`: set the delay timer to `VX`.
    SetDelayTimer { vx: u8 },
    /// `FX18`: set the sound timer to `VX`.
    SetSoundTimer { vx: u8 },
    /// `FX1E`: add `VX` to the index register, wrapping in 12 bits, without
    /// touching `VF`.
    AddToIndex { vx: u8 },
    /// `FX29`: set the index register to the font glyph address for the low
    /// nibble of `VX`.
    SetIndexToFontCharacter { vx: u8 },
    /// `FX33`: write the three decimal digits of `VX` to memory at the index
    /// register: hundreds, then tens, then ones.
    SetIndexToBinaryCodedVx { vx: u8 },
    /// `FX55`: store `V0..=VX` to memory starting at the index register, in
    /// ascending register order.
    DumpRegisters { vx: u8 },
    /// `FX65`: load `V0..=VX` from memory starting at the index register, in
    /// ascending register order.
    LoadRegisters { vx: u8 },
    /// A value that stands for no instruction at all; decoding never
    /// produces it.
    Unknown,
}

impl Instruction {
    /// Operand well-formedness: register identifiers are 4 bits, addresses
    /// are 12 bits, 4-bit immediates are 4 bits. Every decoded instruction
    /// satisfies this.
    pub open spec fn wf(self) -> bool {
        match self {
            Instruction::CallMachineCodeRoutine => true,
            Instruction::Clear => true,
            Instruction::Return => true,
            Instruction::Jump { nnn } => nnn < 4096,
            Instruction::Call { nnn } => nnn < 4096,
            Instruction::SkipIfRegisterEquals { vx, nn } => vx < 16,
            Instruction::SkipIfRegisterNotEquals { vx, nn } => vx < 16,
            Instruction::SkipIfRegisterVxEqualsVy { vx, vy } => vx < 16 && vy < 16,
            Instruction::SetImmediate { vx, nn } => vx < 16,
            Instruction::AddImmediate { vx, nn } => vx < 16,
            Instruction::Copy { vx, vy } => vx < 16 && vy < 16,
            Instruction::BitwiseOr { vx, vy } => vx < 16 && vy < 16,
            Instruction::BitwiseAnd { vx, vy } => vx < 16 && vy < 16,
            Instruction::BitwiseXor { vx, vy } => vx < 16 && vy < 16,
            Instruction::Add { vx, vy } => vx < 16 && vy < 16,
            Instruction::Subtract { vx, vy } => vx < 16 && vy < 16,
            Instruction::RightShift { vx } => vx < 16,
            Instruction::SetVxToVyMinusVx { vx, vy } => vx < 16 && vy < 16,
            Instruction::LeftShift { vx } => vx < 16,
            Instruction::SkipIfRegisterVxNotEqualsVy { vx, vy } => vx < 16 && vy < 16,
            Instruction::SetIndexRegister { nnn } => nnn < 4096,
            Instruction::JumpWithPcOffset { nnn } => nnn < 4096,
            Instruction::Random { vx, nn } => vx < 16,
            Instruction::Draw { vx, vy, n } => vx < 16 && vy < 16 && n < 16,
            Instruction::SkipIfKeyPressed { vx } => vx < 16,
            Instruction::SkipIfKeyNotPressed { vx } => vx < 16,
            Instruction::SetVxToDelayTimer { vx } => vx < 16,
            Instruction::AwaitKeyInput { vx } => vx < 16,
            Instruction::SetDelayTimer { vx } => vx < 16,
            Instruction::SetSoundTimer { vx } => vx < 16,
            Instruction::AddToIndex { vx } => vx < 16,
            Instruction::SetIndexToFontCharacter { vx } => vx < 16,
            Instruction::SetIndexToBinaryCodedVx { vx } => vx < 16,
            Instruction::DumpRegisters { vx } => vx < 16,
            Instruction::LoadRegisters { vx } => vx < 16,
            Instruction::Unknown => true,
        }
    }

    /// What decoding a raw opcode yields, stated as a mathematical function.
    ///
    /// Total over all 65536 raw values: every bit pattern maps to exactly
    /// one instruction or to exactly one error.
    pub open spec fn spec_decode(raw: u16) -> Result<Instruction, Chip8Error> {
        let first_nibble = raw >> 12;
        let vx = ((raw & 0x0F00) >> 8) as u8;
        let vy = ((raw & 0x00F0) >> 4) as u8;
        let nnn = raw & 0x0FFF;
        let nn = (raw & 0x00FF) as u8;
        let n = (raw & 0x000F) as u8;
        if first_nibble == 0x0 {
            if raw & 0x00FF == 0xE0 {
                Ok(Instruction::Clear)
            } else if raw & 0x00FF == 0xEE {
                Ok(Instruction::Return)
            } else {
                Err(Chip8Error::ProgramNotCompatible)
            }
        } else if first_nibble == 0x1 {
            Ok(Instruction::Jump { nnn })
        } else if first_nibble == 0x2 {
            Ok(Instruction::Call { nnn })
        } else if first_nibble == 0x3 {
            Ok(Instruction::SkipIfRegisterEquals { vx, nn })
        } else if first_nibble == 0x4 {
            Ok(Instruction::SkipIfRegisterNotEquals { vx, nn })
        } else if first_nibble == 0x5 {
            Ok(Instruction::SkipIfRegisterVxEqualsVy { vx, vy })
        } else if first_nibble == 0x6 {
            Ok(Instruction::SetImmediate { vx, nn })
        } else if first_nibble == 0x7 {
            Ok(Instruction::AddImmediate { vx, nn })
        } else if first_nibble == 0x8 {
            if n == 0x0 {
                Ok(Instruction::Copy { vx, vy })
            } else if n == 0x1 {
                Ok(Instruction::BitwiseOr { vx, vy })
            } else if n == 0x2 {
                Ok(Instruction::BitwiseAnd { vx, vy })
            } else if n == 0x3 {
                Ok(Instruction::BitwiseXor { vx, vy })
            } else if n == 0x4 {
                Ok(Instruction::Add { vx, vy })
            } else if n == 0x5 {
                Ok(Instruction::Subtract { vx, vy })
            } else if n == 0x6 {
                Ok(Instruction::RightShift { vx })
            } else if n == 0x7 {
                Ok(Instruction::SetVxToVyMinusVx { vx, vy })
            } else if n == 0xE {
                Ok(Instruction::LeftShift { vx })
            } else {
                Err(Chip8Error::InvalidInstruction { instruction: raw })
            }
        } else if first_nibble == 0x9 {
            Ok(Instruction::SkipIfRegisterVxNotEqualsVy { vx, vy })
        } else if first_nibble == 0xA {
            Ok(Instruction::SetIndexRegister { nnn })
        } else if first_nibble == 0xB {
            Ok(Instruction::JumpWithPcOffset { nnn })
        } else if first_nibble == 0xC {
            Ok(Instruction::Random { vx, nn })
        } else if first_nibble == 0xD {
            Ok(Instruction::Draw { vx, vy, n })
        } else if first_nibble == 0xE {
            if nn == 0x9E {
                Ok(Instruction::SkipIfKeyPressed { vx })
            } else if nn == 0xA1 {
                Ok(Instruction::SkipIfKeyNotPressed { vx })
            } else {
                Err(Chip8Error::InvalidInstruction { instruction: raw })
            }
        } else if first_nibble == 0xF {
            if nn == 0x07 {
                Ok(Instruction::SetVxToDelayTimer { vx })
            } else if nn == 0x0A {
                Ok(Instruction::AwaitKeyInput { vx })
            } else if nn == 0x15 {
                Ok(Instruction::SetDelayTimer { vx })
            } else if nn == 0x18 {
                Ok(Instruction::SetSoundTimer { vx })
            } else if nn == 0x1E {
                Ok(Instruction::AddToIndex { vx })
            } else if nn == 0x29 {
                Ok(Instruction::SetIndexToFontCharacter { vx })
            } else if nn == 0x33 {
                Ok(Instruction::SetIndexToBinaryCodedVx { vx })
            } else if nn == 0x55 {
                Ok(Instruction::DumpRegisters { vx })
            } else if nn == 0x65 {
                Ok(Instruction::LoadRegisters { vx })
            } else {
                Err(Chip8Error::InvalidInstruction { instruction: raw })
            }
        } else {
            Err(Chip8Error::InvalidInstruction { instruction: raw })
        }
    }

    /// Decodes a raw 16-bit opcode.
    ///
    /// Returns exactly what [`Instruction::spec_decode`] says: the unique
    /// instruction the bit pattern encodes; `ProgramNotCompatible` for any
    /// `0NNN` opcode other than `00E0`/`00EE`; `InvalidInstruction` for
    /// every remaining undefined bit pattern. Every decoded instruction has
    /// well-formed operands.
    pub fn new(raw: u16) -> (r: Result<Instruction, Chip8Error>)
        ensures
            r == Instruction::spec_decode(raw),
            r matches Ok(inst) ==> inst.wf(),
    {
        let first_nibble = raw >> 12;

        let vx = ((raw & 0x0F00) >> 8) as u8;
        let vy = ((raw & 0x00F0) >> 4) as u8;
        let nnn = raw & 0x0FFF;
        let nn = (raw & 0x00FF) as u8;
        let n = (raw & 0x000F) as u8;

        proof {
            assert(((raw & 0x0F00) >> 8) < 16 && ((raw & 0x00F0) >> 4) < 16 && (raw & 0x0FFF)
                < 4096 && (raw & 0x000F) < 16) by (bit_vector);
        }

        let instruction = match first_nibble {
            0x0 => {
                let last_byte = raw & 0x00FF;

                match last_byte {
                    0xE0 => Instruction::Clear,
                    0xEE => Instruction::Return,
                    // 0NNN runs machine-specific routines and is not
                    // compatible with every CHIP-8 machine, so it is
                    // reported as an incompatibility rather than decoded.
                    _ => {
                        return Err(Chip8Error::ProgramNotCompatible);
                    },
                }
            },
            0x1 => Instruction::Jump { nnn },
            0x2 => Instruction::Call { nnn },
            0x3 => Instruction::SkipIfRegisterEquals { vx, nn },
            0x4 => Instruction::SkipIfRegisterNotEquals { vx, nn },
            0x5 => Instruction::SkipIfRegisterVxEqualsVy { vx, vy },
            0x6 => Instruction::SetImmediate { vx, nn },
            0x7 => Instruction::AddImmediate { vx, nn },
            0x8 => {
                match n {
                    0x0 => Instruction::Copy { vx, vy },
                    0x1 => Instruction::BitwiseOr { vx, vy },
                    0x2 => Instruction::BitwiseAnd { vx, vy },
                    0x3 => Instruction::BitwiseXor { vx, vy },
                    0x4 => Instruction::Add { vx, vy },
                    0x5 => Instruction::Subtract { vx, vy },
                    0x6 => Instruction::RightShift { vx },
                    0x7 => Instruction::SetVxToVyMinusVx { vx, vy },
                    0xE => Instruction::LeftShift { vx },
                    _ => {
                        return Err(Chip8Error::InvalidInstruction { instruction: raw });
                    },
                }
            },
            0x9 => Instruction::SkipIfRegisterVxNotEqualsVy { vx, vy },
            0xA => Instruction::SetIndexRegister { nnn },
            0xB => Instruction::JumpWithPcOffset { nnn },
            0xC => Instruction::Random { vx, nn },
            0xD => Instruction::Draw { vx, vy, n },
            0xE => {
                match nn {
                    0x9E => Instruction::SkipIfKeyPressed { vx },
                    0xA1 => Instruction::SkipIfKeyNotPressed { vx },
                    _ => {
                        return Err(Chip8Error::InvalidInstruction { instruction: raw });
                    },
                }
            },
            0xF => {
                match nn {
                    0x07 => Instruction::SetVxToDelayTimer { vx },
                    0x0A => Instruction::AwaitKeyInput { vx },
                    0x15 => Instruction::SetDelayTimer { vx },
                    0x18 => Instruction::SetSoundTimer { vx },
                    0x1E => Instruction::AddToIndex { vx },
                    0x29 => Instruction::SetIndexToFontCharacter { vx },
                    0x33 => Instruction::SetIndexToBinaryCodedVx { vx },
                    0x55 => Instruction::DumpRegisters { vx },
                    0x65 => Instruction::LoadRegisters { vx },
                    _ => {
                        return Err(Chip8Error::InvalidInstruction { instruction: raw });
                    },
                }
            },
            _ => {
                return Err(Chip8Error::InvalidInstruction { instruction: raw });
            },
        };

        Ok(instruction)
    }
}

} // verus!
