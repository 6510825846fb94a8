//! The mathematical model of the machine and its transition functions.
//!
//! [`MachineState`] is the ghost view of the whole virtual CPU: memory,
//! registers, index register, program counter, call stack, display cells,
//! the two timer values, the externally supplied key slot and the random
//! state. The spec functions here say, as mathematics, what reset, program
//! load, one instruction and one whole fetch-decode-execute cycle do to
//! that state; the executable machine in [`crate::cpu`] is proved against
//! them.

use crate::instructions::Instruction;
use crate::screen::Screen;
use crate::Chip8Error;
use crate::FONT_BASE;
use crate::FONT_SIZE;
use crate::HEIGHT;
use crate::MEMORY_SIZE;
use crate::PROGRAM_BASE;
use crate::SCREEN_SIZE;
use crate::STACK_CAPACITY;
use crate::WIDTH;
use vstd::prelude::*;

verus! {

/// Addition on 8-bit register values, wrapping modulo 256.
pub open spec fn wrap_add8(a: u8, b: u8) -> u8 {
    ((a + b) % 256) as u8
}

/// Subtraction on 8-bit register values, wrapping modulo 256.
pub open spec fn wrap_sub8(a: u8, b: u8) -> u8 {
    if a >= b {
        (a - b) as u8
    } else {
        (a + 256 - b) as u8
    }
}

/// One step of the xorshift pseudo-random generator that feeds the
/// `Random` instruction.
pub open spec fn next_rng(x: u64) -> u64 {
    let a = x ^ (x << 13);
    let b = a ^ (a >> 7);
    b ^ (b << 17)
}

/// The pseudo-random byte drawn from a given random state.
pub open spec fn rng_byte(x: u64) -> u8 {
    (next_rng(x) & 0xFF) as u8
}

/// The built-in font: 16 glyphs, `0` through `F`, of 5 bytes each.
pub open spec fn font_seq() -> Seq<u8> {
    seq![
        0xF0u8, 0x90, 0x90, 0x90, 0xF0,
        0x20, 0x60, 0x20, 0x20, 0x70,
        0xF0, 0x10, 0xF0, 0x80, 0xF0,
        0xF0, 0x10, 0xF0, 0x10, 0xF0,
        0x90, 0x90, 0xF0, 0x10, 0x10,
        0xF0, 0x80, 0xF0, 0x10, 0xF0,
        0xF0, 0x80, 0xF0, 0x90, 0xF0,
        0xF0, 0x10, 0x20, 0x40, 0x40,
        0xF0, 0x90, 0xF0, 0x90, 0xF0,
        0xF0, 0x90, 0xF0, 0x10, 0xF0,
        0xF0, 0x90, 0xF0, 0x90, 0x90,
        0xE0, 0x90, 0xE0, 0x90, 0xE0,
        0xF0, 0x80, 0x80, 0x80, 0xF0,
        0xE0, 0x90, 0x90, 0x90, 0xE0,
        0xF0, 0x80, 0xF0, 0x80, 0xF0,
        0xF0, 0x80, 0xF0, 0x80, 0x80,
    ]
}

/// The display and collision outcome of drawing the low `bits` pixels of
/// one sprite row byte.
///
/// Pixel `i` of a row lands at `(x0 + i) mod WIDTH`; bit 7 of the byte is
/// the leftmost pixel. A set sprite bit toggles its cell; the collision
/// flag records whether any toggled cell went from lit to unlit.
pub open spec fn draw_byte(cells: Seq<u8>, byte: u8, x0: int, y: int, bits: nat) -> (Seq<u8>, bool)
    decreases bits,
{
    if bits == 0 {
        (cells, false)
    } else {
        let (prev, collided) = draw_byte(cells, byte, x0, y, (bits - 1) as nat);
        let i = bits - 1;
        if (byte >> ((7 - i) as u8)) & 1 == 1 {
            let x = (x0 + i) % (WIDTH as int);
            (Screen::spec_invert(prev, x, y), collided || prev[y * WIDTH + x] == 1)
        } else {
            (prev, collided)
        }
    }
}

/// The display and collision outcome of drawing the first `rows` rows of a
/// sprite whose row bytes lie in memory starting at `index`.
///
/// Row `r` lands at `(y0 + r) mod HEIGHT`; memory addresses wrap in 12
/// bits.
pub open spec fn draw_rows(
    mem: Seq<u8>,
    cells: Seq<u8>,
    index: int,
    x0: int,
    y0: int,
    rows: nat,
) -> (Seq<u8>, bool)
    decreases rows,
{
    if rows == 0 {
        (cells, false)
    } else {
        let (prev, collided) = draw_rows(mem, cells, index, x0, y0, (rows - 1) as nat);
        let r = rows - 1;
        let byte = mem[(index + r) % (MEMORY_SIZE as int)];
        let y = (y0 + r) % (HEIGHT as int);
        let (next, row_collided) = draw_byte(prev, byte, x0, y, 8);
        (next, collided || row_collided)
    }
}

/// Memory after storing registers `V0..count` to consecutive addresses
/// starting at `index`, in ascending register order, addresses wrapping in
/// 12 bits.
pub open spec fn store_registers(mem: Seq<u8>, regs: Seq<u8>, index: int, count: nat) -> Seq<u8>
    decreases count,
{
    if count == 0 {
        mem
    } else {
        store_registers(mem, regs, index, (count - 1) as nat).update(
            (index + count - 1) % (MEMORY_SIZE as int),
            regs[count - 1],
        )
    }
}

/// Registers after loading `V0..count` from consecutive memory addresses
/// starting at `index`, in ascending register order, addresses wrapping in
/// 12 bits.
pub open spec fn load_registers(regs: Seq<u8>, mem: Seq<u8>, index: int, count: nat) -> Seq<u8>
    decreases count,
{
    if count == 0 {
        regs
    } else {
        load_registers(regs, mem, index, (count - 1) as nat).update(
            count - 1,
            mem[(index + count - 1) % (MEMORY_SIZE as int)],
        )
    }
}

/// Memory as a reset leaves it: all zero except the font glyphs at
/// `FONT_BASE`.
pub open spec fn reset_memory() -> Seq<u8> {
    Seq::new(
        MEMORY_SIZE as nat,
        |i: int|
            if FONT_BASE <= i < FONT_BASE + FONT_SIZE {
                font_seq()[i - FONT_BASE]
            } else {
                0u8
            },
    )
}

/// The complete observable state of the virtual CPU.
pub struct MachineState {
    /// The 4096 addressable bytes.
    pub memory: Seq<u8>,
    /// The 16 general-purpose registers `V0..VF`. `VF` doubles as the
    /// flag register and is overwritten by arithmetic, shift and draw
    /// instructions.
    pub registers: Seq<u8>,
    /// The 16-bit index register, 12 significant bits.
    pub index: u16,
    /// The program counter, 12 significant bits.
    pub pc: u16,
    /// The call stack of return addresses, at most `STACK_CAPACITY` deep.
    pub stack: Seq<u16>,
    /// The display cells, row-major, each 0 or 1.
    pub screen: Seq<u8>,
    /// The delay timer value.
    pub delay: u8,
    /// The sound timer value.
    pub sound: u8,
    /// The currently pressed key, 0..16, or none; updated by the platform
    /// layer between cycles.
    pub key: Option<u8>,
    /// The state of the pseudo-random generator.
    pub rng: u64,
}

impl MachineState {
    /// Well-formedness of the machine state: fixed sizes, bounded stack,
    /// 12-bit program counter and index register, 1-bit display cells and
    /// a key identifier below 16.
    pub open spec fn wf(self) -> bool {
        &&& self.memory.len() == MEMORY_SIZE
        &&& self.registers.len() == 16
        &&& self.stack.len() <= STACK_CAPACITY
        &&& forall|i: int| 0 <= i < self.stack.len() ==> self.stack[i] < MEMORY_SIZE
        &&& self.screen.len() == SCREEN_SIZE
        &&& (forall|i: int| 0 <= i < SCREEN_SIZE ==> self.screen[i] == 0 || self.screen[i] == 1)
        &&& self.pc < MEMORY_SIZE
        &&& self.index < MEMORY_SIZE
        &&& (self.key matches Some(k) ==> k < 16)
    }

    /// The machine immediately after a reset: zeroed memory with the font
    /// glyphs loaded at `FONT_BASE`, zeroed registers and display, empty
    /// stack, program counter at the program base, both timers at 0, no
    /// key pressed. The random state is whatever it was seeded with.
    pub open spec fn reset(rng: u64) -> MachineState {
        MachineState {
            memory: reset_memory(),
            registers: Seq::new(16, |i: int| 0u8),
            index: 0,
            pc: PROGRAM_BASE as u16,
            stack: Seq::empty(),
            screen: Screen::spec_blank(),
            delay: 0,
            sound: 0,
            key: None,
            rng,
        }
    }

    /// Loading a program image: the bytes land verbatim at the program
    /// base; an image longer than the memory above the base is refused.
    pub open spec fn load(self, program: Seq<u8>) -> Result<MachineState, Chip8Error> {
        if program.len() > MEMORY_SIZE - PROGRAM_BASE {
            Err(Chip8Error::LoadTooLarge)
        } else {
            Ok(
                MachineState {
                    memory: Seq::new(
                        MEMORY_SIZE as nat,
                        |i: int|
                            if PROGRAM_BASE <= i < PROGRAM_BASE + program.len() {
                                program[i - PROGRAM_BASE]
                            } else {
                                self.memory[i]
                            },
                    ),
                    ..self
                },
            )
        }
    }

    /// The opcode at the program counter: two bytes, big-endian, the
    /// second address wrapping in 12 bits.
    pub open spec fn fetch(self) -> u16 {
        ((self.memory[self.pc as int] as u16) << 8) | (self.memory[(self.pc as int + 1) % (
        MEMORY_SIZE as int)] as u16)
    }

    /// The program counter advanced past one 2-byte opcode, wrapping in 12
    /// bits.
    pub open spec fn adv_pc(pc: u16) -> u16 {
        ((pc + 2) % (MEMORY_SIZE as int)) as u16
    }

    /// The state with the program counter advanced by one opcode and
    /// everything else unchanged.
    pub open spec fn advanced(self) -> MachineState {
        MachineState { pc: MachineState::adv_pc(self.pc), ..self }
    }

    /// What one instruction does: the successor state and whether the
    /// display changed (so that the caller publishes a frame), or the
    /// fatal error it raises. An error leaves the state as it was.
    ///
    /// The program counter is advanced past the instruction in every arm;
    /// control-flow instructions overwrite it with their target instead,
    /// and `AwaitKeyInput` with no key pressed leaves the whole state
    /// untouched so that the same instruction is fetched again next cycle.
    ///
    /// `CallMachineCodeRoutine` and `Unknown` are never produced by
    /// decoding and the executable entry point excludes them; their arms
    /// mirror the errors decoding reports for such opcodes.
    pub open spec fn execute(self, inst: Instruction) -> Result<(MachineState, bool), Chip8Error> {
        let s = self;
        let t = self.advanced();
        match inst {
            Instruction::CallMachineCodeRoutine => Err(Chip8Error::ProgramNotCompatible),
            Instruction::Unknown => Err(Chip8Error::InvalidInstruction { instruction: 0 }),
            Instruction::Clear => Ok((MachineState { screen: Screen::spec_blank(), ..t }, true)),
            Instruction::Return => {
                if s.stack.len() == 0 {
                    Err(Chip8Error::StackUnderflow)
                } else {
                    Ok(
                        (
                            MachineState {
                                pc: s.stack[s.stack.len() - 1],
                                stack: s.stack.drop_last(),
                                ..s
                            },
                            false,
                        ),
                    )
                }
            },
            Instruction::Jump { nnn } => Ok((MachineState { pc: nnn, ..s }, false)),
            Instruction::Call { nnn } => {
                if s.stack.len() >= STACK_CAPACITY {
                    Err(Chip8Error::StackOverflow)
                } else {
                    Ok(
                        (
                            MachineState {
                                pc: nnn,
                                stack: s.stack.push(MachineState::adv_pc(s.pc)),
                                ..s
                            },
                            false,
                        ),
                    )
                }
            },
            Instruction::SkipIfRegisterEquals { vx, nn } => {
                Ok(
                    (
                        if s.registers[vx as int] == nn {
                            t.advanced()
                        } else {
                            t
                        },
                        false,
                    ),
                )
            },
            Instruction::SkipIfRegisterNotEquals { vx, nn } => {
                Ok(
                    (
                        if s.registers[vx as int] != nn {
                            t.advanced()
                        } else {
                            t
                        },
                        false,
                    ),
                )
            },
            Instruction::SkipIfRegisterVxEqualsVy { vx, vy } => {
                Ok(
                    (
                        if s.registers[vx as int] == s.registers[vy as int] {
                            t.advanced()
                        } else {
                            t
                        },
                        false,
                    ),
                )
            },
            Instruction::SetImmediate { vx, nn } => {
                Ok((MachineState { registers: s.registers.update(vx as int, nn), ..t }, false))
            },
            Instruction::AddImmediate { vx, nn } => {
                Ok(
                    (
                        MachineState {
                            registers: s.registers.update(
                                vx as int,
                                wrap_add8(s.registers[vx as int], nn),
                            ),
                            ..t
                        },
                        false,
                    ),
                )
            },
            Instruction::Copy { vx, vy } => {
                Ok(
                    (
                        MachineState {
                            registers: s.registers.update(vx as int, s.registers[vy as int]),
                            ..t
                        },
                        false,
                    ),
                )
            },
            Instruction::BitwiseOr { vx, vy } => {
                Ok(
                    (
                        MachineState {
                            registers: s.registers.update(
                                vx as int,
                                s.registers[vx as int] | s.registers[vy as int],
                            ),
                            ..t
                        },
                        false,
                    ),
                )
            },
            Instruction::BitwiseAnd { vx, vy } => {
                Ok(
                    (
                        MachineState {
                            registers: s.registers.update(
                                vx as int,
                                s.registers[vx as int] & s.registers[vy as int],
                            ),
                            ..t
                        },
                        false,
                    ),
                )
            },
            Instruction::BitwiseXor { vx, vy } => {
                Ok(
                    (
                        MachineState {
                            registers: s.registers.update(
                                vx as int,
                                s.registers[vx as int] ^ s.registers[vy as int],
                            ),
                            ..t
                        },
                        false,
                    ),
                )
            },
            Instruction::Add { vx, vy } => {
                let a = s.registers[vx as int];
                let b = s.registers[vy as int];
                Ok(
                    (
                        MachineState {
                            registers: s.registers.update(vx as int, wrap_add8(a, b)).update(
                                15,
                                if a + b > 255 {
                                    1u8
                                } else {
                                    0u8
                                },
                            ),
                            ..t
                        },
                        false,
                    ),
                )
            },
            Instruction::Subtract { vx, vy } => {
                let a = s.registers[vx as int];
                let b = s.registers[vy as int];
                Ok(
                    (
                        MachineState {
                            registers: s.registers.update(vx as int, wrap_sub8(a, b)).update(
                                15,
                                if a >= b {
                                    1u8
                                } else {
                                    0u8
                                },
                            ),
                            ..t
                        },
                        false,
                    ),
                )
            },
            Instruction::RightShift { vx } => {
                let a = s.registers[vx as int];
                Ok(
                    (
                        MachineState {
                            registers: s.registers.update(15, a & 1).update(vx as int, a >> 1),
                            ..t
                        },
                        false,
                    ),
                )
            },
            Instruction::SetVxToVyMinusVx { vx, vy } => {
                let a = s.registers[vx as int];
                let b = s.registers[vy as int];
                Ok(
                    (
                        MachineState {
                            registers: s.registers.update(vx as int, wrap_sub8(b, a)).update(
                                15,
                                if b >= a {
                                    1u8
                                } else {
                                    0u8
                                },
                            ),
                            ..t
                        },
                        false,
                    ),
                )
            },
            Instruction::LeftShift { vx } => {
                let a = s.registers[vx as int];
                Ok(
                    (
                        MachineState {
                            registers: s.registers.update(15, (a >> 7) & 1).update(
                                vx as int,
                                a << 1,
                            ),
                            ..t
                        },
                        false,
                    ),
                )
            },
            Instruction::SkipIfRegisterVxNotEqualsVy { vx, vy } => {
                Ok(
                    (
                        if s.registers[vx as int] != s.registers[vy as int] {
                            t.advanced()
                        } else {
                            t
                        },
                        false,
                    ),
                )
            },
            Instruction::SetIndexRegister { nnn } => {
                Ok((MachineState { index: nnn, ..t }, false))
            },
            Instruction::JumpWithPcOffset { nnn } => {
                Ok(
                    (
                        MachineState {
                            pc: ((nnn + s.registers[0]) % (MEMORY_SIZE as int)) as u16,
                            ..s
                        },
                        false,
                    ),
                )
            },
            Instruction::Random { vx, nn } => {
                Ok(
                    (
                        MachineState {
                            registers: s.registers.update(vx as int, rng_byte(s.rng) & nn),
                            rng: next_rng(s.rng),
                            ..t
                        },
                        false,
                    ),
                )
            },
            Instruction::Draw { vx, vy, n } => {
                let x0 = (s.registers[vx as int] % (WIDTH as u8)) as int;
                let y0 = (s.registers[vy as int] % (HEIGHT as u8)) as int;
                let drawn = draw_rows(s.memory, s.screen, s.index as int, x0, y0, n as nat);
                Ok(
                    (
                        MachineState {
                            screen: drawn.0,
                            registers: s.registers.update(
                                15,
                                if drawn.1 {
                                    1u8
                                } else {
                                    0u8
                                },
                            ),
                            ..t
                        },
                        true,
                    ),
                )
            },
            Instruction::SkipIfKeyPressed { vx } => {
                Ok(
                    (
                        if s.key == Some((s.registers[vx as int] & 0xF) as u8) {
                            t.advanced()
                        } else {
                            t
                        },
                        false,
                    ),
                )
            },
            Instruction::SkipIfKeyNotPressed { vx } => {
                Ok(
                    (
                        if s.key != Some((s.registers[vx as int] & 0xF) as u8) {
                            t.advanced()
                        } else {
                            t
                        },
                        false,
                    ),
                )
            },
            Instruction::SetVxToDelayTimer { vx } => {
                Ok((MachineState { registers: s.registers.update(vx as int, s.delay), ..t }, false))
            },
            Instruction::AwaitKeyInput { vx } => {
                match s.key {
                    Some(k) => Ok(
                        (MachineState { registers: s.registers.update(vx as int, k), ..t }, false),
                    ),
                    None => Ok((s, false)),
                }
            },
            Instruction::SetDelayTimer { vx } => {
                Ok((MachineState { delay: s.registers[vx as int], ..t }, false))
            },
            Instruction::SetSoundTimer { vx } => {
                Ok((MachineState { sound: s.registers[vx as int], ..t }, false))
            },
            Instruction::AddToIndex { vx } => {
                Ok(
                    (
                        MachineState {
                            index: ((s.index + s.registers[vx as int]) % (MEMORY_SIZE as int)) as u16,
                            ..t
                        },
                        false,
                    ),
                )
            },
            Instruction::SetIndexToFontCharacter { vx } => {
                Ok(
                    (
                        MachineState {
                            index: (FONT_BASE + 5 * (s.registers[vx as int] & 0xF)) as u16,
                            ..t
                        },
                        false,
                    ),
                )
            },
            Instruction::SetIndexToBinaryCodedVx { vx } => {
                let v = s.registers[vx as int];
                Ok(
                    (
                        MachineState {
                            memory: s.memory.update(s.index as int, v / 100).update(
                                (s.index as int + 1) % (MEMORY_SIZE as int),
                                (v / 10) % 10,
                            ).update((s.index as int + 2) % (MEMORY_SIZE as int), v % 10),
                            ..t
                        },
                        false,
                    ),
                )
            },
            Instruction::DumpRegisters { vx } => {
                Ok(
                    (
                        MachineState {
                            memory: store_registers(
                                s.memory,
                                s.registers,
                                s.index as int,
                                (vx + 1) as nat,
                            ),
                            ..t
                        },
                        false,
                    ),
                )
            },
            Instruction::LoadRegisters { vx } => {
                Ok(
                    (
                        MachineState {
                            registers: load_registers(
                                s.registers,
                                s.memory,
                                s.index as int,
                                (vx + 1) as nat,
                            ),
                            ..t
                        },
                        false,
                    ),
                )
            },
        }
    }

    /// What one whole cycle does: fetch the opcode at the program counter,
    /// decode it, execute it. A decode error is reported unchanged and, as
    /// with execution errors, leaves the state as it was.
    pub open spec fn cycle(self) -> Result<(MachineState, bool), Chip8Error> {
        match Instruction::spec_decode(self.fetch()) {
            Err(e) => Err(e),
            Ok(inst) => self.execute(inst),
        }
    }
}

} // verus!
