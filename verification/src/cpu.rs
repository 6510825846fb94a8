//! The executable virtual CPU, proved against the model in
//! [`crate::state`].
//!
//! The machine is single-threaded and synchronous: [`Chip8::cycle`] runs
//! one fetch-decode-execute step and reports whether the display changed;
//! the two timers are decremented by the caller at its own fixed rate,
//! never from inside a cycle. Key state is handed in as a plain value with
//! [`Chip8::set_key`] and frames are read back from the public
//! [`Chip8::screen`] field, so that the platform layer stays entirely
//! outside this crate.

use crate::instructions::Instruction;
use crate::screen::Screen;
use crate::state::draw_byte;
use crate::state::draw_rows;
use crate::state::load_registers;
use crate::state::next_rng;
use crate::state::reset_memory;
use crate::state::rng_byte;
use crate::state::store_registers;
use crate::state::MachineState;
use crate::timer::Timer;
use crate::Chip8Error;
use crate::FONT_BASE;
use crate::FONT_SIZE;
use crate::HEIGHT;
use crate::MEMORY_SIZE;
use crate::PROGRAM_BASE;
use crate::STACK_CAPACITY;
use crate::WIDTH;
use vstd::prelude::*;

verus! {

/// The random state a fresh machine starts from; any other seed can be
/// set with [`Chip8::seed_random`].
pub const DEFAULT_SEED: u64 = 88172645463325252;

/// The virtual CPU: memory, registers, call stack, display and timers.
#[derive(Debug)]
pub struct Chip8 {
    memory: Vec<u8>,
    registers: Vec<u8>,
    index: u16,
    pc: u16,
    stack: Vec<u16>,
    /// The display buffer; the caller reads a finished frame from it when
    /// [`Chip8::cycle`] reports a redraw.
    pub screen: Screen,
    /// The delay timer, decremented by the external 60 Hz tick.
    pub delay_timer: Timer,
    /// The sound timer, decremented by the external 60 Hz tick.
    pub sound_timer: Timer,
    key: Option<u8>,
    rng: u64,
}

impl View for Chip8 {
    type V = MachineState;

    closed spec fn view(&self) -> MachineState {
        MachineState {
            memory: self.memory@,
            registers: self.registers@,
            index: self.index,
            pc: self.pc,
            stack: self.stack@,
            screen: self.screen@,
            delay: self.delay_timer@,
            sound: self.sound_timer@,
            key: self.key,
            rng: self.rng,
        }
    }
}

impl Chip8 {
    /// Well-formedness of the machine, as the model states it.
    pub open spec fn wf(&self) -> bool {
        self@.wf()
    }

    /// A vector of `n` zero bytes.
    fn zero_bytes(n: usize) -> (v: Vec<u8>)
        ensures
            v@ == Seq::new(n as nat, |i: int| 0u8),
    {
        let mut v: Vec<u8> = Vec::new();
        let mut i: usize = 0;
        while i < n
            invariant
                i <= n,
                v@.len() == i,
                forall|j: int| 0 <= j < i ==> v@[j] == 0,
            decreases n - i,
        {
            v.push(0);
            i = i + 1;
        }
        proof {
            assert(v@ =~= Seq::new(n as nat, |i: int| 0u8));
        }
        v
    }

    /// Memory as a reset leaves it: zeroed, with the font glyphs loaded.
    fn font_memory() -> (m: Vec<u8>)
        ensures
            m@ == reset_memory(),
    {
        let mut m = Self::zero_bytes(MEMORY_SIZE);
        let font: Vec<u8> = vec![
            0xF0u8, 0x90, 0x90, 0x90, 0xF0,
            0x20, 0x60, 0x20, 0x20, 0x70,
            0xF0, 0x10, 0xF0, 0x80, 0xF0,
            0xF0, 0x10, 0xF0, 0x10, 0xF0,
            0x90, 0x90, 0xF0, 0x10, 0x10,
            0xF0, 0x80, 0xF0, 0x10, 0xF0,
            0xF0, 0x80, 0xF0, 0x90, 0xF0,
            0xF0, 0x10, 0x20, 0x40, 0x40,
            0xF0, 0x90, 0xF0, 0x90, 0xF0,
            0xF0, 0x90, 0xF0, 0x10, 0xF0,
            0xF0, 0x90, 0xF0, 0x90, 0x90,
            0xE0, 0x90, 0xE0, 0x90, 0xE0,
            0xF0, 0x80, 0x80, 0x80, 0xF0,
            0xE0, 0x90, 0x90, 0x90, 0xE0,
            0xF0, 0x80, 0xF0, 0x80, 0xF0,
            0xF0, 0x80, 0xF0, 0x80, 0x80,
        ];
        proof {
            assert(font@ =~= crate::state::font_seq());
        }
        let mut k: usize = 0;
        while k < FONT_SIZE
            invariant
                k <= FONT_SIZE,
                font@ == crate::state::font_seq(),
                m@.len() == MEMORY_SIZE,
                forall|i: int|
                    0 <= i < MEMORY_SIZE ==> m@[i] == (if FONT_BASE <= i < FONT_BASE + k {
                        crate::state::font_seq()[i - FONT_BASE]
                    } else {
                        0u8
                    }),
            decreases FONT_SIZE - k,
        {
            let glyph_byte = font[k];
            m[FONT_BASE + k] = glyph_byte;
            k = k + 1;
        }
        proof {
            assert(m@ =~= reset_memory());
        }
        m
    }

    /// Creates a machine in its reset state, with the default random seed.
    pub fn new() -> (c: Chip8)
        ensures
            c.wf(),
            c@ == MachineState::reset(DEFAULT_SEED),
    {
        let mut c = Chip8 {
            memory: Vec::new(),
            registers: Vec::new(),
            index: 0,
            pc: 0,
            stack: Vec::new(),
            screen: Screen::new(),
            delay_timer: Timer::new(),
            sound_timer: Timer::new(),
            key: None,
            rng: DEFAULT_SEED,
        };
        c.initialize();
        c
    }

    /// Resets the machine: zeroes memory, registers, display, stack and
    /// timers, reloads the font and puts the program counter back at the
    /// program base. The random state is kept. A program image must be
    /// loaded again afterwards.
    pub fn initialize(&mut self)
        ensures
            final(self).wf(),
            final(self)@ == MachineState::reset(old(self)@.rng),
    {
        self.memory = Self::font_memory();
        self.registers = Self::zero_bytes(16);
        self.index = 0;
        self.pc = PROGRAM_BASE as u16;
        self.stack = Vec::new();
        self.screen = Screen::new();
        self.delay_timer.set(0);
        self.sound_timer.set(0);
        self.key = None;
    }

    /// Reseeds the pseudo-random generator that feeds the `Random`
    /// instruction.
    pub fn seed_random(&mut self, seed: u64)
        ensures
            final(self)@ == (MachineState { rng: seed, ..old(self)@ }),
    {
        self.rng = seed;
    }

    /// Records the currently pressed key, or none, as the platform layer
    /// reports it. Key identifiers are the 16 keys of the hexadecimal
    /// keypad.
    pub fn set_key(&mut self, key: Option<u8>)
        requires
            key matches Some(k) ==> k < 16,
        ensures
            final(self)@ == (MachineState { key: key, ..old(self)@ }),
    {
        self.key = key;
    }

    /// Loads a program image verbatim at the program base.
    ///
    /// Returns `LoadTooLarge`, and changes nothing, exactly when the image
    /// is longer than the memory above the base.
    pub fn load_program(&mut self, program: Vec<u8>) -> (r: Result<(), Chip8Error>)
        requires
            old(self).wf(),
        ensures
            final(self).wf(),
            (match old(self)@.load(program@) {
                Ok(s2) => r == Ok::<(), Chip8Error>(()) && final(self)@ == s2,
                Err(e) => r == Err::<(), Chip8Error>(e) && final(self)@ == old(self)@,
            }),
    {
        let ghost s0 = self@;
        if program.len() > MEMORY_SIZE - PROGRAM_BASE {
            return Err(Chip8Error::LoadTooLarge);
        }
        let mut i: usize = 0;
        while i < program.len()
            invariant
                self.wf(),
                i <= program.len(),
                program.len() <= MEMORY_SIZE - PROGRAM_BASE,
                self@ == (MachineState { memory: self@.memory, ..s0 }),
                self@.memory.len() == MEMORY_SIZE,
                forall|j: int|
                    0 <= j < MEMORY_SIZE ==> self@.memory[j] == (if PROGRAM_BASE <= j
                        < PROGRAM_BASE + i {
                        program@[j - PROGRAM_BASE]
                    } else {
                        s0.memory[j]
                    }),
            decreases program.len() - i,
        {
            let byte = program[i];
            self.memory[PROGRAM_BASE + i] = byte;
            i = i + 1;
        }
        proof {
            let loaded = s0.load(program@);
            assert(self@.memory =~= loaded.unwrap().memory);
        }
        Ok(())
    }

    /// Advances the program counter past one opcode, wrapping in 12 bits.
    fn advance_pc(&mut self)
        ensures
            final(self)@ == old(self)@.advanced(),
    {
        self.pc = ((self.pc as usize + 2) % MEMORY_SIZE) as u16;
    }

    /// One xorshift step: returns the drawn byte and moves the random
    /// state on.
    fn next_random(&mut self) -> (b: u8)
        ensures
            final(self)@ == (MachineState { rng: next_rng(old(self)@.rng), ..old(self)@ }),
            b == rng_byte(old(self)@.rng),
    {
        let mut x = self.rng;
        x = x ^ (x << 13);
        x = x ^ (x >> 7);
        x = x ^ (x << 17);
        self.rng = x;
        (x & 0xFF) as u8
    }

    /// Draws the sprite the `Draw` instruction names: `n` rows read from
    /// memory at the index register, XORed onto the display at the
    /// coordinates held in `VX` and `VY`, both taken modulo the screen
    /// dimensions. Returns whether any pixel was toggled from lit to
    /// unlit.
    fn op_draw(&mut self, vx: u8, vy: u8, n: u8) -> (collision: bool)
        requires
            old(self).wf(),
            vx < 16,
            vy < 16,
            n < 16,
        ensures
            final(self).wf(),
            ({
                let x0 = (old(self)@.registers[vx as int] % (WIDTH as u8)) as int;
                let y0 = (old(self)@.registers[vy as int] % (HEIGHT as u8)) as int;
                let drawn = draw_rows(
                    old(self)@.memory,
                    old(self)@.screen,
                    old(self)@.index as int,
                    x0,
                    y0,
                    n as nat,
                );
                final(self)@ == (MachineState { screen: drawn.0, ..old(self)@ }) && collision
                    == drawn.1
            }),
    {
        let ghost s0 = self@;
        let x0 = self.registers[vx as usize] % (WIDTH as u8);
        let y0 = self.registers[vy as usize] % (HEIGHT as u8);
        let mut collision = false;
        let mut r: u8 = 0;
        while r < n
            invariant
                self.wf(),
                s0.wf(),
                r <= n,
                n < 16,
                vx < 16,
                vy < 16,
                x0 == s0.registers[vx as int] % (WIDTH as u8),
                y0 == s0.registers[vy as int] % (HEIGHT as u8),
                ({
                    let drawn = draw_rows(
                        s0.memory,
                        s0.screen,
                        s0.index as int,
                        x0 as int,
                        y0 as int,
                        r as nat,
                    );
                    self@ == (MachineState { screen: drawn.0, ..s0 }) && collision == drawn.1
                }),
            decreases n - r,
        {
            let byte = self.memory[(self.index as usize + r as usize) % MEMORY_SIZE];
            let y = ((y0 as usize + r as usize) % HEIGHT) as u8;
            let ghost prev = self@.screen;
            let ghost prev_col = collision;
            let mut i: u8 = 0;
            while i < 8
                invariant
                    self.wf(),
                    s0.wf(),
                    i <= 8,
                    x0 < WIDTH as u8,
                    y < HEIGHT as u8,
                    byte == s0.memory[(s0.index as int + r as int) % (MEMORY_SIZE as int)],
                    y as int == (y0 as int + r as int) % (HEIGHT as int),
                    self@ == (MachineState { screen: self@.screen, ..s0 }),
                    ({
                        let db = draw_byte(prev, byte, x0 as int, y as int, i as nat);
                        self@.screen == db.0 && collision == (prev_col || db.1)
                    }),
                decreases 8 - i,
            {
                if (byte >> (7 - i)) & 1 == 1 {
                    let x = ((x0 as usize + i as usize) % WIDTH) as u8;
                    let lit = self.screen.invert(x, y);
                    if !lit {
                        collision = true;
                    }
                }
                i = i + 1;
            }
            proof {
                let rows_prev = draw_rows(
                    s0.memory,
                    s0.screen,
                    s0.index as int,
                    x0 as int,
                    y0 as int,
                    r as nat,
                );
                let rows_next = draw_rows(
                    s0.memory,
                    s0.screen,
                    s0.index as int,
                    x0 as int,
                    y0 as int,
                    (r + 1) as nat,
                );
                assert(rows_next.0 == draw_byte(
                    rows_prev.0,
                    byte,
                    x0 as int,
                    y as int,
                    8,
                ).0);
            }
            r = r + 1;
        }
        collision
    }

    /// Stores `V0..=VX` to memory at the index register, ascending, for
    /// the `DumpRegisters` instruction.
    fn op_dump(&mut self, vx: u8)
        requires
            old(self).wf(),
            vx < 16,
        ensures
            final(self).wf(),
            final(self)@ == (MachineState {
                memory: store_registers(
                    old(self)@.memory,
                    old(self)@.registers,
                    old(self)@.index as int,
                    (vx + 1) as nat,
                ),
                ..old(self)@
            }),
    {
        let ghost s0 = self@;
        let count: usize = vx as usize + 1;
        let mut k: usize = 0;
        while k < count
            invariant
                self.wf(),
                s0.wf(),
                k <= count,
                count == vx as usize + 1,
                vx < 16,
                self@ == (MachineState {
                    memory: store_registers(s0.memory, s0.registers, s0.index as int, k as nat),
                    ..s0
                }),
            decreases count - k,
        {
            let value = self.registers[k];
            let addr = (self.index as usize + k) % MEMORY_SIZE;
            self.memory[addr] = value;
            k = k + 1;
        }
    }

    /// Loads `V0..=VX` from memory at the index register, ascending, for
    /// the `LoadRegisters` instruction.
    fn op_load(&mut self, vx: u8)
        requires
            old(self).wf(),
            vx < 16,
        ensures
            final(self).wf(),
            final(self)@ == (MachineState {
                registers: load_registers(
                    old(self)@.registers,
                    old(self)@.memory,
                    old(self)@.index as int,
                    (vx + 1) as nat,
                ),
                ..old(self)@
            }),
    {
        let ghost s0 = self@;
        let count: usize = vx as usize + 1;
        let mut k: usize = 0;
        while k < count
            invariant
                self.wf(),
                s0.wf(),
                k <= count,
                count == vx as usize + 1,
                vx < 16,
                self@ == (MachineState {
                    registers: load_registers(s0.registers, s0.memory, s0.index as int, k as nat),
                    ..s0
                }),
            decreases count - k,
        {
            let addr = (self.index as usize + k) % MEMORY_SIZE;
            let value = self.memory[addr];
            self.registers[k] = value;
            k = k + 1;
        }
    }

    /// Executes one decoded instruction: exactly the transition
    /// [`MachineState::execute`] describes, including the program counter
    /// advance. Returns whether the display changed; an error changes
    /// nothing.
    ///
    /// `CallMachineCodeRoutine` and `Unknown` are excluded: decoding never
    /// produces them.
    pub fn execute(&mut self, inst: Instruction) -> (r: Result<bool, Chip8Error>)
        requires
            old(self).wf(),
            inst.wf(),
            !(inst is CallMachineCodeRoutine),
            !(inst is Unknown),
        ensures
            final(self).wf(),
            (match old(self)@.execute(inst) {
                Ok(step) => r == Ok::<bool, Chip8Error>(step.1) && final(self)@ == step.0,
                Err(e) => r == Err::<bool, Chip8Error>(e) && final(self)@ == old(self)@,
            }),
    {
        match inst {
            Instruction::CallMachineCodeRoutine | Instruction::Unknown => {
                // Unreachable: excluded by the precondition.
                Err(Chip8Error::ProgramNotCompatible)
            },
            Instruction::Clear => {
                self.advance_pc();
                self.screen.clear();
                Ok(true)
            },
            Instruction::Return => {
                match self.stack.pop() {
                    Some(addr) => {
                        self.pc = addr;
                        proof {
                            assert(self@.stack =~= old(self)@.stack.drop_last());
                        }
                        Ok(false)
                    },
                    None => Err(Chip8Error::StackUnderflow),
                }
            },
            Instruction::Jump { nnn } => {
                self.pc = nnn;
                Ok(false)
            },
            Instruction::Call { nnn } => {
                if self.stack.len() >= STACK_CAPACITY {
                    return Err(Chip8Error::StackOverflow);
                }
                let ret = ((self.pc as usize + 2) % MEMORY_SIZE) as u16;
                self.stack.push(ret);
                self.pc = nnn;
                Ok(false)
            },
            Instruction::SkipIfRegisterEquals { vx, nn } => {
                self.advance_pc();
                if self.registers[vx as usize] == nn {
                    self.advance_pc();
                }
                Ok(false)
            },
            Instruction::SkipIfRegisterNotEquals { vx, nn } => {
                self.advance_pc();
                if self.registers[vx as usize] != nn {
                    self.advance_pc();
                }
                Ok(false)
            },
            Instruction::SkipIfRegisterVxEqualsVy { vx, vy } => {
                self.advance_pc();
                if self.registers[vx as usize] == self.registers[vy as usize] {
                    self.advance_pc();
                }
                Ok(false)
            },
            Instruction::SetImmediate { vx, nn } => {
                self.advance_pc();
                self.registers[vx as usize] = nn;
                Ok(false)
            },
            Instruction::AddImmediate { vx, nn } => {
                self.advance_pc();
                let a = self.registers[vx as usize];
                let sum: usize = a as usize + nn as usize;
                self.registers[vx as usize] = (sum % 256) as u8;
                Ok(false)
            },
            Instruction::Copy { vx, vy } => {
                self.advance_pc();
                let value = self.registers[vy as usize];
                self.registers[vx as usize] = value;
                Ok(false)
            },
            Instruction::BitwiseOr { vx, vy } => {
                self.advance_pc();
                let a = self.registers[vx as usize];
                let b = self.registers[vy as usize];
                self.registers[vx as usize] = a | b;
                Ok(false)
            },
            Instruction::BitwiseAnd { vx, vy } => {
                self.advance_pc();
                let a = self.registers[vx as usize];
                let b = self.registers[vy as usize];
                self.registers[vx as usize] = a & b;
                Ok(false)
            },
            Instruction::BitwiseXor { vx, vy } => {
                self.advance_pc();
                let a = self.registers[vx as usize];
                let b = self.registers[vy as usize];
                self.registers[vx as usize] = a ^ b;
                Ok(false)
            },
            Instruction::Add { vx, vy } => {
                self.advance_pc();
                let a = self.registers[vx as usize];
                let b = self.registers[vy as usize];
                let sum: usize = a as usize + b as usize;
                self.registers[vx as usize] = (sum % 256) as u8;
                self.registers[15] = if sum > 255 {
                    1
                } else {
                    0
                };
                Ok(false)
            },
            Instruction::Subtract { vx, vy } => {
                self.advance_pc();
                let a = self.registers[vx as usize];
                let b = self.registers[vy as usize];
                self.registers[vx as usize] = if a >= b {
                    a - b
                } else {
                    ((a as usize + 256 - b as usize)) as u8
                };
                self.registers[15] = if a >= b {
                    1
                } else {
                    0
                };
                Ok(false)
            },
            Instruction::RightShift { vx } => {
                self.advance_pc();
                let a = self.registers[vx as usize];
                self.registers[15] = a & 1;
                self.registers[vx as usize] = a >> 1;
                Ok(false)
            },
            Instruction::SetVxToVyMinusVx { vx, vy } => {
                self.advance_pc();
                let a = self.registers[vx as usize];
                let b = self.registers[vy as usize];
                self.registers[vx as usize] = if b >= a {
                    b - a
                } else {
                    ((b as usize + 256 - a as usize)) as u8
                };
                self.registers[15] = if b >= a {
                    1
                } else {
                    0
                };
                Ok(false)
            },
            Instruction::LeftShift { vx } => {
                self.advance_pc();
                let a = self.registers[vx as usize];
                self.registers[15] = (a >> 7) & 1;
                self.registers[vx as usize] = a << 1;
                Ok(false)
            },
            Instruction::SkipIfRegisterVxNotEqualsVy { vx, vy } => {
                self.advance_pc();
                if self.registers[vx as usize] != self.registers[vy as usize] {
                    self.advance_pc();
                }
                Ok(false)
            },
            Instruction::SetIndexRegister { nnn } => {
                self.advance_pc();
                self.index = nnn;
                Ok(false)
            },
            Instruction::JumpWithPcOffset { nnn } => {
                let offset = self.registers[0];
                self.pc = ((nnn as usize + offset as usize) % MEMORY_SIZE) as u16;
                Ok(false)
            },
            Instruction::Random { vx, nn } => {
                self.advance_pc();
                let byte = self.next_random();
                self.registers[vx as usize] = byte & nn;
                Ok(false)
            },
            Instruction::Draw { vx, vy, n } => {
                self.advance_pc();
                let collision = self.op_draw(vx, vy, n);
                self.registers[15] = if collision {
                    1
                } else {
                    0
                };
                Ok(true)
            },
            Instruction::SkipIfKeyPressed { vx } => {
                self.advance_pc();
                let wanted = self.registers[vx as usize] & 0xF;
                let pressed = match self.key {
                    Some(p) => p == wanted,
                    None => false,
                };
                if pressed {
                    self.advance_pc();
                }
                Ok(false)
            },
            Instruction::SkipIfKeyNotPressed { vx } => {
                self.advance_pc();
                let wanted = self.registers[vx as usize] & 0xF;
                let pressed = match self.key {
                    Some(p) => p == wanted,
                    None => false,
                };
                if !pressed {
                    self.advance_pc();
                }
                Ok(false)
            },
            Instruction::SetVxToDelayTimer { vx } => {
                self.advance_pc();
                let value = self.delay_timer.get();
                self.registers[vx as usize] = value;
                Ok(false)
            },
            Instruction::AwaitKeyInput { vx } => {
                match self.key {
                    Some(k) => {
                        self.advance_pc();
                        self.registers[vx as usize] = k;
                        Ok(false)
                    },
                    // No key yet: leave the whole state untouched so the
                    // same instruction is fetched again next cycle.
                    None => Ok(false),
                }
            },
            Instruction::SetDelayTimer { vx } => {
                self.advance_pc();
                let value = self.registers[vx as usize];
                self.delay_timer.set(value);
                Ok(false)
            },
            Instruction::SetSoundTimer { vx } => {
                self.advance_pc();
                let value = self.registers[vx as usize];
                self.sound_timer.set(value);
                Ok(false)
            },
            Instruction::AddToIndex { vx } => {
                self.advance_pc();
                let value = self.registers[vx as usize];
                self.index = ((self.index as usize + value as usize) % MEMORY_SIZE) as u16;
                Ok(false)
            },
            Instruction::SetIndexToFontCharacter { vx } => {
                self.advance_pc();
                let character = self.registers[vx as usize] & 0xF;
                self.index = (FONT_BASE + 5 * character as usize) as u16;
                Ok(false)
            },
            Instruction::SetIndexToBinaryCodedVx { vx } => {
                self.advance_pc();
                let v = self.registers[vx as usize];
                let base = self.index as usize;
                self.memory[base] = v / 100;
                self.memory[(base + 1) % MEMORY_SIZE] = (v / 10) % 10;
                self.memory[(base + 2) % MEMORY_SIZE] = v % 10;
                Ok(false)
            },
            Instruction::DumpRegisters { vx } => {
                self.advance_pc();
                self.op_dump(vx);
                Ok(false)
            },
            Instruction::LoadRegisters { vx } => {
                self.advance_pc();
                self.op_load(vx);
                Ok(false)
            },
        }
    }

    /// One fetch-decode-execute step.
    ///
    /// Fetches the big-endian opcode at the program counter, decodes it
    /// and executes it; returns whether the display changed, so that the
    /// caller can publish a frame. Exactly the transition
    /// [`MachineState::cycle`] describes; any error leaves the machine as
    /// it was, and the caller decides whether to halt or reset.
    pub fn cycle(&mut self) -> (r: Result<bool, Chip8Error>)
        requires
            old(self).wf(),
        ensures
            final(self).wf(),
            (match old(self)@.cycle() {
                Ok(step) => r == Ok::<bool, Chip8Error>(step.1) && final(self)@ == step.0,
                Err(e) => r == Err::<bool, Chip8Error>(e) && final(self)@ == old(self)@,
            }),
    {
        let hi = self.memory[self.pc as usize];
        let lo = self.memory[(self.pc as usize + 1) % MEMORY_SIZE];
        let opcode = ((hi as u16) << 8) | (lo as u16);
        match Instruction::new(opcode) {
            Err(e) => Err(e),
            Ok(inst) => self.execute(inst),
        }
    }

    /// The value of register `V0..VF` number `i`.
    pub fn register(&self, i: u8) -> (v: u8)
        requires
            self.wf(),
            i < 16,
        ensures
            v == self@.registers[i as int],
    {
        self.registers[i as usize]
    }

    /// The program counter.
    pub fn program_counter(&self) -> (pc: u16)
        ensures
            pc == self@.pc,
    {
        self.pc
    }

    /// The index register.
    pub fn index_register(&self) -> (i: u16)
        ensures
            i == self@.index,
    {
        self.index
    }

    /// The byte at a memory address.
    pub fn memory_at(&self, addr: u16) -> (b: u8)
        requires
            self.wf(),
            addr < MEMORY_SIZE,
        ensures
            b == self@.memory[addr as int],
    {
        self.memory[addr as usize]
    }

    /// The current call depth.
    pub fn stack_depth(&self) -> (d: usize)
        ensures
            d == self@.stack.len(),
    {
        self.stack.len()
    }

    /// The currently recorded key, or none.
    pub fn pressed_key(&self) -> (k: Option<u8>)
        ensures
            k == self@.key,
    {
        self.key
    }
}

} // verus!
