//! A CHIP-8 virtual machine core: instruction decoding, execution, display
//! and timer state, with the semantics of every operation stated in contracts.
//!
//! The crate is organised leaves first: [`screen`] and [`timer`] own the
//! display buffer and the two countdown timers, [`instructions`] decodes raw
//! 16-bit opcodes, [`state`] gives the mathematical model of the whole
//! machine and its transition functions, and [`cpu`] holds the executable
//! machine together with its fetch-decode-execute cycle. [`laws`] states and
//! proves properties that relate several operations.
//!
//! Platform concerns (window creation, keyboard scanning, frame presentation,
//! argument parsing) are deliberately outside this crate: the core receives
//! key state as a plain value and hands frames out as a plain byte buffer.

use vstd::prelude::*;

pub mod cpu;
pub mod instructions;
pub mod laws;
pub mod screen;
pub mod state;
pub mod timer;

verus! {

/// Width of the display in pixels.
pub const WIDTH: usize = 64;

/// Height of the display in pixels.
pub const HEIGHT: usize = 32;

/// Number of cells in the display buffer (`WIDTH * HEIGHT`).
pub const SCREEN_SIZE: usize = 2048;

/// Size of the addressable memory in bytes.
pub const MEMORY_SIZE: usize = 4096;

/// Address at which a program image is loaded and at which execution starts.
pub const PROGRAM_BASE: usize = 512;

/// Address at which the built-in font glyphs are loaded.
pub const FONT_BASE: usize = 80;

/// Number of bytes of font data: 16 glyphs of 5 bytes each.
pub const FONT_SIZE: usize = 80;

/// Maximum call depth of the subroutine stack.
pub const STACK_CAPACITY: usize = 16;

/// The fatal errors the machine can report.
///
/// Every error is fatal to the running program, never to the process: the
/// caller decides whether to halt or to reset and reload.
#[derive(Debug, Clone, Copy, PartialEq, Eq, Structural)]
pub enum Chip8Error {
    /// The program uses the native machine-code-call opcode (`0NNN` with a
    /// low byte other than `E0`/`EE`), which this machine deliberately does
    /// not implement.
    ProgramNotCompatible,
    /// The raw opcode matches no defined instruction. Carries the offending
    /// raw value for diagnostics.
    InvalidInstruction { instruction: u16 },
    /// A subroutine call would push beyond the stack's capacity.
    StackOverflow,
    /// A return was executed with an empty call stack.
    StackUnderflow,
    /// The program image does not fit in memory above the program base.
    LoadTooLarge,
}

} // verus!
