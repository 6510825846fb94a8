//! Properties that relate several operations of the machine, stated and
//! proved against the model in [`crate::state`].

use crate::instructions::Instruction;
use crate::screen::Screen;
use crate::state::draw_byte;
use crate::state::draw_rows;
use crate::state::MachineState;
use crate::Chip8Error;
use crate::HEIGHT;
use crate::MEMORY_SIZE;
use crate::SCREEN_SIZE;
use crate::WIDTH;
use vstd::prelude::*;

verus! {

/// Law: every `0NNN` opcode other than `00E0` and `00EE` is refused as an
/// incompatible program, never as a malformed instruction.
pub proof fn lemma_native_call_refused(raw: u16)
    requires
        raw >> 12 == 0,
        raw & 0x00FF != 0xE0,
        raw & 0x00FF != 0xEE,
    ensures
        Instruction::spec_decode(raw) == Err::<Instruction, Chip8Error>(
            Chip8Error::ProgramNotCompatible,
        ),
{
}

/// Law: every `8XYN` opcode whose low nibble selects no defined operation
/// (anything outside `0..=7` and `E`) is refused as a malformed
/// instruction carrying the offending raw value.
pub proof fn lemma_unused_arithmetic_selector_refused(raw: u16)
    requires
        raw >> 12 == 0x8,
        raw & 0x000F >= 8,
        raw & 0x000F != 0xE,
    ensures
        Instruction::spec_decode(raw) == Err::<Instruction, Chip8Error>(
            Chip8Error::InvalidInstruction { instruction: raw },
        ),
{
    assert(raw & 0x000F < 16) by (bit_vector);
}

/// Law: for all register values `a` and `b`, `Add` stores `(a + b) mod
/// 256` and sets `VF` to 1 exactly when `a + b` overflows 255.
pub proof fn lemma_add_sets_carry(s: MachineState, vx: u8, vy: u8)
    requires
        s.wf(),
        vx < 16,
        vy < 16,
    ensures
        ({
            let a = s.registers[vx as int];
            let b = s.registers[vy as int];
            let r = s.execute(Instruction::Add { vx, vy });
            &&& r is Ok
            &&& r.unwrap().0.registers[15] == (if a + b > 255 {
                1u8
            } else {
                0u8
            })
            &&& (vx != 15 ==> r.unwrap().0.registers[vx as int] == (a + b) % 256)
        }),
{
}

/// Law: for all register values `a` and `b`, `Subtract` stores `(a - b)
/// mod 256` and sets `VF` to 1 exactly when there is no borrow, that is
/// when `a >= b`.
pub proof fn lemma_subtract_sets_borrow(s: MachineState, vx: u8, vy: u8)
    requires
        s.wf(),
        vx < 16,
        vy < 16,
    ensures
        ({
            let a = s.registers[vx as int];
            let b = s.registers[vy as int];
            let r = s.execute(Instruction::Subtract { vx, vy });
            &&& r is Ok
            &&& r.unwrap().0.registers[15] == (if a >= b {
                1u8
            } else {
                0u8
            })
            &&& (vx != 15 ==> r.unwrap().0.registers[vx as int] == (a - b + 256) % 256)
        }),
{
}

/// Law: inverting a pixel changes exactly the targeted cell and nothing
/// else.
pub proof fn lemma_invert_toggles_one_cell(cells: Seq<u8>, x: int, y: int)
    requires
        cells.len() == SCREEN_SIZE,
        0 <= x < WIDTH,
        0 <= y < HEIGHT,
    ensures
        ({
            let flipped = Screen::spec_invert(cells, x, y);
            &&& flipped.len() == SCREEN_SIZE
            &&& flipped[y * WIDTH + x] == (if cells[y * WIDTH + x] == 1 {
                0u8
            } else {
                1u8
            })
            &&& forall|i: int|
                0 <= i < SCREEN_SIZE && i != y * WIDTH + x ==> flipped[i] == cells[i]
        }),
{
}

/// Law: inverting the same pixel twice restores the display exactly.
pub proof fn lemma_invert_involution(cells: Seq<u8>, x: int, y: int)
    requires
        cells.len() == SCREEN_SIZE,
        0 <= x < WIDTH,
        0 <= y < HEIGHT,
        cells[y * WIDTH + x] == 0 || cells[y * WIDTH + x] == 1,
    ensures
        Screen::spec_invert(Screen::spec_invert(cells, x, y), x, y) == cells,
{
    assert(Screen::spec_invert(Screen::spec_invert(cells, x, y), x, y) =~= cells);
}

/// Law: while no key is pressed, a cycle that lands on `AwaitKeyInput`
/// changes nothing at all, the program counter included, however many
/// times it runs.
pub proof fn lemma_await_key_stalls(s: MachineState, vx: u8)
    requires
        s.wf(),
        Instruction::spec_decode(s.fetch()) == Ok::<Instruction, Chip8Error>(
            Instruction::AwaitKeyInput { vx },
        ),
        s.key is None,
    ensures
        s.cycle() == Ok::<(MachineState, bool), Chip8Error>((s, false)),
{
}

/// Law: the moment a key is recorded, a cycle that lands on
/// `AwaitKeyInput` stores that key in `VX` and advances the program
/// counter exactly once; nothing else changes.
pub proof fn lemma_await_key_resumes(s: MachineState, vx: u8, k: u8)
    requires
        s.wf(),
        vx < 16,
        Instruction::spec_decode(s.fetch()) == Ok::<Instruction, Chip8Error>(
            Instruction::AwaitKeyInput { vx },
        ),
        s.key == Some(k),
    ensures
        s.cycle() == Ok::<(MachineState, bool), Chip8Error>(
            (
                (MachineState {
                    pc: MachineState::adv_pc(s.pc),
                    registers: s.registers.update(vx as int, k),
                    ..s
                }),
                false,
            ),
        ),
{
}

/// Whether sprite pixel `i` of a row byte is set; bit 7 is the leftmost
/// pixel.
pub open spec fn row_bit(byte: u8, i: int) -> bool {
    (byte >> ((7 - i) as u8)) & 1 == 1
}

/// A register value toggled between 0 and 1, as an XOR draw does to a
/// cell.
pub open spec fn flip_bit(c: u8) -> u8 {
    if c == 1 {
        0u8
    } else {
        1u8
    }
}

/// Whether drawing the first `bits` pixels of `byte` at `(x0, y)` toggles
/// the cell at `addr`.
pub open spec fn byte_touches(byte: u8, x0: int, y: int, bits: nat, addr: int) -> bool {
    exists|i: int|
        0 <= i < bits && #[trigger] row_bit(byte, i) && addr == y * WIDTH + (x0 + i) % (
        WIDTH as int)
}

/// What drawing one sprite row does, cell by cell: a touched cell is
/// toggled, every other cell is untouched, and the collision flag is set
/// exactly when some set sprite pixel lands on a lit cell.
pub proof fn lemma_draw_byte_pointwise(cells: Seq<u8>, byte: u8, x0: int, y: int, bits: nat)
    requires
        cells.len() == SCREEN_SIZE,
        0 <= x0 < WIDTH,
        0 <= y < HEIGHT,
        bits <= 8,
    ensures
        ({
            let drawn = draw_byte(cells, byte, x0, y, bits);
            &&& drawn.0.len() == SCREEN_SIZE
            &&& forall|addr: int|
                0 <= addr < SCREEN_SIZE ==> drawn.0[addr] == (if byte_touches(
                    byte,
                    x0,
                    y,
                    bits,
                    addr,
                ) {
                    flip_bit(cells[addr])
                } else {
                    cells[addr]
                })
            &&& drawn.1 == exists|i: int|
                0 <= i < bits && #[trigger] row_bit(byte, i) && cells[y * WIDTH + (x0 + i) % (
                WIDTH as int)] == 1
        }),
    decreases bits,
{
    if bits > 0 {
        lemma_draw_byte_pointwise(cells, byte, x0, y, (bits - 1) as nat);
        let prev = draw_byte(cells, byte, x0, y, (bits - 1) as nat);
        let i0 = bits - 1;
        let x_new = (x0 + i0) % (WIDTH as int);
        let addr_new = y * WIDTH + x_new;
        // The new pixel's cell is not among those the earlier pixels
        // touched: offsets within one row are distinct modulo the width.
        assert forall|i: int| 0 <= i < i0 implies #[trigger] ((x0 + i) % (WIDTH as int)) != x_new by {
            assert((x0 + i) % (WIDTH as int) == if x0 + i < WIDTH {
                x0 + i
            } else {
                x0 + i - WIDTH
            });
            assert(x_new == if x0 + i0 < WIDTH {
                x0 + i0
            } else {
                x0 + i0 - WIDTH
            });
        }
        assert(!byte_touches(byte, x0, y, (bits - 1) as nat, addr_new));
        if row_bit(byte, i0) {
            assert(prev.0[addr_new] == cells[addr_new]);
            // Witnesses in both directions for the touched set and the
            // collision flag of the extended row.
            assert forall|addr: int|
                0 <= addr < SCREEN_SIZE && byte_touches(byte, x0, y, bits, addr) && addr
                    != addr_new implies byte_touches(byte, x0, y, (bits - 1) as nat, addr) by {
                let i = choose|i: int|
                    0 <= i < bits && #[trigger] row_bit(byte, i) && addr == y * WIDTH + (x0 + i)
                        % (WIDTH as int);
                assert(i < bits - 1);
                assert(row_bit(byte, i));
            }
            assert(byte_touches(byte, x0, y, bits, addr_new));
        } else {
            assert forall|addr: int|
                0 <= addr < SCREEN_SIZE && byte_touches(byte, x0, y, bits, addr) implies
                byte_touches(byte, x0, y, (bits - 1) as nat, addr) by {
                let i = choose|i: int|
                    0 <= i < bits && #[trigger] row_bit(byte, i) && addr == y * WIDTH + (x0 + i)
                        % (WIDTH as int);
                if i == i0 {
                    assert(false);
                }
                assert(row_bit(byte, i));
            }
        }
    }
}

/// Every cell a row draw touches lies on its own display line.
pub proof fn lemma_byte_touches_in_row(byte: u8, x0: int, y: int, bits: nat, addr: int)
    requires
        0 <= x0,
        byte_touches(byte, x0, y, bits, addr),
    ensures
        y * WIDTH <= addr < y * WIDTH + WIDTH,
{
    let i = choose|i: int|
        0 <= i < bits && #[trigger] row_bit(byte, i) && addr == y * WIDTH + (x0 + i) % (
        WIDTH as int);
    assert(0 <= (x0 + i) % (WIDTH as int) < WIDTH);
}

/// Whether drawing the first `rows` rows of the sprite at `index` toggles
/// the cell at `addr`.
pub open spec fn sprite_touches(
    mem: Seq<u8>,
    index: int,
    x0: int,
    y0: int,
    rows: nat,
    addr: int,
) -> bool {
    exists|r: int|
        0 <= r < rows && #[trigger] byte_touches(
            mem[(index + r) % (MEMORY_SIZE as int)],
            x0,
            (y0 + r) % (HEIGHT as int),
            8,
            addr,
        )
}

/// Whether the sprite at `index` has a set pixel that lands on a lit cell
/// of `cells`.
pub open spec fn sprite_collides(
    mem: Seq<u8>,
    cells: Seq<u8>,
    index: int,
    x0: int,
    y0: int,
    rows: nat,
) -> bool {
    exists|r: int, i: int|
        0 <= r < rows && 0 <= i < 8 && #[trigger] row_bit(
            mem[(index + r) % (MEMORY_SIZE as int)],
            i,
        ) && cells[((y0 + r) % (HEIGHT as int)) * WIDTH + (x0 + i) % (WIDTH as int)] == 1
}

/// What drawing a whole sprite does, cell by cell: a touched cell is
/// toggled, every other cell is untouched, and the collision flag is set
/// exactly when some set sprite pixel lands on a lit cell. Each cell is
/// touched at most once: a sprite of at most 16 rows of 8 pixels lands on
/// distinct cells, offsets and rows wrapping modulo the dimensions.
pub proof fn lemma_draw_rows_pointwise(
    mem: Seq<u8>,
    cells: Seq<u8>,
    index: int,
    x0: int,
    y0: int,
    rows: nat,
)
    requires
        mem.len() == MEMORY_SIZE,
        cells.len() == SCREEN_SIZE,
        0 <= index,
        0 <= x0 < WIDTH,
        0 <= y0 < HEIGHT,
        rows <= 16,
    ensures
        ({
            let drawn = draw_rows(mem, cells, index, x0, y0, rows);
            &&& drawn.0.len() == SCREEN_SIZE
            &&& forall|addr: int|
                0 <= addr < SCREEN_SIZE ==> drawn.0[addr] == (if sprite_touches(
                    mem,
                    index,
                    x0,
                    y0,
                    rows,
                    addr,
                ) {
                    flip_bit(cells[addr])
                } else {
                    cells[addr]
                })
            &&& drawn.1 == sprite_collides(mem, cells, index, x0, y0, rows)
        }),
    decreases rows,
{
    if rows > 0 {
        lemma_draw_rows_pointwise(mem, cells, index, x0, y0, (rows - 1) as nat);
        let prev = draw_rows(mem, cells, index, x0, y0, (rows - 1) as nat);
        let r0 = rows - 1;
        let byte = mem[(index + r0) % (MEMORY_SIZE as int)];
        let y_new = (y0 + r0) % (HEIGHT as int);
        assert(0 <= y_new < HEIGHT);
        lemma_draw_byte_pointwise(prev.0, byte, x0, y_new, 8);
        let db = draw_byte(prev.0, byte, x0, y_new, 8);

        // Rows land on distinct display lines: at most 16 rows wrap on 32
        // lines.
        assert forall|r: int| 0 <= r < r0 implies #[trigger] ((y0 + r) % (HEIGHT as int))
            != y_new by {
            assert((y0 + r) % (HEIGHT as int) == if y0 + r < HEIGHT {
                y0 + r
            } else {
                y0 + r - HEIGHT
            });
            assert(y_new == if y0 + r0 < HEIGHT {
                y0 + r0
            } else {
                y0 + r0 - HEIGHT
            });
        }

        // Cells on the new row are untouched by the earlier rows.
        assert forall|addr: int| y_new * WIDTH <= addr < y_new * WIDTH + WIDTH implies
            !(#[trigger] sprite_touches(mem, index, x0, y0, (rows - 1) as nat, addr)) && 0 <= addr
            < SCREEN_SIZE by {
            if sprite_touches(mem, index, x0, y0, (rows - 1) as nat, addr) {
                let r = choose|r: int|
                    0 <= r < rows - 1 && #[trigger] byte_touches(
                        mem[(index + r) % (MEMORY_SIZE as int)],
                        x0,
                        (y0 + r) % (HEIGHT as int),
                        8,
                        addr,
                    );
                lemma_byte_touches_in_row(
                    mem[(index + r) % (MEMORY_SIZE as int)],
                    x0,
                    (y0 + r) % (HEIGHT as int),
                    8,
                    addr,
                );
                assert(false);
            }
        }

        // The new display, cell by cell.
        assert forall|addr: int| 0 <= addr < SCREEN_SIZE implies db.0[addr] == (if sprite_touches(
            mem,
            index,
            x0,
            y0,
            rows,
            addr,
        ) {
            flip_bit(cells[addr])
        } else {
            cells[addr]
        }) by {
            if byte_touches(byte, x0, y_new, 8, addr) {
                lemma_byte_touches_in_row(byte, x0, y_new, 8, addr);
                assert(prev.0[addr] == cells[addr]);
                assert(db.0[addr] == flip_bit(cells[addr]));
                assert(sprite_touches(mem, index, x0, y0, rows, addr));
            } else {
                assert(db.0[addr] == prev.0[addr]);
                if sprite_touches(mem, index, x0, y0, rows, addr) {
                    let r = choose|r: int|
                        0 <= r < rows && #[trigger] byte_touches(
                            mem[(index + r) % (MEMORY_SIZE as int)],
                            x0,
                            (y0 + r) % (HEIGHT as int),
                            8,
                            addr,
                        );
                    assert(r != r0);
                    assert(sprite_touches(mem, index, x0, y0, (rows - 1) as nat, addr));
                } else {
                    assert(!sprite_touches(mem, index, x0, y0, (rows - 1) as nat, addr));
                }
            }
        }

        // The earlier rows left the new row's cells alone, so its
        // collision report speaks of the starting cells.
        assert forall|i: int| 0 <= i < 8 implies #[trigger] prev.0[y_new * WIDTH + (x0 + i) % (
            WIDTH as int)] == cells[y_new * WIDTH + (x0 + i) % (WIDTH as int)] by {
            assert(0 <= (x0 + i) % (WIDTH as int) < WIDTH);
        }

        // The combined collision flag, in both directions.
        if draw_rows(mem, cells, index, x0, y0, rows).1 {
            if prev.1 {
                let (r, i) = choose|r: int, i: int|
                    0 <= r < rows - 1 && 0 <= i < 8 && #[trigger] row_bit(
                        mem[(index + r) % (MEMORY_SIZE as int)],
                        i,
                    ) && cells[((y0 + r) % (HEIGHT as int)) * WIDTH + (x0 + i) % (WIDTH as int)]
                        == 1;
                assert(sprite_collides(mem, cells, index, x0, y0, rows));
            } else {
                let i = choose|i: int|
                    0 <= i < 8 && #[trigger] row_bit(byte, i) && prev.0[y_new * WIDTH + (x0 + i)
                        % (WIDTH as int)] == 1;
                assert(cells[((y0 + r0) % (HEIGHT as int)) * WIDTH + (x0 + i) % (WIDTH as int)]
                    == 1);
                assert(sprite_collides(mem, cells, index, x0, y0, rows));
            }
        }
        if sprite_collides(mem, cells, index, x0, y0, rows) {
            let (r, i) = choose|r: int, i: int|
                0 <= r < rows && 0 <= i < 8 && #[trigger] row_bit(
                    mem[(index + r) % (MEMORY_SIZE as int)],
                    i,
                ) && cells[((y0 + r) % (HEIGHT as int)) * WIDTH + (x0 + i) % (WIDTH as int)] == 1;
            if r < r0 {
                assert(sprite_collides(mem, cells, index, x0, y0, (rows - 1) as nat));
            } else {
                assert(prev.0[y_new * WIDTH + (x0 + i) % (WIDTH as int)] == 1);
                assert(db.1);
            }
        }
    }
}

/// Law: drawing the same sprite twice at the same location restores the
/// display exactly, and the second draw reports a collision exactly when
/// the sprite has a set pixel whose cell was unlit before the first draw
/// turned it on; on a blank region, whenever the sprite has any set pixel
/// at all.
pub proof fn lemma_draw_twice_restores(
    mem: Seq<u8>,
    cells: Seq<u8>,
    index: int,
    x0: int,
    y0: int,
    rows: nat,
)
    requires
        mem.len() == MEMORY_SIZE,
        cells.len() == SCREEN_SIZE,
        forall|i: int| 0 <= i < SCREEN_SIZE ==> cells[i] == 0 || cells[i] == 1,
        0 <= index,
        0 <= x0 < WIDTH,
        0 <= y0 < HEIGHT,
        rows <= 16,
    ensures
        ({
            let first = draw_rows(mem, cells, index, x0, y0, rows);
            let second = draw_rows(mem, first.0, index, x0, y0, rows);
            &&& second.0 == cells
            &&& second.1 == exists|r: int, i: int|
                0 <= r < rows && 0 <= i < 8 && #[trigger] row_bit(
                    mem[(index + r) % (MEMORY_SIZE as int)],
                    i,
                ) && cells[((y0 + r) % (HEIGHT as int)) * WIDTH + (x0 + i) % (WIDTH as int)] == 0
        }),
{
    lemma_draw_rows_pointwise(mem, cells, index, x0, y0, rows);
    let first = draw_rows(mem, cells, index, x0, y0, rows);
    lemma_draw_rows_pointwise(mem, first.0, index, x0, y0, rows);
    let second = draw_rows(mem, first.0, index, x0, y0, rows);

    // A set sprite pixel's cell is a touched cell, so the first draw
    // toggled it.
    assert forall|r: int, i: int|
        0 <= r < rows && 0 <= i < 8 && #[trigger] row_bit(
            mem[(index + r) % (MEMORY_SIZE as int)],
            i,
        ) implies ({
        let addr = ((y0 + r) % (HEIGHT as int)) * WIDTH + (x0 + i) % (WIDTH as int);
        &&& 0 <= addr < SCREEN_SIZE
        &&& first.0[addr] == flip_bit(cells[addr])
    }) by {
        let y_r = (y0 + r) % (HEIGHT as int);
        let addr = y_r * WIDTH + (x0 + i) % (WIDTH as int);
        assert(byte_touches(mem[(index + r) % (MEMORY_SIZE as int)], x0, y_r, 8, addr));
        lemma_byte_touches_in_row(mem[(index + r) % (MEMORY_SIZE as int)], x0, y_r, 8, addr);
        assert(0 <= y_r < HEIGHT);
        assert(sprite_touches(mem, index, x0, y0, rows, addr));
    }

    // Toggling twice restores every cell.
    assert forall|addr: int| 0 <= addr < SCREEN_SIZE implies second.0[addr] == cells[addr] by {
        if sprite_touches(mem, index, x0, y0, rows, addr) {
            assert(first.0[addr] == flip_bit(cells[addr]));
            assert(second.0[addr] == flip_bit(flip_bit(cells[addr])));
        } else {
            assert(first.0[addr] == cells[addr]);
        }
    }
    assert(second.0 =~= cells);

    // The second draw collides exactly on the pixels the first draw
    // turned on.
    if second.1 {
        let (r, i) = choose|r: int, i: int|
            0 <= r < rows && 0 <= i < 8 && #[trigger] row_bit(
                mem[(index + r) % (MEMORY_SIZE as int)],
                i,
            ) && first.0[((y0 + r) % (HEIGHT as int)) * WIDTH + (x0 + i) % (WIDTH as int)] == 1;
        let addr = ((y0 + r) % (HEIGHT as int)) * WIDTH + (x0 + i) % (WIDTH as int);
        assert(cells[addr] == 0);
    }
    if exists|r: int, i: int|
        0 <= r < rows && 0 <= i < 8 && #[trigger] row_bit(
            mem[(index + r) % (MEMORY_SIZE as int)],
            i,
        ) && cells[((y0 + r) % (HEIGHT as int)) * WIDTH + (x0 + i) % (WIDTH as int)] == 0 {
        let (r, i) = choose|r: int, i: int|
            0 <= r < rows && 0 <= i < 8 && #[trigger] row_bit(
                mem[(index + r) % (MEMORY_SIZE as int)],
                i,
            ) && cells[((y0 + r) % (HEIGHT as int)) * WIDTH + (x0 + i) % (WIDTH as int)] == 0;
        let addr = ((y0 + r) % (HEIGHT as int)) * WIDTH + (x0 + i) % (WIDTH as int);
        assert(first.0[addr] == 1);
        assert(sprite_collides(mem, first.0, index, x0, y0, rows));
    }
}

} // verus!
