//! The monochrome display buffer.

use crate::HEIGHT;
use crate::SCREEN_SIZE;
use crate::WIDTH;
use vstd::prelude::*;

verus! {

/// The memory used for the screen. Each cell holds a boolean value: 1 for
/// white, 0 for black.
///
/// Cell 0 maps to the top left corner of the screen; the cell for a
/// coordinate pair is at `WIDTH * y + x`, row-major.
#[derive(Debug)]
pub struct Screen(Vec<u8>);

impl View for Screen {
    type V = Seq<u8>;

    closed spec fn view(&self) -> Seq<u8> {
        self.0@
    }
}

impl Default for Screen {
    /// Initializes the screen to black.
    fn default() -> (s: Screen)
        ensures
            s.wf(),
            s@ == Screen::spec_blank(),
    {
        Screen::new()
    }
}

impl Screen {
    /// Well-formedness: exactly one byte per pixel, each restricted to
    /// 0 or 1.
    pub open spec fn wf(&self) -> bool {
        &&& self@.len() == SCREEN_SIZE
        &&& forall|i: int| 0 <= i < SCREEN_SIZE ==> self@[i] == 0 || self@[i] == 1
    }

    /// The all-black display: every cell 0.
    pub open spec fn spec_blank() -> Seq<u8> {
        Seq::new(SCREEN_SIZE as nat, |i: int| 0u8)
    }

    /// Creates a screen initialised to black.
    pub fn new() -> (s: Screen)
        ensures
            s.wf(),
            s@ == Screen::spec_blank(),
    {
        let mut cells: Vec<u8> = Vec::new();
        let mut i: usize = 0;
        while i < SCREEN_SIZE
            invariant
                i <= SCREEN_SIZE,
                cells@.len() == i,
                forall|j: int| 0 <= j < i ==> cells@[j] == 0,
            decreases SCREEN_SIZE - i,
        {
            cells.push(0);
            i = i + 1;
        }
        let s = Screen(cells);
        proof {
            assert(s@ =~= Screen::spec_blank());
        }
        s
    }

    /// Clears the screen: every cell becomes 0.
    pub fn clear(&mut self)
        requires
            old(self).wf(),
        ensures
            final(self).wf(),
            final(self)@ == Screen::spec_blank(),
    {
        let mut i: usize = 0;
        while i < SCREEN_SIZE
            invariant
                i <= SCREEN_SIZE,
                self@.len() == SCREEN_SIZE,
                forall|j: int| 0 <= j < i ==> self@[j] == 0,
            decreases SCREEN_SIZE - i,
        {
            self.0[i] = 0;
            i = i + 1;
        }
        proof {
            assert(self@ =~= Screen::spec_blank());
        }
    }

    /// The display after flipping the cell at `(x, y)`: that cell toggled
    /// between 0 and 1, every other cell unchanged.
    pub open spec fn spec_invert(cells: Seq<u8>, x: int, y: int) -> Seq<u8> {
        cells.update(y * WIDTH + x, if cells[y * WIDTH + x] == 1 { 0u8 } else { 1u8 })
    }

    /// Inverts the pixel at the given coordinates.
    ///
    /// Returns the new value of the pixel: true for white, false for black.
    /// The caller uses a false return (a pixel that was lit and is now
    /// unlit) to detect a sprite collision.
    pub fn invert(&mut self, x: u8, y: u8) -> (lit: bool)
        requires
            old(self).wf(),
            x < WIDTH,
            y < HEIGHT,
        ensures
            final(self).wf(),
            final(self)@ == Screen::spec_invert(old(self)@, x as int, y as int),
            lit == (old(self)@[y as int * WIDTH + x as int] == 0),
    {
        let address = (y as usize * WIDTH) + x as usize;

        let new_state = self.0[address] != 1;
        self.0[address] = if new_state {
            1
        } else {
            0
        };

        new_state
    }

    /// Read access to the whole buffer, one byte per pixel, row-major from
    /// the top left.
    pub fn get(&self) -> (cells: &Vec<u8>)
        ensures
            cells@ == self@,
    {
        &self.0
    }
}

} // verus!
