//! The machine's side of input and output: the pixels of the display and
//! the keys of the keypad, as plain values. The window and the keyboard
//! themselves are the host's.

use crate::machine::{place_of, DISPLAY_HEIGHT, DISPLAY_SIZE, DISPLAY_WIDTH};
use vstd::prelude::*;

verus! {

/// The pixels of the display and the keys of the keypad.
pub struct InputOutput {
    /// The pixels, row by row: the pixel of column `x` and row `y` is at
    /// `y * 64 + x`.
    pub pixels: [bool; 2048],
    /// For each of the sixteen keys, whether it is pressed.
    pub keys: [bool; 16],
}

impl Default for InputOutput {
    /// A dark display and a keypad with no key pressed.
    fn default() -> (io: Self)
        ensures
            io.pixels@ == Seq::new(DISPLAY_SIZE as nat, |p: int| false),
            io.keys@ == Seq::new(16, |k: int| false),
    {
        InputOutput { pixels: [false;2048], keys: [false;16] }
    }
}

impl InputOutput {
    /// Turns every pixel off: what clearing the display does to the
    /// framebuffer. Wiping the window before a frame is drawn is the
    /// host's, and leaves the pixels as they are.
    pub fn clear_pixels(&mut self)
        ensures
            final(self).pixels@ == Seq::new(DISPLAY_SIZE as nat, |p: int| false),
            final(self).keys == old(self).keys,
    {
        let mut p: usize = 0;
        while p < DISPLAY_SIZE
            invariant
                p <= DISPLAY_SIZE,
                self.keys == old(self).keys,
                forall|q: int| 0 <= q < p ==> !self.pixels@[q],
            decreases DISPLAY_SIZE - p,
        {
            self.pixels[p] = false;
            p += 1;
        }
    }

    /// Turns the pixel of column `x` and row `y` on.
    pub fn set_pixel(&mut self, x: u32, y: u32)
        requires
            x < DISPLAY_WIDTH,
            y < DISPLAY_HEIGHT,
        ensures
            final(self).pixels@ == old(self).pixels@.update(y * DISPLAY_WIDTH + x, true),
            final(self).keys == old(self).keys,
    {
        self.pixels[((y * 64) + x) as usize] = true;
    }

    /// Flips the pixel of column `x` and row `y`, and says whether it went
    /// off.
    pub fn flip_pixel(&mut self, x: u8, y: u8) -> (went_off: bool)
        requires
            x < DISPLAY_WIDTH,
            y < DISPLAY_HEIGHT,
        ensures
            went_off == old(self).pixels@[place_of((x, y))],
            final(self).pixels@ == old(self).pixels@.update(place_of((x, y)), !went_off),
            final(self).keys == old(self).keys,
    {
        let p: usize = y as usize * 64 + x as usize;
        let was_on = self.pixels[p];
        self.pixels[p] = !was_on;
        was_on
    }

    /// Whether the pixel of column `x` and row `y` is on.
    pub fn pixel(&self, x: u8, y: u8) -> (on: bool)
        requires
            x < DISPLAY_WIDTH,
            y < DISPLAY_HEIGHT,
        ensures
            on == self.pixels@[place_of((x, y))],
    {
        self.pixels[y as usize * 64 + x as usize]
    }

    /// What is to be drawn: the positions, as column and row, of the
    /// pixels that are on. Every such pixel is listed once, and they come
    /// row by row, each row from left to right.
    pub fn draw(&self) -> (lit: Vec<(u8, u8)>)
        ensures
            forall|i: int|
                0 <= i < lit.len() ==> (#[trigger] lit[i]).0 < DISPLAY_WIDTH && lit[i].1
                    < DISPLAY_HEIGHT && self.pixels@[place_of(lit[i])],
            forall|i: int, j: int|
                0 <= i < j < lit.len() ==> place_of(#[trigger] lit[i]) < place_of(
                    #[trigger] lit[j],
                ),
            forall|x: u8, y: u8|
                x < DISPLAY_WIDTH && y < DISPLAY_HEIGHT && self.pixels@[place_of((x, y))]
                    ==> lit@.contains((x, y)),
    {
        let mut lit: Vec<(u8, u8)> = Vec::new();
        let mut p: usize = 0;
        while p < DISPLAY_SIZE
            invariant
                p <= DISPLAY_SIZE,
                forall|i: int|
                    0 <= i < lit.len() ==> (#[trigger] lit[i]).0 < DISPLAY_WIDTH && lit[i].1
                        < DISPLAY_HEIGHT && place_of(lit[i]) < p && self.pixels@[place_of(lit[i])],
                forall|i: int, j: int|
                    0 <= i < j < lit.len() ==> place_of(#[trigger] lit[i]) < place_of(
                        #[trigger] lit[j],
                    ),
                forall|q: int|
                    0 <= q < p && #[trigger] self.pixels@[q] ==> lit@.contains(
                        ((q % 64) as u8, (q / 64) as u8),
                    ),
            decreases DISPLAY_SIZE - p,
        {
            if self.pixels[p] {
                let ghost listed = lit@;
                let position = ((p % 64) as u8, (p / 64) as u8);
                lit.push(position);
                proof {
                    assert(lit@[listed.len() as int] == position);
                    assert forall|q: int|
                        0 <= q < p + 1 && #[trigger] self.pixels@[q] implies lit@.contains(
                        ((q % 64) as u8, (q / 64) as u8),
                    ) by {
                        if q < p {
                            let i = listed.index_of(((q % 64) as u8, (q / 64) as u8));
                            assert(lit@[i] == listed[i]);
                        }
                    }
                }
            }
            p += 1;
        }
        proof {
            assert forall|x: u8, y: u8|
                x < DISPLAY_WIDTH && y < DISPLAY_HEIGHT && self.pixels@[place_of(
                    (x, y),
                )] implies lit@.contains((x, y)) by {
                let q = place_of((x, y));
                assert(self.pixels@[q]);
                assert(q % 64 == x && q / 64 == y);
            }
        }
        lit
    }

    /// Whether the key with code `key` is pressed. A code above 15 names
    /// no key, and counts as not pressed.
    pub fn key_pressed(&self, key: u8) -> (pressed: bool)
        ensures
            pressed == (key < 16 && self.keys@[key as int]),
    {
        key < 16 && self.keys[key as usize]
    }

    /// Takes note that the key with code `key` is pressed, or no longer
    /// pressed. A code above 15 names no key and changes nothing.
    pub fn set_key(&mut self, key: u8, pressed: bool)
        ensures
            final(self).pixels == old(self).pixels,
            final(self).keys@ == if key < 16 {
                old(self).keys@.update(key as int, pressed)
            } else {
                old(self).keys@
            },
    {
        if key < 16 {
            self.keys[key as usize] = pressed;
        }
    }
}

} // verus!
