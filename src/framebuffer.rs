//! The 64x32 monochrome display and XOR sprite compositing.
//!
//! Sprite pixels that fall right of column 63 or below row 31 are clipped:
//! they are discarded and neither change the display nor count as a collision.
use vstd::prelude::*;

verus! {

pub const SCREEN_WIDTH: usize = 64;

pub const SCREEN_HEIGHT: usize = 32;

pub const PIXEL_COUNT: usize = 2048;

/// Whether column `col` (0 = leftmost) of sprite row `row` is set; the most
/// significant bit is the leftmost column.
pub open spec fn sprite_bit(row: u8, col: int) -> bool {
    row & (0x80u8 >> (col as u8)) != 0
}

/// Whether the sprite `rows` drawn with its top-left corner at `(x, y)` has a
/// set bit over the display position `(px, py)`.
pub open spec fn covers(x: int, y: int, rows: Seq<u8>, px: int, py: int) -> bool {
    &&& x <= px < x + 8
    &&& y <= py < y + rows.len()
    &&& sprite_bit(rows[py - y], px - x)
}

/// Column of the pixel stored at index `i`.
pub open spec fn column_of(i: int) -> int {
    i % (SCREEN_WIDTH as int)
}

/// Row of the pixel stored at index `i`.
pub open spec fn row_of(i: int) -> int {
    i / (SCREEN_WIDTH as int)
}

/// A display with every pixel off.
pub open spec fn blank() -> Seq<bool> {
    Seq::new(PIXEL_COUNT as nat, |i: int| false)
}

/// The display `pixels` after XOR-ing the sprite `rows` onto it at `(x, y)`.
pub open spec fn xor_sprite_spec(pixels: Seq<bool>, x: int, y: int, rows: Seq<u8>) -> Seq<bool> {
    Seq::new(
        pixels.len(),
        |i: int| pixels[i] != covers(x, y, rows, column_of(i), row_of(i)),
    )
}

/// Whether drawing the sprite turns off at least one pixel that was on.
pub open spec fn collides(pixels: Seq<bool>, x: int, y: int, rows: Seq<u8>) -> bool {
    exists|i: int|
        0 <= i < pixels.len() && pixels[i] && #[trigger] covers(
            x,
            y,
            rows,
            column_of(i),
            row_of(i),
        )
}

/// The display: one flag per pixel, row by row, `true` for a lit pixel.
#[derive(Debug)]
pub struct Framebuffer {
    pixels: Vec<bool>,
}

impl View for Framebuffer {
    type V = Seq<bool>;

    /// Pixel `(px, py)` is at index `py * 64 + px`.
    closed spec fn view(&self) -> Seq<bool> {
        self.pixels@
    }
}

impl Framebuffer {
    /// One flag for each of the 2048 pixels.
    pub closed spec fn wf(&self) -> bool {
        self.pixels@.len() == PIXEL_COUNT
    }

    /// A display with every pixel off.
    pub fn new() -> (fb: Self)
        ensures
            fb.wf(),
            fb@ == blank(),
    {
        let mut pixels: Vec<bool> = Vec::new();
        let mut i: usize = 0;
        while i < PIXEL_COUNT
            invariant
                i <= PIXEL_COUNT,
                pixels@ == Seq::new(i as nat, |j: int| false),
            decreases PIXEL_COUNT - i,
        {
            pixels.push(false);
            i = i + 1;
            assert(pixels@ =~= Seq::new(i as nat, |j: int| false));
        }
        Framebuffer { pixels }
    }

    /// Whether the pixel at column `px`, row `py` is lit.
    pub fn pixel(&self, px: usize, py: usize) -> (on: bool)
        requires
            self.wf(),
            px < SCREEN_WIDTH,
            py < SCREEN_HEIGHT,
        ensures
            on == self@[py * 64 + px],
    {
        self.pixels[py * SCREEN_WIDTH + px]
    }

    /// Turns every pixel off.
    pub fn clear_screen(&mut self)
        requires
            old(self).wf(),
        ensures
            final(self).wf(),
            final(self)@ == blank(),
    {
        let mut i: usize = 0;
        while i < PIXEL_COUNT
            invariant
                i <= PIXEL_COUNT,
                self.pixels@.len() == PIXEL_COUNT,
                forall|j: int| 0 <= j < i ==> !self.pixels@[j],
            decreases PIXEL_COUNT - i,
        {
            self.pixels.set(i, false);
            i = i + 1;
        }
        assert(self.pixels@ =~= blank());
    }

    /// XORs the sprite `sprite_data` (one byte per row) onto the display with
    /// its top-left corner at `(pos_x, pos_y)`, clipping what falls outside.
    /// Returns whether any lit pixel was turned off.
    pub fn xor_sprite(&mut self, pos_x: usize, pos_y: usize, sprite_data: &Vec<u8>) -> (collision:
        bool)
        requires
            old(self).wf(),
        ensures
            final(self).wf(),
            final(self)@ == xor_sprite_spec(old(self)@, pos_x as int, pos_y as int, sprite_data@),
            collision == collides(old(self)@, pos_x as int, pos_y as int, sprite_data@),
    {
        let ghost old_pixels = self.pixels@;
        let ghost rows = sprite_data@;
        let mut collision = false;
        let mut i: usize = 0;
        while i < PIXEL_COUNT
            invariant
                i <= PIXEL_COUNT,
                rows == sprite_data@,
                old_pixels.len() == PIXEL_COUNT,
                self.pixels@.len() == PIXEL_COUNT,
                forall|j: int|
                    0 <= j < i ==> self.pixels@[j] == (old_pixels[j] != covers(
                        pos_x as int,
                        pos_y as int,
                        rows,
                        column_of(j),
                        row_of(j),
                    )),
                forall|j: int| i <= j < PIXEL_COUNT ==> self.pixels@[j] == old_pixels[j],
                collision == exists|j: int|
                    0 <= j < i && old_pixels[j] && #[trigger] covers(
                        pos_x as int,
                        pos_y as int,
                        rows,
                        column_of(j),
                        row_of(j),
                    ),
            decreases PIXEL_COUNT - i,
        {
            let px = i % SCREEN_WIDTH;
            let py = i / SCREEN_WIDTH;
            let hit = if px >= pos_x && px - pos_x < 8 && py >= pos_y && py - pos_y
                < sprite_data.len() {
                let row = sprite_data[py - pos_y];
                let col = (px - pos_x) as u8;
                row & (0x80u8 >> col) != 0
            } else {
                false
            };
            assert(hit == covers(pos_x as int, pos_y as int, rows, column_of(i as int), row_of(i as int)));
            if hit {
                let on = self.pixels[i];
                if on {
                    collision = true;
                }
                self.pixels.set(i, !on);
            }
            i = i + 1;
        }
        assert(self.pixels@ =~= xor_sprite_spec(old_pixels, pos_x as int, pos_y as int, rows));
        collision
    }
}

} // verus!
