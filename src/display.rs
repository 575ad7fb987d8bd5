use crate::error::ErrorDetail;
use crate::options::EmulationLevel;
use vstd::prelude::*;

verus! {

/// The low-resolution display: 64 x 32 pixels.
pub const LOW_RES_ROW_SIZE_PIXELS: usize = 64;

pub const LOW_RES_COLUMN_SIZE_PIXELS: usize = 32;

/// The high-resolution SUPER-CHIP 1.1 display: 128 x 64 pixels.
pub const HIGH_RES_ROW_SIZE_PIXELS: usize = 128;

pub const HIGH_RES_COLUMN_SIZE_PIXELS: usize = 64;

/// The frame buffer: one bit per pixel, row-major, most significant bit leftmost within each
/// byte. Row `r`, byte `k` is `pixels[r * row_size_bytes + k]`; (0, 0) is the top left.
#[derive(Clone, Debug, PartialEq)]
pub struct Display {
    pub row_size_bytes: usize,
    pub column_size_pixels: usize,
    pub pixels: Vec<u8>,
}

/// Where a sprite lands: the first display row and how many rows are drawn, the bit offset
/// of the sprite within a display byte, the first display byte of each row, and whether the
/// second and third display bytes of each row are touched.
pub struct SpritePlacement {
    pub first_row: int,
    pub rows: int,
    pub offset: u8,
    pub first_byte: int,
    pub second: bool,
    pub third: bool,
}

/// The bits that the first display byte of a row receives.
pub open spec fn first_mask(left: u8, offset: u8) -> u8 {
    left >> offset
}

/// The bits that the second display byte of a row receives: the spill of the left sprite
/// byte, plus the right sprite byte of a double-width sprite.
pub open spec fn second_mask(left: u8, right: u8, offset: u8, double_width: bool) -> u8 {
    (if offset == 0 {
        0u8
    } else {
        left << ((8 - offset) as u8)
    }) | (if double_width {
        right >> offset
    } else {
        0u8
    })
}

/// The bits that the third display byte of a row receives: the spill of the right byte.
pub open spec fn third_mask(right: u8, offset: u8) -> u8 {
    right << ((8 - offset) as u8)
}

proof fn lemma_index_in_bounds(width: int, height: int, r: int, k: int)
    requires
        0 <= r < height <= 64,
        0 <= k < width <= 16,
    ensures
        0 <= r * width + k < height * width,
        r * width + k < 1024,
        r * width <= r * width + k,
{
    assert(r * width + k < 1024) by (nonlinear_arith)
        requires
            0 <= r < height <= 64,
            0 <= k < width <= 16,
    ;
    assert(r * width + k < height * width) by (nonlinear_arith)
        requires
            0 <= r < height,
            0 <= k < width,
    ;
    assert(0 <= r * width) by (nonlinear_arith)
        requires
            0 <= r,
            0 <= k < width,
    ;
}

proof fn lemma_index_unique(width: int, r: int, k: int, r2: int, k2: int)
    requires
        0 <= r,
        0 <= r2,
        0 <= k < width,
        0 <= k2 < width,
        r * width + k == r2 * width + k2,
    ensures
        r == r2,
        k == k2,
{
    assert(r == r2) by (nonlinear_arith)
        requires
            0 <= r,
            0 <= r2,
            0 <= k < width,
            0 <= k2 < width,
            r * width + k == r2 * width + k2,
    ;
}

impl Display {
    /// One of the two resolutions, with one byte per eight pixels.
    pub open spec fn wf(&self) -> bool {
        &&& ((self.row_size_bytes == 8 && self.column_size_pixels == 32) || (self.row_size_bytes
            == 16 && self.column_size_pixels == 64))
        &&& self.pixels@.len() == self.row_size_bytes * self.column_size_pixels
    }

    /// The byte `k` of row `r`.
    pub open spec fn cell(&self, r: int, k: int) -> u8 {
        self.pixels@[r * self.row_size_bytes + k]
    }

    pub open spec fn same_shape(&self, other: Display) -> bool {
        self.row_size_bytes == other.row_size_bytes && self.column_size_pixels
            == other.column_size_pixels
    }

    /// Every byte of the display is the given function of its row and byte index.
    pub open spec fn cells_are(&self, f: spec_fn(int, int) -> u8) -> bool {
        forall|r: int, k: int|
            0 <= r < self.column_size_pixels && 0 <= k < self.row_size_bytes ==> #[trigger] self.cell(
                r,
                k,
            ) == f(r, k)
    }

    /// The placement of a sprite of `sprite_len` bytes drawn at (x, y). Y wraps modulo the
    /// display height and X wraps on whole display bytes; rows below the bottom are clipped.
    pub open spec fn placement(&self, x: int, y: int, sprite_len: int, double_width: bool) -> SpritePlacement {
        let height = if double_width { sprite_len / 2 } else { sprite_len };
        let first_row = y % (self.column_size_pixels as int);
        let room = self.column_size_pixels - first_row;
        let offset = (x % 8) as u8;
        let first_byte = (x / 8) % (self.row_size_bytes as int);
        SpritePlacement {
            first_row,
            rows: if height < room { height } else { room },
            offset,
            first_byte,
            second: if double_width {
                first_byte != self.row_size_bytes - 1
            } else {
                offset > 0 && first_byte < self.row_size_bytes - 1
            },
            third: double_width && offset > 0 && first_byte < self.row_size_bytes - 2,
        }
    }

    /// The bits that byte `k` of sprite row `j` receives, if that byte is touched.
    pub open spec fn mask_at(
        p: SpritePlacement,
        sprite: Seq<u8>,
        double_width: bool,
        j: int,
        k: int,
    ) -> Option<u8> {
        let left = if double_width { sprite[2 * j] } else { sprite[j] };
        let right = if double_width { sprite[2 * j + 1] } else { 0u8 };
        if k == p.first_byte {
            Some(first_mask(left, p.offset))
        } else if p.second && k == p.first_byte + 1 {
            Some(second_mask(left, right, p.offset, double_width))
        } else if p.third && k == p.first_byte + 2 {
            Some(third_mask(right, p.offset))
        } else {
            None
        }
    }

    /// Byte `k` of row `r` after the sprite is drawn onto `self`.
    pub open spec fn drawn_cell(
        &self,
        p: SpritePlacement,
        sprite: Seq<u8>,
        double_width: bool,
        r: int,
        k: int,
    ) -> u8 {
        if p.first_row <= r < p.first_row + p.rows {
            match Self::mask_at(p, sprite, double_width, r - p.first_row, k) {
                Some(m) => self.cell(r, k) ^ m,
                None => self.cell(r, k),
            }
        } else {
            self.cell(r, k)
        }
    }

    /// Whether drawing sprite row `j` turns off a pixel that was on.
    pub open spec fn row_collides(
        &self,
        p: SpritePlacement,
        sprite: Seq<u8>,
        double_width: bool,
        j: int,
    ) -> bool {
        let r = p.first_row + j;
        let k = p.first_byte;
        let hits = |k: int|
            match Self::mask_at(p, sprite, double_width, j, k) {
                Some(m) => self.cell(r, k) & m != 0,
                None => false,
            };
        hits(k) || hits(k + 1) || hits(k + 2)
    }

    /// Whether drawing sprite row `j` turns on a pixel that was off.
    pub open spec fn row_lights(
        &self,
        p: SpritePlacement,
        sprite: Seq<u8>,
        double_width: bool,
        j: int,
    ) -> bool {
        let r = p.first_row + j;
        let k = p.first_byte;
        let lights = |k: int|
            match Self::mask_at(p, sprite, double_width, j, k) {
                Some(m) => m & !self.cell(r, k) != 0,
                None => false,
            };
        lights(k) || lights(k + 1) || lights(k + 2)
    }

    /// The number of the first `n` sprite rows that turn on a pixel.
    pub open spec fn lit_rows(
        &self,
        p: SpritePlacement,
        sprite: Seq<u8>,
        double_width: bool,
        n: int,
    ) -> nat
        decreases n,
    {
        if n <= 0 {
            0
        } else {
            self.lit_rows(p, sprite, double_width, n - 1) + if self.row_lights(
                p,
                sprite,
                double_width,
                n - 1,
            ) {
                1nat
            } else {
                0nat
            }
        }
    }

    /// The number of the first `n` sprite rows whose touched display bytes are not all off.
    pub open spec fn nonzero_rows(
        &self,
        p: SpritePlacement,
        sprite: Seq<u8>,
        double_width: bool,
        n: int,
    ) -> nat
        decreases n,
    {
        if n <= 0 {
            0
        } else {
            let j = n - 1;
            let r = p.first_row + j;
            let on = |k: int|
                Self::mask_at(p, sprite, double_width, j, k) is Some && self.cell(r, k) != 0;
            self.nonzero_rows(p, sprite, double_width, n - 1) + if on(p.first_byte) || on(
                p.first_byte + 1,
            ) || on(p.first_byte + 2) {
                1nat
            } else {
                0nat
            }
        }
    }

    /// The number of the first `n` sprite rows that collide.
    pub open spec fn collisions(
        &self,
        p: SpritePlacement,
        sprite: Seq<u8>,
        double_width: bool,
        n: int,
    ) -> nat
        decreases n,
    {
        if n <= 0 {
            0
        } else {
            self.collisions(p, sprite, double_width, n - 1) + if self.row_collides(
                p,
                sprite,
                double_width,
                n - 1,
            ) {
                1nat
            } else {
                0nat
            }
        }
    }

    /// A blank display of the resolution of the given variant.
    pub fn new(emulation_level: EmulationLevel) -> (r: Display)
        ensures
            r.wf(),
            emulation_level.is_superchip() ==> r.row_size_bytes == 16 && r.column_size_pixels
                == 64,
            !emulation_level.is_superchip() ==> r.row_size_bytes == 8 && r.column_size_pixels
                == 32,
            forall|i: int| 0 <= i < r.pixels@.len() ==> #[trigger] r.pixels@[i] == 0,
    {
        let (row_size, column_size): (usize, usize) = match emulation_level {
            EmulationLevel::SuperChip11 { .. } => (
                HIGH_RES_ROW_SIZE_PIXELS / 8,
                HIGH_RES_COLUMN_SIZE_PIXELS,
            ),
            _ => (LOW_RES_ROW_SIZE_PIXELS / 8, LOW_RES_COLUMN_SIZE_PIXELS),
        };
        let pixels: Vec<u8> = vec![0x0; row_size * column_size];
        Display { row_size_bytes: row_size, column_size_pixels: column_size, pixels }
    }

    /// The row size in bytes.
    pub fn get_row_size_bytes(&self) -> (r: usize)
        ensures
            r == self.row_size_bytes,
    {
        self.row_size_bytes
    }

    /// The column size in pixels (the number of rows).
    pub fn get_column_size_pixels(&self) -> (r: usize)
        ensures
            r == self.column_size_pixels,
    {
        self.column_size_pixels
    }

    /// Byte `column` of row `row`.
    pub fn pixel_byte(&self, row: usize, column: usize) -> (r: u8)
        requires
            self.wf(),
            row < self.column_size_pixels,
            column < self.row_size_bytes,
        ensures
            r == self.cell(row as int, column as int),
    {
        proof {
            lemma_index_in_bounds(self.row_size_bytes as int, self.column_size_pixels as int, row as int, column as int);
        }
        self.pixels[row * self.row_size_bytes + column]
    }

    /// Sets byte `column` of row `row` to `value`, leaving every other byte as it was.
    pub fn set_pixel_byte(&mut self, row: usize, column: usize, value: u8)
        requires
            old(self).wf(),
            row < old(self).column_size_pixels,
            column < old(self).row_size_bytes,
        ensures
            final(self).wf(),
            final(self).same_shape(*old(self)),
            forall|r: int, k: int|
                0 <= r < old(self).column_size_pixels && 0 <= k < old(self).row_size_bytes
                    ==> #[trigger] final(self).cell(r, k) == if r == row && k == column {
                    value
                } else {
                    old(self).cell(r, k)
                },
    {
        let ghost w = self.row_size_bytes as int;
        let ghost h = self.column_size_pixels as int;
        proof {
            lemma_index_in_bounds(w, h, row as int, column as int);
        }
        let i = row * self.row_size_bytes + column;
        self.pixels.set(i, value);
        assert forall|r: int, k: int| 0 <= r < h && 0 <= k < w implies #[trigger] self.cell(r, k)
            == if r == row && k == column {
            value
        } else {
            old(self).cell(r, k)
        } by {
            lemma_index_in_bounds(w, h, r, k);
            if r * w + k == i {
                lemma_index_unique(w, r, k, row as int, column as int);
            }
        }
    }

    /// XORs the given bits into up to three consecutive bytes of a row and reports whether
    /// a pixel that was on is turned off.
    fn xor_row(
        &mut self,
        row: usize,
        first_byte: usize,
        second: bool,
        third: bool,
        m0: u8,
        m1: u8,
        m2: u8,
    ) -> (hit: bool)
        requires
            old(self).wf(),
            row < old(self).column_size_pixels,
            first_byte < old(self).row_size_bytes,
            second ==> first_byte + 1 < old(self).row_size_bytes,
            third ==> first_byte + 2 < old(self).row_size_bytes,
        ensures
            final(self).wf(),
            final(self).same_shape(*old(self)),
            forall|r: int, k: int|
                0 <= r < old(self).column_size_pixels && 0 <= k < old(self).row_size_bytes
                    ==> #[trigger] final(self).cell(r, k) == if r == row && k == first_byte {
                    old(self).cell(r, k) ^ m0
                } else if r == row && second && k == first_byte + 1 {
                    old(self).cell(r, k) ^ m1
                } else if r == row && third && k == first_byte + 2 {
                    old(self).cell(r, k) ^ m2
                } else {
                    old(self).cell(r, k)
                },
            hit == (old(self).cell(row as int, first_byte as int) & m0 != 0 || (second
                && old(self).cell(row as int, first_byte + 1) & m1 != 0) || (third
                && old(self).cell(row as int, first_byte + 2) & m2 != 0)),
    {
        let mut hit = false;
        let b0 = self.pixel_byte(row, first_byte);
        if b0 & m0 != 0 {
            hit = true;
        }
        self.set_pixel_byte(row, first_byte, b0 ^ m0);
        if second {
            let b1 = self.pixel_byte(row, first_byte + 1);
            if b1 & m1 != 0 {
                hit = true;
            }
            self.set_pixel_byte(row, first_byte + 1, b1 ^ m1);
        }
        if third {
            let b2 = self.pixel_byte(row, first_byte + 2);
            if b2 & m2 != 0 {
                hit = true;
            }
            self.set_pixel_byte(row, first_byte + 2, b2 ^ m2);
        }
        hit
    }

    /// XORs a sprite onto the display at (x, y), one sprite byte (two for a double-width
    /// sprite) per row. Returns the number of rows in which a pixel that was on is turned
    /// off, and the number of clipped rows, which is always reported as zero.
    pub fn draw_sprite(
        &mut self,
        x_start_pixel: usize,
        y_start_pixel: usize,
        sprite: &[u8],
        double_width_sprite: bool,
    ) -> (r: Result<(u8, u8), ErrorDetail>)
        requires
            old(self).wf(),
        ensures
            final(self).wf(),
            final(self).same_shape(*old(self)),
            ({
                let p = old(self).placement(
                    x_start_pixel as int,
                    y_start_pixel as int,
                    sprite@.len() as int,
                    double_width_sprite,
                );
                &&& final(self).cells_are(
                    |r: int, k: int| old(self).drawn_cell(p, sprite@, double_width_sprite, r, k),
                )
                &&& r == Ok::<(u8, u8), ErrorDetail>(
                    (old(self).collisions(p, sprite@, double_width_sprite, p.rows) as u8, 0u8),
                )
                &&& old(self).collisions(p, sprite@, double_width_sprite, p.rows) <= p.rows
            }),
    {
        let ghost p = self.placement(
            x_start_pixel as int,
            y_start_pixel as int,
            sprite@.len() as int,
            double_width_sprite,
        );
        let ghost prior = *self;
        let row_size = self.row_size_bytes;
        let column_size = self.column_size_pixels;
        let sprite_height: usize = if double_width_sprite {
            sprite.len() / 2
        } else {
            sprite.len()
        };
        let first_row: usize = y_start_pixel % column_size;
        let rows: usize = if sprite_height < column_size - first_row {
            sprite_height
        } else {
            column_size - first_row
        };
        let offset: u8 = (x_start_pixel % 8) as u8;
        let first_byte: usize = (x_start_pixel / 8) % row_size;
        let second: bool;
        let third: bool;
        if double_width_sprite {
            second = first_byte != row_size - 1;
            third = offset > 0 && first_byte < row_size - 2;
        } else {
            second = offset > 0 && first_byte < row_size - 1;
            third = false;
        }
        assert(p.first_row == first_row && p.rows == rows && p.offset == offset && p.first_byte
            == first_byte && p.second == second && p.third == third);
        let mut collisions: u8 = 0;
        let mut j: usize = 0;
        while j < rows
            invariant
                prior == *old(self),
                self.wf(),
                self.same_shape(prior),
                j <= rows,
                rows <= column_size - first_row,
                p == prior.placement(
                    x_start_pixel as int,
                    y_start_pixel as int,
                    sprite@.len() as int,
                    double_width_sprite,
                ),
                p.first_row == first_row && p.rows == rows && p.offset == offset && p.first_byte
                    == first_byte && p.second == second && p.third == third,
                row_size == self.row_size_bytes,
                column_size == self.column_size_pixels,
                first_byte < row_size,
                offset < 8,
                second ==> first_byte + 1 < row_size,
                third ==> first_byte + 2 < row_size && offset > 0,
                rows <= sprite_height,
                sprite_height == if double_width_sprite { sprite@.len() as int / 2 } else { sprite@.len() as int },
                collisions as int == prior.collisions(p, sprite@, double_width_sprite, j as int),
                collisions <= j,
                forall|r: int, k: int|
                    0 <= r < column_size && 0 <= k < row_size ==> #[trigger] self.cell(r, k) == if r
                        < first_row + j {
                        prior.drawn_cell(p, sprite@, double_width_sprite, r, k)
                    } else {
                        prior.cell(r, k)
                    },
            decreases rows - j,
        {
            let left: u8 = if double_width_sprite {
                sprite[2 * j]
            } else {
                sprite[j]
            };
            let right: u8 = if double_width_sprite {
                sprite[2 * j + 1]
            } else {
                0
            };
            let m0: u8 = left >> offset;
            let spill: u8 = if offset == 0 {
                0
            } else {
                left << (8 - offset)
            };
            let m1: u8 = spill | if double_width_sprite {
                right >> offset
            } else {
                0
            };
            let m2: u8 = if third {
                right << (8 - offset)
            } else {
                0
            };
            let ghost before = *self;
            let hit = self.xor_row(first_row + j, first_byte, second, third, m0, m1, m2);
            proof {
                let jj = j as int;
                assert(Self::mask_at(p, sprite@, double_width_sprite, jj, first_byte as int) == Some(m0));
                if second {
                    assert(Self::mask_at(p, sprite@, double_width_sprite, jj, first_byte + 1) == Some(m1));
                }
                if third {
                    assert(Self::mask_at(p, sprite@, double_width_sprite, jj, first_byte + 2) == Some(m2));
                }
                assert(hit == prior.row_collides(p, sprite@, double_width_sprite, jj));
            }
            if hit {
                collisions = collisions + 1;
            }
            j = j + 1;
        }
        Ok((collisions, 0))
    }

    /// Byte `k` of row `r` after scrolling right by four pixels.
    pub open spec fn scrolled_right(&self, r: int, k: int) -> u8 {
        if k == 0 {
            self.cell(r, 0) >> 4u8
        } else {
            (self.cell(r, k) >> 4u8) | (self.cell(r, k - 1) << 4u8)
        }
    }

    /// Byte `k` of row `r` after scrolling left by four pixels.
    pub open spec fn scrolled_left(&self, r: int, k: int) -> u8 {
        if k == self.row_size_bytes - 1 {
            self.cell(r, k) << 4u8
        } else {
            (self.cell(r, k) << 4u8) | (self.cell(r, k + 1) >> 4u8)
        }
    }

    /// Byte `k` of row `r` after scrolling down by `n` rows.
    pub open spec fn scrolled_down(&self, n: int, r: int, k: int) -> u8 {
        if r >= n {
            self.cell(r - n, k)
        } else {
            0
        }
    }

    /// Scrolls every row right by four pixels; the leftmost pixels become off.
    pub fn scroll_display_right(&mut self) -> (r: Result<(), ErrorDetail>)
        requires
            old(self).wf(),
        ensures
            r is Ok,
            final(self).wf(),
            final(self).same_shape(*old(self)),
            final(self).cells_are(|r: int, k: int| old(self).scrolled_right(r, k)),
    {
        let ghost prior = *self;
        let row_size = self.row_size_bytes;
        let column_size = self.column_size_pixels;
        let mut row: usize = 0;
        while row < column_size
            invariant
                prior == *old(self),
                self.wf(),
                self.same_shape(prior),
                row <= column_size,
                row_size == self.row_size_bytes,
                column_size == self.column_size_pixels,
                forall|r: int, k: int|
                    0 <= r < column_size && 0 <= k < row_size ==> #[trigger] self.cell(r, k) == if r
                        < row {
                        prior.scrolled_right(r, k)
                    } else {
                        prior.cell(r, k)
                    },
            decreases column_size - row,
        {
            let mut c: usize = row_size - 1;
            while c > 0
                invariant
                    prior == *old(self),
                    self.wf(),
                    self.same_shape(prior),
                    row < column_size,
                    c < row_size,
                    row_size == self.row_size_bytes,
                    column_size == self.column_size_pixels,
                    forall|r: int, k: int|
                        0 <= r < column_size && 0 <= k < row_size ==> #[trigger] self.cell(r, k)
                            == if r < row || (r == row && k > c) {
                            prior.scrolled_right(r, k)
                        } else {
                            prior.cell(r, k)
                        },
                decreases c,
            {
                let here = self.pixel_byte(row, c);
                let before = self.pixel_byte(row, c - 1);
                self.set_pixel_byte(row, c, (here >> 4) | (before << 4));
                c = c - 1;
            }
            let first = self.pixel_byte(row, 0);
            self.set_pixel_byte(row, 0, first >> 4);
            row = row + 1;
        }
        Ok(())
    }

    /// Scrolls every row left by four pixels; the rightmost pixels become off.
    pub fn scroll_display_left(&mut self) -> (r: Result<(), ErrorDetail>)
        requires
            old(self).wf(),
        ensures
            r is Ok,
            final(self).wf(),
            final(self).same_shape(*old(self)),
            final(self).cells_are(|r: int, k: int| old(self).scrolled_left(r, k)),
    {
        let ghost prior = *self;
        let row_size = self.row_size_bytes;
        let column_size = self.column_size_pixels;
        let last: usize = row_size - 1;
        let mut row: usize = 0;
        while row < column_size
            invariant
                prior == *old(self),
                self.wf(),
                self.same_shape(prior),
                row <= column_size,
                row_size == self.row_size_bytes,
                column_size == self.column_size_pixels,
                last == row_size - 1,
                forall|r: int, k: int|
                    0 <= r < column_size && 0 <= k < row_size ==> #[trigger] self.cell(r, k) == if r
                        < row {
                        prior.scrolled_left(r, k)
                    } else {
                        prior.cell(r, k)
                    },
            decreases column_size - row,
        {
            let mut c: usize = 0;
            while c < last
                invariant
                    prior == *old(self),
                    self.wf(),
                    self.same_shape(prior),
                    row < column_size,
                    c <= last,
                    last == row_size - 1,
                    row_size == self.row_size_bytes,
                    column_size == self.column_size_pixels,
                    forall|r: int, k: int|
                        0 <= r < column_size && 0 <= k < row_size ==> #[trigger] self.cell(r, k)
                            == if r < row || (r == row && k < c) {
                            prior.scrolled_left(r, k)
                        } else {
                            prior.cell(r, k)
                        },
                decreases last - c,
            {
                let here = self.pixel_byte(row, c);
                let after = self.pixel_byte(row, c + 1);
                self.set_pixel_byte(row, c, (here << 4) | (after >> 4));
                c = c + 1;
            }
            let final_byte = self.pixel_byte(row, last);
            self.set_pixel_byte(row, last, final_byte << 4);
            row = row + 1;
        }
        Ok(())
    }

    /// Scrolls the display down by `n` rows, copying from the bottom row upwards so that no
    /// row is overwritten before it is read; the top `n` rows become blank.
    pub fn scroll_display_down(&mut self, n: u8) -> (r: Result<(), ErrorDetail>)
        requires
            old(self).wf(),
        ensures
            r is Ok,
            final(self).wf(),
            final(self).same_shape(*old(self)),
            final(self).cells_are(|r: int, k: int| old(self).scrolled_down(n as int, r, k)),
    {
        let ghost prior = *self;
        let n: usize = n as usize;
        let row_size = self.row_size_bytes;
        let column_size = self.column_size_pixels;
        let mut row: usize = column_size;
        while row > n
            invariant
                prior == *old(self),
                self.wf(),
                self.same_shape(prior),
                row <= column_size,
                row >= n || row == column_size,
                row_size == self.row_size_bytes,
                column_size == self.column_size_pixels,
                forall|r: int, k: int|
                    0 <= r < column_size && 0 <= k < row_size ==> #[trigger] self.cell(r, k) == if r
                        >= row {
                        prior.scrolled_down(n as int, r, k)
                    } else {
                        prior.cell(r, k)
                    },
            decreases row,
        {
            row = row - 1;
            let mut c: usize = 0;
            while c < row_size
                invariant
                    prior == *old(self),
                    self.wf(),
                    self.same_shape(prior),
                    n <= row < column_size,
                    c <= row_size,
                    row_size == self.row_size_bytes,
                    column_size == self.column_size_pixels,
                    forall|r: int, k: int|
                        0 <= r < column_size && 0 <= k < row_size ==> #[trigger] self.cell(r, k)
                            == if r > row || (r == row && k < c) {
                            prior.scrolled_down(n as int, r, k)
                        } else {
                            prior.cell(r, k)
                        },
                decreases row_size - c,
            {
                let source = self.pixel_byte(row - n, c);
                self.set_pixel_byte(row, c, source);
                c = c + 1;
            }
        }
        let top: usize = if n < column_size {
            n
        } else {
            column_size
        };
        let mut row: usize = 0;
        while row < top
            invariant
                prior == *old(self),
                self.wf(),
                self.same_shape(prior),
                row <= top <= column_size,
                top == n || top == column_size,
                top <= n,
                row_size == self.row_size_bytes,
                column_size == self.column_size_pixels,
                forall|r: int, k: int|
                    0 <= r < column_size && 0 <= k < row_size ==> #[trigger] self.cell(r, k) == if r
                        >= top || r < row {
                        prior.scrolled_down(n as int, r, k)
                    } else {
                        prior.cell(r, k)
                    },
            decreases top - row,
        {
            let mut c: usize = 0;
            while c < row_size
                invariant
                    prior == *old(self),
                    self.wf(),
                    self.same_shape(prior),
                    row < top <= column_size,
                    top <= n,
                    c <= row_size,
                    row_size == self.row_size_bytes,
                    column_size == self.column_size_pixels,
                    forall|r: int, k: int|
                        0 <= r < column_size && 0 <= k < row_size ==> #[trigger] self.cell(r, k)
                            == if r >= top || r < row || (r == row && k < c) {
                            prior.scrolled_down(n as int, r, k)
                        } else {
                            prior.cell(r, k)
                        },
                decreases row_size - c,
            {
                self.set_pixel_byte(row, c, 0);
                c = c + 1;
            }
            row = row + 1;
        }
        Ok(())
    }

    /// A copy of the display that shares nothing with it.
    pub fn duplicate(&self) -> (r: Display)
        ensures
            r.same_shape(*self),
            r.pixels@ == self.pixels@,
    {
        let mut pixels: Vec<u8> = Vec::new();
        let mut i: usize = 0;
        while i < self.pixels.len()
            invariant
                i <= self.pixels@.len(),
                pixels@ == self.pixels@.subrange(0, i as int),
            decreases self.pixels@.len() - i,
        {
            pixels.push(self.pixels[i]);
            i = i + 1;
            assert(pixels@ =~= self.pixels@.subrange(0, i as int));
        }
        assert(pixels@ =~= self.pixels@);
        Display {
            row_size_bytes: self.row_size_bytes,
            column_size_pixels: self.column_size_pixels,
            pixels,
        }
    }

    /// Turns every pixel off.
    pub fn clear(&mut self)
        requires
            old(self).wf(),
        ensures
            final(self).wf(),
            final(self).same_shape(*old(self)),
            forall|i: int| 0 <= i < final(self).pixels@.len() ==> #[trigger] final(self).pixels@[i] == 0,
    {
        self.pixels = vec![0x0; self.row_size_bytes * self.column_size_pixels];
    }
}

proof fn lemma_xor_bits(a: u8, m: u8)
    ensures
        (a ^ m) ^ m == a,
        ((a ^ m) & m != 0) == (m & !a != 0),
        a == 0 ==> ((a ^ m) & m != 0) == (a ^ m != 0),
{
    assert((a ^ m) ^ m == a) by (bit_vector);
    assert(((a ^ m) & m != 0) == (m & !a != 0)) by (bit_vector);
    assert(a == 0 ==> ((a ^ m) & m != 0) == (a ^ m != 0)) by (bit_vector);
}

proof fn lemma_placement_in_bounds(d: Display, x: int, y: int, len: int, double_width: bool)
    requires
        d.wf(),
        x >= 0,
        y >= 0,
        len >= 0,
    ensures
        ({
            let p = d.placement(x, y, len, double_width);
            &&& 0 <= p.first_row
            &&& 0 <= p.rows
            &&& p.first_row + p.rows <= d.column_size_pixels
            &&& 0 <= p.first_byte < d.row_size_bytes
            &&& p.second ==> p.first_byte + 1 < d.row_size_bytes
            &&& p.third ==> p.first_byte + 2 < d.row_size_bytes
        }),
{
}

/// How the second draw sees the display after the first: its collisions are the rows in
/// which the first draw turned a pixel on.
proof fn lemma_second_draw_collisions(
    d: Display,
    mid: Display,
    p: SpritePlacement,
    sprite: Seq<u8>,
    double_width: bool,
    n: int,
)
    requires
        d.wf(),
        mid.same_shape(d),
        mid.cells_are(|r: int, k: int| d.drawn_cell(p, sprite, double_width, r, k)),
        0 <= p.first_row,
        0 <= n <= p.rows,
        p.first_row + p.rows <= d.column_size_pixels,
        0 <= p.first_byte < d.row_size_bytes,
        p.second ==> p.first_byte + 1 < d.row_size_bytes,
        p.third ==> p.first_byte + 2 < d.row_size_bytes,
    ensures
        mid.collisions(p, sprite, double_width, n) == d.lit_rows(p, sprite, double_width, n),
        (forall|r: int, k: int|
            p.first_row <= r < p.first_row + p.rows && 0 <= k < d.row_size_bytes
                ==> #[trigger] d.cell(r, k) == 0) ==> mid.collisions(p, sprite, double_width, n)
            == mid.nonzero_rows(
            p,
            sprite,
            double_width,
            n,
        ),
    decreases n,
{
    if n > 0 {
        lemma_second_draw_collisions(d, mid, p, sprite, double_width, n - 1);
        let j = n - 1;
        let r = p.first_row + j;
        let fb = p.first_byte;
        assert forall|k: int| fb <= k <= fb + 2 && Display::mask_at(p, sprite, double_width, j, k) is Some implies
            mid.cell(r, k) == d.cell(r, k) ^ Display::mask_at(p, sprite, double_width, j, k)->Some_0
            && (((mid.cell(r, k) & Display::mask_at(p, sprite, double_width, j, k)->Some_0) != 0)
                == ((Display::mask_at(p, sprite, double_width, j, k)->Some_0 & !d.cell(r, k)) != 0))
            && (d.cell(r, k) == 0 ==> ((mid.cell(r, k) & Display::mask_at(p, sprite, double_width, j, k)->Some_0) != 0) == (mid.cell(r, k) != 0))
        by {
            let m = Display::mask_at(p, sprite, double_width, j, k)->Some_0;
            assert(mid.cell(r, k) == d.drawn_cell(p, sprite, double_width, r, k));
            lemma_xor_bits(d.cell(r, k), m);
        }
        if forall|r: int, k: int|
            p.first_row <= r < p.first_row + p.rows && 0 <= k < d.row_size_bytes
                ==> #[trigger] d.cell(r, k) == 0 {
            assert(d.cell(r, fb) == 0);
            if p.second {
                assert(d.cell(r, fb + 1) == 0);
            }
            if p.third {
                assert(d.cell(r, fb + 2) == 0);
            }
        }
    }
}

/// Drawing the same sprite twice at the same place leaves every byte of the display as it
/// was before the first draw, and the second draw collides in exactly the rows in which
/// the first draw turned a pixel on. When the rows the sprite covers start blank, those are
/// the rows whose touched bytes are not blank after the first draw.
pub proof fn lemma_draw_twice_restores(
    d: Display,
    mid: Display,
    fin: Display,
    x: int,
    y: int,
    sprite: Seq<u8>,
    double_width: bool,
)
    requires
        d.wf(),
        x >= 0,
        y >= 0,
        mid.same_shape(d),
        mid.cells_are(
            |r: int, k: int|
                d.drawn_cell(d.placement(x, y, sprite.len() as int, double_width), sprite, double_width, r, k),
        ),
        fin.same_shape(mid),
        fin.cells_are(
            |r: int, k: int|
                mid.drawn_cell(mid.placement(x, y, sprite.len() as int, double_width), sprite, double_width, r, k),
        ),
    ensures
        fin.cells_are(|r: int, k: int| d.cell(r, k)),
        ({
            let p = d.placement(x, y, sprite.len() as int, double_width);
            &&& mid.collisions(p, sprite, double_width, p.rows) == d.lit_rows(
                p,
                sprite,
                double_width,
                p.rows,
            )
            &&& (forall|r: int, k: int|
                p.first_row <= r < p.first_row + p.rows && 0 <= k < d.row_size_bytes
                    ==> #[trigger] d.cell(r, k) == 0) ==> mid.collisions(p, sprite, double_width, p.rows) == mid.nonzero_rows(
                p,
                sprite,
                double_width,
                p.rows,
            )
        }),
{
    let p = d.placement(x, y, sprite.len() as int, double_width);
    assert(mid.placement(x, y, sprite.len() as int, double_width) == p);
    lemma_placement_in_bounds(d, x, y, sprite.len() as int, double_width);
    assert forall|r: int, k: int|
        0 <= r < d.column_size_pixels && 0 <= k < d.row_size_bytes implies #[trigger] fin.cell(r, k)
            == d.cell(r, k) by {
        assert(fin.cell(r, k) == mid.drawn_cell(p, sprite, double_width, r, k));
        assert(mid.cell(r, k) == d.drawn_cell(p, sprite, double_width, r, k));
        if p.first_row <= r < p.first_row + p.rows {
            match Display::mask_at(p, sprite, double_width, r - p.first_row, k) {
                Some(m) => lemma_xor_bits(d.cell(r, k), m),
                None => {},
            }
        }
    }
    lemma_second_draw_collisions(d, mid, p, sprite, double_width, p.rows);
}

} // verus!
