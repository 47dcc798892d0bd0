//! How a source image is laid onto the logical grid.
//!
//! There are two ways. A source drawn at the grid's own resolution is placed
//! directly: the pixel at (`x`, `y`) of the canvas lands on the cell in row `y` and
//! column `x`. A source of any other size is resampled through a scale, a rotation
//! and a translation about the centres of canvas and grid. Both are stated the
//! same way, from the cell back to the canvas: for a cell, which pixel of the
//! canvas lands on it.
//!
//! Fractions are fixed-point numbers with sixteen fractional bits: `ONE` stands for
//! 1.0.
use vstd::prelude::*;
use vstd::arithmetic::div_mod::lemma_div_is_ordered;
use vstd::arithmetic::div_mod::lemma_fundamental_div_mod;
use vstd::arithmetic::div_mod::lemma_fundamental_div_mod_converse;
use crate::frame::Rgb;
use crate::layout::GRID_COLS;
use crate::layout::GRID_ROWS;

verus! {

/// The fixed-point number 1.0.
pub const ONE: i64 = 65536;

/// The fixed-point number 0.5.
pub const HALF: i64 = 32768;

/// A brightness multiplier between 0.0 and 1.0, in fixed point.
#[derive(Clone, Copy, Debug)]
pub struct Brightness {
    level: u32,
}

impl Brightness {
    /// The multiplier as a fixed-point number: `ONE` is full brightness.
    pub closed spec fn level(&self) -> int {
        self.level as int
    }

    #[verifier::type_invariant]
    spec fn in_range(&self) -> bool {
        self.level <= ONE
    }

    /// The multiplier `level`, or full brightness where `level` is above `ONE`.
    pub fn new(level: u32) -> (b: Self)
        ensures
            b.level() == if level <= ONE {
                level as int
            } else {
                ONE as int
            },
    {
        if level as i64 <= ONE {
            Brightness { level }
        } else {
            Brightness { level: ONE as u32 }
        }
    }

    /// Full brightness, the multiplier 1.0.
    pub fn full() -> (b: Self)
        ensures
            b.level() == ONE,
    {
        Brightness { level: ONE as u32 }
    }

    /// The multiplier as a fixed-point number.
    pub fn get(&self) -> (level: u32)
        ensures
            level == self.level(),
            level <= ONE,
    {
        proof {
            use_type_invariant(self);
        }
        self.level
    }

    /// `value` times the multiplier, rounded down.
    pub open spec fn scaled(&self, value: u8) -> u8 {
        (value as int * self.level() / (ONE as int)) as u8
    }

    /// `value` times the multiplier, rounded down.
    pub fn scale(&self, value: u8) -> (v: u8)
        ensures
            v == self.scaled(value),
            v <= value,
    {
        proof {
            use_type_invariant(self);
        }
        let level: u64 = self.level as u64;
        assert(0 <= value as int * level as int <= value as int * 65536) by (nonlinear_arith)
            requires
                0 <= level <= 65536,
        ;
        let product: u64 = value as u64 * level;
        let v: u64 = product / (ONE as u64);
        proof {
            lemma_div_is_ordered(product as int, value as int * 65536, 65536);
            assert(value as int * 65536 / 65536 == value as int) by (nonlinear_arith);
        }
        v as u8
    }
}

/// At full brightness a value stays as it is.
pub proof fn lemma_full_brightness(brightness: Brightness, value: u8)
    requires
        brightness.level() == ONE,
    ensures
        brightness.scaled(value) == value,
{
    assert(value as int * 65536 / 65536 == value as int) by (nonlinear_arith);
}

/// `a / b` rounded towards minus infinity.
fn floor_div(a: i64, b: i64) -> (q: i64)
    requires
        b > 0,
        a > i64::MIN,
    ensures
        q == a / b,
{
    if a >= 0 {
        a / b
    } else {
        let m: i64 = -1 - a;
        let k: i64 = m / b;
        proof {
            let r: int = m as int % b as int;
            lemma_fundamental_div_mod(m as int, b as int);
            assert(m as int == b as int * k as int + r);
            assert(a as int == (-1 - k as int) * b as int + (b as int - 1 - r)) by (nonlinear_arith)
                requires
                    m as int == b as int * k as int + r,
                    m as int == -1 - a as int,
            ;
            lemma_fundamental_div_mod_converse(a as int, b as int, -1 - k as int, b as int - 1 - r);
        }
        -1 - k
    }
}

/// A scale, a rotation and a translation that carry a source image onto the grid.
///
/// A point of the canvas is taken relative to the canvas' centre, scaled by
/// `scale`, turned by the angle whose cosine and sine are `cos` and `sin`, moved by
/// (`shift_x`, `shift_y`) grid cells, and then taken relative to the grid's centre.
/// All five numbers are fixed-point. At scale 1.0 one pixel covers one cell.
#[derive(Clone, Copy, Debug)]
pub struct Resample {
    scale: u32,
    cos: i32,
    sin: i32,
    shift_x: i32,
    shift_y: i32,
}

impl Resample {
    /// The scale factor.
    pub closed spec fn scale(&self) -> int {
        self.scale as int
    }

    /// The cosine of the rotation angle.
    pub closed spec fn cos(&self) -> int {
        self.cos as int
    }

    /// The sine of the rotation angle.
    pub closed spec fn sin(&self) -> int {
        self.sin as int
    }

    /// The translation along the columns, in grid cells.
    pub closed spec fn shift_x(&self) -> int {
        self.shift_x as int
    }

    /// The translation along the rows, in grid cells.
    pub closed spec fn shift_y(&self) -> int {
        self.shift_y as int
    }

    /// Which numbers make a transform: a scale above zero, and a cosine and a sine
    /// between -1.0 and 1.0.
    pub open spec fn valid(scale: int, cos: int, sin: int) -> bool {
        &&& 0 < scale
        &&& -ONE <= cos <= ONE
        &&& -ONE <= sin <= ONE
    }

    #[verifier::type_invariant]
    spec fn well_formed(&self) -> bool {
        Self::valid(self.scale as int, self.cos as int, self.sin as int)
    }

    /// The transform with the given numbers, or `None` where they make none.
    pub fn new(scale: u32, cos: i32, sin: i32, shift_x: i32, shift_y: i32) -> (t: Option<Self>)
        ensures
            t is Some <==> Self::valid(scale as int, cos as int, sin as int),
            t matches Some(t) ==> {
                &&& t.scale() == scale
                &&& t.cos() == cos
                &&& t.sin() == sin
                &&& t.shift_x() == shift_x
                &&& t.shift_y() == shift_y
            },
    {
        if scale == 0 || (cos as i64) < -ONE || cos as i64 > ONE || (sin as i64) < -ONE || sin as i64 > ONE {
            None
        } else {
            Some(Resample { scale, cos, sin, shift_x, shift_y })
        }
    }

    /// The transform that changes nothing: scale 1.0, no rotation, no translation.
    pub fn identity() -> (t: Self)
        ensures
            t.scale() == ONE,
            t.cos() == ONE,
            t.sin() == 0,
            t.shift_x() == 0,
            t.shift_y() == 0,
    {
        Resample { scale: ONE as u32, cos: ONE as i32, sin: 0, shift_x: 0, shift_y: 0 }
    }

    /// The centre of the cell in column `col`, relative to the centre of the grid
    /// and moved back by the translation.
    pub open spec fn cell_x(&self, col: int) -> int {
        (2 * col + 1 - GRID_COLS) * HALF - self.shift_x()
    }

    /// The centre of the cell in row `row`, relative to the centre of the grid and
    /// moved back by the translation.
    pub open spec fn cell_y(&self, row: int) -> int {
        (2 * row + 1 - GRID_ROWS) * HALF - self.shift_y()
    }

    /// The column of the canvas, `width` pixels wide, that lands on the cell at
    /// (`row`, `col`): the cell's centre turned back, scaled back and taken from
    /// the canvas' left border, rounded down.
    pub open spec fn source_x(&self, row: int, col: int, width: int) -> int {
        ((self.cos() * self.cell_x(col) + self.sin() * self.cell_y(row)) / self.scale() + width
            * HALF) / (ONE as int)
    }

    /// The row of the canvas, `height` pixels high, that lands on the cell at
    /// (`row`, `col`).
    pub open spec fn source_y(&self, row: int, col: int, height: int) -> int {
        ((self.cos() * self.cell_y(row) - self.sin() * self.cell_x(col)) / self.scale() + height
            * HALF) / (ONE as int)
    }

    /// The pixel of a canvas of `width` by `height` pixels that lands on the cell at
    /// (`row`, `col`), as column and row. It may lie outside the canvas.
    pub fn source_of(&self, row: usize, col: usize, width: u16, height: u16) -> (at: (i64, i64))
        requires
            row < GRID_ROWS,
            col < GRID_COLS,
        ensures
            at.0 == self.source_x(row as int, col as int, width as int),
            at.1 == self.source_y(row as int, col as int, height as int),
    {
        proof {
            use_type_invariant(self);
        }
        let cos: i64 = self.cos as i64;
        let sin: i64 = self.sin as i64;
        let gx: i64 = (2 * col as i64 + 1 - GRID_COLS as i64) * HALF - self.shift_x as i64;
        let gy: i64 = (2 * row as i64 + 1 - GRID_ROWS as i64) * HALF - self.shift_y as i64;
        proof {
            let bound: int = 0x1_0000_0000_0000;
            assert(-bound <= cos * gx <= bound && -bound <= sin * gy <= bound && -bound <= cos
                * gy <= bound && -bound <= sin * gx <= bound) by (nonlinear_arith)
                requires
                    -65536 <= cos <= 65536,
                    -65536 <= sin <= 65536,
                    -0x1_0000_0000 <= gx <= 0x1_0000_0000,
                    -0x1_0000_0000 <= gy <= 0x1_0000_0000,
                    bound == 0x1_0000_0000_0000,
            ;
        }
        let ux: i64 = cos * gx + sin * gy;
        let uy: i64 = cos * gy - sin * gx;
        let px: i64 = floor_div(ux, self.scale as i64);
        let py: i64 = floor_div(uy, self.scale as i64);
        proof {
            lemma_quotient_bound(ux as int, self.scale as int, 0x2_0000_0000_0000);
            lemma_quotient_bound(uy as int, self.scale as int, 0x2_0000_0000_0000);
        }
        let sx: i64 = floor_div(px + width as i64 * HALF, ONE);
        let sy: i64 = floor_div(py + height as i64 * HALF, ONE);
        (sx, sy)
    }
}

/// A quotient by a positive number is no further from zero than the dividend's
/// bound.
proof fn lemma_quotient_bound(a: int, b: int, bound: int)
    requires
        b > 0,
        -bound <= a <= bound,
    ensures
        -bound <= a / b <= bound,
{
    lemma_fundamental_div_mod(a, b);
    let q: int = a / b;
    let r: int = a % b;
    assert(0 <= r < b) by {
        vstd::arithmetic::div_mod::lemma_mod_bound(a, b);
    }
    assert(-bound <= q <= bound) by (nonlinear_arith)
        requires
            a == b * q + r,
            0 <= r < b,
            b > 0,
            -bound <= a <= bound,
    ;
}

/// How the source is laid onto the grid.
#[derive(Clone, Copy, Debug)]
pub enum Geometry {
    /// The source has the grid's own resolution and is placed directly.
    Native,
    /// The source has any resolution and is resampled through the transform.
    Resampled(Resample),
}

impl Geometry {
    /// The pixel of a canvas of `width` by `height` pixels that lands on the cell at
    /// (`row`, `col`), as column and row, or `None` where nothing lands there: the
    /// cell lies outside the grid, or what would land on it lies outside the canvas.
    /// Placed directly, the canvas is the grid itself, whatever size the source
    /// declares.
    pub open spec fn source(&self, width: int, height: int, row: int, col: int) -> Option<
        (int, int),
    > {
        if !(0 <= row < GRID_ROWS && 0 <= col < GRID_COLS) {
            None
        } else {
            match *self {
                Geometry::Native => Some((col, row)),
                Geometry::Resampled(t) => {
                    let x = t.source_x(row, col, width);
                    let y = t.source_y(row, col, height);
                    if 0 <= x < width && 0 <= y < height {
                        Some((x, y))
                    } else {
                        None
                    }
                },
            }
        }
    }

    /// The intensity that a drawn pixel of the given colour gives its cell: placed
    /// directly, the red channel times the brightness; resampled, the mean of the
    /// three channels, whatever the brightness.
    pub open spec fn intensity(&self, brightness: Brightness, colour: Rgb) -> u8 {
        match *self {
            Geometry::Native => brightness.scaled(colour.red),
            Geometry::Resampled(_) => colour.grey(),
        }
    }

    /// The pixel of a canvas of `width` by `height` pixels that lands on the cell at
    /// (`row`, `col`), or `None` where nothing lands there.
    pub fn source_of(&self, width: u16, height: u16, row: usize, col: usize) -> (at: Option<
        (i64, i64),
    >)
        ensures
            at matches Some(p) ==> self.source(width as int, height as int, row as int, col as int)
                == Some((p.0 as int, p.1 as int)),
            at is None ==> self.source(width as int, height as int, row as int, col as int) is None,
    {
        if row >= GRID_ROWS || col >= GRID_COLS {
            return None;
        }
        match self {
            Geometry::Native => Some((col as i64, row as i64)),
            Geometry::Resampled(t) => {
                let (x, y) = t.source_of(row, col, width, height);
                if 0 <= x && x < width as i64 && 0 <= y && y < height as i64 {
                    Some((x, y))
                } else {
                    None
                }
            },
        }
    }

    /// The intensity that a drawn pixel of the given colour gives its cell.
    pub fn intensity_of(&self, brightness: Brightness, colour: Rgb) -> (v: u8)
        ensures
            v == self.intensity(brightness, colour),
    {
        match self {
            Geometry::Native => brightness.scale(colour.red),
            Geometry::Resampled(_) => colour.mean(),
        }
    }
}

/// Resampling a canvas as large as the grid through the transform that changes
/// nothing places every pixel where direct placement puts it: on the cell at its
/// own row and column.
pub proof fn lemma_identity_is_native(t: Resample, row: int, col: int)
    requires
        t.scale() == ONE,
        t.cos() == ONE,
        t.sin() == 0,
        t.shift_x() == 0,
        t.shift_y() == 0,
    ensures
        Geometry::Resampled(t).source(GRID_COLS as int, GRID_ROWS as int, row, col)
            == Geometry::Native.source(GRID_COLS as int, GRID_ROWS as int, row, col),
{
    if 0 <= row < GRID_ROWS && 0 <= col < GRID_COLS {
        lemma_identity_source(t, row, col);
    }
}

/// A translation by whole cells moves the image over the grid by as many cells:
/// what lands on a cell under the moved transform is what lands, under the
/// transform that was not moved, on the cell that many columns and rows before.
pub proof fn lemma_translation_moves_cells(
    moved: Resample,
    base: Resample,
    columns: int,
    rows: int,
    row: int,
    col: int,
    width: int,
    height: int,
)
    requires
        moved.scale() == base.scale(),
        moved.cos() == base.cos(),
        moved.sin() == base.sin(),
        moved.shift_x() == base.shift_x() + columns * ONE,
        moved.shift_y() == base.shift_y() + rows * ONE,
    ensures
        moved.source_x(row, col, width) == base.source_x(row - rows, col - columns, width),
        moved.source_y(row, col, height) == base.source_y(row - rows, col - columns, height),
{
    assert(moved.cell_x(col) == base.cell_x(col - columns));
    assert(moved.cell_y(row) == base.cell_y(row - rows));
}

/// With the transform that changes nothing and a canvas as large as the grid,
/// every cell takes the pixel at its own column and row.
proof fn lemma_identity_source(t: Resample, row: int, col: int)
    requires
        t.scale() == ONE,
        t.cos() == ONE,
        t.sin() == 0,
        t.shift_x() == 0,
        t.shift_y() == 0,
        0 <= row < GRID_ROWS,
        0 <= col < GRID_COLS,
    ensures
        t.source_x(row, col, GRID_COLS as int) == col,
        t.source_y(row, col, GRID_ROWS as int) == row,
{
    let gx: int = t.cell_x(col);
    let gy: int = t.cell_y(row);
    assert(t.sin() * gy == 0 && t.sin() * gx == 0) by (nonlinear_arith)
        requires
            t.sin() == 0,
    ;
    assert((65536 * gx) / 65536 == gx && (65536 * gy) / 65536 == gy) by (nonlinear_arith);
    assert(gx + 33 * 32768 == col * 65536 + 32768);
    assert(gy + 55 * 32768 == row * 65536 + 32768);
    lemma_fundamental_div_mod_converse(col * 65536 + 32768, 65536, col, 32768);
    lemma_fundamental_div_mod_converse(row * 65536 + 32768, 65536, row, 32768);
}

} // verus!
