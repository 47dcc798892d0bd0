//! The logical grid: one pixel for every cell of the display's rectangle, and the
//! step that draws a decoded frame onto it.
use vstd::prelude::*;
use crate::frame::Disposal;
use crate::frame::RawFrame;
use crate::frame::RawFrameView;
use crate::geometry::Brightness;
use crate::geometry::Geometry;
use crate::layout::GRID_CELLS;
use crate::layout::GRID_COLS;
use crate::layout::GRID_ROWS;

verus! {

/// The brightness that one cell is meant to show.
///
/// `alpha` counts in 255ths: 0 is 0.0 and 255 is 1.0. A cell that was never drawn
/// has intensity 0 and alpha 0; a drawn cell has alpha 255.
#[derive(Clone, Copy, Debug, PartialEq, Eq, Structural)]
pub struct Pixel {
    pub intensity: u8,
    pub alpha: u8,
}

impl Pixel {
    /// The pixel of a cell that was never drawn.
    pub open spec fn unset() -> Pixel {
        Pixel { intensity: 0, alpha: 0 }
    }

    /// The pixel of a drawn cell.
    pub open spec fn lit(intensity: u8) -> Pixel {
        Pixel { intensity, alpha: 255 }
    }

    /// What the LED shows: the intensity weighted by alpha, rounded down.
    pub open spec fn level(self) -> u8 {
        (self.intensity * self.alpha / 255) as u8
    }

    /// What the LED shows: the intensity weighted by alpha, rounded down.
    pub fn led_level(&self) -> (v: u8)
        ensures
            v == self.level(),
            self.alpha == 255 ==> v == self.intensity,
            self.alpha == 0 ==> v == 0,
    {
        assert(0 <= self.intensity as int * self.alpha as int <= 255 * 255) by (nonlinear_arith)
            requires
                0 <= self.intensity <= 255,
                0 <= self.alpha <= 255,
        ;
        let product: u32 = self.intensity as u32 * self.alpha as u32;
        (product / 255) as u8
    }
}

/// A drawn cell shows its intensity, and a cell that was never drawn is dark.
pub proof fn lemma_level(pixel: Pixel)
    ensures
        pixel.alpha == 255 ==> pixel.level() == pixel.intensity,
        pixel.alpha == 0 ==> pixel.level() == 0,
        pixel.level() <= pixel.intensity,
{
    let i: int = pixel.intensity as int;
    let a: int = pixel.alpha as int;
    assert(0 <= i * a <= i * 255) by (nonlinear_arith)
        requires
            0 <= i,
            0 <= a <= 255,
    ;
    assert(i * 255 / 255 == i) by (nonlinear_arith);
    vstd::arithmetic::div_mod::lemma_div_is_ordered(i * a, i * 255, 255);
    if a == 0 {
        assert(i * a == 0) by (nonlinear_arith)
            requires
                a == 0,
        ;
    }
}

/// The index of the cell at (`row`, `col`) in a grid's sequence of pixels.
pub open spec fn cell_index(row: int, col: int) -> int {
    row * GRID_COLS + col
}

/// The grid on which nothing was drawn.
pub open spec fn blank() -> Seq<Pixel> {
    Seq::new(GRID_CELLS as nat, |i: int| Pixel::unset())
}

/// The pixel of the cell at (`row`, `col`) once `frame` is drawn over `prev`.
///
/// Where the frame is to restore the background, the cell is cleared first. Then
/// the source pixel that lands on the cell is drawn if it is fully opaque; any
/// other pixel leaves the cell as it is.
pub open spec fn composed_cell(
    prev: Pixel,
    frame: RawFrameView,
    width: int,
    height: int,
    geometry: Geometry,
    brightness: Brightness,
    row: int,
    col: int,
) -> Pixel {
    let base = if frame.dispose == Disposal::Background {
        Pixel::unset()
    } else {
        prev
    };
    match geometry.source(width, height, row, col) {
        Some((x, y)) => if frame.is_opaque(x - frame.left, y - frame.top) {
            Pixel::lit(geometry.intensity(brightness, frame.colour(x - frame.left, y - frame.top)))
        } else {
            base
        },
        None => base,
    }
}

/// The grid once `frame`, a frame of a canvas of `width` by `height` pixels, is
/// drawn over the grid `prev`.
pub open spec fn composed(
    prev: Seq<Pixel>,
    frame: RawFrameView,
    width: int,
    height: int,
    geometry: Geometry,
    brightness: Brightness,
) -> Seq<Pixel> {
    Seq::new(
        GRID_CELLS as nat,
        |i: int|
            composed_cell(
                prev[i],
                frame,
                width,
                height,
                geometry,
                brightness,
                i / (GRID_COLS as int),
                i % (GRID_COLS as int),
            ),
    )
}

/// The logical grid: the pixels of all cells, row by row.
#[derive(Debug)]
pub struct AnimeGrid {
    cells: Vec<Pixel>,
}

impl View for AnimeGrid {
    type V = Seq<Pixel>;

    closed spec fn view(&self) -> Seq<Pixel> {
        self.cells@
    }
}

impl AnimeGrid {
    /// A grid holds exactly one pixel for each cell.
    #[verifier::type_invariant]
    pub open spec fn complete(&self) -> bool {
        self@.len() == GRID_CELLS
    }

    /// The grid on which nothing was drawn.
    pub fn new() -> (grid: Self)
        ensures
            grid@ == blank(),
    {
        let mut cells: Vec<Pixel> = Vec::with_capacity(GRID_CELLS);
        while cells.len() < GRID_CELLS
            invariant
                cells.len() <= GRID_CELLS,
                forall|i: int| 0 <= i < cells.len() ==> cells@[i] == Pixel::unset(),
            decreases GRID_CELLS - cells.len(),
        {
            cells.push(Pixel { intensity: 0, alpha: 0 });
        }
        assert(cells@ =~= blank());
        AnimeGrid { cells }
    }

    /// The pixel of the cell at (`row`, `col`), or `None` outside the grid.
    pub fn get(&self, row: usize, col: usize) -> (pixel: Option<Pixel>)
        ensures
            self@.len() == GRID_CELLS,
            row < GRID_ROWS && col < GRID_COLS ==> pixel == Some(
                self@[cell_index(row as int, col as int)],
            ),
            !(row < GRID_ROWS && col < GRID_COLS) ==> pixel is None,
    {
        proof {
            use_type_invariant(self);
        }
        if row < GRID_ROWS && col < GRID_COLS {
            Some(self.cells[row * GRID_COLS + col])
        } else {
            None
        }
    }

    /// This grid with `pixel` in the cell at (`row`, `col`). Outside the grid
    /// nothing changes.
    pub fn with_pixel(self, row: usize, col: usize, pixel: Pixel) -> (grid: Self)
        ensures
            row < GRID_ROWS && col < GRID_COLS ==> grid@ == self@.update(
                cell_index(row as int, col as int),
                pixel,
            ),
            !(row < GRID_ROWS && col < GRID_COLS) ==> grid@ == self@,
    {
        proof {
            use_type_invariant(&self);
        }
        let mut cells: Vec<Pixel> = self.cells;
        if row < GRID_ROWS && col < GRID_COLS {
            cells.set(row * GRID_COLS + col, pixel);
        }
        AnimeGrid { cells }
    }

    /// The grid once `frame`, a frame of a canvas of `width` by `height` pixels, is
    /// drawn over this one. This grid stays as it is.
    pub fn compose(
        &self,
        frame: &RawFrame,
        width: u16,
        height: u16,
        geometry: &Geometry,
        brightness: Brightness,
    ) -> (next: Self)
        ensures
            next@ == composed(self@, frame@, width as int, height as int, *geometry, brightness),
    {
        proof {
            use_type_invariant(self);
        }
        let clear: bool = frame.dispose == Disposal::Background;
        let mut cells: Vec<Pixel> = Vec::with_capacity(GRID_CELLS);
        while cells.len() < GRID_CELLS
            invariant
                self@.len() == GRID_CELLS,
                self@ == self.cells@,
                cells.len() <= GRID_CELLS,
                clear == (frame.dispose == Disposal::Background),
                forall|i: int|
                    0 <= i < cells.len() ==> cells@[i] == composed_cell(
                        self@[i],
                        frame@,
                        width as int,
                        height as int,
                        *geometry,
                        brightness,
                        i / (GRID_COLS as int),
                        i % (GRID_COLS as int),
                    ),
            decreases GRID_CELLS - cells.len(),
        {
            let index: usize = cells.len();
            let row: usize = index / GRID_COLS;
            let col: usize = index % GRID_COLS;
            let base: Pixel = if clear {
                Pixel { intensity: 0, alpha: 0 }
            } else {
                self.cells[index]
            };
            let pixel: Pixel = match geometry.source_of(width, height, row, col) {
                Some((x, y)) => match frame.opaque_pixel(x - frame.left as i64, y - frame.top as i64) {
                    Some(colour) => Pixel {
                        intensity: geometry.intensity_of(brightness, colour),
                        alpha: 255,
                    },
                    None => base,
                },
                None => base,
            };
            cells.push(pixel);
        }
        assert(cells@ =~= composed(
            self@,
            frame@,
            width as int,
            height as int,
            *geometry,
            brightness,
        ));
        AnimeGrid { cells }
    }
}

/// A cell on which the frame draws nothing is cleared where the frame restores
/// the background, and keeps the pixel that it had in every other case.
pub proof fn lemma_undrawn_cell(
    prev: Seq<Pixel>,
    frame: RawFrameView,
    width: int,
    height: int,
    geometry: Geometry,
    brightness: Brightness,
    row: int,
    col: int,
)
    requires
        prev.len() == GRID_CELLS,
        0 <= row < GRID_ROWS,
        0 <= col < GRID_COLS,
        match geometry.source(width, height, row, col) {
            Some((x, y)) => !frame.is_opaque(x - frame.left, y - frame.top),
            None => true,
        },
    ensures
        frame.dispose == Disposal::Background ==> composed(
            prev,
            frame,
            width,
            height,
            geometry,
            brightness,
        )[cell_index(row, col)] == Pixel::unset(),
        frame.dispose != Disposal::Background ==> composed(
            prev,
            frame,
            width,
            height,
            geometry,
            brightness,
        )[cell_index(row, col)] == prev[cell_index(row, col)],
{
    lemma_cell_index(row, col);
}

/// A cell on which the frame draws a fully opaque pixel shows that pixel's
/// intensity, whatever the cell held and whatever the frame does to the canvas.
pub proof fn lemma_drawn_cell(
    prev: Seq<Pixel>,
    frame: RawFrameView,
    width: int,
    height: int,
    geometry: Geometry,
    brightness: Brightness,
    row: int,
    col: int,
    x: int,
    y: int,
)
    requires
        prev.len() == GRID_CELLS,
        0 <= row < GRID_ROWS,
        0 <= col < GRID_COLS,
        geometry.source(width, height, row, col) == Some((x, y)),
        frame.is_opaque(x - frame.left, y - frame.top),
    ensures
        composed(prev, frame, width, height, geometry, brightness)[cell_index(row, col)]
            == Pixel::lit(
            geometry.intensity(brightness, frame.colour(x - frame.left, y - frame.top)),
        ),
{
    lemma_cell_index(row, col);
}

/// A frame that restores the background forgets what was drawn before: the grid
/// after it is the same whatever grid it is drawn over.
pub proof fn lemma_background_forgets(
    first: Seq<Pixel>,
    second: Seq<Pixel>,
    frame: RawFrameView,
    width: int,
    height: int,
    geometry: Geometry,
    brightness: Brightness,
)
    requires
        frame.dispose == Disposal::Background,
    ensures
        composed(first, frame, width, height, geometry, brightness) == composed(
            second,
            frame,
            width,
            height,
            geometry,
            brightness,
        ),
{
    assert(composed(first, frame, width, height, geometry, brightness) =~= composed(
        second,
        frame,
        width,
        height,
        geometry,
        brightness,
    ));
}

/// A frame that does not restore the background only adds to what was drawn: a
/// cell that was drawn before is still drawn after it.
pub proof fn lemma_keep_accumulates(
    prev: Seq<Pixel>,
    frame: RawFrameView,
    width: int,
    height: int,
    geometry: Geometry,
    brightness: Brightness,
    index: int,
)
    requires
        frame.dispose != Disposal::Background,
        0 <= index < GRID_CELLS,
        prev[index].alpha == 255,
    ensures
        composed(prev, frame, width, height, geometry, brightness)[index].alpha == 255,
{
}

/// The cells are numbered row by row.
pub proof fn lemma_cell_index(row: int, col: int)
    requires
        0 <= row < GRID_ROWS,
        0 <= col < GRID_COLS,
    ensures
        0 <= cell_index(row, col) < GRID_CELLS,
        cell_index(row, col) / (GRID_COLS as int) == row,
        cell_index(row, col) % (GRID_COLS as int) == col,
{
    vstd::arithmetic::div_mod::lemma_fundamental_div_mod_converse(
        row * 33 + col,
        33,
        row,
        col,
    );
}

} // verus!
