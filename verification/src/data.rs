//! The device data buffer, and the packing of a logical grid into it.
//!
//! The buffer begins with one byte that stays zero. Then the rows of the grid
//! follow from top to bottom: of each row its LEDs from left to right, then the
//! row's padding, which stays zero. Nine bytes that stay zero end the buffer.
//! Cells of the grid that carry no LED are left out.
use vstd::prelude::*;
use crate::grid::AnimeGrid;
use crate::grid::cell_index;
use crate::grid::Pixel;
use crate::layout::addressable;
use crate::layout::DATA_HEAD;
use crate::layout::DATA_LEN;
use crate::layout::DATA_TAIL;
use crate::layout::GRID_COLS;
use crate::layout::GRID_ROWS;
use crate::layout::led_len;
use crate::layout::led_pitch;
use crate::layout::led_slot;
use crate::layout::led_start;
use crate::layout::lemma_row_base_monotonic;
use crate::layout::lemma_row_shape;
use crate::layout::lemma_rows_fill_buffer;
use crate::layout::lemma_slot_in_range;
use crate::layout::row_base;
use crate::layout::row_len;
use crate::layout::row_pitch;
use crate::layout::row_start;
use crate::layout::slot_of;

verus! {

/// The bytes that `row` of the grid takes in the buffer: the levels of its LEDs,
/// then zeros for its padding.
pub open spec fn row_bytes(grid: Seq<Pixel>, row: int) -> Seq<u8> {
    Seq::new(
        row_pitch(row) as nat,
        |i: int|
            if i < row_len(row) {
                grid[cell_index(row, row_start(row) + i)].level()
            } else {
                0u8
            },
    )
}

/// The bytes of the first `rows` rows of the grid, one row after the other.
pub open spec fn rows_bytes(grid: Seq<Pixel>, rows: int) -> Seq<u8>
    decreases rows,
{
    if rows <= 0 {
        Seq::empty()
    } else {
        rows_bytes(grid, rows - 1) + row_bytes(grid, rows - 1)
    }
}

/// The device data buffer for a grid.
pub open spec fn encoded(grid: Seq<Pixel>) -> Seq<u8> {
    Seq::new(DATA_HEAD as nat, |i: int| 0u8) + rows_bytes(grid, GRID_ROWS as int) + Seq::new(
        DATA_TAIL as nat,
        |i: int| 0u8,
    )
}

/// The first `rows` rows end where the next row begins.
pub proof fn lemma_rows_bytes_len(grid: Seq<Pixel>, rows: int)
    requires
        0 <= rows <= GRID_ROWS,
    ensures
        rows_bytes(grid, rows).len() == row_base(rows) - DATA_HEAD,
    decreases rows,
{
    if rows > 0 {
        lemma_rows_bytes_len(grid, rows - 1);
        lemma_row_shape(rows - 1);
    }
}

/// The buffer has the same length for every grid.
pub proof fn lemma_encoded_len(grid: Seq<Pixel>)
    ensures
        encoded(grid).len() == DATA_LEN,
{
    lemma_rows_bytes_len(grid, GRID_ROWS as int);
    lemma_rows_fill_buffer();
}

/// The byte at buffer position `slot` of the first `rows` rows, for a position
/// inside `row`.
proof fn lemma_rows_bytes_at(grid: Seq<Pixel>, rows: int, row: int, slot: int)
    requires
        0 <= row < rows <= GRID_ROWS,
        row_base(row) <= slot < row_base(row) + row_pitch(row),
    ensures
        0 <= slot - DATA_HEAD < rows_bytes(grid, rows).len(),
        rows_bytes(grid, rows)[slot - DATA_HEAD] == row_bytes(grid, row)[slot - row_base(row)],
    decreases rows,
{
    lemma_rows_bytes_len(grid, rows);
    lemma_rows_bytes_len(grid, rows - 1);
    lemma_row_base_monotonic(0, row);
    lemma_row_shape(rows - 1);
    if row == rows - 1 {
    } else {
        lemma_rows_bytes_at(grid, rows - 1, row, slot);
    }
}

/// Every LED shows the level of its own cell: the byte at the LED's position is
/// the level of the pixel at the LED's row and column.
pub proof fn lemma_encoded_led(grid: Seq<Pixel>, row: int, col: int)
    requires
        addressable(row, col),
    ensures
        0 <= slot_of(row, col) < encoded(grid).len(),
        encoded(grid)[slot_of(row, col)] == grid[cell_index(row, col)].level(),
{
    lemma_encoded_len(grid);
    lemma_slot_in_range(row, col);
    lemma_row_shape(row);
    lemma_rows_bytes_len(grid, GRID_ROWS as int);
    lemma_rows_bytes_at(grid, GRID_ROWS as int, row, slot_of(row, col));
}

/// A byte of the first `rows` rows that is no LED's position is zero.
proof fn lemma_rows_bytes_padding(grid: Seq<Pixel>, rows: int, at: int)
    requires
        0 <= rows <= GRID_ROWS,
        0 <= at < rows_bytes(grid, rows).len(),
        forall|row: int, col: int| addressable(row, col) ==> slot_of(row, col) != at + DATA_HEAD,
    ensures
        rows_bytes(grid, rows)[at] == 0,
    decreases rows,
{
    if rows > 0 {
        lemma_rows_bytes_len(grid, rows - 1);
        lemma_rows_bytes_len(grid, rows);
        lemma_row_shape(rows - 1);
        if at < rows_bytes(grid, rows - 1).len() {
            lemma_rows_bytes_padding(grid, rows - 1, at);
        } else {
            let row: int = rows - 1;
            let i: int = at - rows_bytes(grid, rows - 1).len();
            if i < row_len(row) {
                assert(addressable(row, row_start(row) + i));
                assert(slot_of(row, row_start(row) + i) == at + DATA_HEAD);
            }
        }
    }
}

/// Every byte of the buffer that is no LED's position is zero.
pub proof fn lemma_encoded_padding(grid: Seq<Pixel>, slot: int)
    requires
        0 <= slot < DATA_LEN,
        forall|row: int, col: int| addressable(row, col) ==> slot_of(row, col) != slot,
    ensures
        encoded(grid)[slot] == 0,
{
    lemma_encoded_len(grid);
    lemma_rows_bytes_len(grid, GRID_ROWS as int);
    lemma_rows_fill_buffer();
    if DATA_HEAD <= slot < DATA_LEN - DATA_TAIL {
        lemma_rows_bytes_padding(grid, GRID_ROWS as int, slot - DATA_HEAD);
    }
}

/// Cells without an LED are dropped: the buffer depends on the grid only through
/// what its LEDs show. Two grids whose LEDs show the same give the same buffer,
/// whatever their other cells hold.
pub proof fn lemma_encoded_leds_only(first: Seq<Pixel>, second: Seq<Pixel>)
    requires
        forall|row: int, col: int| #[trigger]
            addressable(row, col) ==> first[cell_index(row, col)].level() == second[cell_index(
                row,
                col,
            )].level(),
    ensures
        encoded(first) == encoded(second),
{
    lemma_encoded_len(first);
    lemma_encoded_len(second);
    assert forall|slot: int| 0 <= slot < DATA_LEN implies encoded(first)[slot] == encoded(second)[slot] by {
        if exists|row: int, col: int| addressable(row, col) && slot_of(row, col) == slot {
            let (row, col) = choose|row: int, col: int| addressable(row, col) && slot_of(row, col) == slot;
            lemma_encoded_led(first, row, col);
            lemma_encoded_led(second, row, col);
        } else {
            lemma_encoded_padding(first, slot);
            lemma_encoded_padding(second, slot);
        }
    }
    assert(encoded(first) =~= encoded(second));
}

/// The bytes that the device shows: one per LED in the device's order, with the
/// padding that the device expects between them.
#[derive(Debug)]
pub struct AnimeDataBuffer(Vec<u8>);

impl View for AnimeDataBuffer {
    type V = Seq<u8>;

    closed spec fn view(&self) -> Seq<u8> {
        self.0@
    }
}

impl Clone for AnimeDataBuffer {
    /// A copy holds the same bytes.
    fn clone(&self) -> (copy: Self)
        ensures
            copy@ == self@,
    {
        proof {
            use_type_invariant(self);
        }
        let data: Vec<u8> = self.0.clone();
        assert(data@ =~= self.0@);
        AnimeDataBuffer(data)
    }
}

impl AnimeDataBuffer {
    /// A buffer has the device's length.
    #[verifier::type_invariant]
    pub open spec fn complete(&self) -> bool {
        self@.len() == DATA_LEN
    }

    /// The buffer that leaves every LED dark.
    pub fn new() -> (buffer: Self)
        ensures
            buffer@ == Seq::new(DATA_LEN as nat, |i: int| 0u8),
    {
        let mut data: Vec<u8> = Vec::with_capacity(DATA_LEN);
        while data.len() < DATA_LEN
            invariant
                data.len() <= DATA_LEN,
                forall|i: int| 0 <= i < data.len() ==> data@[i] == 0,
            decreases DATA_LEN - data.len(),
        {
            data.push(0);
        }
        assert(data@ =~= Seq::new(DATA_LEN as nat, |i: int| 0u8));
        AnimeDataBuffer(data)
    }

    /// The buffer that holds `data`, or `None` where `data` has not the device's
    /// length.
    pub fn from_vec(data: Vec<u8>) -> (buffer: Option<Self>)
        ensures
            buffer is Some <==> data@.len() == DATA_LEN,
            buffer matches Some(b) ==> b@ == data@,
    {
        if data.len() == DATA_LEN {
            Some(AnimeDataBuffer(data))
        } else {
            None
        }
    }

    /// The buffer for `grid`.
    pub fn from_grid(grid: &AnimeGrid) -> (buffer: Self)
        ensures
            buffer@ == encoded(grid@),
    {
        let ghost cells: Seq<Pixel> = grid@;
        let mut data: Vec<u8> = Vec::with_capacity(DATA_LEN);
        data.push(0);
        assert(data@ =~= Seq::new(DATA_HEAD as nat, |i: int| 0u8) + rows_bytes(cells, 0));
        let mut row: usize = 0;
        while row < GRID_ROWS
            invariant
                row <= GRID_ROWS,
                cells == grid@,
                data@ == Seq::new(DATA_HEAD as nat, |i: int| 0u8) + rows_bytes(cells, row as int),
            decreases GRID_ROWS - row,
        {
            let start: usize = led_start(row);
            let len: usize = led_len(row);
            let pitch: usize = led_pitch(row);
            let ghost before: Seq<u8> = data@;
            let mut i: usize = 0;
            proof {
                lemma_row_shape(row as int);
            }
            while i < pitch
                invariant
                    row < GRID_ROWS,
                    cells == grid@,
                    start == row_start(row as int),
                    len == row_len(row as int),
                    pitch == row_pitch(row as int),
                    start + len <= GRID_COLS,
                    i <= pitch,
                    data@ == before + row_bytes(cells, row as int).take(i as int),
                decreases pitch - i,
            {
                let byte: u8 = if i < len {
                    match grid.get(row, start + i) {
                        Some(pixel) => pixel.led_level(),
                        None => 0,
                    }
                } else {
                    0
                };
                data.push(byte);
                assert(data@ =~= before + row_bytes(cells, row as int).take(i as int + 1));
                i = i + 1;
            }
            assert(row_bytes(cells, row as int).take(pitch as int) =~= row_bytes(
                cells,
                row as int,
            ));
            assert(data@ =~= Seq::new(DATA_HEAD as nat, |i: int| 0u8) + rows_bytes(
                cells,
                row as int + 1,
            ));
            row = row + 1;
        }
        let ghost rows: Seq<u8> = data@;
        let mut tail: usize = 0;
        while tail < DATA_TAIL
            invariant
                tail <= DATA_TAIL,
                data@ == rows + Seq::new(tail as nat, |i: int| 0u8),
            decreases DATA_TAIL - tail,
        {
            data.push(0);
            assert(data@ =~= rows + Seq::new((tail + 1) as nat, |i: int| 0u8));
            tail = tail + 1;
        }
        proof {
            lemma_encoded_len(cells);
            assert(data@ =~= encoded(cells));
        }
        AnimeDataBuffer(data)
    }

    /// The bytes of the buffer.
    pub fn get(&self) -> (bytes: &[u8])
        ensures
            bytes@ == self@,
            bytes@.len() == DATA_LEN,
    {
        proof {
            use_type_invariant(self);
        }
        self.0.as_slice()
    }

    /// The bytes of the buffer, in a vector of their own.
    pub fn to_vec(&self) -> (bytes: Vec<u8>)
        ensures
            bytes@ == self@,
            bytes@.len() == DATA_LEN,
    {
        proof {
            use_type_invariant(self);
        }
        let bytes: Vec<u8> = self.0.clone();
        assert(bytes@ =~= self.0@);
        bytes
    }

    /// What the LED at (`row`, `col`) shows, or `None` where the cell carries no
    /// LED.
    pub fn led(&self, row: usize, col: usize) -> (level: Option<u8>)
        ensures
            addressable(row as int, col as int) ==> level == Some(
                self@[slot_of(row as int, col as int)],
            ),
            !addressable(row as int, col as int) ==> level is None,
    {
        proof {
            use_type_invariant(self);
        }
        match led_slot(row, col) {
            Some(slot) => Some(self.0[slot]),
            None => None,
        }
    }
}

} // verus!
