//! The shape of the LED matrix: which cells of the logical grid carry an LED, and
//! where each LED sits in the device data buffer.
//!
//! The logical grid is a rectangle of `GRID_ROWS` by `GRID_COLS` cells. The LEDs
//! fill a trapezoid inside it: the first five rows are complete, and from then on
//! every second row loses one LED on its left. In the data buffer the rows follow
//! each other; a row takes `row_pitch` bytes, of which the first `row_len` belong to
//! its LEDs and the rest are padding that stays dark.
use vstd::prelude::*;

verus! {

/// Rows of the logical grid.
pub const GRID_ROWS: usize = 55;

/// Columns of the logical grid.
pub const GRID_COLS: usize = 33;

/// Cells of the logical grid, `GRID_ROWS * GRID_COLS`.
pub const GRID_CELLS: usize = 1815;

/// Length of the device data buffer in bytes.
pub const DATA_LEN: usize = 1254;

/// Bytes of the data buffer that come before the first row.
pub const DATA_HEAD: usize = 1;

/// Bytes of the data buffer that come after the last row.
pub const DATA_TAIL: usize = 9;

/// Number of LEDs on the device.
pub const LED_COUNT: usize = 1215;

/// The first column of `row` that carries an LED.
pub open spec fn row_start(row: int) -> int {
    if row < 5 {
        0
    } else {
        (row + 1) / 2 - 3
    }
}

/// The number of LEDs in `row`.
pub open spec fn row_len(row: int) -> int {
    if row < 5 {
        33
    } else {
        36 - (row + 1) / 2
    }
}

/// The number of bytes that `row` takes in the data buffer.
pub open spec fn row_pitch(row: int) -> int {
    if row < 5 {
        if row % 2 == 0 {
            33
        } else {
            35
        }
    } else {
        36 - row / 2
    }
}

/// The position in the data buffer at which `row` begins.
pub open spec fn row_base(row: int) -> int
    decreases row,
{
    if row <= 0 {
        DATA_HEAD as int
    } else {
        row_base(row - 1) + row_pitch(row - 1)
    }
}

/// The number of LEDs in the first `rows` rows.
pub open spec fn leds_in(rows: int) -> int
    decreases rows,
{
    if rows <= 0 {
        0
    } else {
        leds_in(rows - 1) + row_len(rows - 1)
    }
}

/// Whether the cell at (`row`, `col`) of the logical grid carries an LED.
pub open spec fn addressable(row: int, col: int) -> bool {
    &&& 0 <= row < GRID_ROWS
    &&& row_start(row) <= col < row_start(row) + row_len(row)
}

/// The position in the data buffer of the LED at (`row`, `col`).
pub open spec fn slot_of(row: int, col: int) -> int
    recommends
        addressable(row, col),
{
    row_base(row) + (col - row_start(row))
}

/// Every row lies inside the grid and its LEDs fit into its share of the buffer.
pub proof fn lemma_row_shape(row: int)
    requires
        0 <= row < GRID_ROWS,
    ensures
        0 <= row_start(row),
        9 <= row_len(row) <= 33,
        row_start(row) + row_len(row) <= GRID_COLS,
        row_len(row) <= row_pitch(row) <= row_len(row) + 2,
{
}

/// From the sixth row on, the start of a row has a closed form in half the row
/// number: an even row `2 * k` begins at `73 * k - k * k - 6`.
proof fn lemma_row_base_even(k: int)
    requires
        3 <= k <= 27,
    ensures
        row_base(2 * k) == 73 * k - k * k - 6,
        row_base(2 * k + 1) == 73 * k - k * k - 6 + (36 - k),
    decreases k,
{
    if k == 3 {
        reveal_with_fuel(row_base, 8);
        assert(row_base(6) == 204);
        assert(row_base(7) == 237);
    } else {
        lemma_row_base_even(k - 1);
        let j: int = k - 1;
        assert(row_base(2 * j + 2) == row_base(2 * j + 1) + row_pitch(2 * j + 1));
        assert(row_pitch(2 * j + 1) == 36 - j);
        assert(row_base(2 * k) == 73 * j - j * j - 6 + (36 - j) + (36 - j));
        assert(73 * j - j * j - 6 + (36 - j) + (36 - j) == 73 * k - k * k - 6) by (nonlinear_arith)
            requires
                j == k - 1,
        ;
        assert(row_base(2 * k + 1) == row_base(2 * k) + row_pitch(2 * k));
        assert(row_pitch(2 * k) == 36 - k);
    }
}

/// The rows are laid out in increasing order: a later row begins where the rows
/// before it have ended.
pub proof fn lemma_row_base_monotonic(a: int, b: int)
    requires
        0 <= a <= b <= GRID_ROWS,
    ensures
        row_base(a) <= row_base(b),
        a < b ==> row_base(a) + row_pitch(a) <= row_base(b),
    decreases b - a,
{
    if a < b {
        lemma_row_base_monotonic(a, b - 1);
        assert(row_base(b) == row_base(b - 1) + row_pitch(b - 1));
        if a < b - 1 {
        } else {
            assert(a == b - 1);
        }
    }
}

/// The rows end where the tail of the buffer begins: together with the head and
/// the tail they take exactly `DATA_LEN` bytes.
pub proof fn lemma_rows_fill_buffer()
    ensures
        row_base(GRID_ROWS as int) + DATA_TAIL == DATA_LEN,
{
    lemma_row_base_even(27);
    assert(row_base(55) == row_base(54) + row_pitch(54));
}

/// From the sixth row on, the number of LEDs above an odd row `2 * k + 1` has a
/// closed form: `71 * k - k * k + 27`.
proof fn lemma_leds_in_odd(k: int)
    requires
        2 <= k <= 27,
    ensures
        leds_in(2 * k + 1) == 71 * k - k * k + 27,
    decreases k,
{
    if k == 2 {
        reveal_with_fuel(leds_in, 6);
        assert(leds_in(5) == 165);
    } else {
        lemma_leds_in_odd(k - 1);
        let j: int = k - 1;
        assert(leds_in(2 * j + 2) == leds_in(2 * j + 1) + row_len(2 * j + 1));
        assert(leds_in(2 * k + 1) == leds_in(2 * k) + row_len(2 * k));
        assert(row_len(2 * j + 1) == 36 - k);
        assert(row_len(2 * k) == 36 - k);
        assert(71 * j - j * j + 27 + (36 - k) + (36 - k) == 71 * k - k * k + 27) by (nonlinear_arith)
            requires
                j == k - 1,
        ;
    }
}

/// The rows of the grid hold `LED_COUNT` LEDs between them.
pub proof fn lemma_led_count()
    ensures
        leds_in(GRID_ROWS as int) == LED_COUNT,
{
    lemma_leds_in_odd(27);
}

/// An LED's position lies inside its row's share of the buffer, and so inside the
/// buffer, after the head and before the tail.
pub proof fn lemma_slot_in_range(row: int, col: int)
    requires
        addressable(row, col),
    ensures
        row_base(row) <= slot_of(row, col) < row_base(row) + row_len(row),
        DATA_HEAD <= slot_of(row, col) < DATA_LEN - DATA_TAIL,
{
    lemma_row_shape(row);
    lemma_row_base_monotonic(0, row);
    lemma_row_base_monotonic(row, GRID_ROWS as int);
    lemma_rows_fill_buffer();
    if row + 1 <= GRID_ROWS {
        lemma_row_base_monotonic(row, row + 1);
    }
}

/// No two LEDs share a position in the data buffer.
pub proof fn lemma_slot_injective(row1: int, col1: int, row2: int, col2: int)
    requires
        addressable(row1, col1),
        addressable(row2, col2),
        slot_of(row1, col1) == slot_of(row2, col2),
    ensures
        row1 == row2,
        col1 == col2,
{
    lemma_slot_in_range(row1, col1);
    lemma_slot_in_range(row2, col2);
    lemma_row_shape(row1);
    lemma_row_shape(row2);
    if row1 < row2 {
        lemma_row_base_monotonic(row1, row2);
    } else if row2 < row1 {
        lemma_row_base_monotonic(row2, row1);
    }
}

/// The first column of `row` that carries an LED.
pub fn led_start(row: usize) -> (start: usize)
    requires
        row < GRID_ROWS,
    ensures
        start == row_start(row as int),
{
    if row < 5 {
        0
    } else {
        (row + 1) / 2 - 3
    }
}

/// The number of LEDs in `row`.
pub fn led_len(row: usize) -> (len: usize)
    requires
        row < GRID_ROWS,
    ensures
        len == row_len(row as int),
{
    if row < 5 {
        33
    } else {
        36 - (row + 1) / 2
    }
}

/// The number of bytes that `row` takes in the data buffer.
pub fn led_pitch(row: usize) -> (pitch: usize)
    requires
        row < GRID_ROWS,
    ensures
        pitch == row_pitch(row as int),
{
    if row < 5 {
        if row % 2 == 0 {
            33
        } else {
            35
        }
    } else {
        36 - row / 2
    }
}

/// Whether the cell at (`row`, `col`) carries an LED. Cells outside the grid carry
/// none.
pub fn is_addressable(row: usize, col: usize) -> (yes: bool)
    ensures
        yes == addressable(row as int, col as int),
{
    if row >= GRID_ROWS {
        return false;
    }
    let start: usize = led_start(row);
    let len: usize = led_len(row);
    start <= col && col < start + len
}

/// The position in the data buffer of the LED at (`row`, `col`), or `None` where
/// the cell carries no LED.
pub fn led_slot(row: usize, col: usize) -> (slot: Option<usize>)
    ensures
        slot is Some <==> addressable(row as int, col as int),
        slot matches Some(s) ==> s == slot_of(row as int, col as int),
        slot matches Some(s) ==> DATA_HEAD <= s < DATA_LEN - DATA_TAIL,
{
    if !is_addressable(row, col) {
        return None;
    }
    let mut base: usize = DATA_HEAD;
    let mut r: usize = 0;
    while r < row
        invariant
            r <= row < GRID_ROWS,
            base == row_base(r as int),
            base <= DATA_LEN,
        decreases row - r,
    {
        proof {
            lemma_row_base_monotonic(r as int + 1, GRID_ROWS as int);
            lemma_rows_fill_buffer();
        }
        base = base + led_pitch(r);
        r = r + 1;
    }
    proof {
        lemma_slot_in_range(row as int, col as int);
    }
    Some(base + (col - led_start(row)))
}

} // verus!
