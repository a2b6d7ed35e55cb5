//! The pixel buffer of the LED matrix: sixteen bytes, of which the first eight
//! are the row bytes that `set_pixel` edits.

use vstd::prelude::*;

verus! {

/// Bytes in a pixel buffer.
pub const BUFFER_LEN: usize = 16;

/// Rows that `set_pixel` accepts; row `y` lives in byte `y` of the buffer.
pub const ROWS: usize = 8;

/// Columns that `set_pixel` accepts.
pub const COLUMNS: usize = 16;

/// The byte with only the bit of column `x` set. A row byte has eight bits and
/// the shift distance wraps at eight, so columns 8 to 15 fall on the bits of
/// columns 0 to 7.
pub open spec fn column_mask(x: int) -> u8 {
    1u8 << ((x % 8) as u8)
}

/// Whether the pixel at column `x` of row `y` is lit.
pub open spec fn pixel_lit(buffer: Seq<u8>, x: int, y: int) -> bool {
    buffer[y] & column_mask(x) != 0
}

/// A row byte after the pixel of column `x` was lit (`on`) or cleared.
pub open spec fn row_with_pixel(row: u8, x: int, on: bool) -> u8 {
    if on {
        row | column_mask(x)
    } else {
        row & !column_mask(x)
    }
}

/// Whether `(x, y)` names a pixel of the matrix.
pub open spec fn in_bounds(x: int, y: int) -> bool {
    0 <= x < COLUMNS && 0 <= y < ROWS
}

/// The buffer that `set_pixel` leaves behind: untouched when `(x, y)` is out
/// of bounds, otherwise only row byte `y` differs.
pub open spec fn buffer_with_pixel(buffer: Seq<u8>, x: int, y: int, on: bool) -> Seq<u8> {
    if in_bounds(x, y) {
        buffer.update(y, row_with_pixel(buffer[y], x, on))
    } else {
        buffer
    }
}

/// Lights or clears the pixel at column `x` of row `y`. Coordinates outside
/// the 16 by 8 area are ignored silently.
pub fn set_pixel(buffer: &mut [u8; 16], x: usize, y: usize, on: bool)
    ensures
        final(buffer)@ == buffer_with_pixel(old(buffer)@, x as int, y as int, on),
        x >= 16 || y >= 8 ==> final(buffer)@ == old(buffer)@,
{
    if x < COLUMNS && y < ROWS {
        let mask: u8 = 1u8.wrapping_shl(x as u32);
        if on {
            buffer[y] = buffer[y] | mask;
        } else {
            buffer[y] = buffer[y] & !mask;
        }
    }
}

proof fn lemma_single_bit(row: u8, k: u8, j: u8)
    by (bit_vector)
    requires
        k < 8,
        j < 8,
    ensures
        (row | (1u8 << k)) & (1u8 << k) != 0,
        (row & !(1u8 << k)) & (1u8 << k) == 0,
        j != k ==> (row | (1u8 << k)) & (1u8 << j) == row & (1u8 << j),
        j != k ==> (row & !(1u8 << k)) & (1u8 << j) == row & (1u8 << j),
        row & (1u8 << k) == 0 ==> (row | (1u8 << k)) & !(1u8 << k) == row,
        row & (1u8 << k) != 0 ==> (row & !(1u8 << k)) | (1u8 << k) == row,
        (row | (1u8 << k)) & !(1u8 << k) == row & !(1u8 << k),
        (row & !(1u8 << k)) | (1u8 << k) == row | (1u8 << k),
        (row | (1u8 << k)) | (1u8 << k) == row | (1u8 << k),
        (row & !(1u8 << k)) & !(1u8 << k) == row & !(1u8 << k),
{
}

/// A pixel that was just written reads back as written.
pub proof fn lemma_pixel_reads_back(buffer: Seq<u8>, x: int, y: int, on: bool)
    requires
        buffer.len() == BUFFER_LEN,
        in_bounds(x, y),
    ensures
        pixel_lit(buffer_with_pixel(buffer, x, y, on), x, y) == on,
{
    lemma_single_bit(buffer[y], (x % 8) as u8, (x % 8) as u8);
}

/// Writing a pixel leaves every pixel of another row, and every pixel of the
/// same row that sits on another bit, as it was.
pub proof fn lemma_other_pixels_keep(
    buffer: Seq<u8>,
    x: int,
    y: int,
    on: bool,
    other_x: int,
    other_y: int,
)
    requires
        buffer.len() == BUFFER_LEN,
        in_bounds(x, y),
        in_bounds(other_x, other_y),
        other_y != y || other_x % 8 != x % 8,
    ensures
        pixel_lit(buffer_with_pixel(buffer, x, y, on), other_x, other_y) == pixel_lit(
            buffer,
            other_x,
            other_y,
        ),
{
    if other_y == y {
        lemma_single_bit(buffer[y], (x % 8) as u8, (other_x % 8) as u8);
    }
}

/// Lighting a dark pixel and clearing it again restores the buffer exactly;
/// so does clearing a lit pixel and lighting it again.
pub proof fn lemma_write_and_undo_restores(buffer: Seq<u8>, x: int, y: int, on: bool)
    requires
        buffer.len() == BUFFER_LEN,
        in_bounds(x, y),
        pixel_lit(buffer, x, y) == !on,
    ensures
        buffer_with_pixel(buffer_with_pixel(buffer, x, y, on), x, y, !on) == buffer,
{
    lemma_single_bit(buffer[y], (x % 8) as u8, (x % 8) as u8);
}

/// Of two writes to the same pixel only the second counts.
pub proof fn lemma_last_write_wins(buffer: Seq<u8>, x: int, y: int, first: bool, second: bool)
    requires
        buffer.len() == BUFFER_LEN,
    ensures
        buffer_with_pixel(buffer_with_pixel(buffer, x, y, first), x, y, second)
            == buffer_with_pixel(buffer, x, y, second),
{
    if in_bounds(x, y) {
        lemma_single_bit(buffer[y], (x % 8) as u8, (x % 8) as u8);
        assert(buffer_with_pixel(buffer_with_pixel(buffer, x, y, first), x, y, second)
            =~= buffer_with_pixel(buffer, x, y, second));
    }
}

} // verus!
