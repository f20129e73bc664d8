//! Conversion between pixel positions and square addresses.
//!
//! The board is drawn with rank 8 at the top and file `h` at the left:
//! pixel column 0 is file `h`, pixel row 0 is rank 8.

use vstd::prelude::*;
use crate::square::{File, Rank, Square};

verus! {

/// Side of one cell, in pixels.
pub const CELL_SIZE: i64 = 90;

/// Cells along each side of the board.
pub const GRID_SIZE: i64 = 8;

/// Side of the whole board, in pixels.
pub const BOARD_SIZE: i64 = 720;

/// Index of the cell that holds pixel coordinate `p` along one axis:
/// the floor of `p / 90`, brought into 0..=7.
pub open spec fn cell_index_spec(p: int) -> int {
    let q = p / 90;
    if q < 0 {
        0
    } else if q > 7 {
        7
    } else {
        q
    }
}

/// The square drawn in the cell at (`row`, `col`), both brought into 0..=7
/// by the caller: column 0 is file `h`, row 0 is rank 8.
pub open spec fn cell_square(row: int, col: int) -> Square {
    Square { file: File::at(7 - col), rank: Rank::at(8 - row) }
}

/// The square under pixel (`x`, `y`). Positions off the board go to the
/// nearest cell.
pub open spec fn forward_spec(x: int, y: int) -> Square {
    cell_square(cell_index_spec(y), cell_index_spec(x))
}

/// Row of the cell in which `s` is drawn, counted from the top.
pub open spec fn cell_row(s: Square) -> int {
    8 - s.rank.number()
}

/// Column of the cell in which `s` is drawn, counted from the left.
pub open spec fn cell_col(s: Square) -> int {
    7 - s.file.index()
}

/// Top-left pixel of the cell in which `s` is drawn.
pub open spec fn inverse_spec(s: Square) -> (int, int) {
    (90 * cell_col(s), 90 * cell_row(s))
}

/// Middle pixel of the cell in which `s` is drawn.
pub open spec fn cell_center_spec(s: Square) -> (int, int) {
    (inverse_spec(s).0 + 45, inverse_spec(s).1 + 45)
}

/// Index of the cell that holds pixel coordinate `p` along one axis.
/// A coordinate on a cell boundary belongs to the higher cell; one off the
/// board belongs to the nearest cell.
pub fn cell_index(p: i64) -> (i: u8)
    ensures
        i == cell_index_spec(p as int),
        i < 8,
{
    if p < 0 {
        0
    } else if p >= BOARD_SIZE {
        7
    } else {
        (p / CELL_SIZE) as u8
    }
}

/// The square under pixel (`x`, `y`).
pub fn forward(x: i64, y: i64) -> (s: Square)
    ensures
        s == forward_spec(x as int, y as int),
{
    let col: u8 = cell_index(x);
    let row: u8 = cell_index(y);
    let file = File::from_index(7 - col).unwrap();
    let rank = Rank::from_number(8 - row).unwrap();
    Square { file, rank }
}

/// Top-left pixel of the cell in which `s` is drawn.
pub fn inverse(s: Square) -> (p: (i64, i64))
    ensures
        (p.0 as int, p.1 as int) == inverse_spec(s),
        0 <= p.0 <= 630,
        0 <= p.1 <= 630,
{
    let col: i64 = 7 - (s.file.to_index() as i64);
    let row: i64 = 8 - (s.rank.to_number() as i64);
    (col * CELL_SIZE, row * CELL_SIZE)
}

/// Middle pixel of the cell in which `s` is drawn.
pub fn cell_center(s: Square) -> (p: (i64, i64))
    ensures
        (p.0 as int, p.1 as int) == cell_center_spec(s),
{
    let corner = inverse(s);
    (corner.0 + CELL_SIZE / 2, corner.1 + CELL_SIZE / 2)
}

/// Name of the square under pixel (`x`, `y`), such as `a8`.
pub fn coords_to_square(x: i64, y: i64) -> (name: String)
    ensures
        name@ == forward_spec(x as int, y as int).name_spec(),
{
    forward(x, y).name()
}

/// Going from a square to the middle of its cell and back gives the square.
pub proof fn round_trip_through_cell_center(s: Square)
    ensures
        forward_spec(cell_center_spec(s).0, cell_center_spec(s).1) == s,
{
    every_pixel_of_a_cell_maps_to_it(s, 45, 45);
}

/// Every pixel of a square's cell, its top-left corner included and its
/// right and bottom boundaries excluded, maps back to that square.
pub proof fn every_pixel_of_a_cell_maps_to_it(s: Square, dx: int, dy: int)
    requires
        0 <= dx < 90,
        0 <= dy < 90,
    ensures
        forward_spec(inverse_spec(s).0 + dx, inverse_spec(s).1 + dy) == s,
{
    let col = cell_col(s);
    let row = cell_row(s);
    assert(cell_index_spec(90 * col + dx) == col);
    assert(cell_index_spec(90 * row + dy) == row);
}

/// The cell found for a pixel on the board contains that pixel.
pub proof fn forward_finds_the_containing_cell(x: int, y: int)
    requires
        0 <= x < 720,
        0 <= y < 720,
    ensures
        inverse_spec(forward_spec(x, y)).0 <= x < inverse_spec(forward_spec(x, y)).0 + 90,
        inverse_spec(forward_spec(x, y)).1 <= y < inverse_spec(forward_spec(x, y)).1 + 90,
{
}

} // verus!
