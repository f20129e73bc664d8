//! Planning one frame: the checkerboard, then the pieces, from a snapshot
//! of the rules model's board.
//!
//! A frame is a list of drawing steps on plain values. Tiles and pieces are
//! placed through the same square addresses that input is mapped to, so the
//! picture and the clicks cannot disagree.

use vstd::prelude::*;
use crate::mapper::{cell_col, cell_row, cell_square, forward, inverse, inverse_spec};
use crate::piece::Piece;
use crate::square::Square;

verus! {

/// The two tile colours.
#[derive(Clone, Copy, Debug, PartialEq, Eq, Hash, Structural)]
pub enum TileShade {
    Light,
    Dark,
}

/// One drawing step. Each draws into a square of one cell's size whose
/// top-left pixel is (`x`, `y`).
#[derive(Clone, Copy, Debug, PartialEq, Eq, Structural)]
pub enum DrawOp {
    /// Fill the cell with a tile colour.
    Tile { shade: TileShade, x: i64, y: i64 },
    /// Draw the image of a piece over the cell.
    Sprite { piece: Piece, x: i64, y: i64 },
}

impl TileShade {
    /// Red, green and blue of the shade, each out of 255.
    pub open spec fn rgb_spec(self) -> (u8, u8, u8) {
        match self {
            TileShade::Light => (228u8, 196u8, 108u8),
            TileShade::Dark => (188u8, 140u8, 76u8),
        }
    }

    /// Red, green and blue of the shade, each out of 255.
    pub fn rgb(self) -> (c: (u8, u8, u8))
        ensures
            c == self.rgb_spec(),
    {
        match self {
            TileShade::Light => (228, 196, 108),
            TileShade::Dark => (188, 140, 76),
        }
    }
}

/// Shade of the tile at (`row`, `col`): light where `row + col` is even.
pub open spec fn tile_shade_spec(row: int, col: int) -> TileShade {
    if (row + col) % 2 == 0 {
        TileShade::Light
    } else {
        TileShade::Dark
    }
}

/// Shade of the tile at (`row`, `col`).
pub fn tile_shade(row: u8, col: u8) -> (shade: TileShade)
    ensures
        shade == tile_shade_spec(row as int, col as int),
{
    if row % 2 == col % 2 {
        TileShade::Light
    } else {
        TileShade::Dark
    }
}

/// Height of the status line's letters, in pixels.
pub const STATUS_FONT_SIZE: u32 = 32;

/// Top-left pixel of a status line of `len` characters, each taken as 24
/// pixels wide and high, so that the line sits in the middle of the board.
pub open spec fn status_text_origin_spec(len: int) -> (int, int) {
    ((720 - 24 * len) / 2, (720 - 24) / 2)
}

/// Top-left pixel of a status line of `len` characters. What the line says
/// is the caller's business; this is only its place.
pub fn status_text_origin(len: u32) -> (p: (i64, i64))
    ensures
        (p.0 as int, p.1 as int) == status_text_origin_spec(len as int),
{
    let width: i64 = 24 * (len as i64);
    (360 - width / 2, 348)
}

/// The step that fills the cell of square `s`.
pub open spec fn tile_at(s: Square) -> DrawOp {
    DrawOp::Tile {
        shade: tile_shade_spec(cell_row(s), cell_col(s)),
        x: inverse_spec(s).0 as i64,
        y: inverse_spec(s).1 as i64,
    }
}

/// The step that draws `piece` over the cell of square `s`.
pub open spec fn sprite_at(s: Square, piece: Piece) -> DrawOp {
    DrawOp::Sprite { piece, x: inverse_spec(s).0 as i64, y: inverse_spec(s).1 as i64 }
}

/// The steps that draw cell number `cell`, counted along the rows from the
/// top left: the tile of the cell's square, then the piece that the
/// snapshot holds for that square, if any.
pub open spec fn cell_ops(board: Seq<Option<Piece>>, cell: int) -> Seq<DrawOp> {
    let s = cell_square(cell / 8, cell % 8);
    match board[s.model_index_spec()] {
        Some(piece) => seq![tile_at(s), sprite_at(s, piece)],
        None => seq![tile_at(s)],
    }
}

/// The steps that draw the first `cells` cells.
pub open spec fn frame_spec(board: Seq<Option<Piece>>, cells: nat) -> Seq<DrawOp>
    decreases cells,
{
    if cells == 0 {
        Seq::empty()
    } else {
        frame_spec(board, (cells - 1) as nat) + cell_ops(board, cells - 1)
    }
}

/// The steps that draw one frame from `board`, the model's snapshot in the
/// model's order. Nothing is kept between frames, and `board` is only read.
pub fn frame_plan(board: &[Option<Piece>; 64]) -> (ops: Vec<DrawOp>)
    ensures
        ops@ == frame_spec(board@, 64),
{
    let mut ops: Vec<DrawOp> = Vec::new();
    let mut row: u8 = 0;
    while row < 8
        invariant
            row <= 8,
            ops@ == frame_spec(board@, (row * 8) as nat),
        decreases 8 - row,
    {
        let mut col: u8 = 0;
        while col < 8
            invariant
                row < 8,
                col <= 8,
                ops@ == frame_spec(board@, (row * 8 + col) as nat),
            decreases 8 - col,
        {
            let ghost before = ops@;
            let ghost cell: int = row * 8 + col;
            let s = forward((col as i64) * 90, (row as i64) * 90);
            assert(s == cell_square(cell / 8, cell % 8));
            assert(cell_row(s) == row && cell_col(s) == col);
            let (x, y) = inverse(s);
            ops.push(DrawOp::Tile { shade: tile_shade(row, col), x, y });
            match board[s.model_index()] {
                Some(piece) => {
                    ops.push(DrawOp::Sprite { piece, x, y });
                },
                None => {},
            }
            assert(ops@ =~= before + cell_ops(board@, cell));
            col += 1;
        }
        row += 1;
    }
    ops
}

/// Neighbouring tiles differ in shade, along a row and down a column.
pub proof fn checkerboard_alternates(row: int, col: int)
    ensures
        tile_shade_spec(row, col) != tile_shade_spec(row, col + 1),
        tile_shade_spec(row, col) != tile_shade_spec(row + 1, col),
{
}

/// A value is in two sequences joined exactly when it is in one of them.
proof fn joined_contains<T>(a: Seq<T>, b: Seq<T>, x: T)
    ensures
        (a + b).contains(x) <==> a.contains(x) || b.contains(x),
{
    if a.contains(x) {
        let i = choose|i: int| 0 <= i < a.len() && a[i] == x;
        assert((a + b)[i] == x);
    }
    if b.contains(x) {
        let i = choose|i: int| 0 <= i < b.len() && b[i] == x;
        assert((a + b)[a.len() + i] == x);
    }
    if (a + b).contains(x) {
        let i = choose|i: int| 0 <= i < (a + b).len() && (a + b)[i] == x;
        if i < a.len() {
            assert(a[i] == x);
        } else {
            assert(b[i - a.len()] == x);
        }
    }
}

/// A step is among those of the first `cells` cells exactly when it is
/// among the steps of one of them.
proof fn frame_members(board: Seq<Option<Piece>>, cells: nat, op: DrawOp)
    ensures
        frame_spec(board, cells).contains(op) <==> exists|k: int|
            0 <= k < cells && #[trigger] cell_ops(board, k).contains(op),
    decreases cells,
{
    if cells > 0 {
        frame_members(board, (cells - 1) as nat, op);
        joined_contains(frame_spec(board, (cells - 1) as nat), cell_ops(board, cells - 1), op);
    }
}

/// The frame shows the board as the mapper addresses it: the tile of every
/// square is drawn at the square's own pixel, and a piece is drawn at that
/// pixel exactly when the snapshot holds it for that square.
pub proof fn frame_shows_each_square(board: Seq<Option<Piece>>, s: Square, piece: Piece)
    requires
        board.len() == 64,
    ensures
        frame_spec(board, 64).contains(tile_at(s)),
        frame_spec(board, 64).contains(sprite_at(s, piece)) <==> board[s.model_index_spec()]
            == Some(piece),
{
    let k = cell_row(s) * 8 + cell_col(s);
    assert(cell_square(k / 8, k % 8) == s);
    frame_members(board, 64, tile_at(s));
    frame_members(board, 64, sprite_at(s, piece));
    assert(cell_ops(board, k)[0] == tile_at(s));
    assert(cell_ops(board, k).contains(tile_at(s)));
    if board[s.model_index_spec()] == Some(piece) {
        assert(cell_ops(board, k)[1] == sprite_at(s, piece));
        assert(cell_ops(board, k).contains(sprite_at(s, piece)));
    }
    if frame_spec(board, 64).contains(sprite_at(s, piece)) {
        let j = choose|j: int| 0 <= j < 64 && #[trigger] cell_ops(board, j).contains(
            sprite_at(s, piece),
        );
        let t = cell_square(j / 8, j % 8);
        let i = choose|i: int|
            0 <= i < cell_ops(board, j).len() && cell_ops(board, j)[i] == sprite_at(s, piece);
        assert(cell_ops(board, j)[i] == sprite_at(t, board[t.model_index_spec()].unwrap()));
        assert(inverse_spec(t) == inverse_spec(s));
        assert(t == s);
    }
}

/// Every cell is drawn at the pixel its square maps to, and the piece drawn
/// there is the one the model holds for that square: cell (`row`, `col`)
/// stands at pixel (90 `col`, 90 `row`) and reads place `63 - (8 row + col)`
/// of the snapshot.
pub proof fn cells_follow_the_mapper(row: int, col: int)
    requires
        0 <= row < 8,
        0 <= col < 8,
    ensures
        inverse_spec(cell_square(row, col)) == (90 * col, 90 * row),
        cell_square(row, col).model_index_spec() == 63 - (8 * row + col),
{
}

} // verus!
