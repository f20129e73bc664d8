use chess_gui::piece::{Piece, PieceKind, Side};
use chess_gui::render::{
    frame_plan, status_text_origin, tile_shade, DrawOp, TileShade, STATUS_FONT_SIZE,
};

#[test]
fn neighbouring_tiles_differ() {
    for row in 0u8..8 {
        for col in 0u8..8 {
            if col + 1 < 8 {
                assert_ne!(tile_shade(row, col), tile_shade(row, col + 1));
            }
            if row + 1 < 8 {
                assert_ne!(tile_shade(row, col), tile_shade(row + 1, col));
            }
        }
    }
}

#[test]
fn tile_shade_goes_by_parity() {
    assert_eq!(tile_shade(0, 0), TileShade::Light);
    assert_eq!(tile_shade(0, 1), TileShade::Dark);
    assert_eq!(tile_shade(1, 0), TileShade::Dark);
    assert_eq!(tile_shade(1, 1), TileShade::Light);
    assert_eq!(tile_shade(7, 7), TileShade::Light);
    assert_eq!(tile_shade(7, 0), TileShade::Dark);
    assert_eq!(tile_shade(255, 255), TileShade::Light);
    assert_eq!(tile_shade(255, 0), TileShade::Dark);
}

#[test]
fn shades_have_their_colours() {
    assert_eq!(TileShade::Light.rgb(), (228, 196, 108));
    assert_eq!(TileShade::Dark.rgb(), (188, 140, 76));
}

#[test]
fn empty_board_is_sixty_four_tiles_in_row_order() {
    let board: [Option<Piece>; 64] = [None; 64];
    let ops = frame_plan(&board);
    assert_eq!(ops.len(), 64);
    for (n, op) in ops.iter().enumerate() {
        let row = (n / 8) as u8;
        let col = (n % 8) as u8;
        assert_eq!(
            *op,
            DrawOp::Tile {
                shade: tile_shade(row, col),
                x: 90 * col as i64,
                y: 90 * row as i64,
            }
        );
    }
}

#[test]
fn piece_on_a8_is_drawn_in_the_top_right_cell() {
    let rook = Piece { side: Side::Black, kind: PieceKind::Rook };
    let mut board: [Option<Piece>; 64] = [None; 64];
    board[56] = Some(rook);
    let ops = frame_plan(&board);
    assert_eq!(ops.len(), 65);
    assert_eq!(ops[7], DrawOp::Tile { shade: TileShade::Dark, x: 630, y: 0 });
    assert_eq!(ops[8], DrawOp::Sprite { piece: rook, x: 630, y: 0 });
    assert_eq!(ops[9], DrawOp::Tile { shade: TileShade::Dark, x: 0, y: 90 });
}

#[test]
fn piece_on_h1_is_drawn_in_the_bottom_left_cell() {
    let king = Piece { side: Side::White, kind: PieceKind::King };
    let mut board: [Option<Piece>; 64] = [None; 64];
    board[7] = Some(king);
    let ops = frame_plan(&board);
    assert_eq!(ops.len(), 65);
    assert_eq!(ops[56], DrawOp::Tile { shade: TileShade::Dark, x: 0, y: 630 });
    assert_eq!(ops[57], DrawOp::Sprite { piece: king, x: 0, y: 630 });
}

#[test]
fn full_board_draws_a_piece_over_every_tile() {
    let pawn = Piece { side: Side::White, kind: PieceKind::Pawn };
    let queen = Piece { side: Side::Black, kind: PieceKind::Queen };
    let mut board: [Option<Piece>; 64] = [Some(pawn); 64];
    board[0] = Some(queen);
    let ops = frame_plan(&board);
    assert_eq!(ops.len(), 128);
    for n in 0..64usize {
        let x = 90 * (n % 8) as i64;
        let y = 90 * (n / 8) as i64;
        let shade = tile_shade((n / 8) as u8, (n % 8) as u8);
        assert_eq!(ops[2 * n], DrawOp::Tile { shade, x, y });
        let piece = board[63 - n].unwrap();
        assert_eq!(ops[2 * n + 1], DrawOp::Sprite { piece, x, y });
    }
    assert_eq!(ops[127], DrawOp::Sprite { piece: queen, x: 630, y: 630 });
}

#[test]
fn frame_plan_leaves_nothing_behind() {
    let knight = Piece { side: Side::Black, kind: PieceKind::Knight };
    let mut board: [Option<Piece>; 64] = [None; 64];
    board[28] = Some(knight);
    let first = frame_plan(&board);
    let second = frame_plan(&board);
    assert_eq!(first, second);
    assert!(first.contains(&DrawOp::Sprite { piece: knight, x: 270, y: 360 }));
}

#[test]
fn status_text_is_centred() {
    assert_eq!(STATUS_FONT_SIZE, 32);
    assert_eq!(status_text_origin(0), (360, 348));
    assert_eq!(status_text_origin(1), (348, 348));
    assert_eq!(status_text_origin(10), (240, 348));
    assert_eq!(status_text_origin(30), (0, 348));
    assert_eq!(status_text_origin(40), (-120, 348));
}
