//! The 8x8 board and its standard starting position.

use vstd::prelude::*;
use crate::piece::{Color, Piece, Type};

verus! {

/// Eight rows of eight cells; row 0 is Black's back rank.
pub type Board = [[Option<Piece>; 8]; 8];

/// The piece types of a back rank, from file 0 to file 7.
pub open spec fn back_rank_type(file: int) -> Type {
    if file == 0 || file == 7 {
        Type::Rook
    } else if file == 1 || file == 6 {
        Type::Knight
    } else if file == 2 || file == 5 {
        Type::Bishop
    } else if file == 3 {
        Type::Queen
    } else {
        Type::King
    }
}

/// The cell at (`row`, `file`) of the standard starting position.
pub open spec fn default_cell(row: int, file: int) -> Option<Piece> {
    if row == 0 {
        Some(Piece { color: Color::Black, type_: back_rank_type(file) })
    } else if row == 1 {
        Some(Piece { color: Color::Black, type_: Type::Pawn })
    } else if row == 6 {
        Some(Piece { color: Color::White, type_: Type::Pawn })
    } else if row == 7 {
        Some(Piece { color: Color::White, type_: back_rank_type(file) })
    } else {
        None
    }
}

/// The standard starting position.
pub fn default_board() -> (board: Board)
    ensures
        forall|row: int, file: int|
            0 <= row < 8 && 0 <= file < 8 ==> #[trigger] board[row][file] == default_cell(
                row,
                file,
            ),
{
    let black_pawn: Option<Piece> = Some(Piece::new(Color::Black, Type::Pawn));
    let white_pawn: Option<Piece> = Some(Piece::new(Color::White, Type::Pawn));
    let none: Option<Piece> = None;
    let empty: [Option<Piece>; 8] = [none, none, none, none, none, none, none, none];
    [
        [
            Some(Piece::new(Color::Black, Type::Rook)),
            Some(Piece::new(Color::Black, Type::Knight)),
            Some(Piece::new(Color::Black, Type::Bishop)),
            Some(Piece::new(Color::Black, Type::Queen)),
            Some(Piece::new(Color::Black, Type::King)),
            Some(Piece::new(Color::Black, Type::Bishop)),
            Some(Piece::new(Color::Black, Type::Knight)),
            Some(Piece::new(Color::Black, Type::Rook)),
        ],
        [
            black_pawn,
            black_pawn,
            black_pawn,
            black_pawn,
            black_pawn,
            black_pawn,
            black_pawn,
            black_pawn,
        ],
        empty,
        empty,
        empty,
        empty,
        [
            white_pawn,
            white_pawn,
            white_pawn,
            white_pawn,
            white_pawn,
            white_pawn,
            white_pawn,
            white_pawn,
        ],
        [
            Some(Piece::new(Color::White, Type::Rook)),
            Some(Piece::new(Color::White, Type::Knight)),
            Some(Piece::new(Color::White, Type::Bishop)),
            Some(Piece::new(Color::White, Type::Queen)),
            Some(Piece::new(Color::White, Type::King)),
            Some(Piece::new(Color::White, Type::Bishop)),
            Some(Piece::new(Color::White, Type::Knight)),
            Some(Piece::new(Color::White, Type::Rook)),
        ],
    ]
}

} // verus!
