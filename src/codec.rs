//! Conversion between the wire's pieces and moves and the forms that the
//! rules engine and a front end use.

use vstd::prelude::*;

use crate::chess_engine::{loc_on_board, ChessMove};
use crate::protocol::{Move, Piece};

verus! {

/// Why a value could not be decoded.
#[derive(PartialEq, Eq, Structural, Clone, Copy, Debug)]
pub enum CodecError {
    /// The value names no piece: the two sides disagree on the wire format.
    InvalidPieceEncoding,
}

/// A piece as a front end shows it: its color (`true` for white) and its
/// letter, `' '` (and white) for an empty square.
pub open spec fn piece_parts(p: Piece) -> (bool, char) {
    match p {
        Piece::BlackPawn => (false, 'P'),
        Piece::BlackKnight => (false, 'N'),
        Piece::BlackBishop => (false, 'B'),
        Piece::BlackRook => (false, 'R'),
        Piece::BlackQueen => (false, 'Q'),
        Piece::BlackKing => (false, 'K'),
        Piece::WhitePawn => (true, 'P'),
        Piece::WhiteKnight => (true, 'N'),
        Piece::WhiteBishop => (true, 'B'),
        Piece::WhiteRook => (true, 'R'),
        Piece::WhiteQueen => (true, 'Q'),
        Piece::WhiteKing => (true, 'K'),
        Piece::Empty => (true, ' '),
    }
}

/// The piece that a color and a letter name, if they name one.
pub open spec fn piece_of_parts(white: bool, name: char) -> Result<Piece, CodecError> {
    match name {
        'P' => Ok(if white { Piece::WhitePawn } else { Piece::BlackPawn }),
        'N' => Ok(if white { Piece::WhiteKnight } else { Piece::BlackKnight }),
        'B' => Ok(if white { Piece::WhiteBishop } else { Piece::BlackBishop }),
        'R' => Ok(if white { Piece::WhiteRook } else { Piece::BlackRook }),
        'Q' => Ok(if white { Piece::WhiteQueen } else { Piece::BlackQueen }),
        'K' => Ok(if white { Piece::WhiteKing } else { Piece::BlackKing }),
        ' ' => if white { Ok(Piece::Empty) } else { Err(CodecError::InvalidPieceEncoding) },
        _ => Err(CodecError::InvalidPieceEncoding),
    }
}

/// The color and letter of a piece.
pub fn piece_letter(piece: &Piece) -> (r: (bool, char))
    ensures
        r == piece_parts(*piece),
{
    match piece {
        Piece::BlackPawn => (false, 'P'),
        Piece::BlackKnight => (false, 'N'),
        Piece::BlackBishop => (false, 'B'),
        Piece::BlackRook => (false, 'R'),
        Piece::BlackQueen => (false, 'Q'),
        Piece::BlackKing => (false, 'K'),
        Piece::WhitePawn => (true, 'P'),
        Piece::WhiteKnight => (true, 'N'),
        Piece::WhiteBishop => (true, 'B'),
        Piece::WhiteRook => (true, 'R'),
        Piece::WhiteQueen => (true, 'Q'),
        Piece::WhiteKing => (true, 'K'),
        Piece::Empty => (true, ' '),
    }
}

/// A one-letter string.
fn letter_string(c: char) -> (r: String)
    requires
        c == 'P' || c == 'N' || c == 'B' || c == 'R' || c == 'Q' || c == 'K' || c == ' ',
    ensures
        r@ == seq![c],
{
    match c {
        'P' => {
            proof { reveal_strlit("P"); }
            "P".to_owned()
        },
        'N' => {
            proof { reveal_strlit("N"); }
            "N".to_owned()
        },
        'B' => {
            proof { reveal_strlit("B"); }
            "B".to_owned()
        },
        'R' => {
            proof { reveal_strlit("R"); }
            "R".to_owned()
        },
        'Q' => {
            proof { reveal_strlit("Q"); }
            "Q".to_owned()
        },
        'K' => {
            proof { reveal_strlit("K"); }
            "K".to_owned()
        },
        _ => {
            proof { reveal_strlit(" "); }
            " ".to_owned()
        },
    }
}

/// Decodes a wire piece into its color and its letter as a string.
pub fn parse_piece(piece: &Piece) -> (r: (bool, String))
    ensures
        r.0 == piece_parts(*piece).0,
        r.1@ == seq![piece_parts(*piece).1],
{
    let (white, c) = piece_letter(piece);
    (white, letter_string(c))
}

/// Encodes a color and a letter as a wire piece; a letter that names no
/// piece, or a black empty square, is refused.
pub fn piece_from_parts(white: bool, name: char) -> (r: Result<Piece, CodecError>)
    ensures
        r == piece_of_parts(white, name),
{
    match name {
        'P' => Ok(if white { Piece::WhitePawn } else { Piece::BlackPawn }),
        'N' => Ok(if white { Piece::WhiteKnight } else { Piece::BlackKnight }),
        'B' => Ok(if white { Piece::WhiteBishop } else { Piece::BlackBishop }),
        'R' => Ok(if white { Piece::WhiteRook } else { Piece::BlackRook }),
        'Q' => Ok(if white { Piece::WhiteQueen } else { Piece::BlackQueen }),
        'K' => Ok(if white { Piece::WhiteKing } else { Piece::BlackKing }),
        ' ' => if white { Ok(Piece::Empty) } else { Err(CodecError::InvalidPieceEncoding) },
        _ => Err(CodecError::InvalidPieceEncoding),
    }
}

/// Decoding a wire piece and encoding the result gives the piece back; a
/// color and letter that name a piece survive encoding then decoding; any
/// other pair is refused with `InvalidPieceEncoding`.
pub proof fn lemma_piece_round_trip(p: Piece, white: bool, name: char)
    ensures
        piece_of_parts(piece_parts(p).0, piece_parts(p).1) == Ok::<Piece, CodecError>(p),
        match piece_of_parts(white, name) {
            Ok(q) => piece_parts(q) == (white, name),
            Err(e) => e == CodecError::InvalidPieceEncoding,
        },
{
}

/// The queen a pawn of the given side is promoted to.
pub open spec fn queen_of(white: bool) -> Piece {
    if white { Piece::WhiteQueen } else { Piece::BlackQueen }
}

/// The wire piece for a cell of the rules engine: a color index (`0` white,
/// `1` black) and a kind index (pawn, knight, bishop, rook, queen, king).
pub open spec fn cell_piece(color: Option<u8>, kind: Option<u8>) -> Piece {
    match (color, kind) {
        (Some(c), Some(k)) => if c == 0 {
            match k {
                0u8 => Piece::WhitePawn,
                1u8 => Piece::WhiteKnight,
                2u8 => Piece::WhiteBishop,
                3u8 => Piece::WhiteRook,
                4u8 => Piece::WhiteQueen,
                5u8 => Piece::WhiteKing,
                _ => Piece::Empty,
            }
        } else if c == 1 {
            match k {
                0u8 => Piece::BlackPawn,
                1u8 => Piece::BlackKnight,
                2u8 => Piece::BlackBishop,
                3u8 => Piece::BlackRook,
                4u8 => Piece::BlackQueen,
                5u8 => Piece::BlackKing,
                _ => Piece::Empty,
            }
        } else {
            Piece::Empty
        },
        _ => Piece::Empty,
    }
}

/// Encodes a cell of the rules engine as a wire piece.
pub fn local_piece_to_proto(color: Option<u8>, kind: Option<u8>) -> (r: Piece)
    ensures
        r == cell_piece(color, kind),
{
    match (color, kind) {
        (Some(c), Some(k)) => if c == 0 {
            match k {
                0u8 => Piece::WhitePawn,
                1u8 => Piece::WhiteKnight,
                2u8 => Piece::WhiteBishop,
                3u8 => Piece::WhiteRook,
                4u8 => Piece::WhiteQueen,
                5u8 => Piece::WhiteKing,
                _ => Piece::Empty,
            }
        } else if c == 1 {
            match k {
                0u8 => Piece::BlackPawn,
                1u8 => Piece::BlackKnight,
                2u8 => Piece::BlackBishop,
                3u8 => Piece::BlackRook,
                4u8 => Piece::BlackQueen,
                5u8 => Piece::BlackKing,
                _ => Piece::Empty,
            }
        } else {
            Piece::Empty
        },
        _ => Piece::Empty,
    }
}

/// A front end's move as a wire move of the side `white`; a promotion is
/// always to a queen.
pub fn chess_move_to_move(mv: &ChessMove, white: bool) -> (r: Move)
    requires
        loc_on_board(mv.from),
        loc_on_board(mv.to),
    ensures
        r.start_x == mv.from.0,
        r.start_y == mv.from.1,
        r.end_x == mv.to.0,
        r.end_y == mv.to.1,
        r.promotion == (if mv.promotion { queen_of(white) } else { Piece::Empty }),
{
    Move {
        start_x: mv.from.0 as usize,
        start_y: mv.from.1 as usize,
        end_x: mv.to.0 as usize,
        end_y: mv.to.1 as usize,
        promotion: if mv.promotion {
            if white { Piece::WhiteQueen } else { Piece::BlackQueen }
        } else {
            Piece::Empty
        },
    }
}

/// A wire move as a front end's move. Whether it takes a piece is not known
/// here and is reported as `false`.
pub fn move_to_chess_move(mv: &Move) -> (r: ChessMove)
    requires
        mv.start_x < 8,
        mv.start_y < 8,
        mv.end_x < 8,
        mv.end_y < 8,
    ensures
        r.from.0 == mv.start_x,
        r.from.1 == mv.start_y,
        r.to.0 == mv.end_x,
        r.to.1 == mv.end_y,
        !r.capture,
        r.promotion == (mv.promotion != Piece::Empty),
{
    ChessMove {
        from: (mv.start_x as i32, mv.start_y as i32),
        to: (mv.end_x as i32, mv.end_y as i32),
        capture: false,
        promotion: mv.promotion != Piece::Empty,
    }
}

} // verus!
