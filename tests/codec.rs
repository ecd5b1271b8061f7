use chess_link::codec::{
    chess_move_to_move, local_piece_to_proto, move_to_chess_move, parse_piece, piece_from_parts,
    piece_letter, CodecError,
};
use chess_link::chess_engine::ChessMove;
use chess_link::protocol::{Move, Piece};

const ALL: [Piece; 13] = [
    Piece::BlackPawn,
    Piece::BlackKnight,
    Piece::BlackBishop,
    Piece::BlackRook,
    Piece::BlackQueen,
    Piece::BlackKing,
    Piece::WhitePawn,
    Piece::WhiteKnight,
    Piece::WhiteBishop,
    Piece::WhiteRook,
    Piece::WhiteQueen,
    Piece::WhiteKing,
    Piece::Empty,
];

#[test]
fn parse_piece_gives_color_and_letter() {
    assert_eq!(parse_piece(&Piece::BlackKnight), (false, String::from("N")));
    assert_eq!(parse_piece(&Piece::WhiteKing), (true, String::from("K")));
    assert_eq!(parse_piece(&Piece::WhitePawn), (true, String::from("P")));
    assert_eq!(parse_piece(&Piece::BlackQueen), (false, String::from("Q")));
    assert_eq!(parse_piece(&Piece::Empty), (true, String::from(" ")));
}

#[test]
fn every_piece_survives_decode_then_encode() {
    for p in ALL.iter() {
        let (white, name) = piece_letter(p);
        assert_eq!(piece_from_parts(white, name), Ok(*p));
    }
}

#[test]
fn every_valid_pair_survives_encode_then_decode() {
    for white in [true, false] {
        for name in ['P', 'N', 'B', 'R', 'Q', 'K'] {
            let p = piece_from_parts(white, name).unwrap();
            assert_eq!(piece_letter(&p), (white, name));
        }
    }
    assert_eq!(piece_letter(&piece_from_parts(true, ' ').unwrap()), (true, ' '));
}

#[test]
fn unknown_encodings_are_refused() {
    assert_eq!(piece_from_parts(true, 'X'), Err(CodecError::InvalidPieceEncoding));
    assert_eq!(piece_from_parts(false, 'p'), Err(CodecError::InvalidPieceEncoding));
    assert_eq!(piece_from_parts(false, ' '), Err(CodecError::InvalidPieceEncoding));
}

#[test]
fn engine_cells_become_wire_pieces() {
    assert_eq!(local_piece_to_proto(Some(0), Some(0)), Piece::WhitePawn);
    assert_eq!(local_piece_to_proto(Some(0), Some(4)), Piece::WhiteQueen);
    assert_eq!(local_piece_to_proto(Some(1), Some(5)), Piece::BlackKing);
    assert_eq!(local_piece_to_proto(Some(1), Some(3)), Piece::BlackRook);
    assert_eq!(local_piece_to_proto(None, None), Piece::Empty);
    assert_eq!(local_piece_to_proto(Some(0), Some(9)), Piece::Empty);
}

#[test]
fn front_end_moves_promote_to_a_queen_on_the_wire() {
    let mv = ChessMove { from: (6, 6), to: (7, 7), capture: true, promotion: true };
    let wire = chess_move_to_move(&mv, true);
    assert_eq!(
        wire,
        Move { start_x: 6, start_y: 6, end_x: 7, end_y: 7, promotion: Piece::WhiteQueen }
    );
    assert_eq!(chess_move_to_move(&mv, false).promotion, Piece::BlackQueen);
    let plain = ChessMove { from: (4, 1), to: (4, 3), capture: false, promotion: false };
    assert_eq!(chess_move_to_move(&plain, true).promotion, Piece::Empty);
}

#[test]
fn wire_moves_become_front_end_moves() {
    let wire = Move { start_x: 1, start_y: 6, end_x: 1, end_y: 7, promotion: Piece::BlackQueen };
    let mv = move_to_chess_move(&wire);
    assert_eq!(mv, ChessMove { from: (1, 6), to: (1, 7), capture: false, promotion: true });
}
