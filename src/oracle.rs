//! The rules engine, seen through plain values. A position is the list of
//! moves played from the initial position; each query replays that list in
//! the `chess` crate and reports what it computes.

use vstd::prelude::*;

verus! {

/// A move as the rules engine lists it. Squares are numbered `8 * rank + file`;
/// `promotion` is the kind a pawn becomes, numbered pawn, knight, bishop, rook,
/// queen, king from `0`.
#[derive(PartialEq, Eq, Structural, Clone, Copy, Debug)]
pub struct RulesMove {
    pub from: u8,
    pub to: u8,
    pub promotion: Option<u8>,
}

/// The number of the queen among the kinds.
pub const QUEEN: u8 = 4;

/// A square as the rules engine reports it: the color (`0` white, `1` black)
/// and the kind of the piece on it, each `None` on an empty square.
pub type Cell = (Option<u8>, Option<u8>);

/// How the rules engine classifies a position.
#[derive(PartialEq, Eq, Structural, Clone, Copy, Debug)]
pub enum Status {
    Ongoing,
    Stalemate,
    Checkmate,
}

/// The moves that the rules engine lists as legal after `history`.
pub uninterp spec fn legal_moves_after(history: Seq<RulesMove>) -> Seq<RulesMove>;

/// The 64 squares after `history`, as the rules engine reports them.
pub uninterp spec fn cells_after(history: Seq<RulesMove>) -> Seq<Cell>;

/// The rules engine's classification of the position after `history`.
pub uninterp spec fn status_after(history: Seq<RulesMove>) -> Status;

/// Every move of `history` was legal when it was played.
pub open spec fn legal_history(history: Seq<RulesMove>) -> bool
    decreases history.len(),
{
    history.len() == 0 || (legal_history(history.drop_last()) && legal_moves_after(
        history.drop_last(),
    ).contains(history.last()))
}

/// White is to move after `history`: the sides alternate from white.
pub open spec fn white_after(history: Seq<RulesMove>) -> bool {
    history.len() % 2 == 0
}

/// Relies on chess::Board::make_move_new, replaying `history` from
/// chess::Board::default, and on chess::MoveGen::new_legal for the legal
/// moves after it; the generator yields squares below 64 and promotes only to
/// a knight, bishop, rook or queen.
#[verifier::external_body]
pub(crate) fn oracle_legal_moves(history: &Vec<RulesMove>) -> (r: Vec<RulesMove>)
    requires
        legal_history(history@),
    ensures
        r@ == legal_moves_after(history@),
        forall|i: int|
            0 <= i < r@.len() ==> {
                &&& r@[i].from < 64
                &&& r@[i].to < 64
                &&& (r@[i].promotion matches Some(k) ==> 1 <= k <= QUEEN)
            },
{
    let mut board = chess::Board::default();
    for m in history.iter() {
        let promotion = m.promotion.map(|k| chess::ALL_PIECES[k as usize]);
        let sq = (chess::ALL_SQUARES[m.from as usize], chess::ALL_SQUARES[m.to as usize]);
        board = board.make_move_new(chess::ChessMove::new(sq.0, sq.1, promotion));
    }
    let mut r = Vec::new();
    for m in chess::MoveGen::new_legal(&board) {
        let promotion = m.get_promotion().map(|p| p.to_index() as u8);
        r.push(RulesMove { from: m.get_source().to_int(), to: m.get_dest().to_int(), promotion });
    }
    r
}

/// Relies on chess::Board::make_move_new, replaying `history`, and on
/// chess::Board::color_on and chess::Board::piece_on for each of the 64
/// squares. After a promotion the target square holds the mover's new piece.
#[verifier::external_body]
pub(crate) fn oracle_cells(history: &Vec<RulesMove>) -> (r: Vec<Cell>)
    requires
        legal_history(history@),
    ensures
        r@ == cells_after(history@),
        r@.len() == 64,
        history@.len() > 0 && history@.last().promotion is Some ==> r@[history@.last().to as int]
            == (Some(((history@.len() - 1) % 2) as u8), history@.last().promotion),
{
    let mut board = chess::Board::default();
    for m in history.iter() {
        let promotion = m.promotion.map(|k| chess::ALL_PIECES[k as usize]);
        let sq = (chess::ALL_SQUARES[m.from as usize], chess::ALL_SQUARES[m.to as usize]);
        board = board.make_move_new(chess::ChessMove::new(sq.0, sq.1, promotion));
    }
    let mut r = Vec::new();
    for s in chess::ALL_SQUARES.iter() {
        let color = board.color_on(*s).map(|c| c.to_index() as u8);
        r.push((color, board.piece_on(*s).map(|p| p.to_index() as u8)));
    }
    r
}

/// Relies on chess::Board::make_move_new, replaying `history`, and on
/// chess::Board::status, which reports a finished game exactly when no move
/// is legal.
#[verifier::external_body]
pub(crate) fn oracle_status(history: &Vec<RulesMove>) -> (r: Status)
    requires
        legal_history(history@),
    ensures
        r == status_after(history@),
        (r == Status::Ongoing) == (legal_moves_after(history@).len() > 0),
{
    let mut board = chess::Board::default();
    for m in history.iter() {
        let promotion = m.promotion.map(|k| chess::ALL_PIECES[k as usize]);
        let sq = (chess::ALL_SQUARES[m.from as usize], chess::ALL_SQUARES[m.to as usize]);
        board = board.make_move_new(chess::ChessMove::new(sq.0, sq.1, promotion));
    }
    match board.status() {
        chess::BoardStatus::Ongoing => Status::Ongoing,
        chess::BoardStatus::Stalemate => Status::Stalemate,
        chess::BoardStatus::Checkmate => Status::Checkmate,
    }
}

/// Relies on chess::Board::make_move_new, replaying `history`, and on
/// chess::Board::side_to_move: white starts and every move passes the turn.
#[verifier::external_body]
pub(crate) fn oracle_white_to_move(history: &Vec<RulesMove>) -> (r: bool)
    requires
        legal_history(history@),
    ensures
        r == white_after(history@),
{
    let mut board = chess::Board::default();
    for m in history.iter() {
        let promotion = m.promotion.map(|k| chess::ALL_PIECES[k as usize]);
        let sq = (chess::ALL_SQUARES[m.from as usize], chess::ALL_SQUARES[m.to as usize]);
        board = board.make_move_new(chess::ChessMove::new(sq.0, sq.1, promotion));
    }
    match board.side_to_move() {
        chess::Color::White => true,
        chess::Color::Black => false,
    }
}

} // verus!
