//! A game played on one machine, with the rules engine as the authority.

use vstd::prelude::*;

use crate::chess_engine::{ChessGame, ChessLoc, ChessMove, ChessState};
use crate::codec::{cell_piece, local_piece_to_proto, parse_piece, piece_parts};
use crate::oracle::{
    cells_after, legal_history, legal_moves_after, oracle_cells, oracle_legal_moves,
    oracle_status, oracle_white_to_move, status_after, white_after, Cell, RulesMove, Status,
    QUEEN,
};
use crate::protocol::Piece;

verus! {

/// Whether a legal move is offered: it promotes to nothing or to a queen.
pub open spec fn keeps(m: RulesMove) -> bool {
    m.promotion is None || m.promotion == Some(QUEEN)
}

/// The number of the square `loc`.
pub open spec fn loc_square(loc: ChessLoc) -> int {
    8 * loc.1 + loc.0
}

/// A legal move as a front end sees it; it takes a piece when its target
/// square is occupied before the move.
pub open spec fn shown_move(m: RulesMove, cells: Seq<Cell>) -> ChessMove {
    ChessMove {
        from: ((m.from % 8) as i32, (m.from / 8) as i32),
        to: ((m.to % 8) as i32, (m.to / 8) as i32),
        capture: cells[m.to as int].1 is Some,
        promotion: m.promotion is Some,
    }
}

/// The offered moves of `ms` that start at square `from`, in order.
pub open spec fn moves_from(ms: Seq<RulesMove>, cells: Seq<Cell>, from: int) -> Seq<ChessMove>
    decreases ms.len(),
{
    if ms.len() == 0 {
        seq![]
    } else {
        let rest = moves_from(ms.drop_last(), cells, from);
        if ms.last().from == from && keeps(ms.last()) {
            rest.push(shown_move(ms.last(), cells))
        } else {
            rest
        }
    }
}

/// The first offered move of `ms` from square `from` to square `to`.
pub open spec fn find_by_ends(ms: Seq<RulesMove>, from: int, to: int) -> Option<RulesMove>
    decreases ms.len(),
{
    if ms.len() == 0 {
        None
    } else if ms[0].from == from && ms[0].to == to && keeps(ms[0]) {
        Some(ms[0])
    } else {
        find_by_ends(ms.drop_first(), from, to)
    }
}

/// The wire pieces of a board reported by the rules engine.
pub open spec fn wire_board(cells: Seq<Cell>) -> Seq<Piece> {
    Seq::new(cells.len(), |i: int| cell_piece(cells[i].0, cells[i].1))
}

/// The state of a game with the given status and side to move: the side to
/// move loses when it is mated.
pub open spec fn state_of(status: Status, white_to_move: bool) -> ChessState {
    match status {
        Status::Ongoing => ChessState::Ongoing,
        Status::Stalemate => ChessState::JoeverDraw,
        Status::Checkmate => if white_to_move {
            ChessState::JoeverBlack
        } else {
            ChessState::JoeverWhite
        },
    }
}

/// A legal move as a front end sees it, given the board before the move.
pub fn to_chess_move(mv: &RulesMove, cells: &Vec<Cell>) -> (r: ChessMove)
    requires
        mv.from < 64,
        mv.to < cells@.len(),
    ensures
        r == shown_move(*mv, cells@),
{
    ChessMove {
        from: ((mv.from % 8) as i32, (mv.from / 8) as i32),
        to: ((mv.to % 8) as i32, (mv.to / 8) as i32),
        capture: cells[mv.to as usize].1.is_some(),
        promotion: mv.promotion.is_some(),
    }
}

/// A game whose position is the list of moves played from the initial
/// position, each legal when it was played.
pub struct LocalGame {
    history: Vec<RulesMove>,
}

impl View for LocalGame {
    type V = Seq<RulesMove>;

    closed spec fn view(&self) -> Seq<RulesMove> {
        self.history@
    }
}

impl LocalGame {
    /// A game at the initial position.
    pub fn new() -> (r: Self)
        ensures
            r@ == Seq::<RulesMove>::empty(),
            r.wf(),
    {
        LocalGame { history: Vec::new() }
    }

    /// Every legal move, promotions to each kind included.
    pub fn get_all_moves(&self) -> (r: Vec<ChessMove>)
        requires
            self.wf(),
        ensures
            r@ == legal_moves_after(self@).map_values(|m: RulesMove| shown_move(m, cells_after(self@))),
    {
        let moves = oracle_legal_moves(&self.history);
        let cells = oracle_cells(&self.history);
        let mut r: Vec<ChessMove> = Vec::new();
        let mut i: usize = 0;
        while i < moves.len()
            invariant
                i <= moves@.len(),
                moves@ == legal_moves_after(self@),
                cells@ == cells_after(self@),
                cells@.len() == 64,
                forall|j: int| 0 <= j < moves@.len() ==> moves@[j].from < 64 && moves@[j].to < 64,
                r@ == moves@.take(i as int).map_values(|m: RulesMove| shown_move(m, cells@)),
            decreases moves@.len() - i,
        {
            r.push(to_chess_move(&moves[i], &cells));
            i += 1;
            assert(moves@.take(i as int).drop_last() =~= moves@.take(i - 1));
            assert(r@ =~= moves@.take(i as int).map_values(|m: RulesMove| shown_move(m, cells@)));
        }
        assert(moves@.take(i as int) =~= moves@);
        r
    }

    /// The board as 64 wire pieces, rank by rank from rank 1.
    pub fn get_board(&self) -> (r: Vec<Piece>)
        requires
            self.wf(),
        ensures
            r@ == wire_board(cells_after(self@)),
            r@.len() == 64,
            self@.len() > 0 && self@.last().promotion is Some ==> cells_after(self@)[self@.last().to as int]
                == (Some(((self@.len() - 1) % 2) as u8), self@.last().promotion),
    {
        let cells = oracle_cells(&self.history);
        let mut r: Vec<Piece> = Vec::new();
        let mut i: usize = 0;
        while i < cells.len()
            invariant
                i <= cells@.len(),
                r@.len() == i,
                forall|j: int| 0 <= j < i ==> r@[j] == cell_piece(cells@[j].0, cells@[j].1),
            decreases cells@.len() - i,
        {
            r.push(local_piece_to_proto(cells[i].0, cells[i].1));
            i += 1;
        }
        assert(r@ =~= wire_board(cells@));
        r
    }

    /// The legal moves, as the rules engine lists them.
    pub fn rules_moves(&self) -> (r: Vec<RulesMove>)
        requires
            self.wf(),
        ensures
            r@ == legal_moves_after(self@),
            forall|i: int|
                0 <= i < r@.len() ==> {
                    &&& #[trigger] r@[i].from < 64
                    &&& r@[i].to < 64
                    &&& (r@[i].promotion matches Some(k) ==> k <= QUEEN)
                },
    {
        oracle_legal_moves(&self.history)
    }

    /// The number of moves played.
    pub fn history_len(&self) -> (r: usize)
        ensures
            r == self@.len(),
    {
        self.history.len()
    }

    /// Whether white is to move.
    pub fn white_to_move(&self) -> (r: bool)
        requires
            self.wf(),
        ensures
            r == white_after(self@),
    {
        oracle_white_to_move(&self.history)
    }

    /// The state of the game: it goes on exactly while a move is legal, and a
    /// mated side to move has lost.
    pub fn state(&self) -> (r: ChessState)
        requires
            self.wf(),
        ensures
            r == state_of(status_after(self@), white_after(self@)),
            (r == ChessState::Ongoing) == (legal_moves_after(self@).len() > 0),
            r == ChessState::JoeverWhite ==> !white_after(self@),
            r == ChessState::JoeverBlack ==> white_after(self@),
    {
        let status = oracle_status(&self.history);
        let white = oracle_white_to_move(&self.history);
        match status {
            Status::Ongoing => ChessState::Ongoing,
            Status::Stalemate => ChessState::JoeverDraw,
            Status::Checkmate => if white {
                ChessState::JoeverBlack
            } else {
                ChessState::JoeverWhite
            },
        }
    }

    /// The move played last.
    pub fn last_move(&self) -> (r: RulesMove)
        requires
            self@.len() > 0,
        ensures
            r == self@.last(),
    {
        self.history[self.history.len() - 1]
    }

    /// Plays a move that the rules engine lists as legal.
    pub fn play(&mut self, m: RulesMove)
        requires
            old(self).wf(),
            legal_moves_after(old(self)@).contains(m),
        ensures
            final(self)@ == old(self)@.push(m),
            final(self).wf(),
    {
        self.history.push(m);
        assert(self@.drop_last() =~= old(self)@);
    }
}

impl ChessGame for LocalGame {
    open spec fn wf(&self) -> bool {
        legal_history(self@)
    }

    /// The offered moves from `loc`: a promotion is offered to a queen only.
    fn get_moves(&mut self, loc: &ChessLoc) -> (r: Vec<ChessMove>)
        ensures
            final(self)@ == old(self)@,
            r@ == moves_from(legal_moves_after(old(self)@), cells_after(old(self)@), loc_square(*loc)),
    {
        let moves = oracle_legal_moves(&self.history);
        let cells = oracle_cells(&self.history);
        let mut r: Vec<ChessMove> = Vec::new();
        let mut i: usize = 0;
        while i < moves.len()
            invariant
                i <= moves@.len(),
                moves@ == legal_moves_after(self@),
                cells@ == cells_after(self@),
                cells@.len() == 64,
                forall|j: int| 0 <= j < moves@.len() ==> moves@[j].from < 64 && moves@[j].to < 64,
                r@ == moves_from(moves@.take(i as int), cells@, loc_square(*loc)),
            decreases moves@.len() - i,
        {
            let m = moves[i];
            assert(moves@.take(i + 1).drop_last() =~= moves@.take(i as int));
            if m.from as i64 == 8 * (loc.1 as i64) + (loc.0 as i64) && (m.promotion.is_none()
                || m.promotion == Some(QUEEN)) {
                r.push(to_chess_move(&m, &cells));
            }
            i += 1;
        }
        assert(moves@.take(i as int) =~= moves@);
        r
    }

    /// Plays the offered move from `mv.from` to `mv.to`, if there is one; a
    /// promotion is always to a queen.
    fn apply_move(&mut self, mv: &ChessMove) -> (r: bool)
        ensures
            r == find_by_ends(legal_moves_after(old(self)@), loc_square(mv.from), loc_square(mv.to)) is Some,
            final(self)@ == match find_by_ends(legal_moves_after(old(self)@), loc_square(mv.from), loc_square(mv.to)) {
                Some(m) => old(self)@.push(m),
                None => old(self)@,
            },
    {
        let moves = oracle_legal_moves(&self.history);
        let from = 8 * mv.from.1 + mv.from.0;
        let to = 8 * mv.to.1 + mv.to.0;
        let mut i: usize = 0;
        assert(moves@.subrange(0, moves@.len() as int) =~= moves@);
        while i < moves.len()
            invariant
                i <= moves@.len(),
                moves@ == legal_moves_after(self@),
                self@ == old(self)@,
                from as int == loc_square(mv.from),
                to as int == loc_square(mv.to),
                self.wf(),
                find_by_ends(moves@, from as int, to as int) == find_by_ends(moves@.subrange(i as int, moves@.len() as int), from as int, to as int),
            decreases moves@.len() - i,
        {
            let m = moves[i];
            assert(moves@.subrange(i as int, moves@.len() as int).drop_first() =~= moves@.subrange(i + 1, moves@.len() as int));
            if m.from as i32 == from && m.to as i32 == to && (m.promotion.is_none() || m.promotion == Some(QUEEN)) {
                assert(moves@[i as int] == m);
                assert(moves@.subrange(i as int, moves@.len() as int)[0] == m);
                self.play(m);
                return true;
            }
            i += 1;
        }
        false
    }

    fn get_piece(&mut self, loc: &ChessLoc) -> (r: (bool, String))
        ensures
            final(self)@ == old(self)@,
            r.0 == piece_parts(wire_board(cells_after(old(self)@))[loc_square(*loc)]).0,
            r.1@ == seq![piece_parts(wire_board(cells_after(old(self)@))[loc_square(*loc)]).1],
    {
        let cells = oracle_cells(&self.history);
        let c = cells[(8 * loc.1 + loc.0) as usize];
        parse_piece(&local_piece_to_proto(c.0, c.1))
    }

    fn get_player(&self) -> (r: bool)
        ensures
            r == white_after(self@),
    {
        self.white_to_move()
    }

    /// The state of the game: it goes on exactly while a move is legal, and a
    /// mated side to move has lost.
    fn get_state(&mut self) -> (r: ChessState)
        ensures
            final(self)@ == old(self)@,
            r == state_of(status_after(old(self)@), white_after(old(self)@)),
            (r == ChessState::Ongoing) == (legal_moves_after(old(self)@).len() > 0),
            r == ChessState::JoeverWhite ==> !white_after(old(self)@),
            r == ChessState::JoeverBlack ==> white_after(old(self)@),
    {
        self.state()
    }
}

} // verus!
