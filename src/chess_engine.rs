//! The interface a front end uses to play, whoever computes the rules.

use vstd::prelude::*;

verus! {

/// A square: the file (`0` is `a`, `7` is `h`), then the rank, both zero-based.
pub type ChessLoc = (i32, i32);

/// Whether `loc` names a square of the board.
pub open spec fn loc_on_board(loc: ChessLoc) -> bool {
    0 <= loc.0 < 8 && 0 <= loc.1 < 8
}

/// The state of a game.
#[derive(PartialEq, Eq, Structural, Clone, Copy, Debug)]
pub enum ChessState {
    /// The game is still ongoing.
    Ongoing,
    /// The game is over with an undetermined winner.
    JoeverIndeterminate,
    /// The game is over in a draw (all kinds of draws).
    JoeverDraw,
    /// The game is over and white won.
    JoeverWhite,
    /// The game is over and black won.
    JoeverBlack,
}

/// A move as a front end shows it: where it starts, where it ends, whether it
/// takes a piece and whether a pawn is promoted.
#[derive(PartialEq, Eq, Clone, Copy, Debug)]
pub struct ChessMove {
    pub from: ChessLoc,
    pub to: ChessLoc,
    pub capture: bool,
    pub promotion: bool,
}

/// One side of a game as a front end drives it.
pub trait ChessGame {
    /// Whether the game's own invariant holds.
    spec fn wf(&self) -> bool;

    /// The moves a player may choose that start at `loc`.
    fn get_moves(&mut self, loc: &ChessLoc) -> (r: Vec<ChessMove>)
        requires
            old(self).wf(),
        ensures
            final(self).wf(),
    ;

    /// Plays `mv`; `true` if it was played.
    fn apply_move(&mut self, mv: &ChessMove) -> (r: bool)
        requires
            old(self).wf(),
            loc_on_board(mv.from),
            loc_on_board(mv.to),
        ensures
            final(self).wf(),
    ;

    /// Takes the opponent's move in a networked game; `true` once it was
    /// taken. A game on one machine has nothing to wait for.
    fn wait_move(&mut self) -> (r: bool)
        requires
            old(self).wf(),
        ensures
            final(self).wf(),
    {
        true
    }

    /// The color of the piece at `loc` (`true` for white) and its letter, or
    /// `(true, " ")` for an empty square.
    fn get_piece(&mut self, loc: &ChessLoc) -> (r: (bool, String))
        requires
            old(self).wf(),
            loc_on_board(*loc),
        ensures
            final(self).wf(),
    ;

    /// The side that this game lets move now (`true` for white).
    fn get_player(&self) -> bool
        requires
            self.wf(),
    ;

    /// The state of the game.
    fn get_state(&mut self) -> (r: ChessState)
        requires
            old(self).wf(),
        ensures
            final(self).wf(),
    ;
}

} // verus!
