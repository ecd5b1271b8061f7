//! The client side of a networked game: it keeps a mirror of the host's
//! board, legal moves and outcome, refreshed only from the host's messages,
//! and computes no rules of its own. The caller owns the connection: it sends
//! what this state machine builds and hands back what arrives.

use vstd::prelude::*;

use crate::chess_engine::{loc_on_board, ChessLoc, ChessMove, ChessState};
use crate::codec::{parse_piece, piece_parts, queen_of};
use crate::protocol::{
    ClientToServer, ClientToServerHandshake, Color, Joever, Move, Piece, ServerToClient,
    ServerToClientHandshake,
};

verus! {

/// Whether every coordinate of a wire move lies on the board.
pub open spec fn move_on_board(mv: Move) -> bool {
    mv.start_x < 8 && mv.start_y < 8 && mv.end_x < 8 && mv.end_y < 8
}

/// A wire move as a front end sees it on `board`.
pub open spec fn seen_move(mv: Move, board: Seq<Piece>) -> ChessMove {
    ChessMove {
        from: (mv.start_x as i32, mv.start_y as i32),
        to: (mv.end_x as i32, mv.end_y as i32),
        capture: board[8 * mv.end_y + mv.end_x] != Piece::Empty,
        promotion: mv.promotion != Piece::Empty,
    }
}

/// The moves of `moves` on the board that start at `loc`, in order.
pub open spec fn moves_at(moves: Seq<Move>, board: Seq<Piece>, loc: ChessLoc) -> Seq<ChessMove>
    decreases moves.len(),
{
    if moves.len() == 0 {
        seq![]
    } else {
        let rest = moves_at(moves.drop_last(), board, loc);
        let mv = moves.last();
        if move_on_board(mv) && mv.start_x == loc.0 && mv.start_y == loc.1 {
            rest.push(seen_move(mv, board))
        } else {
            rest
        }
    }
}

/// Whether the piece is a pawn of either side.
pub open spec fn is_pawn(p: Piece) -> bool {
    p == Piece::WhitePawn || p == Piece::BlackPawn
}

/// The wire move a client of color `white` proposes for `mv` on `board`: a
/// pawn that reaches the first or last rank is promoted to a queen.
pub open spec fn proposal(mv: ChessMove, board: Seq<Piece>, white: bool) -> Move {
    Move {
        start_x: mv.from.0 as usize,
        start_y: mv.from.1 as usize,
        end_x: mv.to.0 as usize,
        end_y: mv.to.1 as usize,
        promotion: if is_pawn(board[8 * mv.from.1 + mv.from.0]) && (mv.to.1 == 7 || mv.to.1 == 0) {
            queen_of(white)
        } else {
            Piece::Empty
        },
    }
}

/// The state a front end sees for an outcome on the wire.
pub open spec fn state_of_joever(j: Joever) -> ChessState {
    match j {
        Joever::White => ChessState::JoeverWhite,
        Joever::Black => ChessState::JoeverBlack,
        Joever::Draw => ChessState::JoeverDraw,
        Joever::Indeterminate => ChessState::JoeverIndeterminate,
        Joever::Ongoing => ChessState::Ongoing,
    }
}

/// The opposite color.
pub open spec fn other(c: Color) -> Color {
    match c {
        Color::White => Color::Black,
        Color::Black => Color::White,
    }
}

/// The handshake a client sends to have the host play `server_color`.
pub fn handshake(server_color: Color) -> (r: ClientToServerHandshake)
    ensures
        r.server_color == server_color,
{
    ClientToServerHandshake { server_color }
}

/// The client of a networked game.
pub struct ClientSession {
    moves: Vec<Move>,
    board: Vec<Piece>,
    joever: Joever,
    color: Color,
    waiting: bool,
}

impl ClientSession {
    /// The cached legal moves.
    pub closed spec fn moves(&self) -> Seq<Move> {
        self.moves@
    }

    /// The cached board, 64 squares rank by rank from rank 1.
    pub closed spec fn board(&self) -> Seq<Piece> {
        self.board@
    }

    /// The cached outcome.
    pub closed spec fn joever(&self) -> Joever {
        self.joever
    }

    /// The color this client plays.
    pub closed spec fn color(&self) -> Color {
        self.color
    }

    /// Whether the opponent has the move and its move is awaited.
    pub closed spec fn waiting(&self) -> bool {
        self.waiting
    }

    /// Whether the session's invariant holds: the board has 64 squares.
    pub open spec fn wf(&self) -> bool {
        self.board().len() == 64
    }

    /// Starts a session from the handshake the client sent and the host's
    /// answer; the client plays the color the host does not, and when that is
    /// black it starts by awaiting the host's opening move. An answer whose
    /// board does not have 64 squares is refused.
    pub fn new(request: ClientToServerHandshake, reply: ServerToClientHandshake) -> (r: Option<ClientSession>)
        ensures
            r is Some == (reply.board@.len() == 64),
            r matches Some(s) ==> {
                &&& s.wf()
                &&& s.moves() == reply.moves@
                &&& s.board() == reply.board@
                &&& s.joever() == reply.joever
                &&& s.color() == other(request.server_color)
                &&& s.waiting() == (request.server_color == Color::White)
            },
    {
        if reply.board.len() != 64 {
            return None;
        }
        let color = match request.server_color {
            Color::White => Color::Black,
            Color::Black => Color::White,
        };
        let waiting = request.server_color == Color::White;
        Some(ClientSession { moves: reply.moves, board: reply.board, joever: reply.joever, color, waiting })
    }

    /// The cached legal moves that start at `loc`; moves with a coordinate off
    /// the board are left out.
    pub fn get_moves(&self, loc: &ChessLoc) -> (r: Vec<ChessMove>)
        requires
            self.wf(),
        ensures
            r@ == moves_at(self.moves(), self.board(), *loc),
    {
        let mut r: Vec<ChessMove> = Vec::new();
        let mut i: usize = 0;
        while i < self.moves.len()
            invariant
                i <= self.moves@.len(),
                self.board@.len() == 64,
                r@ == moves_at(self.moves@.take(i as int), self.board@, *loc),
            decreases self.moves@.len() - i,
        {
            let mv = self.moves[i];
            assert(self.moves@.take(i + 1).drop_last() =~= self.moves@.take(i as int));
            assert(self.moves@.take(i + 1).last() == mv);
            if mv.start_x < 8 && mv.start_y < 8 && mv.end_x < 8 && mv.end_y < 8
                && mv.start_x as i32 == loc.0 && mv.start_y as i32 == loc.1 {
                r.push(ChessMove {
                    from: (mv.start_x as i32, mv.start_y as i32),
                    to: (mv.end_x as i32, mv.end_y as i32),
                    capture: self.board[8 * mv.end_y + mv.end_x] != Piece::Empty,
                    promotion: mv.promotion != Piece::Empty,
                });
            }
            i += 1;
        }
        assert(self.moves@.take(i as int) =~= self.moves@);
        r
    }

    /// The message that proposes `mv` to the host.
    pub fn propose(&self, mv: &ChessMove) -> (r: ClientToServer)
        requires
            self.wf(),
            loc_on_board(mv.from),
            loc_on_board(mv.to),
        ensures
            r == ClientToServer::Move(proposal(*mv, self.board(), self.color() == Color::White)),
    {
        let from = self.board[(8 * mv.from.1 + mv.from.0) as usize];
        let promotion = if (from == Piece::WhitePawn || from == Piece::BlackPawn) && (mv.to.1 == 7
            || mv.to.1 == 0) {
            if self.color == Color::White { Piece::WhiteQueen } else { Piece::BlackQueen }
        } else {
            Piece::Empty
        };
        ClientToServer::Move(Move {
            start_x: mv.from.0 as usize,
            start_y: mv.from.1 as usize,
            end_x: mv.to.0 as usize,
            end_y: mv.to.1 as usize,
            promotion,
        })
    }

    /// Takes the host's answer to a proposal. A state message means the move
    /// was played: the mirror is refreshed, the opponent's move is awaited and
    /// `true` comes back. A refusal refreshes the mirror and gives `false`, so
    /// that the player chooses again. A message whose board does not have 64
    /// squares changes nothing and gives `false`.
    pub fn on_reply(&mut self, reply: ServerToClient) -> (r: bool)
        requires
            old(self).wf(),
        ensures
            final(self).wf(),
            final(self).color() == old(self).color(),
            r == (reply is State && reply.board_of().len() == 64),
            reply.board_of().len() == 64 ==> {
                &&& final(self).board() == reply.board_of()
                &&& final(self).moves() == reply.moves_of()
                &&& final(self).joever() == reply.joever_of()
                &&& final(self).waiting() == (reply is State || old(self).waiting())
            },
            reply.board_of().len() != 64 ==> *final(self) == *old(self),
    {
        match reply {
            ServerToClient::State { board, moves, joever, .. } => {
                if board.len() != 64 {
                    return false;
                }
                self.waiting = true;
                self.board = board;
                self.moves = moves;
                self.joever = joever;
                true
            },
            ServerToClient::Error { board, moves, joever, .. } => {
                if board.len() != 64 {
                    return false;
                }
                self.board = board;
                self.moves = moves;
                self.joever = joever;
                false
            },
        }
    }

    /// Whether the opponent's move is awaited; only then does the caller poll
    /// the connection for it.
    pub fn is_waiting(&self) -> (r: bool)
        ensures
            r == self.waiting(),
    {
        self.waiting
    }

    /// Takes a message that arrived while the opponent's move was awaited. A
    /// state message with a full board refreshes the mirror, ends the wait
    /// and gives `true`; anything else, or a message when nothing is awaited,
    /// changes nothing and gives `false`.
    pub fn on_remote(&mut self, msg: ServerToClient) -> (r: bool)
        requires
            old(self).wf(),
        ensures
            final(self).wf(),
            r == (old(self).waiting() && msg is State && msg.board_of().len() == 64),
            r ==> {
                &&& final(self).board() == msg.board_of()
                &&& final(self).moves() == msg.moves_of()
                &&& final(self).joever() == msg.joever_of()
                &&& final(self).color() == old(self).color()
                &&& !final(self).waiting()
            },
            !r ==> *final(self) == *old(self),
    {
        if !self.waiting {
            return false;
        }
        match msg {
            ServerToClient::State { board, moves, joever, .. } => {
                if board.len() != 64 {
                    return false;
                }
                self.waiting = false;
                self.board = board;
                self.moves = moves;
                self.joever = joever;
                true
            },
            _ => false,
        }
    }

    /// The color of the piece at `loc` (`true` for white) and its letter.
    pub fn get_piece(&self, loc: &ChessLoc) -> (r: (bool, String))
        requires
            self.wf(),
            loc_on_board(*loc),
        ensures
            r.0 == piece_parts(self.board()[8 * loc.1 + loc.0]).0,
            r.1@ == seq![piece_parts(self.board()[8 * loc.1 + loc.0]).1],
    {
        parse_piece(&self.board[(8 * loc.1 + loc.0) as usize])
    }

    /// Whether this client plays white.
    pub fn get_player(&self) -> (r: bool)
        ensures
            r == (self.color() == Color::White),
    {
        self.color == Color::White
    }

    /// The state of the game as the host last reported it.
    pub fn get_state(&self) -> (r: ChessState)
        ensures
            r == state_of_joever(self.joever()),
    {
        match self.joever {
            Joever::White => ChessState::JoeverWhite,
            Joever::Black => ChessState::JoeverBlack,
            Joever::Draw => ChessState::JoeverDraw,
            Joever::Indeterminate => ChessState::JoeverIndeterminate,
            Joever::Ongoing => ChessState::Ongoing,
        }
    }
}

} // verus!
