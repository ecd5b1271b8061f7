//! The messages exchanged between host and client, and the values they carry.

use vstd::prelude::*;

verus! {

/// A square's content on the wire: a colored piece, or `Empty` for an empty square.
#[derive(PartialEq, Eq, Structural, Clone, Copy, Debug)]
pub enum Piece {
    BlackPawn,
    BlackKnight,
    BlackBishop,
    BlackRook,
    BlackQueen,
    BlackKing,
    WhitePawn,
    WhiteKnight,
    WhiteBishop,
    WhiteRook,
    WhiteQueen,
    WhiteKing,
    Empty,
}

/// A side of the game.
#[derive(PartialEq, Eq, Structural, Clone, Copy, Debug)]
pub enum Color {
    White,
    Black,
}

/// The outcome of the game as the host reports it.
#[derive(PartialEq, Eq, Structural, Clone, Copy, Debug)]
pub enum Joever {
    White,
    Black,
    Draw,
    Indeterminate,
    Ongoing,
}

/// Optional rules that a host announces in its handshake.
#[derive(PartialEq, Eq, Structural, Clone, Copy, Debug)]
pub enum Features {
    EnPassant,
    Castling,
    Promotion,
    Stalemate,
    PossibleMoveGeneration,
}

/// A move on the wire. Coordinates are zero-based: `x` is the file, `y` the
/// rank. `promotion` is the piece a pawn becomes, or `Piece::Empty`.
#[derive(PartialEq, Eq, Structural, Clone, Copy, Debug)]
pub struct Move {
    pub start_x: usize,
    pub start_y: usize,
    pub end_x: usize,
    pub end_y: usize,
    pub promotion: Piece,
}

/// The first message of a connection: the client names the color the host plays.
#[derive(PartialEq, Eq, Structural, Clone, Copy, Debug)]
pub struct ClientToServerHandshake {
    pub server_color: Color,
}

/// The host's answer to the handshake: the starting position and its legal moves.
/// `board` holds 64 squares, rank by rank from rank 1, file a first in each rank.
pub struct ServerToClientHandshake {
    pub features: Vec<Features>,
    pub board: Vec<Piece>,
    pub moves: Vec<Move>,
    pub joever: Joever,
}

/// What a client may send once the game runs.
#[derive(PartialEq, Eq, Structural, Clone, Copy, Debug)]
pub enum ClientToServer {
    Move(Move),
    Resign,
    Draw,
}

/// What the host sends once the game runs: a new state after a move, or a
/// refusal that still carries the current state.
pub enum ServerToClient {
    State { board: Vec<Piece>, moves: Vec<Move>, joever: Joever, move_made: Move },
    Error { board: Vec<Piece>, moves: Vec<Move>, joever: Joever, message: String },
}

impl ServerToClient {
    /// The board carried by either kind of message.
    pub open spec fn board_of(self) -> Seq<Piece> {
        match self {
            ServerToClient::State { board, .. } => board@,
            ServerToClient::Error { board, .. } => board@,
        }
    }

    /// The legal moves carried by either kind of message.
    pub open spec fn moves_of(self) -> Seq<Move> {
        match self {
            ServerToClient::State { moves, .. } => moves@,
            ServerToClient::Error { moves, .. } => moves@,
        }
    }

    /// The outcome carried by either kind of message.
    pub open spec fn joever_of(self) -> Joever {
        match self {
            ServerToClient::State { joever, .. } => joever,
            ServerToClient::Error { joever, .. } => joever,
        }
    }
}

} // verus!
