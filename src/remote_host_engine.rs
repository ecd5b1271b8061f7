//! The authoritative side of a networked game: it owns the rules engine,
//! judges each move a client proposes and reports the new state. The
//! connection itself is handled by the caller, who hands each received
//! message to this state machine and sends what it returns.

use vstd::prelude::*;

use crate::chess_engine::{loc_on_board, ChessGame, ChessLoc, ChessMove, ChessState};
use crate::codec::{cell_piece, piece_parts, queen_of};
use crate::local_engine::{
    find_by_ends, keeps, loc_square, moves_from, state_of, wire_board, LocalGame,
};
use crate::oracle::{
    cells_after, legal_history, legal_moves_after, status_after, white_after, RulesMove, QUEEN,
};
use crate::protocol::{
    ClientToServer, ClientToServerHandshake, Color, Features, Joever, Move, Piece,
    ServerToClient, ServerToClientHandshake,
};

verus! {

/// A legal move as it travels on the wire when `white` is to move; a
/// promotion is announced as a queen.
pub open spec fn wire_move(m: RulesMove, white: bool) -> Move {
    Move {
        start_x: (m.from % 8) as usize,
        start_y: (m.from / 8) as usize,
        end_x: (m.to % 8) as usize,
        end_y: (m.to / 8) as usize,
        promotion: if m.promotion is Some { queen_of(white) } else { Piece::Empty },
    }
}

/// The offered moves of `ms` in wire form, in order.
pub open spec fn proto_moves(ms: Seq<RulesMove>, white: bool) -> Seq<Move>
    decreases ms.len(),
{
    if ms.len() == 0 {
        seq![]
    } else {
        let rest = proto_moves(ms.drop_last(), white);
        if keeps(ms.last()) {
            rest.push(wire_move(ms.last(), white))
        } else {
            rest
        }
    }
}

/// The legal moves the host announces after `history`.
pub open spec fn offered_moves(history: Seq<RulesMove>) -> Seq<Move> {
    proto_moves(legal_moves_after(history), white_after(history))
}

/// The board the host announces after `history`.
pub open spec fn proto_board(history: Seq<RulesMove>) -> Seq<Piece> {
    wire_board(cells_after(history))
}

/// A game state as the wire reports it.
pub open spec fn joever_of(s: ChessState) -> Joever {
    match s {
        ChessState::Ongoing => Joever::Ongoing,
        ChessState::JoeverIndeterminate => Joever::Indeterminate,
        ChessState::JoeverDraw => Joever::Draw,
        ChessState::JoeverWhite => Joever::White,
        ChessState::JoeverBlack => Joever::Black,
    }
}

/// The outcome the host announces after `history`.
pub open spec fn joever_after(history: Seq<RulesMove>) -> Joever {
    joever_of(state_of(status_after(history), white_after(history)))
}

/// A proposed move as the host compares it: whatever piece a promotion asks
/// for, it becomes a queen of the side to move.
pub open spec fn normalized(mv: Move, white: bool) -> Move {
    Move {
        promotion: if mv.promotion != Piece::Empty { queen_of(white) } else { Piece::Empty },
        ..mv
    }
}

/// The first offered move of `ms` whose wire form is `mv`.
pub open spec fn find_wire(ms: Seq<RulesMove>, mv: Move, white: bool) -> Option<RulesMove>
    decreases ms.len(),
{
    if ms.len() == 0 {
        None
    } else if keeps(ms[0]) && wire_move(ms[0], white) == mv {
        Some(ms[0])
    } else {
        find_wire(ms.drop_first(), mv, white)
    }
}

/// The legal move that a client's message selects after `history`, if any.
pub open spec fn selected(history: Seq<RulesMove>, msg: ClientToServer) -> Option<RulesMove> {
    match msg {
        ClientToServer::Move(mv) => find_wire(
            legal_moves_after(history),
            normalized(mv, white_after(history)),
            white_after(history),
        ),
        _ => None,
    }
}

/// The position after the host has handled a client's message.
pub open spec fn next_history(history: Seq<RulesMove>, msg: ClientToServer) -> Seq<RulesMove> {
    match selected(history, msg) {
        Some(m) => history.push(m),
        None => history,
    }
}

/// A move that `find_wire` selects is offered, legal and has the wire form asked for.
proof fn lemma_find_wire(ms: Seq<RulesMove>, mv: Move, white: bool)
    ensures
        find_wire(ms, mv, white) matches Some(m) ==> ms.contains(m) && keeps(m) && wire_move(m, white) == mv,
    decreases ms.len(),
{
    if ms.len() > 0 && !(keeps(ms[0]) && wire_move(ms[0], white) == mv) {
        lemma_find_wire(ms.drop_first(), mv, white);
        if let Some(m) = find_wire(ms, mv, white) {
            let k = choose|k: int| 0 <= k < ms.drop_first().len() && ms.drop_first()[k] == m;
            assert(ms[k + 1] == m);
        }
    } else if ms.len() > 0 {
        assert(ms[0] == ms[0]);
    }
}

/// The announced moves hold a wire move exactly when an offered move has that wire form.
proof fn lemma_proto_moves_contains(ms: Seq<RulesMove>, w: Move, white: bool)
    ensures
        proto_moves(ms, white).contains(w) <==> exists|i: int|
            0 <= i < ms.len() && keeps(#[trigger] ms[i]) && wire_move(ms[i], white) == w,
    decreases ms.len(),
{
    if ms.len() > 0 {
        let init = ms.drop_last();
        let n = ms.len() - 1;
        lemma_proto_moves_contains(init, w, white);
        let rest = proto_moves(init, white);
        if proto_moves(ms, white).contains(w) {
            if keeps(ms[n]) && wire_move(ms[n], white) == w {
            } else {
                let j = choose|j: int| 0 <= j < proto_moves(ms, white).len() && proto_moves(ms, white)[j] == w;
                if keeps(ms.last()) {
                    assert(j < rest.len());
                    assert(rest[j] == w);
                } else {
                    assert(rest[j] == w);
                }
                let i = choose|i: int| 0 <= i < init.len() && keeps(#[trigger] init[i]) && wire_move(init[i], white) == w;
                assert(ms[i] == init[i]);
            }
        }
        if exists|i: int| 0 <= i < ms.len() && keeps(#[trigger] ms[i]) && wire_move(ms[i], white) == w {
            let i = choose|i: int| 0 <= i < ms.len() && keeps(#[trigger] ms[i]) && wire_move(ms[i], white) == w;
            if i == n {
                let all = proto_moves(ms, white);
                assert(all[all.len() - 1] == w);
            } else {
                assert(init[i] == ms[i]);
                let j = choose|j: int| 0 <= j < rest.len() && rest[j] == w;
                if keeps(ms.last()) {
                    assert(rest.push(wire_move(ms.last(), white))[j] == w);
                }
            }
        }
    }
}

/// `find_wire` finds a move exactly when an offered move has the wire form asked for.
proof fn lemma_find_wire_some(ms: Seq<RulesMove>, w: Move, white: bool)
    ensures
        find_wire(ms, w, white) is Some <==> exists|i: int|
            0 <= i < ms.len() && keeps(#[trigger] ms[i]) && wire_move(ms[i], white) == w,
    decreases ms.len(),
{
    if ms.len() > 0 {
        let tail = ms.drop_first();
        lemma_find_wire_some(tail, w, white);
        if keeps(ms[0]) && wire_move(ms[0], white) == w {
        } else {
            if exists|i: int| 0 <= i < ms.len() && keeps(#[trigger] ms[i]) && wire_move(ms[i], white) == w {
                let i = choose|i: int| 0 <= i < ms.len() && keeps(#[trigger] ms[i]) && wire_move(ms[i], white) == w;
                assert(i > 0);
                assert(tail[i - 1] == ms[i]);
            }
            if find_wire(ms, w, white) is Some {
                let i = choose|i: int| 0 <= i < tail.len() && keeps(#[trigger] tail[i]) && wire_move(tail[i], white) == w;
                assert(ms[i + 1] == tail[i]);
            }
        }
    }
}

/// The host accepts a proposed move exactly when the move, with any
/// promotion made a queen's, is among the legal moves it announced.
pub proof fn lemma_acceptance_is_membership(history: Seq<RulesMove>, mv: Move)
    ensures
        selected(history, ClientToServer::Move(mv)) is Some <==> offered_moves(history).contains(
            normalized(mv, white_after(history)),
        ),
{
    let white = white_after(history);
    lemma_find_wire_some(legal_moves_after(history), normalized(mv, white), white);
    lemma_proto_moves_contains(legal_moves_after(history), normalized(mv, white), white);
}

/// A refused message changes nothing: the position, the announced board and
/// the announced legal moves stay as they were, so proposing the same refused
/// move again is refused again with the very same state.
pub proof fn lemma_rejection_idempotent(history: Seq<RulesMove>, msg: ClientToServer)
    requires
        selected(history, msg) is None,
    ensures
        next_history(history, msg) == history,
        selected(next_history(history, msg), msg) is None,
        next_history(next_history(history, msg), msg) == history,
        proto_board(next_history(next_history(history, msg), msg)) == proto_board(history),
        offered_moves(next_history(next_history(history, msg), msg)) == offered_moves(history),
        joever_after(next_history(next_history(history, msg), msg)) == joever_after(history),
{
}

/// Positions that each have one move more than the one before: the `k`-th
/// has `k` more moves than the first, and the side to move changed `k` times.
proof fn lemma_turn_at(histories: Seq<Seq<RulesMove>>, k: int)
    requires
        forall|i: int|
            0 <= i < histories.len() - 1 ==> #[trigger] histories[i + 1].len() == histories[i].len()
                + 1,
        0 <= k < histories.len(),
    ensures
        histories[k].len() == histories[0].len() + k,
        white_after(histories[k]) == (white_after(histories[0]) == (k % 2 == 0)),
    decreases k,
{
    if k > 0 {
        lemma_turn_at(histories, k - 1);
        assert(histories[(k - 1) + 1].len() == histories[k - 1].len() + 1);
        assert(histories[k].len() % 2 == (histories[0].len() + k) % 2);
    }
}

/// Over consecutive accepted moves the position grows by one move each time
/// and the side to move alternates.
pub proof fn lemma_turns_alternate(histories: Seq<Seq<RulesMove>>, msgs: Seq<ClientToServer>)
    requires
        histories.len() == msgs.len() + 1,
        forall|i: int|
            0 <= i < msgs.len() ==> selected(#[trigger] histories[i], msgs[i]) is Some
                && histories[i + 1] == next_history(histories[i], msgs[i]),
    ensures
        forall|i: int|
            0 <= i < histories.len() ==> {
                &&& #[trigger] histories[i].len() == histories[0].len() + i
                &&& white_after(histories[i]) == (white_after(histories[0]) == (i % 2 == 0))
            },
{
    assert forall|i: int| 0 <= i < histories.len() - 1 implies #[trigger] histories[i + 1].len()
        == histories[i].len() + 1 by {
        let m = selected(histories[i], msgs[i]);
        assert(m is Some);
        assert(histories[i + 1] == histories[i].push(m->0));
    }
    assert forall|i: int| 0 <= i < histories.len() implies {
        &&& #[trigger] histories[i].len() == histories[0].len() + i
        &&& white_after(histories[i]) == (white_after(histories[0]) == (i % 2 == 0))
    } by {
        lemma_turn_at(histories, i);
    }
}

/// Whatever piece a proposed promotion asks for, the move played is the
/// promotion to a queen.
pub proof fn lemma_promotion_to_queen(history: Seq<RulesMove>, mv: Move)
    requires
        selected(history, ClientToServer::Move(mv)) is Some,
        mv.promotion != Piece::Empty,
    ensures
        selected(history, ClientToServer::Move(mv)) matches Some(m) && m.promotion == Some(QUEEN),
        next_history(history, ClientToServer::Move(mv)).last().promotion == Some(QUEEN),
{
    let white = white_after(history);
    lemma_find_wire(legal_moves_after(history), normalized(mv, white), white);
}

/// Once no move is legal the game is over, and every message is refused
/// without changing the position.
pub proof fn lemma_game_over_refuses(history: Seq<RulesMove>, msg: ClientToServer)
    requires
        legal_moves_after(history).len() == 0,
    ensures
        selected(history, msg) is None,
        next_history(history, msg) == history,
{
}

/// A legal move in wire form.
fn rules_to_wire(m: &RulesMove, white: bool) -> (r: Move)
    ensures
        r == wire_move(*m, white),
{
    Move {
        start_x: (m.from % 8) as usize,
        start_y: (m.from / 8) as usize,
        end_x: (m.to % 8) as usize,
        end_y: (m.to / 8) as usize,
        promotion: if m.promotion.is_some() {
            if white { Piece::WhiteQueen } else { Piece::BlackQueen }
        } else {
            Piece::Empty
        },
    }
}

/// The host of a networked game.
pub struct HostSession {
    engine: LocalGame,
    server_color: Color,
}

impl HostSession {
    /// The moves played so far.
    pub closed spec fn history(&self) -> Seq<RulesMove> {
        self.engine@
    }

    /// The color the host plays.
    pub closed spec fn color(&self) -> Color {
        self.server_color
    }

    /// Whether the session's invariant holds.
    pub open spec fn wf(&self) -> bool {
        legal_history(self.history())
    }

    /// Starts a session from the client's handshake: the host plays the color
    /// the client asked for, and answers with the initial position, its legal
    /// moves and the outcome.
    pub fn new(handshake: ClientToServerHandshake) -> (r: (HostSession, ServerToClientHandshake))
        ensures
            r.0.wf(),
            r.0.history() == Seq::<RulesMove>::empty(),
            r.0.color() == handshake.server_color,
            r.1.features@ == seq![Features::EnPassant, Features::Castling, Features::Promotion],
            r.1.board@ == proto_board(r.0.history()),
            r.1.moves@ == offered_moves(r.0.history()),
            r.1.joever == joever_after(r.0.history()),
    {
        let session = HostSession {
            engine: LocalGame::new(),
            server_color: handshake.server_color,
        };
        let mut features = Vec::new();
        features.push(Features::EnPassant);
        features.push(Features::Castling);
        features.push(Features::Promotion);
        let reply = ServerToClientHandshake {
            features,
            board: session.get_proto_board(),
            moves: session.get_proto_moves(),
            joever: session.get_joever(),
        };
        proof {
            assert(reply.features@ =~= seq![Features::EnPassant, Features::Castling, Features::Promotion]);
        }
        (session, reply)
    }

    /// Whether the host waits for the client's first move before it plays:
    /// it does when it plays black and no move was made yet.
    pub fn awaits_opening(&self) -> (r: bool)
        ensures
            r == (self.color() == Color::Black && self.history().len() == 0),
    {
        self.server_color == Color::Black && self.engine.history_len() == 0
    }

    /// The board as the wire carries it.
    pub fn get_proto_board(&self) -> (r: Vec<Piece>)
        requires
            self.wf(),
        ensures
            r@ == proto_board(self.history()),
            r@.len() == 64,
            self.history().len() > 0 && self.history().last().promotion is Some ==> cells_after(
                self.history(),
            )[self.history().last().to as int] == (Some(((self.history().len() - 1) % 2) as u8),
                self.history().last().promotion),
    {
        self.engine.get_board()
    }

    /// The legal moves as the wire carries them.
    pub fn get_proto_moves(&self) -> (r: Vec<Move>)
        requires
            self.wf(),
        ensures
            r@ == offered_moves(self.history()),
    {
        let moves = self.engine.rules_moves();
        let white = self.engine.white_to_move();
        let mut r: Vec<Move> = Vec::new();
        let mut i: usize = 0;
        while i < moves.len()
            invariant
                i <= moves@.len(),
                moves@ == legal_moves_after(self.history()),
                white == white_after(self.history()),
                r@ == proto_moves(moves@.take(i as int), white),
            decreases moves@.len() - i,
        {
            let m = moves[i];
            assert(moves@.take(i + 1).drop_last() =~= moves@.take(i as int));
            if m.promotion.is_none() || m.promotion == Some(QUEEN) {
                r.push(rules_to_wire(&m, white));
            }
            i += 1;
        }
        assert(moves@.take(i as int) =~= moves@);
        r
    }

    /// The outcome as the wire carries it.
    pub fn get_joever(&self) -> (r: Joever)
        requires
            self.wf(),
        ensures
            r == joever_after(self.history()),
            (r == Joever::Ongoing) == (legal_moves_after(self.history()).len() > 0),
            r == Joever::White ==> !white_after(self.history()),
            r == Joever::Black ==> white_after(self.history()),
    {
        match self.engine.state() {
            ChessState::Ongoing => Joever::Ongoing,
            ChessState::JoeverIndeterminate => Joever::Indeterminate,
            ChessState::JoeverDraw => Joever::Draw,
            ChessState::JoeverWhite => Joever::White,
            ChessState::JoeverBlack => Joever::Black,
        }
    }

    /// The state message that reports the current position after `mv`.
    pub fn update_client(&self, mv: &Move) -> (r: ServerToClient)
        requires
            self.wf(),
        ensures
            r matches ServerToClient::State { move_made, .. } && move_made == *mv,
            r.board_of() == proto_board(self.history()),
            r.board_of().len() == 64,
            self.history().len() > 0 && self.history().last().promotion is Some ==> cells_after(
                self.history(),
            )[self.history().last().to as int] == (Some(((self.history().len() - 1) % 2) as u8),
                self.history().last().promotion),
            r.moves_of() == offered_moves(self.history()),
            r.joever_of() == joever_after(self.history()),
            (r.joever_of() == Joever::Ongoing) == (legal_moves_after(self.history()).len() > 0),
            r.joever_of() == Joever::White ==> !white_after(self.history()),
            r.joever_of() == Joever::Black ==> white_after(self.history()),
    {
        ServerToClient::State {
            board: self.get_proto_board(),
            moves: self.get_proto_moves(),
            joever: self.get_joever(),
            move_made: *mv,
        }
    }

    /// Handles one message of the client on the client's turn. A move that,
    /// with any promotion asked for made a queen's, is among the announced
    /// legal moves is played and answered with the new state; anything else
    /// is refused with the unchanged state, and the client may try again.
    pub fn handle_client_move(&mut self, msg: &ClientToServer) -> (r: (ServerToClient, bool))
        requires
            old(self).wf(),
        ensures
            final(self).wf(),
            final(self).color() == old(self).color(),
            final(self).history() == next_history(old(self).history(), *msg),
            r.1 == selected(old(self).history(), *msg) is Some,
            r.1 ==> (r.0 matches ServerToClient::State { move_made, .. } && (*msg matches ClientToServer::Move(mv)
                && move_made == normalized(mv, white_after(old(self).history())))),
            !r.1 ==> (r.0 matches ServerToClient::Error { message, .. } && message@ == (if *msg is Move {
                "illegal move"@
            } else {
                "unsupported operation"@
            })),
            r.0.board_of() == proto_board(final(self).history()),
            r.0.moves_of() == offered_moves(final(self).history()),
            r.0.joever_of() == joever_after(final(self).history()),
            (r.0.joever_of() == Joever::Ongoing) == (legal_moves_after(final(self).history()).len() > 0),
            r.0.joever_of() == Joever::White ==> !white_after(final(self).history()),
            r.0.joever_of() == Joever::Black ==> white_after(final(self).history()),
            r.1 ==> (*msg matches ClientToServer::Move(mv) && (mv.promotion != Piece::Empty ==> (8 * mv.end_y
                + mv.end_x < r.0.board_of().len() && r.0.board_of()[8 * mv.end_y + mv.end_x] == queen_of(
                white_after(old(self).history()))))),
    {
        proof {
            reveal_strlit("illegal move");
            reveal_strlit("unsupported operation");
        }
        match msg {
            ClientToServer::Move(mv) => {
                let white = self.engine.white_to_move();
                let wanted = Move {
                    promotion: if mv.promotion != Piece::Empty {
                        if white { Piece::WhiteQueen } else { Piece::BlackQueen }
                    } else {
                        Piece::Empty
                    },
                    ..*mv
                };
                let moves = self.engine.rules_moves();
                let ghost h = self.history();
                let mut i: usize = 0;
                assert(moves@.subrange(0, moves@.len() as int) =~= moves@);
                while i < moves.len()
                    invariant
                        i <= moves@.len(),
                        moves@ == legal_moves_after(h),
                        h == old(self).history(),
                        *self == *old(self),
                        self.wf(),
                        self.engine.wf(),
                        white == white_after(h),
                        wanted == normalized(*mv, white),
                        *msg == ClientToServer::Move(*mv),
                        forall|j: int| 0 <= j < moves@.len() ==> #[trigger] moves@[j].from < 64 && moves@[j].to < 64,
                        find_wire(moves@, wanted, white) == find_wire(moves@.subrange(i as int, moves@.len() as int), wanted, white),
                    decreases moves@.len() - i,
                {
                    let m = moves[i];
                    assert(moves@.subrange(i as int, moves@.len() as int).drop_first() =~= moves@.subrange(i + 1, moves@.len() as int));
                    if (m.promotion.is_none() || m.promotion == Some(QUEEN)) && rules_to_wire(&m, white) == wanted {
                        assert(moves@.subrange(i as int, moves@.len() as int)[0] == m);
                        assert(moves@[i as int] == m);
                        assert(moves@[i as int].from < 64 && m.to < 64);
                        assert(find_wire(moves@, wanted, white) == Some(m));
                        assert(*msg == ClientToServer::Move(*mv));
                        assert(selected(h, *msg) == Some(m));
                        self.engine.play(m);
                        proof {
                            assert(m.to == 8 * (m.to / 8) + m.to % 8);
                            if mv.promotion != Piece::Empty {
                                assert(m.promotion == Some(QUEEN));
                            }
                        }
                        let reply = self.update_client(&wanted);
                        proof {
                            let h2 = self.history();
                            assert(h2 == h.push(m));
                            assert(h2.last() == m);
                            assert(wire_move(m, white) == wanted);
                            if mv.promotion != Piece::Empty {
                                assert(8 * mv.end_y + mv.end_x == m.to);
                                assert(cells_after(h2)[m.to as int] == (Some((h.len() % 2) as u8), Some(QUEEN)));
                                assert(reply.board_of()[m.to as int] == cell_piece(Some((h.len() % 2) as u8), Some(QUEEN)));
                            }
                        }
                        return (reply, true);
                    }
                    i += 1;
                }
                (self.refuse("illegal move".to_owned()), false)
            },
            _ => (self.refuse("unsupported operation".to_owned()), false),
        }
    }

    /// Plays the host's own move and returns the state message that reports
    /// it to the client; nothing is played or sent when the move is not an
    /// offered one.
    pub fn apply_move(&mut self, mv: &ChessMove) -> (r: Option<ServerToClient>)
        requires
            old(self).wf(),
            loc_on_board(mv.from),
            loc_on_board(mv.to),
        ensures
            final(self).wf(),
            final(self).color() == old(self).color(),
            final(self).history() == match find_by_ends(legal_moves_after(old(self).history()), loc_square(mv.from), loc_square(mv.to)) {
                Some(m) => old(self).history().push(m),
                None => old(self).history(),
            },
            r is Some == find_by_ends(legal_moves_after(old(self).history()), loc_square(mv.from), loc_square(mv.to)) is Some,
            r matches Some(s) ==> {
                &&& s matches ServerToClient::State { move_made, .. } && move_made == wire_move(final(self).history().last(), white_after(old(self).history()))
                &&& s.board_of() == proto_board(final(self).history())
                &&& s.moves_of() == offered_moves(final(self).history())
                &&& s.joever_of() == joever_after(final(self).history())
                &&& (s.joever_of() == Joever::Ongoing) == (legal_moves_after(final(self).history()).len() > 0)
                &&& s.joever_of() == Joever::White ==> !white_after(final(self).history())
                &&& s.joever_of() == Joever::Black ==> white_after(final(self).history())
            },
    {
        let white = self.engine.white_to_move();
        if self.engine.apply_move(mv) {
            let m = self.engine.last_move();
            let wire = rules_to_wire(&m, white);
            Some(self.update_client(&wire))
        } else {
            None
        }
    }

    /// The offered moves from `loc`, as the host's own player sees them.
    pub fn get_moves(&mut self, loc: &ChessLoc) -> (r: Vec<ChessMove>)
        requires
            old(self).wf(),
        ensures
            final(self).history() == old(self).history(),
            final(self).color() == old(self).color(),
            r@ == moves_from(legal_moves_after(old(self).history()), cells_after(old(self).history()), loc_square(*loc)),
    {
        self.engine.get_moves(loc)
    }

    /// The color of the piece at `loc` (`true` for white) and its letter.
    pub fn get_piece(&mut self, loc: &ChessLoc) -> (r: (bool, String))
        requires
            old(self).wf(),
            loc_on_board(*loc),
        ensures
            final(self).history() == old(self).history(),
            final(self).color() == old(self).color(),
            r.0 == piece_parts(proto_board(old(self).history())[loc_square(*loc)]).0,
            r.1@ == seq![piece_parts(proto_board(old(self).history())[loc_square(*loc)]).1],
    {
        self.engine.get_piece(loc)
    }

    /// Whether white is to move.
    pub fn get_player(&self) -> (r: bool)
        requires
            self.wf(),
        ensures
            r == white_after(self.history()),
    {
        self.engine.white_to_move()
    }

    /// The state of the game.
    pub fn get_state(&self) -> (r: ChessState)
        requires
            self.wf(),
        ensures
            r == state_of(status_after(self.history()), white_after(self.history())),
            (r == ChessState::Ongoing) == (legal_moves_after(self.history()).len() > 0),
    {
        self.engine.state()
    }

    /// The refusal that reports the current position with `message`.
    fn refuse(&self, message: String) -> (r: ServerToClient)
        requires
            self.wf(),
        ensures
            r matches ServerToClient::Error { message: m, .. } && m == message,
            r.board_of() == proto_board(self.history()),
            r.moves_of() == offered_moves(self.history()),
            r.joever_of() == joever_after(self.history()),
            (r.joever_of() == Joever::Ongoing) == (legal_moves_after(self.history()).len() > 0),
            r.joever_of() == Joever::White ==> !white_after(self.history()),
            r.joever_of() == Joever::Black ==> white_after(self.history()),
    {
        ServerToClient::Error {
            board: self.get_proto_board(),
            moves: self.get_proto_moves(),
            joever: self.get_joever(),
            message,
        }
    }
}

} // verus!
