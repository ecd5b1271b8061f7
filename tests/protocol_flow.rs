use chess_link::chess_engine::{ChessMove, ChessState};
use chess_link::protocol::{
    ClientToServer, ClientToServerHandshake, Color, Features, Joever, Move, Piece,
    ServerToClient, ServerToClientHandshake,
};
use chess_link::remote_engine::{handshake, ClientSession};
use chess_link::remote_host_engine::HostSession;

fn wire(sx: usize, sy: usize, ex: usize, ey: usize, promotion: Piece) -> Move {
    Move { start_x: sx, start_y: sy, end_x: ex, end_y: ey, promotion }
}

fn propose(sx: usize, sy: usize, ex: usize, ey: usize) -> ClientToServer {
    ClientToServer::Move(wire(sx, sy, ex, ey, Piece::Empty))
}

fn host() -> (HostSession, ServerToClientHandshake) {
    HostSession::new(ClientToServerHandshake { server_color: Color::Black })
}

fn parts(msg: &ServerToClient) -> (Vec<Piece>, Vec<Move>, Joever) {
    match msg {
        ServerToClient::State { board, moves, joever, .. } => (board.clone(), moves.clone(), *joever),
        ServerToClient::Error { board, moves, joever, .. } => (board.clone(), moves.clone(), *joever),
    }
}

#[test]
fn handshake_reply_holds_initial_position() {
    let (session, reply) = host();
    assert_eq!(reply.features, vec![Features::EnPassant, Features::Castling, Features::Promotion]);
    assert_eq!(reply.board.len(), 64);
    assert_eq!(reply.board[4], Piece::WhiteKing);
    assert_eq!(reply.board[8 * 7 + 4], Piece::BlackKing);
    assert_eq!(reply.moves.len(), 20);
    assert!(reply.moves.contains(&wire(4, 1, 4, 3, Piece::Empty)));
    assert_eq!(reply.joever, Joever::Ongoing);
    assert!(session.get_player());
}

#[test]
fn legal_move_gets_state_reply() {
    let (mut session, _) = host();
    let (reply, accepted) = session.handle_client_move(&propose(4, 1, 4, 3));
    assert!(accepted);
    match reply {
        ServerToClient::State { board, moves, joever, move_made } => {
            assert_eq!(move_made, wire(4, 1, 4, 3, Piece::Empty));
            assert_eq!(joever, Joever::Ongoing);
            assert_eq!(board[8 * 3 + 4], Piece::WhitePawn);
            assert_eq!(board[8 + 4], Piece::Empty);
            assert_eq!(moves.len(), 20);
            assert!(moves.contains(&wire(4, 6, 4, 4, Piece::Empty)));
        },
        ServerToClient::Error { .. } => panic!("a legal move was refused"),
    }
    assert!(!session.get_player());
}

#[test]
fn illegal_move_gets_error_with_unchanged_state() {
    let (mut session, initial) = host();
    let (reply, accepted) = session.handle_client_move(&propose(4, 1, 4, 4));
    assert!(!accepted);
    match &reply {
        ServerToClient::Error { message, .. } => assert_eq!(message, "illegal move"),
        ServerToClient::State { .. } => panic!("an illegal move was played"),
    }
    let (board, moves, joever) = parts(&reply);
    assert_eq!(board, initial.board);
    assert_eq!(moves, initial.moves);
    assert_eq!(joever, Joever::Ongoing);
    assert!(session.get_player());
}

#[test]
fn same_illegal_move_twice_gives_identical_replies() {
    let (mut session, _) = host();
    let (first, a) = session.handle_client_move(&propose(4, 1, 4, 4));
    let (second, b) = session.handle_client_move(&propose(4, 1, 4, 4));
    assert!(!a && !b);
    assert_eq!(parts(&first), parts(&second));
    let (legal, ok) = session.handle_client_move(&propose(4, 1, 4, 3));
    assert!(ok);
    assert!(matches!(legal, ServerToClient::State { .. }));
}

#[test]
fn client_cache_is_identical_after_repeated_refusals() {
    let request = handshake(Color::Black);
    let (mut session, hello) = HostSession::new(request);
    let mut client = ClientSession::new(request, hello).unwrap();
    let bad = ChessMove { from: (0, 1), to: (0, 4), capture: false, promotion: false };
    let (r1, _) = session.handle_client_move(&client.propose(&bad));
    assert!(!client.on_reply(r1));
    let first = (client.get_piece(&(0, 1)), client.get_moves(&(0, 1)));
    let (r2, _) = session.handle_client_move(&client.propose(&bad));
    assert!(!client.on_reply(r2));
    let second = (client.get_piece(&(0, 1)), client.get_moves(&(0, 1)));
    assert_eq!(first, second);
    assert!(!client.is_waiting());
}

#[test]
fn resign_and_draw_are_unsupported() {
    let (mut session, initial) = host();
    for msg in [ClientToServer::Resign, ClientToServer::Draw] {
        let (reply, accepted) = session.handle_client_move(&msg);
        assert!(!accepted);
        match &reply {
            ServerToClient::Error { message, .. } => assert_eq!(message, "unsupported operation"),
            ServerToClient::State { .. } => panic!("an unsupported message was accepted"),
        }
        assert_eq!(parts(&reply).0, initial.board);
    }
}

#[test]
fn fools_mate_ends_the_game() {
    let (mut session, _) = host();
    for (sx, sy, ex, ey) in [(5, 1, 5, 2), (4, 6, 4, 4), (6, 1, 6, 3)] {
        let (reply, ok) = session.handle_client_move(&propose(sx, sy, ex, ey));
        assert!(ok);
        assert_eq!(parts(&reply).2, Joever::Ongoing);
    }
    let (reply, ok) = session.handle_client_move(&propose(3, 7, 7, 3));
    assert!(ok);
    let (board, moves, joever) = parts(&reply);
    assert_eq!(joever, Joever::Black);
    assert!(moves.is_empty());
    assert_eq!(board[8 * 3 + 7], Piece::BlackQueen);
    assert_eq!(session.get_state(), ChessState::JoeverBlack);
    let (after, again) = session.handle_client_move(&propose(4, 1, 4, 3));
    assert!(!again);
    assert!(matches!(after, ServerToClient::Error { .. }));
    assert_eq!(parts(&after).2, Joever::Black);
}

#[test]
fn host_playing_black_first_takes_whites_opening() {
    let request = handshake(Color::Black);
    assert_eq!(request, ClientToServerHandshake { server_color: Color::Black });
    let (mut session, hello) = HostSession::new(request);
    assert!(session.awaits_opening());
    let mut client = ClientSession::new(request, hello).unwrap();
    assert!(client.get_player());
    let opening = ChessMove { from: (4, 1), to: (4, 3), capture: false, promotion: false };
    let (reply, ok) = session.handle_client_move(&client.propose(&opening));
    assert!(ok);
    assert!(!session.awaits_opening());
    assert!(!session.get_player());
    assert_eq!(session.get_piece(&(4, 3)), (true, String::from("P")));
    assert!(client.on_reply(reply));
    assert!(client.is_waiting());
    assert_eq!(client.get_piece(&(4, 3)), (true, String::from("P")));
}

#[test]
fn host_playing_white_does_not_wait() {
    let (session, _) = HostSession::new(ClientToServerHandshake { server_color: Color::White });
    assert!(!session.awaits_opening());
}

#[test]
fn host_move_is_broadcast_to_the_client() {
    let request = handshake(Color::White);
    let (mut session, hello) = HostSession::new(request);
    let mut client = ClientSession::new(request, hello).unwrap();
    assert!(!client.get_player());
    assert!(client.is_waiting());
    let mv = ChessMove { from: (3, 1), to: (3, 3), capture: false, promotion: false };
    let broadcast = session.apply_move(&mv).unwrap();
    match &broadcast {
        ServerToClient::State { move_made, .. } => {
            assert_eq!(*move_made, wire(3, 1, 3, 3, Piece::Empty))
        },
        ServerToClient::Error { .. } => panic!("the host's move was not reported"),
    }
    assert!(client.on_remote(broadcast));
    assert!(!client.is_waiting());
    assert_eq!(client.get_piece(&(3, 3)), (true, String::from("P")));
    assert!(session.apply_move(&mv).is_none());
}

#[test]
fn out_of_turn_proposal_is_refused() {
    let request = handshake(Color::White);
    let (mut session, hello) = HostSession::new(request);
    let mut client = ClientSession::new(request, hello).unwrap();
    let early = ChessMove { from: (0, 6), to: (0, 5), capture: false, promotion: false };
    let (refused, ok) = session.handle_client_move(&client.propose(&early));
    assert!(!ok);
    assert!(!client.on_reply(refused));
    assert!(client.is_waiting());
    assert_eq!(client.get_piece(&(0, 6)), (false, String::from("P")));
}

#[test]
fn message_is_ignored_when_nothing_is_awaited() {
    let request = handshake(Color::Black);
    let (session, hello) = HostSession::new(request);
    let mut client = ClientSession::new(request, hello).unwrap();
    assert!(!client.is_waiting());
    let update = session.update_client(&wire(0, 0, 0, 0, Piece::Empty));
    assert!(!client.on_remote(update));
    assert!(!client.is_waiting());
}

#[test]
fn client_takes_the_opponents_move_only_while_waiting() {
    let request = handshake(Color::Black);
    let (mut session, hello) = HostSession::new(request);
    let mut client = ClientSession::new(request, hello).unwrap();
    let e4 = ChessMove { from: (4, 1), to: (4, 3), capture: false, promotion: false };
    let (reply, ok) = session.handle_client_move(&client.propose(&e4));
    assert!(ok);
    assert!(client.on_reply(reply));
    assert!(client.is_waiting());
    let reply = session.apply_move(&ChessMove { from: (4, 6), to: (4, 4), capture: false, promotion: false }).unwrap();
    assert!(client.on_remote(reply));
    assert!(!client.is_waiting());
    assert_eq!(client.get_piece(&(4, 4)), (false, String::from("P")));
    assert_eq!(client.get_state(), ChessState::Ongoing);
    let moves = client.get_moves(&(6, 0));
    assert_eq!(moves.len(), 3);
    let again = session.get_proto_board();
    assert_eq!(again[8 * 4 + 4], Piece::BlackPawn);
}

#[test]
fn client_refuses_a_malformed_board() {
    let request = handshake(Color::Black);
    let (_, mut hello) = HostSession::new(request);
    hello.board.pop();
    assert!(ClientSession::new(request, hello).is_none());
}

#[test]
fn sides_alternate_over_accepted_moves() {
    let (mut session, _) = host();
    let line = [(4, 1, 4, 3), (4, 6, 4, 4), (6, 0, 5, 2), (1, 7, 2, 5), (5, 0, 2, 3)];
    for (i, (sx, sy, ex, ey)) in line.iter().enumerate() {
        assert_eq!(session.get_player(), i % 2 == 0);
        let (_, ok) = session.handle_client_move(&propose(*sx, *sy, *ex, *ey));
        assert!(ok);
        assert_eq!(session.get_player(), i % 2 == 1);
    }
}

#[test]
fn any_promotion_request_becomes_a_queen() {
    let (mut session, _) = host();
    let line = [
        (7, 1, 7, 3),
        (6, 6, 6, 4),
        (7, 3, 6, 4),
        (0, 6, 0, 5),
        (6, 4, 6, 5),
        (0, 5, 0, 4),
        (6, 5, 7, 6),
        (0, 4, 0, 3),
    ];
    for (sx, sy, ex, ey) in line {
        let (_, ok) = session.handle_client_move(&propose(sx, sy, ex, ey));
        assert!(ok);
    }
    let promoting = wire(7, 6, 6, 7, Piece::WhiteKnight);
    assert!(session.get_proto_moves().contains(&wire(7, 6, 6, 7, Piece::WhiteQueen)));
    let (reply, ok) = session.handle_client_move(&ClientToServer::Move(promoting));
    assert!(ok);
    match reply {
        ServerToClient::State { board, move_made, .. } => {
            assert_eq!(board[8 * 7 + 6], Piece::WhiteQueen);
            assert_eq!(move_made.promotion, Piece::WhiteQueen);
        },
        ServerToClient::Error { .. } => panic!("the promotion was refused"),
    }
}

#[test]
fn promotion_without_a_requested_piece_is_refused() {
    let (mut session, _) = host();
    let line = [
        (7, 1, 7, 3),
        (6, 6, 6, 4),
        (7, 3, 6, 4),
        (0, 6, 0, 5),
        (6, 4, 6, 5),
        (0, 5, 0, 4),
        (6, 5, 7, 6),
        (0, 4, 0, 3),
    ];
    for (sx, sy, ex, ey) in line {
        assert!(session.handle_client_move(&propose(sx, sy, ex, ey)).1);
    }
    assert!(!session.handle_client_move(&propose(7, 6, 6, 7)).1);
}

#[test]
fn client_proposes_a_queen_for_a_pawn_on_the_last_rank() {
    let request = handshake(Color::Black);
    let (mut session, hello) = HostSession::new(request);
    let mut client = ClientSession::new(request, hello).unwrap();
    let line = [
        ((7, 1), (7, 3)),
        ((6, 6), (6, 4)),
        ((7, 3), (6, 4)),
        ((0, 6), (0, 5)),
        ((6, 4), (6, 5)),
        ((0, 5), (0, 4)),
        ((6, 5), (7, 6)),
        ((0, 4), (0, 3)),
    ];
    for (i, (from, to)) in line.iter().enumerate() {
        let mv = ChessMove { from: *from, to: *to, capture: false, promotion: false };
        if i % 2 == 0 {
            let (reply, ok) = session.handle_client_move(&client.propose(&mv));
            assert!(ok);
            assert!(client.on_reply(reply));
        } else {
            let reply = session.apply_move(&mv).unwrap();
            assert!(client.on_remote(reply));
        }
    }
    let last = ChessMove { from: (7, 6), to: (6, 7), capture: true, promotion: true };
    let msg = client.propose(&last);
    assert_eq!(msg, ClientToServer::Move(wire(7, 6, 6, 7, Piece::WhiteQueen)));
    let (reply, ok) = session.handle_client_move(&msg);
    assert!(ok);
    assert!(client.on_reply(reply));
    assert_eq!(client.get_piece(&(6, 7)), (true, String::from("Q")));
}
