use tictactoe_server::account::UserRank;
use tictactoe_server::game::BoardOptions;
use tictactoe_server::game::Move;
use tictactoe_server::game::MoveResponse;
use tictactoe_server::game::Player;
use tictactoe_server::game::Status;
use tictactoe_server::queue::MatchQueue;
use tictactoe_server::session::Credit;
use tictactoe_server::session::Seat;
use tictactoe_server::session::Session;
use tictactoe_server::session::SessionEvent;

fn player(id: i32, name: &str) -> Player {
    Player { id, name: name.to_string(), token: format!("token-{}", id) }
}

#[test]
fn five_tickets_form_two_pairs_in_arrival_order_one_waits() {
    let mut queue: MatchQueue<Player> = MatchQueue::new();
    let mut pairs: Vec<(Player, Player)> = Vec::new();
    for id in 1..=5 {
        if let Some(pair) = queue.enqueue(player(id, "waiting")) {
            pairs.push(pair);
        }
    }
    assert_eq!(pairs.len(), 2);
    assert_eq!((pairs[0].0.id, pairs[0].1.id), (1, 2));
    assert_eq!((pairs[1].0.id, pairs[1].1.id), (3, 4));
    assert_eq!(queue.waiting.len(), 1);
    assert_eq!(queue.waiting[0].id, 5);
}

#[test]
fn two_tickets_pair_first_arrival_first() {
    let mut queue: MatchQueue<Player> = MatchQueue::new();
    assert!(queue.enqueue(player(7, "a")).is_none());
    let (first, second) = queue.enqueue(player(8, "b")).expect("second arrival must pair");
    assert_eq!(first.id, 7);
    assert_eq!(second.id, 8);
    assert_eq!(queue.waiting.len(), 0);
}

#[test]
fn paired_tickets_play_one_refused_second_move_on_occupied_cell() {
    // Tickets A (first) and B (second) pair: A is First and plays "O",
    // B is Second and plays "X", and the turn starts with "O".
    let mut queue: MatchQueue<Player> = MatchQueue::new();
    assert!(queue.enqueue(player(1, "A")).is_none());
    let (a, b) = queue.enqueue(player(2, "B")).expect("B pairs with A");
    let mut session = Session::new(a, b);
    assert_eq!(session.player1_response.your_symbol, BoardOptions::O);
    assert_eq!(session.player2_response.your_symbol, BoardOptions::X);
    assert_eq!(session.player1_response.game.current_move, BoardOptions::O);

    // A plays cell 4: accepted, board[4] = "O", turn passes to "X", and B
    // sees Waiting with the updated board.
    let out = session.step(SessionEvent::Moved(Seat::First, Move { field: 4 }));
    let to_a = out.reply_player1.expect("mover is answered");
    let to_b = out.reply_player2.expect("opponent sees the accepted move");
    assert_eq!(to_a.response, MoveResponse::Accepted);
    assert_eq!(to_a.game.board[4], BoardOptions::O);
    assert_eq!(to_a.game.current_move, BoardOptions::X);
    assert_eq!(to_b.response, MoveResponse::Waiting);
    assert_eq!(to_b.game.board, to_a.game.board);
    assert!(out.credit.is_none());

    // B plays the same cell 4: refused, turn stays with "X", board unchanged.
    let board_before = session.player2_response.game.board;
    let out = session.step(SessionEvent::Moved(Seat::Second, Move { field: 4 }));
    let to_b = out.reply_player2.expect("mover is answered");
    assert!(out.reply_player1.is_none());
    assert_eq!(to_b.response, MoveResponse::Refused);
    assert_eq!(to_b.game.board, board_before);
    assert_eq!(to_b.game.current_move, BoardOptions::X);
    assert!(out.credit.is_none());
    assert!(!session.finished);
}

#[test]
fn winning_sequence_broadcasts_player1_won_and_credits_once() {
    // Alternating moves O:0, X:3, O:1, X:4, O:2 complete the top row for O.
    let mut session = Session::new(player(10, "A"), player(20, "B"));
    let script = [
        (Seat::First, 0),
        (Seat::Second, 3),
        (Seat::First, 1),
        (Seat::Second, 4),
    ];
    for (seat, field) in script {
        let out = session.step(SessionEvent::Moved(seat, Move { field }));
        assert!(out.credit.is_none());
        assert!(!session.finished);
    }
    let out = session.step(SessionEvent::Moved(Seat::First, Move { field: 2 }));
    let to_a = out.reply_player1.expect("mover is answered");
    let to_b = out.reply_player2.expect("opponent sees the final board");
    assert_eq!(to_a.status, Status::Player1Won);
    assert_eq!(to_b.status, Status::Player1Won);
    assert_eq!(to_a.game.board, to_b.game.board);
    assert_eq!(out.credit, Some(Credit { win_id: 10, lose_id: 20 }));
    assert!(session.finished);

    // The finished session absorbs further events without crediting again.
    let out = session.step(SessionEvent::Moved(Seat::Second, Move { field: 8 }));
    assert!(out.reply_player1.is_none());
    assert!(out.reply_player2.is_none());
    assert!(out.credit.is_none());
}

#[test]
fn second_seat_win_credits_player2() {
    // O:8, X:0, O:7, X:1, O:5, X:2 completes the top row for X.
    let mut session = Session::new(player(31, "A"), player(32, "B"));
    let script = [
        (Seat::First, 8),
        (Seat::Second, 0),
        (Seat::First, 7),
        (Seat::Second, 1),
        (Seat::First, 5),
    ];
    for (seat, field) in script {
        let out = session.step(SessionEvent::Moved(seat, Move { field }));
        assert!(out.credit.is_none());
    }
    let out = session.step(SessionEvent::Moved(Seat::Second, Move { field: 2 }));
    assert_eq!(out.credit, Some(Credit { win_id: 32, lose_id: 31 }));
    let to_a = out.reply_player1.expect("opponent sees the final board");
    let to_b = out.reply_player2.expect("mover is answered");
    assert_eq!(to_a.status, Status::Player2Won);
    assert_eq!(to_b.status, Status::Player2Won);
    assert_eq!(to_b.response, MoveResponse::Accepted);
    assert!(session.finished);
}

#[test]
fn disconnect_credits_opponent_exactly_once() {
    let mut session = Session::new(player(1, "A"), player(2, "B"));
    let out = session.step(SessionEvent::Moved(Seat::First, Move { field: 0 }));
    assert!(out.credit.is_none());

    // The first participant disconnects: the second is credited the win,
    // the disconnector the loss, and only the opponent is messaged.
    let out = session.step(SessionEvent::Disconnected(Seat::First));
    assert_eq!(out.credit, Some(Credit { win_id: 2, lose_id: 1 }));
    assert!(out.reply_player1.is_none());
    let to_b = out.reply_player2.expect("opponent gets the forfeit message");
    assert_eq!(to_b.status, Status::Error);
    assert!(session.finished);

    // Whatever arrives afterwards — even the other side's disconnect racing
    // in — credits nobody a second time.
    let out = session.step(SessionEvent::Disconnected(Seat::Second));
    assert!(out.credit.is_none());
    assert!(out.reply_player1.is_none());
    assert!(out.reply_player2.is_none());
}

#[test]
fn disconnect_of_second_seat_credits_first() {
    let mut session = Session::new(player(5, "A"), player(6, "B"));
    let out = session.step(SessionEvent::Disconnected(Seat::Second));
    assert_eq!(out.credit, Some(Credit { win_id: 5, lose_id: 6 }));
    let to_a = out.reply_player1.expect("opponent gets the forfeit message");
    assert_eq!(to_a.status, Status::Error);
    assert!(out.reply_player2.is_none());
}

#[test]
fn malformed_payload_answers_only_the_sender() {
    let mut session = Session::new(player(1, "A"), player(2, "B"));
    let out = session.step(SessionEvent::Malformed(Seat::Second));
    assert!(out.reply_player1.is_none());
    let to_b = out.reply_player2.expect("sender is refused");
    assert_eq!(to_b.response, MoveResponse::Refused);
    assert_eq!(to_b.game.board, [BoardOptions::Null; 9]);
    assert!(out.credit.is_none());
    assert!(!session.finished);
    // The game goes on unharmed: O can still move.
    let out = session.step(SessionEvent::Moved(Seat::First, Move { field: 4 }));
    assert_eq!(out.reply_player1.expect("mover answered").response, MoveResponse::Accepted);
}

#[test]
fn drawn_session_finishes_without_credit() {
    let mut session = Session::new(player(1, "A"), player(2, "B"));
    let script = [
        (Seat::First, 0),
        (Seat::Second, 1),
        (Seat::First, 2),
        (Seat::Second, 4),
        (Seat::First, 3),
        (Seat::Second, 5),
        (Seat::First, 7),
        (Seat::Second, 6),
        (Seat::First, 8),
    ];
    let mut last_credit = None;
    for (seat, field) in script {
        let out = session.step(SessionEvent::Moved(seat, Move { field }));
        last_credit = out.credit;
    }
    assert!(session.finished);
    assert!(last_credit.is_none());
    assert_eq!(session.player1_response.status, Status::Draw);
    assert_eq!(session.player2_response.status, Status::Draw);
}

#[test]
fn user_rank_new_is_the_empty_row() {
    let row = UserRank::new();
    assert_eq!(row.username, "");
    assert_eq!(row.points, 0);
}
