//! The move engine: board and status types, win detection, and move
//! application for one tic-tac-toe game between two participants.

use vstd::prelude::*;

verus! {

/// One cell of the board, and also a participant's marker. `O` belongs to the
/// first-paired participant, `X` to the second; `Null` is an empty cell.
#[derive(Clone, Copy, Debug, PartialEq, Eq, Structural)]
pub enum BoardOptions {
    X,
    O,
    Null,
}

/// The verdict a participant receives about the latest processed input:
/// its own move was taken or rejected, or the other side moved.
#[derive(Clone, Copy, Debug, PartialEq, Eq, Structural)]
pub enum MoveResponse {
    Accepted,
    Refused,
    OtherPlayer,
    Waiting,
}

/// The game's status. `Error` is the terminal value a session forces when a
/// transport fails: the remaining participant has won by forfeit.
#[derive(Clone, Copy, Debug, PartialEq, Eq, Structural)]
pub enum Status {
    InGame,
    Player1Won,
    Player2Won,
    Draw,
    Error,
}

/// A well-formed move request: the cell index a participant asks to mark.
#[derive(Clone, Copy, Debug, PartialEq, Eq, Structural)]
pub struct Move {
    pub field: usize,
}

/// A participant's identity, as the account service resolved it from a
/// session token.
#[derive(Clone, Debug, PartialEq)]
pub struct Player {
    pub id: i32,
    pub name: String,
    pub token: String,
}

/// The shared game state: nine cells in row-major order and whose turn it is
/// (`Null` once the game has ended).
#[derive(Clone, Copy, Debug, PartialEq)]
pub struct Game {
    pub board: [BoardOptions; 9],
    pub current_move: BoardOptions,
}

/// Mathematical model of `Game`: the board as a sequence of cells.
#[verifier::ext_equal]
pub struct GameModel {
    pub board: Seq<BoardOptions>,
    pub current_move: BoardOptions,
}

impl View for Game {
    type V = GameModel;

    open spec fn view(&self) -> GameModel {
        GameModel { board: self.board@, current_move: self.current_move }
    }
}

/// The board every game starts from: nine empty cells.
pub open spec fn empty_board() -> Seq<BoardOptions> {
    Seq::new(9, |i: int| BoardOptions::Null)
}

/// Cells `i`, `j`, `k` hold three equal, non-empty markers.
pub open spec fn triple_won(b: Seq<BoardOptions>, i: int, j: int, k: int) -> bool {
    b[i] != BoardOptions::Null && b[i] == b[j] && b[i] == b[k]
}

/// The marker of the first completed line among the eight winning triples
/// (three rows, three columns, two diagonals), in the fixed order the engine
/// checks them, or `None` when no line is complete.
pub open spec fn line_winner(b: Seq<BoardOptions>) -> Option<BoardOptions> {
    if triple_won(b, 0, 1, 2) {
        Some(b[0])
    } else if triple_won(b, 3, 4, 5) {
        Some(b[3])
    } else if triple_won(b, 6, 7, 8) {
        Some(b[6])
    } else if triple_won(b, 0, 3, 6) {
        Some(b[0])
    } else if triple_won(b, 1, 4, 7) {
        Some(b[1])
    } else if triple_won(b, 2, 5, 8) {
        Some(b[2])
    } else if triple_won(b, 0, 4, 8) {
        Some(b[0])
    } else if triple_won(b, 2, 4, 6) {
        Some(b[2])
    } else {
        None
    }
}

/// Marker `s` owns at least one of the eight winning lines.
pub open spec fn has_line(b: Seq<BoardOptions>, s: BoardOptions) -> bool {
    s != BoardOptions::Null && (
        (b[0] == s && b[1] == s && b[2] == s)
        || (b[3] == s && b[4] == s && b[5] == s)
        || (b[6] == s && b[7] == s && b[8] == s)
        || (b[0] == s && b[3] == s && b[6] == s)
        || (b[1] == s && b[4] == s && b[7] == s)
        || (b[2] == s && b[5] == s && b[8] == s)
        || (b[0] == s && b[4] == s && b[8] == s)
        || (b[2] == s && b[4] == s && b[6] == s)
    )
}

/// All nine cells are marked.
pub open spec fn board_full(b: Seq<BoardOptions>) -> bool {
    b[0] != BoardOptions::Null && b[1] != BoardOptions::Null && b[2] != BoardOptions::Null
        && b[3] != BoardOptions::Null && b[4] != BoardOptions::Null && b[5] != BoardOptions::Null
        && b[6] != BoardOptions::Null && b[7] != BoardOptions::Null && b[8] != BoardOptions::Null
}

/// The status a board dictates: the first completed line decides the winner
/// (`O` is the first participant), a full board with no line is a draw, and
/// otherwise the game goes on.
pub open spec fn game_status(b: Seq<BoardOptions>) -> Status {
    match line_winner(b) {
        Some(s) => if s == BoardOptions::O {
            Status::Player1Won
        } else {
            Status::Player2Won
        },
        None => if board_full(b) {
            Status::Draw
        } else {
            Status::InGame
        },
    }
}

impl Default for Game {
    /// A fresh game: empty board, and `O` — the first participant — moves first.
    fn default() -> (g: Self)
        ensures
            g@.board =~= empty_board(),
            g@.current_move == BoardOptions::O,
    {
        Self { board: [BoardOptions::Null; 9], current_move: BoardOptions::O }
    }
}

/// The full message a participant receives after each processed input: the
/// shared game state, the verdict on that input, the game's status, and the
/// marker assigned to this participant for the whole session.
#[derive(Clone, Copy, Debug, PartialEq)]
pub struct SerwerResponse {
    pub game: Game,
    pub response: MoveResponse,
    pub status: Status,
    pub your_symbol: BoardOptions,
}

/// Mathematical model of `SerwerResponse`.
#[verifier::ext_equal]
pub struct RespModel {
    pub game: GameModel,
    pub response: MoveResponse,
    pub status: Status,
    pub your_symbol: BoardOptions,
}

impl View for SerwerResponse {
    type V = RespModel;

    open spec fn view(&self) -> RespModel {
        RespModel {
            game: self.game@,
            response: self.response,
            status: self.status,
            your_symbol: self.your_symbol,
        }
    }
}

/// The view the first-paired participant starts from: empty board, `O` to
/// move, and `O` as its own marker.
pub open spec fn first_view_player1() -> RespModel {
    RespModel {
        game: GameModel { board: empty_board(), current_move: BoardOptions::O },
        response: MoveResponse::Waiting,
        status: Status::InGame,
        your_symbol: BoardOptions::O,
    }
}

/// The view the second-paired participant starts from: empty board, `O` to
/// move, and `X` as its own marker.
pub open spec fn first_view_player2() -> RespModel {
    RespModel {
        game: GameModel { board: empty_board(), current_move: BoardOptions::O },
        response: MoveResponse::Waiting,
        status: Status::InGame,
        your_symbol: BoardOptions::X,
    }
}

impl SerwerResponse {
    /// The greeting sent to the first-paired participant.
    pub fn first_response_player1() -> (r: Self)
        ensures
            r@ =~~= first_view_player1(),
    {
        Self {
            game: Game::default(),
            response: MoveResponse::Waiting,
            status: Status::InGame,
            your_symbol: BoardOptions::O,
        }
    }

    /// The greeting sent to the second-paired participant.
    pub fn first_response_player2() -> (r: Self)
        ensures
            r@ =~~= first_view_player2(),
    {
        Self {
            game: Game::default(),
            response: MoveResponse::Waiting,
            status: Status::InGame,
            your_symbol: BoardOptions::X,
        }
    }
}

/// A move to `field` is legal in view `r`: the game is still running, it is
/// this participant's turn, the index is on the board, and the cell is empty.
pub open spec fn move_allowed(r: RespModel, field: int) -> bool {
    &&& r.status == Status::InGame
    &&& r.your_symbol == r.game.current_move
    &&& 0 <= field < 9
    &&& r.game.board[field] == BoardOptions::Null
}

/// Whose turn it is after a move by `sym` left the game in status `st`:
/// nobody's once the game has ended, else the other participant's.
pub open spec fn turn_after(st: Status, sym: BoardOptions) -> BoardOptions {
    if st == Status::InGame {
        if sym == BoardOptions::O {
            BoardOptions::X
        } else {
            BoardOptions::O
        }
    } else {
        BoardOptions::Null
    }
}

/// What one move request does to the two participants' views: an illegal
/// request only marks the mover's view `Refused`; a legal one marks the cell,
/// recomputes status and turn, and installs the same board, status and turn
/// in both views, `Accepted` for the mover and `Waiting` for the other side.
pub open spec fn apply_move_views(mover: RespModel, waiter: RespModel, field: int) -> (RespModel, RespModel) {
    if !move_allowed(mover, field) {
        (
            RespModel { response: MoveResponse::Refused, ..mover },
            waiter,
        )
    } else {
        let b2 = mover.game.board.update(field, mover.your_symbol);
        let st = game_status(b2);
        let tn = turn_after(st, mover.your_symbol);
        (
            RespModel {
                game: GameModel { board: b2, current_move: tn },
                response: MoveResponse::Accepted,
                status: st,
                your_symbol: mover.your_symbol,
            },
            RespModel {
                game: GameModel { board: b2, current_move: tn },
                response: MoveResponse::Waiting,
                status: st,
                your_symbol: waiter.your_symbol,
            },
        )
    }
}

/// Applies one move request from the participant whose view is
/// `current_player` against the opponent's view `waiting_player`.
///
/// An illegal request — game over, not this side's turn, index off the board,
/// or cell occupied — changes nothing but the mover's verdict, which becomes
/// `Refused`; the opponent's view is untouched. A legal request marks the
/// cell, recomputes status and turn, installs the identical board, status and
/// turn in both views, and sets the verdicts to `Accepted` and `Waiting`.
pub fn make_a_move(from_user: Move, current_player: &mut SerwerResponse, waiting_player: &mut SerwerResponse)
    ensures
        ({
            let (c2, w2) = apply_move_views(old(current_player)@, old(waiting_player)@, from_user.field as int);
            final(current_player)@ =~~= c2 && final(waiting_player)@ =~~= w2
        }),
{
    if current_player.status != Status::InGame {
        current_player.response = MoveResponse::Refused;
        return ;
    }
    if current_player.your_symbol != current_player.game.current_move {
        current_player.response = MoveResponse::Refused;
        return ;
    }
    if from_user.field >= 9 || current_player.game.board[from_user.field] != BoardOptions::Null {
        current_player.response = MoveResponse::Refused;
        return ;
    }
    let symbol = current_player.your_symbol;
    current_player.game.board[from_user.field] = symbol;
    let status = check_winner(&current_player.game.board);
    let next_turn = if status != Status::InGame {
        BoardOptions::Null
    } else if symbol == BoardOptions::O {
        BoardOptions::X
    } else {
        BoardOptions::O
    };
    current_player.game.current_move = next_turn;
    waiting_player.game.current_move = next_turn;
    current_player.status = status;
    waiting_player.status = status;
    waiting_player.game.board = current_player.game.board;
    waiting_player.response = MoveResponse::Waiting;
    current_player.response = MoveResponse::Accepted;
}

/// While a board's status is still `InGame`, no winning line exists for
/// either marker and the board is not full.
pub proof fn lemma_in_game_no_line(b: Seq<BoardOptions>)
    ensures
        game_status(b) == Status::InGame ==> !has_line(b, BoardOptions::O) && !has_line(
            b,
            BoardOptions::X,
        ) && !board_full(b),
{
}

/// After a legal move on a board where neither marker yet owns a line — the
/// situation every in-progress game is in — lines for the two markers still
/// cannot coexist, and the status the engine assigns is exactly the one the
/// eight winning lines and the full-board draw rule dictate: a line for the
/// mover names the mover winner, a full board without one is a draw, and
/// otherwise the game goes on.
pub proof fn lemma_move_status_consistent(b: Seq<BoardOptions>, sym: BoardOptions, field: int)
    requires
        b.len() == 9,
        !has_line(b, BoardOptions::O),
        !has_line(b, BoardOptions::X),
        sym == BoardOptions::O || sym == BoardOptions::X,
        0 <= field < 9,
        b[field] == BoardOptions::Null,
    ensures
        ({
            let b2 = b.update(field, sym);
            &&& !(has_line(b2, BoardOptions::O) && has_line(b2, BoardOptions::X))
            &&& game_status(b2) == (if has_line(b2, sym) {
                if sym == BoardOptions::O {
                    Status::Player1Won
                } else {
                    Status::Player2Won
                }
            } else if board_full(b2) {
                Status::Draw
            } else {
                Status::InGame
            })
        }),
{
}

/// Reads the status off a board: the first completed winning line names the
/// winner, a full board without one is a draw, anything else is still in play.
pub fn check_winner(board: &[BoardOptions; 9]) -> (r: Status)
    ensures
        r == game_status(board@),
{
    if board[0] != BoardOptions::Null && board[0] == board[1] && board[0] == board[2] {
        return if board[0] == BoardOptions::O { Status::Player1Won } else { Status::Player2Won };
    }
    if board[3] != BoardOptions::Null && board[3] == board[4] && board[3] == board[5] {
        return if board[3] == BoardOptions::O { Status::Player1Won } else { Status::Player2Won };
    }
    if board[6] != BoardOptions::Null && board[6] == board[7] && board[6] == board[8] {
        return if board[6] == BoardOptions::O { Status::Player1Won } else { Status::Player2Won };
    }
    if board[0] != BoardOptions::Null && board[0] == board[3] && board[0] == board[6] {
        return if board[0] == BoardOptions::O { Status::Player1Won } else { Status::Player2Won };
    }
    if board[1] != BoardOptions::Null && board[1] == board[4] && board[1] == board[7] {
        return if board[1] == BoardOptions::O { Status::Player1Won } else { Status::Player2Won };
    }
    if board[2] != BoardOptions::Null && board[2] == board[5] && board[2] == board[8] {
        return if board[2] == BoardOptions::O { Status::Player1Won } else { Status::Player2Won };
    }
    if board[0] != BoardOptions::Null && board[0] == board[4] && board[0] == board[8] {
        return if board[0] == BoardOptions::O { Status::Player1Won } else { Status::Player2Won };
    }
    if board[2] != BoardOptions::Null && board[2] == board[4] && board[2] == board[6] {
        return if board[2] == BoardOptions::O { Status::Player1Won } else { Status::Player2Won };
    }
    let mut is_draw = true;
    let mut i: usize = 0;
    while i < 9
        invariant
            i <= 9,
            is_draw <==> (forall|j: int| 0 <= j < i ==> board@[j] != BoardOptions::Null),
        decreases 9 - i,
    {
        if board[i] == BoardOptions::Null {
            is_draw = false;
        }
        i = i + 1;
    }
    if is_draw {
        Status::Draw
    } else {
        Status::InGame
    }
}

} // verus!
