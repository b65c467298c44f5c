//! The per-session state machine: one paired game driven to a terminal
//! outcome.
//!
//! The surrounding process owns the two transports and the concurrent
//! receive; whenever either side's receive resolves it hands the session a
//! single [`SessionEvent`] and performs what the returned [`StepOutput`]
//! says: deliver the replies and report the credit to the account service.
//! Every decision — whose move counts, who is messaged, who is credited, and
//! when the session is over — is made here.

use vstd::prelude::*;

use crate::game::BoardOptions;
use crate::game::Move;
use crate::game::MoveResponse;
use crate::game::Player;
use crate::game::RespModel;
use crate::game::SerwerResponse;
use crate::game::Status;
use crate::game::apply_move_views;
use crate::game::board_full;
use crate::game::first_view_player1;
use crate::game::first_view_player2;
use crate::game::game_status;
use crate::game::has_line;
use crate::game::lemma_in_game_no_line;
use crate::game::lemma_move_status_consistent;
use crate::game::make_a_move;
use crate::game::move_allowed;

verus! {

/// Which of the two paired participants an event came from. The first-paired
/// participant plays `O`, the second `X`.
#[derive(Clone, Copy, Debug, PartialEq, Eq, Structural)]
pub enum Seat {
    First,
    Second,
}

/// The seat across the table.
pub open spec fn other_seat(seat: Seat) -> Seat {
    match seat {
        Seat::First => Seat::Second,
        Seat::Second => Seat::First,
    }
}

/// One inbound occurrence on either participant's transport: a well-formed
/// move request, a payload that failed to parse as a move, or the transport
/// closing or failing.
#[derive(Clone, Copy, Debug, PartialEq, Eq, Structural)]
pub enum SessionEvent {
    Moved(Seat, Move),
    Malformed(Seat),
    Disconnected(Seat),
}

/// An outcome report for the account service: credit one win and one loss.
#[derive(Clone, Copy, Debug, PartialEq, Eq, Structural)]
pub struct Credit {
    pub win_id: i32,
    pub lose_id: i32,
}

/// One paired game: both identities, both participants' views of the game,
/// and whether the session has reached its end.
pub struct Session {
    pub player1: Player,
    pub player2: Player,
    pub player1_response: SerwerResponse,
    pub player2_response: SerwerResponse,
    pub finished: bool,
}

/// Mathematical model of `Session`: the two account ids and the two views.
#[verifier::ext_equal]
pub struct SessionModel {
    pub player1_id: i32,
    pub player2_id: i32,
    pub player1_response: RespModel,
    pub player2_response: RespModel,
    pub finished: bool,
}

impl View for Session {
    type V = SessionModel;

    open spec fn view(&self) -> SessionModel {
        SessionModel {
            player1_id: self.player1.id,
            player2_id: self.player2.id,
            player1_response: self.player1_response@,
            player2_response: self.player2_response@,
            finished: self.finished,
        }
    }
}

/// Everything one step decides, at the model level: the session's next state,
/// the reply owed to each participant (if any), and the outcome report owed
/// to the account service (if any).
#[verifier::ext_equal]
pub struct StepView {
    pub state: SessionModel,
    pub reply_player1: Option<RespModel>,
    pub reply_player2: Option<RespModel>,
    pub credit: Option<Credit>,
}

/// What one event does to a session.
///
/// A finished session absorbs every event: nothing changes, nobody is
/// messaged, nothing is credited. Otherwise:
/// - a malformed payload from a seat turns only that seat's verdict to
///   `Refused` and replies to that seat alone;
/// - a well-formed move is applied by the move engine; the mover always gets
///   its verdict back, the opponent is messaged only when the move was
///   accepted, a terminal status finishes the session, and a decided game
///   credits the winner a win and the loser a loss (a draw credits nobody);
/// - a disconnect finishes the session at once, forces the opponent's status
///   to the forfeit value `Error`, messages only the opponent, and credits
///   the opponent the win and the disconnector the loss.
pub open spec fn step_view(s: SessionModel, e: SessionEvent) -> StepView {
    if s.finished {
        StepView { state: s, reply_player1: None, reply_player2: None, credit: None }
    } else {
        match e {
            SessionEvent::Malformed(seat) => {
                match seat {
                    Seat::First => {
                        let r2 = RespModel { response: MoveResponse::Refused, ..s.player1_response };
                        StepView {
                            state: SessionModel { player1_response: r2, ..s },
                            reply_player1: Some(r2),
                            reply_player2: None,
                            credit: None,
                        }
                    },
                    Seat::Second => {
                        let r2 = RespModel { response: MoveResponse::Refused, ..s.player2_response };
                        StepView {
                            state: SessionModel { player2_response: r2, ..s },
                            reply_player1: None,
                            reply_player2: Some(r2),
                            credit: None,
                        }
                    },
                }
            },
            SessionEvent::Moved(seat, m) => {
                match seat {
                    Seat::First => {
                        let (c2, w2) = apply_move_views(s.player1_response, s.player2_response, m.field as int);
                        let accepted = c2.response == MoveResponse::Accepted;
                        StepView {
                            state: SessionModel {
                                player1_response: c2,
                                player2_response: w2,
                                finished: c2.status != Status::InGame,
                                ..s
                            },
                            reply_player1: Some(c2),
                            reply_player2: if accepted { Some(w2) } else { None },
                            credit: move_credit(s, accepted, c2.status),
                        }
                    },
                    Seat::Second => {
                        let (c2, w2) = apply_move_views(s.player2_response, s.player1_response, m.field as int);
                        let accepted = c2.response == MoveResponse::Accepted;
                        StepView {
                            state: SessionModel {
                                player1_response: w2,
                                player2_response: c2,
                                finished: c2.status != Status::InGame,
                                ..s
                            },
                            reply_player1: if accepted { Some(w2) } else { None },
                            reply_player2: Some(c2),
                            credit: move_credit(s, accepted, c2.status),
                        }
                    },
                }
            },
            SessionEvent::Disconnected(seat) => {
                match seat {
                    Seat::First => {
                        let r2 = RespModel { status: Status::Error, ..s.player2_response };
                        StepView {
                            state: SessionModel { player2_response: r2, finished: true, ..s },
                            reply_player1: None,
                            reply_player2: Some(r2),
                            credit: Some(Credit { win_id: s.player2_id, lose_id: s.player1_id }),
                        }
                    },
                    Seat::Second => {
                        let r2 = RespModel { status: Status::Error, ..s.player1_response };
                        StepView {
                            state: SessionModel { player1_response: r2, finished: true, ..s },
                            reply_player1: Some(r2),
                            reply_player2: None,
                            credit: Some(Credit { win_id: s.player1_id, lose_id: s.player2_id }),
                        }
                    },
                }
            },
        }
    }
}

/// The outcome report an accepted move owes: a decided game credits the
/// winner's account a win and the loser's a loss; anything else credits
/// nobody.
pub open spec fn move_credit(s: SessionModel, accepted: bool, st: Status) -> Option<Credit> {
    if accepted && st == Status::Player1Won {
        Some(Credit { win_id: s.player1_id, lose_id: s.player2_id })
    } else if accepted && st == Status::Player2Won {
        Some(Credit { win_id: s.player2_id, lose_id: s.player1_id })
    } else {
        None
    }
}

/// The view held by the given seat.
pub open spec fn seat_view(s: SessionModel, seat: Seat) -> RespModel {
    match seat {
        Seat::First => s.player1_response,
        Seat::Second => s.player2_response,
    }
}

/// The marker the given seat plays: `O` for the first-paired participant,
/// `X` for the second.
pub open spec fn seat_symbol(seat: Seat) -> BoardOptions {
    match seat {
        Seat::First => BoardOptions::O,
        Seat::Second => BoardOptions::X,
    }
}

/// A well-formed session: both participants look at the identical game —
/// same nine-cell board, same turn; the first seat owns `O` and the second
/// `X`; each side's status, unless it is the forfeit value `Error`, is
/// exactly what the board dictates; the session is unfinished precisely
/// while both sides still see the game running; and while it runs, one of
/// the two markers holds the turn.
pub open spec fn session_wf(s: SessionModel) -> bool {
    &&& s.player1_response.game.board.len() == 9
    &&& s.player2_response.game == s.player1_response.game
    &&& s.player1_response.your_symbol == BoardOptions::O
    &&& s.player2_response.your_symbol == BoardOptions::X
    &&& (s.player1_response.status != Status::Error ==> s.player1_response.status
        == game_status(s.player1_response.game.board))
    &&& (s.player2_response.status != Status::Error ==> s.player2_response.status
        == game_status(s.player1_response.game.board))
    &&& (!s.finished <==> (s.player1_response.status == Status::InGame
        && s.player2_response.status == Status::InGame))
    &&& (!s.finished ==> (s.player1_response.game.current_move == BoardOptions::O
        || s.player1_response.game.current_move == BoardOptions::X))
}

/// A fresh session is well-formed.
pub proof fn lemma_new_session_wf(p1_id: i32, p2_id: i32)
    ensures
        session_wf(
            SessionModel {
                player1_id: p1_id,
                player2_id: p2_id,
                player1_response: first_view_player1(),
                player2_response: first_view_player2(),
                finished: false,
            },
        ),
{
}

/// Well-formedness is an invariant: one step of a well-formed session leaves
/// it well-formed. So along any run both participants keep identical boards
/// and statuses, and the shared status is at every moment the one the board
/// dictates (or the forfeit value).
pub proof fn lemma_step_preserves_wf(s: SessionModel, e: SessionEvent)
    requires
        session_wf(s),
    ensures
        session_wf(step_view(s, e).state),
{
}

/// Along any sequence of events, a session that starts well-formed is
/// well-formed after every step — so after each move exactly one shared
/// status holds, the one the board dictates.
pub proof fn lemma_run_preserves_wf(s: SessionModel, es: Seq<SessionEvent>)
    requires
        session_wf(s),
    ensures
        session_wf(run_state(s, es)),
    decreases es.len(),
{
    if es.len() > 0 {
        lemma_step_preserves_wf(s, es[0]);
        lemma_run_preserves_wf(step_view(s, es[0]).state, es.drop_first());
    }
}

/// After an accepted move from a well-formed running session, both replies
/// and both stored views carry the same board, and the one shared status is
/// exactly what the eight winning lines and the full-board draw rule dictate
/// for it: a line for the mover's marker decides the game for the mover, a
/// full board without one is a draw, and otherwise play goes on.
pub proof fn lemma_accepted_move_consistent(s: SessionModel, seat: Seat, m: Move)
    requires
        session_wf(s),
        !s.finished,
        move_allowed(seat_view(s, seat), m.field as int),
    ensures
        ({
            let sv = step_view(s, SessionEvent::Moved(seat, m));
            let sym = seat_symbol(seat);
            let b2 = sv.state.player1_response.game.board;
            &&& sv.state.player2_response.game.board == b2
            &&& sv.reply_player1 == Some(sv.state.player1_response)
            &&& sv.reply_player2 == Some(sv.state.player2_response)
            &&& sv.state.player1_response.status == sv.state.player2_response.status
            &&& sv.state.player1_response.status == (if has_line(b2, sym) {
                if seat == Seat::First {
                    Status::Player1Won
                } else {
                    Status::Player2Won
                }
            } else if board_full(b2) {
                Status::Draw
            } else {
                Status::InGame
            })
        }),
{
    let b = seat_view(s, seat).game.board;
    lemma_in_game_no_line(b);
    lemma_move_status_consistent(b, seat_symbol(seat), m.field as int);
}

/// A rejected input never reaches the opponent: an illegal move — occupied
/// cell, wrong turn, index off the board — or a malformed payload from a
/// seat of a running session changes neither board, is answered `Refused`
/// to that seat alone, sends the opponent nothing, credits nobody, and
/// leaves the session running. (A move sent after the game has ended is
/// refused by the engine without touching the board — see `make_a_move` —
/// and a finished session answers nobody at all.)
pub proof fn lemma_rejected_input_isolated(s: SessionModel, seat: Seat, e: SessionEvent)
    requires
        session_wf(s),
        !s.finished,
        (e matches SessionEvent::Malformed(t) && t == seat) || (e matches SessionEvent::Moved(
            t,
            m,
        ) && t == seat && !move_allowed(seat_view(s, seat), m.field as int)),
    ensures
        ({
            let sv = step_view(s, e);
            &&& sv.state.player1_response.game == s.player1_response.game
            &&& sv.state.player2_response.game == s.player2_response.game
            &&& seat_view(sv.state, seat).response == MoveResponse::Refused
            &&& (seat == Seat::First ==> sv.reply_player2 is None && sv.reply_player1 == Some(
                sv.state.player1_response,
            ))
            &&& (seat == Seat::Second ==> sv.reply_player1 is None && sv.reply_player2 == Some(
                sv.state.player2_response,
            ))
            &&& sv.credit is None
            &&& !sv.state.finished
        }),
{
}

/// The state a session reaches after a whole sequence of events.
pub open spec fn run_state(s: SessionModel, es: Seq<SessionEvent>) -> SessionModel
    decreases es.len(),
{
    if es.len() == 0 {
        s
    } else {
        run_state(step_view(s, es[0]).state, es.drop_first())
    }
}

/// How many steps of a run report an outcome to the account service.
pub open spec fn run_credit_count(s: SessionModel, es: Seq<SessionEvent>) -> nat
    decreases es.len(),
{
    if es.len() == 0 {
        0
    } else {
        (if step_view(s, es[0]).credit is Some {
            1nat
        } else {
            0nat
        }) + run_credit_count(step_view(s, es[0]).state, es.drop_first())
    }
}

/// A finished session absorbs every further event: the state stays, nobody
/// is messaged, nothing is credited.
pub proof fn lemma_finished_absorbs(s: SessionModel, e: SessionEvent)
    requires
        s.finished,
    ensures
        step_view(s, e).state == s,
        step_view(s, e).reply_player1 is None,
        step_view(s, e).reply_player2 is None,
        step_view(s, e).credit is None,
{
}

/// Whenever a step credits an outcome, that very step also finishes the
/// session.
pub proof fn lemma_credit_finishes(s: SessionModel, e: SessionEvent)
    ensures
        step_view(s, e).credit is Some ==> step_view(s, e).state.finished,
{
}

/// Over any sequence of events whatsoever, a session reports an outcome at
/// most once — and never at all once it is already finished.
pub proof fn lemma_credit_at_most_once(s: SessionModel, es: Seq<SessionEvent>)
    ensures
        run_credit_count(s, es) <= (if s.finished {
            0nat
        } else {
            1nat
        }),
    decreases es.len(),
{
    if es.len() > 0 {
        let s2 = step_view(s, es[0]).state;
        lemma_credit_finishes(s, es[0]);
        if s.finished {
            lemma_finished_absorbs(s, es[0]);
        }
        lemma_credit_at_most_once(s2, es.drop_first());
    }
}

/// Once finished, always finished: a finished session is left exactly as it
/// is by any sequence of further events.
pub proof fn lemma_finished_stays(s: SessionModel, es: Seq<SessionEvent>)
    requires
        s.finished,
    ensures
        run_state(s, es) == s,
    decreases es.len(),
{
    if es.len() > 0 {
        lemma_finished_absorbs(s, es[0]);
        lemma_finished_stays(step_view(s, es[0]).state, es.drop_first());
    }
}

/// If a run reaches a disconnect while the session is still running, the
/// whole run reports exactly one outcome — the forfeit of that disconnect,
/// and nothing before or after it.
pub proof fn lemma_disconnect_credits_exactly_once(s: SessionModel, es: Seq<SessionEvent>, k: int)
    requires
        0 <= k < es.len(),
        !run_state(s, es.take(k)).finished,
        es[k] is Disconnected,
    ensures
        run_credit_count(s, es) == 1,
    decreases k,
{
    if s.finished {
        lemma_finished_stays(s, es.take(k));
    }
    if k == 0 {
        let sv = step_view(s, es[0]);
        lemma_credit_at_most_once(sv.state, es.drop_first());
    } else {
        let s2 = step_view(s, es[0]).state;
        assert(es.take(k).drop_first() =~= es.drop_first().take(k - 1));
        if step_view(s, es[0]).credit is Some {
            lemma_credit_finishes(s, es[0]);
            lemma_finished_stays(s2, es.drop_first().take(k - 1));
        }
        lemma_disconnect_credits_exactly_once(s2, es.drop_first(), k - 1);
    }
}

/// A disconnect while the session is running credits, in that very step,
/// exactly one win to the opponent's account and one loss to the
/// disconnector's, messages only the opponent, and finishes the session —
/// after which no step ever credits anybody again. Whichever seat's receive
/// fires first plays no role beyond naming the disconnector.
pub proof fn lemma_forfeit_credit(s: SessionModel, seat: Seat)
    requires
        !s.finished,
    ensures
        ({
            let sv = step_view(s, SessionEvent::Disconnected(seat));
            &&& sv.credit == Some(
                Credit {
                    win_id: if seat == Seat::First {
                        s.player2_id
                    } else {
                        s.player1_id
                    },
                    lose_id: if seat == Seat::First {
                        s.player1_id
                    } else {
                        s.player2_id
                    },
                },
            )
            &&& sv.state.finished
            &&& seat_view(sv.state, other_seat(seat)).status == Status::Error
            &&& (seat == Seat::First ==> sv.reply_player1 is None && sv.reply_player2 is Some)
            &&& (seat == Seat::Second ==> sv.reply_player2 is None && sv.reply_player1 is Some)
        }),
{
}

/// What one step asks the surrounding process to do: deliver each present
/// reply to its participant, and report the credit to the account service.
pub struct StepOutput {
    pub reply_player1: Option<SerwerResponse>,
    pub reply_player2: Option<SerwerResponse>,
    pub credit: Option<Credit>,
}

impl Session {
    /// Starts the session a completed pairing owes: the first-paired
    /// participant plays `O` and moves first, the second plays `X`, the board
    /// is empty, and both greeting views are installed.
    pub fn new(player1: Player, player2: Player) -> (s: Session)
        ensures
            s@ =~~= (SessionModel {
                player1_id: player1.id,
                player2_id: player2.id,
                player1_response: first_view_player1(),
                player2_response: first_view_player2(),
                finished: false,
            }),
    {
        Session {
            player1,
            player2,
            player1_response: SerwerResponse::first_response_player1(),
            player2_response: SerwerResponse::first_response_player2(),
            finished: false,
        }
    }

    /// Processes one inbound event, exactly as [`step_view`] says: the
    /// session moves to `step_view(..).state`, and the returned output holds
    /// precisely the replies and the credit of `step_view(..)`.
    pub fn step(&mut self, event: SessionEvent) -> (out: StepOutput)
        ensures
            ({
                let sv = step_view(old(self)@, event);
                &&& final(self)@ =~~= sv.state
                &&& out.credit == sv.credit
                &&& (match (out.reply_player1, sv.reply_player1) {
                    (Option::None, Option::None) => true,
                    (Option::Some(r), Option::Some(v)) => r@ =~~= v,
                    _ => false,
                })
                &&& (match (out.reply_player2, sv.reply_player2) {
                    (Option::None, Option::None) => true,
                    (Option::Some(r), Option::Some(v)) => r@ =~~= v,
                    _ => false,
                })
            }),
    {
        if self.finished {
            return StepOutput { reply_player1: None, reply_player2: None, credit: None };
        }
        match event {
            SessionEvent::Malformed(seat) => {
                match seat {
                    Seat::First => {
                        self.player1_response.response = MoveResponse::Refused;
                        StepOutput {
                            reply_player1: Some(self.player1_response),
                            reply_player2: None,
                            credit: None,
                        }
                    },
                    Seat::Second => {
                        self.player2_response.response = MoveResponse::Refused;
                        StepOutput {
                            reply_player1: None,
                            reply_player2: Some(self.player2_response),
                            credit: None,
                        }
                    },
                }
            },
            SessionEvent::Moved(seat, m) => {
                match seat {
                    Seat::First => {
                        make_a_move(m, &mut self.player1_response, &mut self.player2_response);
                        let accepted = self.player1_response.response == MoveResponse::Accepted;
                        self.finished = self.player1_response.status != Status::InGame;
                        let credit = if accepted && self.player1_response.status == Status::Player1Won {
                            Some(Credit { win_id: self.player1.id, lose_id: self.player2.id })
                        } else if accepted && self.player1_response.status == Status::Player2Won {
                            Some(Credit { win_id: self.player2.id, lose_id: self.player1.id })
                        } else {
                            None
                        };
                        StepOutput {
                            reply_player1: Some(self.player1_response),
                            reply_player2: if accepted {
                                Some(self.player2_response)
                            } else {
                                None
                            },
                            credit,
                        }
                    },
                    Seat::Second => {
                        make_a_move(m, &mut self.player2_response, &mut self.player1_response);
                        let accepted = self.player2_response.response == MoveResponse::Accepted;
                        self.finished = self.player2_response.status != Status::InGame;
                        let credit = if accepted && self.player2_response.status == Status::Player1Won {
                            Some(Credit { win_id: self.player1.id, lose_id: self.player2.id })
                        } else if accepted && self.player2_response.status == Status::Player2Won {
                            Some(Credit { win_id: self.player2.id, lose_id: self.player1.id })
                        } else {
                            None
                        };
                        StepOutput {
                            reply_player1: if accepted {
                                Some(self.player1_response)
                            } else {
                                None
                            },
                            reply_player2: Some(self.player2_response),
                            credit,
                        }
                    },
                }
            },
            SessionEvent::Disconnected(seat) => {
                match seat {
                    Seat::First => {
                        self.player2_response.status = Status::Error;
                        self.finished = true;
                        StepOutput {
                            reply_player1: None,
                            reply_player2: Some(self.player2_response),
                            credit: Some(Credit { win_id: self.player2.id, lose_id: self.player1.id }),
                        }
                    },
                    Seat::Second => {
                        self.player1_response.status = Status::Error;
                        self.finished = true;
                        StepOutput {
                            reply_player1: Some(self.player1_response),
                            reply_player2: None,
                            credit: Some(Credit { win_id: self.player1.id, lose_id: self.player2.id }),
                        }
                    },
                }
            },
        }
    }
}

} // verus!
