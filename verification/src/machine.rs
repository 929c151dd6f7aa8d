//! The mathematical model of the session orchestrator.
//!
//! [`step`] is the authoritative description of how one inbound request
//! transforms the orchestrator state and what outcome it produces.  The
//! executable orchestrator is proved to agree with it exactly, and the
//! library's stated properties are proved about it.

use vstd::prelude::*;

use crate::session_io::{
    GameResult, GameStatusModel, GuessModel, SessionActionModel, SessionEventModel, SessionModel,
    SessionStatusModel,
};
use crate::wordle::{ActionModel, EventModel};
use crate::{INIT_ATTEMPTS, INIT_BLOCKS, INIT_SECONDS, WORD_LEN};

verus! {

/// Why processing an inbound request aborted.  An abort is fatal for
/// that call alone: the orchestrator state is left untouched, and the
/// surrounding runtime surfaces the failure to the sender.
#[derive(Clone, Copy, PartialEq, Eq, Structural, Debug)]
pub enum SessionError {
    /// `CheckWord` or a scoring reply named a user with no game record.
    UserNotFound,
    /// A scoring reply arrived for a user whose guess history is empty.
    EmptyHistory,
}

/// The whole orchestrator state: the continuation record and the
/// per-user game records.
#[verifier::ext_equal]
pub struct StateModel {
    pub session: SessionModel,
    pub games: Map<u64, GameStatusModel>,
}

/// What the runtime glue must do after a completed transition: forward
/// one message downstream and suspend the caller, or reply to the
/// caller at once, possibly also scheduling the one delayed self-check
/// that resolves an abandoned game.
#[verifier::ext_equal]
pub enum OutcomeModel {
    SendDownstream { target: u64, message: ActionModel },
    Reply { event: SessionEventModel },
    ReplyAndSchedule { event: SessionEventModel, check_user: u64, delay_blocks: u32 },
}

/// The state right after initialization: no outstanding call, no games.
pub open spec fn initial_state(target_program_id: u64) -> StateModel {
    StateModel {
        session: SessionModel {
            target_program_id,
            msg_ids: (0, 0),
            session_status: SessionStatusModel::Waiting,
        },
        games: Map::empty(),
    }
}

/// A fresh game record as created when a game starts at time `now`.
pub open spec fn fresh_status(now: u64) -> GameStatusModel {
    GameStatusModel {
        start_timestamp: now,
        left_seconds: INIT_SECONDS,
        left_attempts: INIT_ATTEMPTS,
        history: Seq::empty(),
        game_result: None,
    }
}

/// Seconds of play left at time `now` for a game that started at
/// `g.start_timestamp`: the time budget minus the elapsed seconds,
/// clamped at zero.
pub open spec fn left_seconds_at(g: GameStatusModel, now: u64) -> u64 {
    let elapsed: int = if now >= g.start_timestamp {
        now - g.start_timestamp
    } else {
        0
    };
    if elapsed > INIT_SECONDS {
        0u64
    } else {
        (INIT_SECONDS - elapsed) as u64
    }
}

/// The error text replying to a guess made after time or attempts ran out.
pub open spec fn expired_error_text() -> Seq<char> {
    "The left seconds or attemps is over"@
}

/// The error text replying to a request made while a call is outstanding.
pub open spec fn busy_error_text() -> Seq<char> {
    "Message has already sent, and you could restart the game"@
}

/// One transition from the `Waiting` status.
pub open spec fn step_waiting(s: StateModel, action: SessionActionModel, now: u64) -> (
    StateModel,
    Result<OutcomeModel, SessionError>,
) {
    match action {
        SessionActionModel::StartGame { user } => (
            s,
            Ok(
                OutcomeModel::SendDownstream {
                    target: s.session.target_program_id,
                    message: ActionModel::StartGame { user },
                },
            ),
        ),
        SessionActionModel::CheckWord { user, word } => {
            if !s.games.contains_key(user) {
                (s, Err(SessionError::UserNotFound))
            } else {
                let g = s.games[user];
                if g.game_result is Some {
                    (s, Ok(OutcomeModel::Reply { event: SessionEventModel::GameStatus(g) }))
                } else {
                    let left = left_seconds_at(g, now);
                    if left > 0 && g.left_attempts > 0 {
                        let g2 = GameStatusModel {
                            left_seconds: left,
                            left_attempts: (g.left_attempts - 1) as u32,
                            history: g.history.push(
                                GuessModel {
                                    word,
                                    correct_positions: None,
                                    contained_in_word: None,
                                },
                            ),
                            ..g
                        };
                        (
                            StateModel { games: s.games.insert(user, g2), ..s },
                            Ok(
                                OutcomeModel::SendDownstream {
                                    target: s.session.target_program_id,
                                    message: ActionModel::CheckWord { user, word },
                                },
                            ),
                        )
                    } else {
                        let g2 = GameStatusModel {
                            left_seconds: if left == 0 {
                                0u64
                            } else {
                                g.left_seconds
                            },
                            game_result: Some(GameResult::Lose),
                            ..g
                        };
                        (
                            StateModel { games: s.games.insert(user, g2), ..s },
                            Ok(
                                OutcomeModel::Reply {
                                    event: SessionEventModel::GameError(expired_error_text()),
                                },
                            ),
                        )
                    }
                }
            }
        },
        SessionActionModel::CheckGameStatus { user } => {
            if !s.games.contains_key(user) {
                (s, Err(SessionError::UserNotFound))
            } else {
                let g = s.games[user];
                let g2 = if g.game_result is Some {
                    g
                } else {
                    let left = left_seconds_at(g, now);
                    if left > 0 {
                        GameStatusModel { left_seconds: left, ..g }
                    } else {
                        GameStatusModel {
                            left_seconds: 0,
                            game_result: Some(GameResult::Lose),
                            ..g
                        }
                    }
                };
                (
                    StateModel { games: s.games.insert(user, g2), ..s },
                    Ok(OutcomeModel::Reply { event: SessionEventModel::GameStatus(g2) }),
                )
            }
        },
    }
}

/// One transition from the `MessageSent` status: a fresh start always
/// wins the single continuation slot; anything else is turned away.
pub open spec fn step_message_sent(s: StateModel, action: SessionActionModel) -> (
    StateModel,
    Result<OutcomeModel, SessionError>,
) {
    match action {
        SessionActionModel::StartGame { user } => (
            s,
            Ok(
                OutcomeModel::SendDownstream {
                    target: s.session.target_program_id,
                    message: ActionModel::StartGame { user },
                },
            ),
        ),
        _ => (
            s,
            Ok(OutcomeModel::Reply { event: SessionEventModel::GameError(busy_error_text()) }),
        ),
    }
}

/// `s` with the continuation slot released back to `Waiting`.
pub open spec fn back_to_waiting(s: StateModel) -> SessionModel {
    SessionModel { session_status: SessionStatusModel::Waiting, ..s.session }
}

/// `g` with the scoring vectors of a downstream reply filled into its
/// most recent guess record.  Meaningful only for a non-empty history.
pub open spec fn scored_record(
    g: GameStatusModel,
    correct_positions: Seq<u8>,
    contained_in_word: Seq<u8>,
) -> GameStatusModel {
    GameStatusModel {
        history: g.history.update(
            g.history.len() - 1,
            GuessModel {
                correct_positions: Some(correct_positions),
                contained_in_word: Some(contained_in_word),
                ..g.history.last()
            },
        ),
        ..g
    }
}

/// One transition resuming a suspended caller with the downstream reply
/// `event`.  The inbound request that woke the orchestrator is ignored;
/// the carried event alone decides.
pub open spec fn step_resume(s: StateModel, event: EventModel, now: u64) -> (
    StateModel,
    Result<OutcomeModel, SessionError>,
) {
    match event {
        EventModel::GameStarted { user } => (
            StateModel { session: back_to_waiting(s), games: s.games.insert(user, fresh_status(now)) },
            Ok(
                OutcomeModel::ReplyAndSchedule {
                    event: SessionEventModel::GameStarted { user },
                    check_user: user,
                    delay_blocks: INIT_BLOCKS as u32,
                },
            ),
        ),
        EventModel::WordChecked { user, correct_positions, contained_in_word } => {
            if !s.games.contains_key(user) {
                (s, Err(SessionError::UserNotFound))
            } else {
                let g = s.games[user];
                if g.history.len() == 0 {
                    (s, Err(SessionError::EmptyHistory))
                } else {
                    let left = left_seconds_at(g, now);
                    let won = correct_positions.len() == WORD_LEN;
                    let decided = won || left == 0 || g.left_attempts == 0;
                    let game_result = if won {
                        Some(GameResult::Win)
                    } else if decided {
                        Some(GameResult::Lose)
                    } else {
                        g.game_result
                    };
                    let g2 = GameStatusModel {
                        left_seconds: left,
                        game_result,
                        ..scored_record(g, correct_positions, contained_in_word)
                    };
                    let event = if decided {
                        SessionEventModel::GameStatus(g2)
                    } else {
                        SessionEventModel::WordChecked {
                            user,
                            correct_positions,
                            contained_in_word,
                        }
                    };
                    (
                        StateModel { session: back_to_waiting(s), games: s.games.insert(user, g2) },
                        Ok(OutcomeModel::Reply { event }),
                    )
                }
            }
        },
    }
}

/// One full transition of the orchestrator on an inbound request.
pub open spec fn step(s: StateModel, action: SessionActionModel, now: u64) -> (
    StateModel,
    Result<OutcomeModel, SessionError>,
) {
    match s.session.session_status {
        SessionStatusModel::Waiting => step_waiting(s, action, now),
        SessionStatusModel::MessageSent => step_message_sent(s, action),
        SessionStatusModel::MessageReceive(event) => step_resume(s, event, now),
    }
}

/// `s` after the runtime reports that the decided-on downstream message
/// was sent as `sent_msg_id`, on behalf of inbound message
/// `original_msg_id`: the correlation pair is recorded and the caller
/// is suspended.
pub open spec fn sent_state(s: StateModel, sent_msg_id: u64, original_msg_id: u64) -> StateModel {
    StateModel {
        session: SessionModel {
            msg_ids: (sent_msg_id, original_msg_id),
            session_status: SessionStatusModel::MessageSent,
            ..s.session
        },
        ..s
    }
}

/// `s` after a downstream reply correlated to `reply_to` arrives: a
/// reply matching the recorded sent-id carries its event to the
/// suspended caller; any other reply is ignored.
pub open spec fn reply_state(s: StateModel, reply_to: u64, event: EventModel) -> StateModel {
    if reply_to == s.session.msg_ids.0 {
        StateModel {
            session: SessionModel {
                session_status: SessionStatusModel::MessageReceive(event),
                ..s.session
            },
            ..s
        }
    } else {
        s
    }
}

/// Which suspended inbound message a downstream reply wakes, if any.
pub open spec fn reply_wake(s: StateModel, reply_to: u64) -> Option<u64> {
    if reply_to == s.session.msg_ids.0 {
        Some(s.session.msg_ids.1)
    } else {
        None
    }
}

} // verus!
