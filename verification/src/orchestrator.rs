//! The executable session orchestrator.
//!
//! Each inbound request is processed to completion, or to the single
//! suspension point: "send one request downstream and park the caller".
//! The orchestrator itself never performs message I/O; it decides, and
//! the embedding runtime glue performs the decided-on sends, replies,
//! waits and wakes, reporting their identifiers back through
//! [`Orchestrator::note_sent`] and [`Orchestrator::handle_reply`].

use vstd::prelude::*;

use crate::machine::{
    initial_state, left_seconds_at, reply_state, reply_wake, sent_state, step, step_message_sent,
    step_resume, step_waiting, OutcomeModel, SessionError, StateModel,
};
use crate::session_io::{
    GameResult, GameStatus, Session, SessionAction, SessionEvent, SessionStatus, WordGuessResult,
};
use crate::store::GameStatusStore;
use crate::wordle::{Action, Event};
use crate::{INIT_ATTEMPTS, INIT_BLOCKS, INIT_SECONDS, WORD_LEN};

verus! {

/// What the runtime glue must do after a completed transition.
#[derive(Debug, Clone, PartialEq)]
pub enum HandleResult {
    /// Forward `message` to the downstream service at `target`, report
    /// the assigned message id through [`Orchestrator::note_sent`], and
    /// suspend the caller.
    SendDownstream { target: u64, message: Action },
    /// Reply to the caller at once with `event`.
    Reply { event: SessionEvent },
    /// Reply to the caller at once with `event`, and schedule one
    /// delayed self-addressed `CheckGameStatus` for `check_user`, to
    /// fire after `delay_blocks` logical blocks.
    ReplyAndSchedule { event: SessionEvent, check_user: u64, delay_blocks: u32 },
}

impl View for HandleResult {
    type V = OutcomeModel;

    open spec fn view(&self) -> OutcomeModel {
        match self {
            HandleResult::SendDownstream { target, message } => OutcomeModel::SendDownstream {
                target: *target,
                message: message@,
            },
            HandleResult::Reply { event } => OutcomeModel::Reply { event: event@ },
            HandleResult::ReplyAndSchedule { event, check_user, delay_blocks } => {
                OutcomeModel::ReplyAndSchedule {
                    event: event@,
                    check_user: *check_user,
                    delay_blocks: *delay_blocks,
                }
            },
        }
    }
}

/// Whether an executable transition result denotes the outcome the
/// model prescribes.
pub open spec fn result_models(
    r: Result<HandleResult, SessionError>,
    o: Result<OutcomeModel, SessionError>,
) -> bool {
    match (r, o) {
        (Ok(h), Ok(m)) => h@ == m,
        (Err(e), Err(m)) => e == m,
        _ => false,
    }
}

/// The orchestrator-owned state: the process-wide continuation record
/// and the per-user game records.
pub struct Orchestrator {
    pub session: Session,
    pub games: GameStatusStore,
}

impl View for Orchestrator {
    type V = StateModel;

    open spec fn view(&self) -> StateModel {
        StateModel { session: self.session@, games: self.games@ }
    }
}

/// Seconds of play left for `game_status` at time `now`.
pub fn get_left_seconds(game_status: &GameStatus, now: u64) -> (r: u64)
    ensures
        r == left_seconds_at(game_status@, now),
{
    let elapsed: u64 = if now >= game_status.start_timestamp {
        now - game_status.start_timestamp
    } else {
        0
    };
    if elapsed > INIT_SECONDS {
        0
    } else {
        INIT_SECONDS - elapsed
    }
}

impl Orchestrator {
    /// Creates the orchestrator, aimed at the downstream game-logic
    /// service at `target_program_id`.
    pub fn init(target_program_id: u64) -> (r: Orchestrator)
        ensures
            r@ == initial_state(target_program_id),
    {
        let r = Orchestrator {
            session: Session {
                target_program_id,
                msg_ids: (0, 0),
                session_status: SessionStatus::Waiting,
            },
            games: GameStatusStore::new(),
        };
        proof {
            assert(r@ =~= initial_state(target_program_id));
        }
        r
    }

    /// Records the correlation pair of the downstream message the
    /// runtime just sent, and marks the caller suspended.
    pub fn note_sent(&mut self, sent_msg_id: u64, original_msg_id: u64)
        ensures
            final(self)@ == sent_state(old(self)@, sent_msg_id, original_msg_id),
    {
        self.session.msg_ids = (sent_msg_id, original_msg_id);
        self.session.session_status = SessionStatus::MessageSent;
        proof {
            assert(self@ =~= sent_state(old(self)@, sent_msg_id, original_msg_id));
        }
    }

    /// Accepts a downstream reply correlated to sent message
    /// `reply_to`.  A reply matching the recorded sent-id stores its
    /// event for the suspended caller and returns that caller's
    /// inbound message id, to be woken; any other reply is ignored.
    pub fn handle_reply(&mut self, reply_to: u64, event: Event) -> (wake: Option<u64>)
        ensures
            final(self)@ == reply_state(old(self)@, reply_to, event@),
            wake == reply_wake(old(self)@, reply_to),
    {
        if reply_to == self.session.msg_ids.0 {
            self.session.session_status = SessionStatus::MessageReceive(event);
            proof {
                assert(self@ =~= reply_state(old(self)@, reply_to, event@));
            }
            Some(self.session.msg_ids.1)
        } else {
            None
        }
    }

    /// Processes an inbound request while no downstream call is
    /// outstanding.
    fn on_waiting(&mut self, action: SessionAction, now: u64) -> (r: Result<
        HandleResult,
        SessionError,
    >)
        requires
            old(self)@.session.session_status is Waiting,
        ensures
            final(self)@ == step_waiting(old(self)@, action@, now).0,
            result_models(r, step_waiting(old(self)@, action@, now).1),
    {
        match action {
            SessionAction::StartGame { user } => Ok(
                HandleResult::SendDownstream {
                    target: self.session.target_program_id,
                    message: Action::StartGame { user },
                },
            ),
            SessionAction::CheckWord { user, word } => {
                let mut g = match self.games.take(user) {
                    None => {
                        return Err(SessionError::UserNotFound);
                    },
                    Some(g) => g,
                };
                match g.game_result {
                    Some(_) => {
                        // The outcome is already decided: reply with the
                        // final status, leaving the record as it was.
                        let snap = g.duplicate();
                        self.games.insert_or_replace(user, g);
                        proof {
                            assert(self.games@ =~= old(self).games@);
                        }
                        Ok(HandleResult::Reply { event: SessionEvent::GameStatus(snap) })
                    },
                    None => {
                        let left = get_left_seconds(&g, now);
                        if left > 0 && g.left_attempts > 0 {
                            let word_kept = word.clone();
                            g.left_seconds = left;
                            g.left_attempts = g.left_attempts - 1;
                            g.history.push(
                                WordGuessResult {
                                    word: word_kept,
                                    correct_positions: None,
                                    contained_in_word: None,
                                },
                            );
                            let ghost g2 = g@;
                            self.games.insert_or_replace(user, g);
                            proof {
                                let (s2, _) = step_waiting(old(self)@, action@, now);
                                assert(g2 =~= s2.games[user]);
                                assert(self.games@ =~= s2.games);
                            }
                            Ok(
                                HandleResult::SendDownstream {
                                    target: self.session.target_program_id,
                                    message: Action::CheckWord { user, word },
                                },
                            )
                        } else {
                            g.game_result = Some(GameResult::Lose);
                            if left == 0 {
                                g.left_seconds = 0;
                            }
                            self.games.insert_or_replace(user, g);
                            proof {
                                let (s2, _) = step_waiting(old(self)@, action@, now);
                                assert(self.games@ =~= s2.games);
                            }
                            Ok(
                                HandleResult::Reply {
                                    event: SessionEvent::GameError(
                                        "The left seconds or attemps is over".to_owned(),
                                    ),
                                },
                            )
                        }
                    },
                }
            },
            SessionAction::CheckGameStatus { user } => {
                let mut g = match self.games.take(user) {
                    None => {
                        return Err(SessionError::UserNotFound);
                    },
                    Some(g) => g,
                };
                match g.game_result {
                    Some(_) => {},
                    None => {
                        let left = get_left_seconds(&g, now);
                        if left > 0 {
                            g.left_seconds = left;
                        } else {
                            g.left_seconds = 0;
                            g.game_result = Some(GameResult::Lose);
                        }
                    },
                }
                let snap = g.duplicate();
                self.games.insert_or_replace(user, g);
                proof {
                    let (s2, _) = step_waiting(old(self)@, action@, now);
                    assert(self.games@ =~= s2.games);
                }
                Ok(HandleResult::Reply { event: SessionEvent::GameStatus(snap) })
            },
        }
    }

    /// Processes an inbound request while a downstream call is already
    /// outstanding: a fresh `StartGame` wins the single continuation
    /// slot and is forwarded anew; anything else is turned away.
    fn on_message_sent(&mut self, action: SessionAction) -> (r: Result<HandleResult, SessionError>)
        requires
            old(self)@.session.session_status is MessageSent,
        ensures
            final(self)@ == step_message_sent(old(self)@, action@).0,
            result_models(r, step_message_sent(old(self)@, action@).1),
    {
        match action {
            SessionAction::StartGame { user } => Ok(
                HandleResult::SendDownstream {
                    target: self.session.target_program_id,
                    message: Action::StartGame { user },
                },
            ),
            _ => Ok(
                HandleResult::Reply {
                    event: SessionEvent::GameError(
                        "Message has already sent, and you could restart the game".to_owned(),
                    ),
                },
            ),
        }
    }

    /// Resumes the suspended caller with the downstream reply `event`,
    /// applies the carried result to the user's game record, and
    /// releases the continuation slot.
    fn on_reply_event(&mut self, event: Event, now: u64) -> (r: Result<
        HandleResult,
        SessionError,
    >)
        requires
            old(self)@.session.session_status is MessageReceive,
            old(self)@.session.session_status->0 == event@,
        ensures
            final(self)@ == step_resume(old(self)@, event@, now).0,
            result_models(r, step_resume(old(self)@, event@, now).1),
    {
        match event {
            Event::GameStarted { user } => {
                let status = GameStatus {
                    start_timestamp: now,
                    left_seconds: INIT_SECONDS,
                    left_attempts: INIT_ATTEMPTS,
                    history: Vec::new(),
                    game_result: None,
                };
                self.games.insert_or_replace(user, status);
                self.session.session_status = SessionStatus::Waiting;
                proof {
                    let (s2, _) = step_resume(old(self)@, event@, now);
                    assert(self.games@ =~~= s2.games);
                }
                Ok(
                    HandleResult::ReplyAndSchedule {
                        event: SessionEvent::GameStarted { user },
                        check_user: user,
                        delay_blocks: INIT_BLOCKS as u32,
                    },
                )
            },
            Event::WordChecked { user, correct_positions, contained_in_word } => {
                match self.games.update_latest_guess(user, &correct_positions, &contained_in_word) {
                    Err(e) => {
                        return Err(e);
                    },
                    Ok(_) => {},
                }
                let mut g = match self.games.take(user) {
                    None => {
                        // The scoring update above just found this record.
                        proof {
                            assert(false);
                        }
                        return Err(SessionError::UserNotFound);
                    },
                    Some(g) => g,
                };
                let attempts_before = g.left_attempts;
                let left = get_left_seconds(&g, now);
                g.left_seconds = left;
                let won = correct_positions.len() == WORD_LEN as usize;
                let reply_event: SessionEvent;
                if won {
                    g.game_result = Some(GameResult::Win);
                    reply_event = SessionEvent::GameStatus(g.duplicate());
                } else if left == 0 || attempts_before == 0 {
                    g.game_result = Some(GameResult::Lose);
                    reply_event = SessionEvent::GameStatus(g.duplicate());
                } else {
                    reply_event = SessionEvent::WordChecked {
                        user,
                        correct_positions,
                        contained_in_word,
                    };
                }
                let ghost g2 = g@;
                self.games.insert_or_replace(user, g);
                self.session.session_status = SessionStatus::Waiting;
                proof {
                    let (s2, _) = step_resume(old(self)@, event@, now);
                    assert(g2 =~= s2.games[user]);
                    assert(self.games@ =~= s2.games);
                }
                Ok(HandleResult::Reply { event: reply_event })
            },
        }
    }

    /// Processes one inbound request at logical time `now` (in
    /// seconds), exactly as [`step`] prescribes.  On `Err` the
    /// orchestrator state is unchanged; the caller is expected to treat
    /// the error as fatal for that call alone.
    pub fn handle_action(&mut self, action: SessionAction, now: u64) -> (r: Result<
        HandleResult,
        SessionError,
    >)
        ensures
            final(self)@ == step(old(self)@, action@, now).0,
            result_models(r, step(old(self)@, action@, now).1),
    {
        let received: Option<Event> = match &self.session.session_status {
            SessionStatus::MessageReceive(e) => Some(e.duplicate()),
            SessionStatus::Waiting => None,
            SessionStatus::MessageSent => None,
        };
        match received {
            Some(event) => self.on_reply_event(event, now),
            None => {
                let busy = match &self.session.session_status {
                    SessionStatus::MessageSent => true,
                    _ => false,
                };
                if busy {
                    self.on_message_sent(action)
                } else {
                    self.on_waiting(action, now)
                }
            },
        }
    }

    /// A read-only snapshot of the continuation record, for external
    /// inspection.
    pub fn state(&self) -> (r: Session)
        ensures
            r@ == self@.session,
    {
        self.session.duplicate()
    }
}

} // verus!
