//! The user-facing data model of the orchestrator.
//!
//! These types describe the requests a user may make, the events the
//! orchestrator answers with, the per-user game record, and the single
//! process-wide continuation record that tracks the one permitted
//! in-flight downstream call.

use vstd::prelude::*;

use crate::wordle::{Event, EventModel};

verus! {

/// A request from a user to the orchestrator.
#[derive(Debug, Clone, PartialEq)]
pub enum SessionAction {
    StartGame { user: u64 },
    CheckWord { user: u64, word: String },
    CheckGameStatus { user: u64 },
}

/// The terminal outcome of a game.
#[derive(Clone, Copy, PartialEq, Eq, Structural, Debug)]
pub enum GameResult {
    Win,
    Lose,
}

/// An event the orchestrator replies with to a user.
#[derive(Debug, Clone, PartialEq)]
pub enum SessionEvent {
    GameStarted { user: u64 },
    WordChecked { user: u64, correct_positions: Vec<u8>, contained_in_word: Vec<u8> },
    GameStatus(GameStatus),
    GameError(String),
}

/// The continuation status: no outstanding downstream call, one call
/// sent with its caller suspended, or a reply carried back for the
/// caller about to resume.
#[derive(Debug, Clone, PartialEq)]
pub enum SessionStatus {
    Waiting,
    MessageSent,
    MessageReceive(Event),
}

/// The process-wide continuation record.  `msg_ids` pairs the id of the
/// message just sent downstream with the id of the original inbound
/// message that triggered it.
#[derive(Debug, PartialEq)]
pub struct Session {
    pub target_program_id: u64,
    pub msg_ids: (u64, u64),
    pub session_status: SessionStatus,
}

/// One guess in a game's history.  The two position vectors stay `None`
/// until the downstream scoring reply is applied to the record.
#[derive(Debug, Clone, PartialEq)]
pub struct WordGuessResult {
    pub word: String,
    pub correct_positions: Option<Vec<u8>>,
    pub contained_in_word: Option<Vec<u8>>,
}

/// The per-user game record.
#[derive(Debug, Clone, PartialEq)]
pub struct GameStatus {
    pub start_timestamp: u64,
    pub left_seconds: u64,
    pub left_attempts: u32,
    pub history: Vec<WordGuessResult>,
    pub game_result: Option<GameResult>,
}

/// Mathematical model of a [`SessionAction`].
#[verifier::ext_equal]
pub enum SessionActionModel {
    StartGame { user: u64 },
    CheckWord { user: u64, word: Seq<char> },
    CheckGameStatus { user: u64 },
}

/// Mathematical model of a [`WordGuessResult`].
#[verifier::ext_equal]
pub struct GuessModel {
    pub word: Seq<char>,
    pub correct_positions: Option<Seq<u8>>,
    pub contained_in_word: Option<Seq<u8>>,
}

/// Mathematical model of a [`GameStatus`].
#[verifier::ext_equal]
pub struct GameStatusModel {
    pub start_timestamp: u64,
    pub left_seconds: u64,
    pub left_attempts: u32,
    pub history: Seq<GuessModel>,
    pub game_result: Option<GameResult>,
}

/// Mathematical model of a [`SessionEvent`].
#[verifier::ext_equal]
pub enum SessionEventModel {
    GameStarted { user: u64 },
    WordChecked { user: u64, correct_positions: Seq<u8>, contained_in_word: Seq<u8> },
    GameStatus(GameStatusModel),
    GameError(Seq<char>),
}

/// Mathematical model of a [`SessionStatus`].
#[verifier::ext_equal]
pub enum SessionStatusModel {
    Waiting,
    MessageSent,
    MessageReceive(EventModel),
}

/// Mathematical model of a [`Session`].
#[verifier::ext_equal]
pub struct SessionModel {
    pub target_program_id: u64,
    pub msg_ids: (u64, u64),
    pub session_status: SessionStatusModel,
}

impl View for SessionAction {
    type V = SessionActionModel;

    open spec fn view(&self) -> SessionActionModel {
        match self {
            SessionAction::StartGame { user } => SessionActionModel::StartGame { user: *user },
            SessionAction::CheckWord { user, word } => SessionActionModel::CheckWord {
                user: *user,
                word: word@,
            },
            SessionAction::CheckGameStatus { user } => SessionActionModel::CheckGameStatus {
                user: *user,
            },
        }
    }
}

impl View for WordGuessResult {
    type V = GuessModel;

    open spec fn view(&self) -> GuessModel {
        GuessModel {
            word: self.word@,
            correct_positions: match &self.correct_positions {
                Some(v) => Some(v@),
                None => None,
            },
            contained_in_word: match &self.contained_in_word {
                Some(v) => Some(v@),
                None => None,
            },
        }
    }
}

impl View for GameStatus {
    type V = GameStatusModel;

    open spec fn view(&self) -> GameStatusModel {
        GameStatusModel {
            start_timestamp: self.start_timestamp,
            left_seconds: self.left_seconds,
            left_attempts: self.left_attempts,
            history: self.history@.map_values(|g: WordGuessResult| g@),
            game_result: self.game_result,
        }
    }
}

impl View for SessionEvent {
    type V = SessionEventModel;

    open spec fn view(&self) -> SessionEventModel {
        match self {
            SessionEvent::GameStarted { user } => SessionEventModel::GameStarted { user: *user },
            SessionEvent::WordChecked { user, correct_positions, contained_in_word } => {
                SessionEventModel::WordChecked {
                    user: *user,
                    correct_positions: correct_positions@,
                    contained_in_word: contained_in_word@,
                }
            },
            SessionEvent::GameStatus(g) => SessionEventModel::GameStatus(g@),
            SessionEvent::GameError(msg) => SessionEventModel::GameError(msg@),
        }
    }
}

impl View for SessionStatus {
    type V = SessionStatusModel;

    open spec fn view(&self) -> SessionStatusModel {
        match self {
            SessionStatus::Waiting => SessionStatusModel::Waiting,
            SessionStatus::MessageSent => SessionStatusModel::MessageSent,
            SessionStatus::MessageReceive(e) => SessionStatusModel::MessageReceive(e@),
        }
    }
}

impl View for Session {
    type V = SessionModel;

    open spec fn view(&self) -> SessionModel {
        SessionModel {
            target_program_id: self.target_program_id,
            msg_ids: self.msg_ids,
            session_status: self.session_status@,
        }
    }
}

/// Copies an optional byte vector; the copy denotes the same model.
fn duplicate_opt_bytes(v: &Option<Vec<u8>>) -> (r: Option<Vec<u8>>)
    ensures
        (match (v, &r) {
            (Some(a), Some(b)) => a@ == b@,
            (None, None) => true,
            _ => false,
        }),
{
    match v {
        Some(a) => Some(crate::wordle::duplicate_bytes(a)),
        None => None,
    }
}

impl WordGuessResult {
    /// Copies a guess record; the copy denotes the same model.
    pub fn duplicate(&self) -> (r: WordGuessResult)
        ensures
            r@ == self@,
    {
        WordGuessResult {
            word: self.word.clone(),
            correct_positions: duplicate_opt_bytes(&self.correct_positions),
            contained_in_word: duplicate_opt_bytes(&self.contained_in_word),
        }
    }
}

impl GameStatus {
    /// Copies a game record; the copy denotes the same model.
    pub fn duplicate(&self) -> (r: GameStatus)
        ensures
            r@ == self@,
    {
        let mut history: Vec<WordGuessResult> = Vec::new();
        let n = self.history.len();
        for i in 0..n
            invariant
                n == self.history.len(),
                history.len() == i,
                forall|j: int| 0 <= j < i ==> history@[j]@ == self.history@[j]@,
        {
            history.push(self.history[i].duplicate());
        }
        let r = GameStatus {
            start_timestamp: self.start_timestamp,
            left_seconds: self.left_seconds,
            left_attempts: self.left_attempts,
            history,
            game_result: self.game_result,
        };
        proof {
            assert(r@.history =~= self@.history);
            assert(r@ =~= self@);
        }
        r
    }
}

impl SessionStatus {
    /// Copies a continuation status; the copy denotes the same model.
    pub fn duplicate(&self) -> (r: SessionStatus)
        ensures
            r@ == self@,
    {
        match self {
            SessionStatus::Waiting => SessionStatus::Waiting,
            SessionStatus::MessageSent => SessionStatus::MessageSent,
            SessionStatus::MessageReceive(e) => SessionStatus::MessageReceive(e.duplicate()),
        }
    }
}

impl Session {
    /// Copies the continuation record; the copy denotes the same model.
    pub fn duplicate(&self) -> (r: Session)
        ensures
            r@ == self@,
    {
        Session {
            target_program_id: self.target_program_id,
            msg_ids: self.msg_ids,
            session_status: self.session_status.duplicate(),
        }
    }
}

} // verus!
