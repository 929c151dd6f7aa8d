//! The protocol spoken with the downstream game-logic service.
//!
//! The downstream service owns the authoritative word and its scoring
//! algorithm.  The orchestrator only forwards requests of type [`Action`]
//! and interprets replies of type [`Event`]; each position list in a
//! reply is a set of zero-based character indices.

use vstd::prelude::*;

verus! {

/// A request forwarded to the downstream game-logic service.
#[derive(Debug, Clone, PartialEq)]
pub enum Action {
    StartGame { user: u64 },
    CheckWord { user: u64, word: String },
}

/// A reply received from the downstream game-logic service.
#[derive(Debug, Clone, PartialEq)]
pub enum Event {
    GameStarted { user: u64 },
    WordChecked { user: u64, correct_positions: Vec<u8>, contained_in_word: Vec<u8> },
}

/// Mathematical model of an [`Action`].
#[verifier::ext_equal]
pub enum ActionModel {
    StartGame { user: u64 },
    CheckWord { user: u64, word: Seq<char> },
}

/// Mathematical model of an [`Event`].
#[verifier::ext_equal]
pub enum EventModel {
    GameStarted { user: u64 },
    WordChecked { user: u64, correct_positions: Seq<u8>, contained_in_word: Seq<u8> },
}

impl View for Action {
    type V = ActionModel;

    open spec fn view(&self) -> ActionModel {
        match self {
            Action::StartGame { user } => ActionModel::StartGame { user: *user },
            Action::CheckWord { user, word } => ActionModel::CheckWord {
                user: *user,
                word: word@,
            },
        }
    }
}

impl View for Event {
    type V = EventModel;

    open spec fn view(&self) -> EventModel {
        match self {
            Event::GameStarted { user } => EventModel::GameStarted { user: *user },
            Event::WordChecked { user, correct_positions, contained_in_word } => {
                EventModel::WordChecked {
                    user: *user,
                    correct_positions: correct_positions@,
                    contained_in_word: contained_in_word@,
                }
            },
        }
    }
}

/// Copies a byte vector; the copy denotes the same sequence.
pub fn duplicate_bytes(v: &Vec<u8>) -> (r: Vec<u8>)
    ensures
        r@ == v@,
{
    let r = v.clone();
    proof {
        assert(r@ =~= v@);
    }
    r
}

impl Event {
    /// Copies an event; the copy denotes the same model.
    pub fn duplicate(&self) -> (r: Event)
        ensures
            r@ == self@,
    {
        match self {
            Event::GameStarted { user } => Event::GameStarted { user: *user },
            Event::WordChecked { user, correct_positions, contained_in_word } => {
                Event::WordChecked {
                    user: *user,
                    correct_positions: duplicate_bytes(correct_positions),
                    contained_in_word: duplicate_bytes(contained_in_word),
                }
            },
        }
    }
}

} // verus!
