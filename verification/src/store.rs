//! The per-user game record store: a mapping from user identity to that
//! user's in-progress or completed game record.
//!
//! Records are mutated only by the orchestrator while it processes that
//! user's messages.  There is no background expiry scan: time-based
//! expiry is evaluated lazily, when a record is next touched.

use vstd::hash_map::HashMapWithView;
use vstd::prelude::*;

use crate::machine::SessionError;
use crate::session_io::{GameStatus, GameStatusModel, WordGuessResult};
use crate::wordle::duplicate_bytes;

verus! {

/// The store, viewed as a mathematical map from user id to the model of
/// that user's record.
pub struct GameStatusStore {
    map: HashMapWithView<u64, GameStatus>,
}

impl View for GameStatusStore {
    type V = Map<u64, GameStatusModel>;

    closed spec fn view(&self) -> Map<u64, GameStatusModel> {
        self.map@.map_values(|g: GameStatus| g@)
    }
}

impl GameStatusStore {
    /// Creates an empty store.
    pub fn new() -> (r: GameStatusStore)
        ensures
            r@ == Map::<u64, GameStatusModel>::empty(),
    {
        let r = GameStatusStore { map: HashMapWithView::new() };
        proof {
            assert(r@ =~= Map::<u64, GameStatusModel>::empty());
        }
        r
    }

    /// Looks a user's record up; fails exactly when the user has none.
    pub fn get_or_fail(&self, user: u64) -> (r: Option<&GameStatus>)
        ensures
            (match r {
                Some(g) => self@.contains_key(user) && g@ == self@[user],
                None => !self@.contains_key(user),
            }),
    {
        self.map.get(&user)
    }

    /// Inserts a fresh record for a user, replacing any existing one.
    pub fn insert_or_replace(&mut self, user: u64, status: GameStatus)
        ensures
            final(self)@ == old(self)@.insert(user, status@),
    {
        let ghost status_model = status@;
        self.map.insert(user, status);
        proof {
            assert(final(self)@ =~= old(self)@.insert(user, status_model));
        }
    }

    /// Fills the scoring vectors of a downstream reply into the most
    /// recent guess record of a user's game.  Fails exactly when the
    /// user has no record or the record's history is empty, leaving
    /// the store unchanged.
    pub fn update_latest_guess(
        &mut self,
        user: u64,
        correct_positions: &Vec<u8>,
        contained_in_word: &Vec<u8>,
    ) -> (r: Result<(), SessionError>)
        ensures
            (match r {
                Ok(_) => old(self)@.contains_key(user) && old(self)@[user].history.len() > 0
                    && final(self)@ == old(self)@.insert(
                    user,
                    crate::machine::scored_record(
                        old(self)@[user],
                        correct_positions@,
                        contained_in_word@,
                    ),
                ),
                Err(e) => final(self)@ == old(self)@ && (match e {
                    SessionError::UserNotFound => !old(self)@.contains_key(user),
                    SessionError::EmptyHistory => old(self)@.contains_key(user) && old(
                        self,
                    )@[user].history.len() == 0,
                }),
            }),
    {
        let mut g = match self.take(user) {
            None => {
                return Err(SessionError::UserNotFound);
            },
            Some(g) => g,
        };
        let history_len = g.history.len();
        if history_len == 0 {
            self.insert_or_replace(user, g);
            proof {
                assert(self@ =~= old(self)@);
            }
            return Err(SessionError::EmptyHistory);
        }
        let scored = WordGuessResult {
            word: g.history[history_len - 1].word.clone(),
            correct_positions: Some(duplicate_bytes(correct_positions)),
            contained_in_word: Some(duplicate_bytes(contained_in_word)),
        };
        g.history[history_len - 1] = scored;
        let ghost g2 = g@;
        self.insert_or_replace(user, g);
        proof {
            assert(g2 =~= crate::machine::scored_record(
                old(self)@[user],
                correct_positions@,
                contained_in_word@,
            ));
            assert(self@ =~= old(self)@.insert(
                user,
                crate::machine::scored_record(
                    old(self)@[user],
                    correct_positions@,
                    contained_in_word@,
                ),
            ));
        }
        Ok(())
    }

    /// Removes and returns a user's record; fails exactly when the user
    /// has none, leaving the store unchanged.
    pub fn take(&mut self, user: u64) -> (r: Option<GameStatus>)
        ensures
            (match r {
                Some(g) => old(self)@.contains_key(user) && g@ == old(self)@[user]
                    && final(self)@ == old(self)@.remove(user),
                None => !old(self)@.contains_key(user) && final(self)@ == old(self)@,
            }),
    {
        let r = self.map.remove(&user);
        proof {
            if r is Some {
                assert(old(self)@.contains_key(user));
                assert(old(self)@[user] == old(self).map@[user]@);
                assert(final(self)@ =~= old(self)@.remove(user));
            } else {
                assert(final(self)@ =~= old(self)@);
            }
        }
        r
    }
}

} // verus!
