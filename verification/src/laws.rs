//! Proved properties of the orchestrator's transition model.
//!
//! Each proof function here states one guarantee of the library over
//! the model in [`crate::machine`]; the executable orchestrator is
//! bound to that model by the contracts in [`crate::orchestrator`].

use vstd::prelude::*;

use crate::machine::{
    busy_error_text, fresh_status, left_seconds_at, reply_state, reply_wake, step, OutcomeModel,
    SessionError, StateModel,
};
use crate::session_io::{GameResult, SessionActionModel, SessionEventModel, SessionStatusModel};
use crate::wordle::EventModel;
use crate::{INIT_SECONDS, WORD_LEN};

verus! {

/// While a downstream call is outstanding, any request other than a
/// fresh `StartGame` is rejected with an error reply and changes
/// nothing: it is neither queued nor allowed to claim the single
/// continuation slot.  Together with the slot being one record, at
/// most one call is ever awaiting a reply.
pub proof fn lemma_busy_rejects_non_start(s: StateModel, action: SessionActionModel, now: u64)
    requires
        s.session.session_status is MessageSent,
        !(action is StartGame),
    ensures
        step(s, action, now).0 == s,
        step(s, action, now).1 == Ok::<OutcomeModel, SessionError>(
            OutcomeModel::Reply { event: SessionEventModel::GameError(busy_error_text()) },
        ),
{
}

/// A transition by itself never claims the continuation slot: it
/// either keeps the continuation status or releases it back to
/// `Waiting`.  The slot is marked outstanding only when the runtime
/// reports the one decided-on send, so the single slot can never hold
/// more than the one call whose send was reported.
pub proof fn lemma_slot_claimed_only_by_send(s: StateModel, action: SessionActionModel, now: u64)
    ensures
        step(s, action, now).0.session.session_status == s.session.session_status || step(
            s,
            action,
            now,
        ).0.session.session_status is Waiting,
{
}

/// A downstream reply is matched by correlation id alone: a reply
/// carrying the recorded sent-id wakes exactly the recorded original
/// caller, and any other reply is ignored without a state change, so a
/// reply can never resume the wrong caller.
pub proof fn lemma_reply_correlation(s: StateModel, reply_to: u64, event: EventModel)
    ensures
        reply_to == s.session.msg_ids.0 ==> reply_state(s, reply_to, event).session.session_status
            == SessionStatusModel::MessageReceive(event) && reply_wake(s, reply_to) == Some(
            s.session.msg_ids.1,
        ),
        reply_to != s.session.msg_ids.0 ==> reply_state(s, reply_to, event) == s && reply_wake(
            s,
            reply_to,
        ) is None,
{
}

/// Once a user's outcome is decided, a further `CheckWord` for that
/// user changes nothing — in particular neither `left_attempts` nor
/// `history` — and is answered with the final status snapshot.
pub proof fn lemma_terminal_immutable(s: StateModel, user: u64, word: Seq<char>, now: u64)
    requires
        s.session.session_status is Waiting,
        s.games.contains_key(user),
        s.games[user].game_result is Some,
    ensures
        step(s, SessionActionModel::CheckWord { user, word }, now).0 == s,
        step(s, SessionActionModel::CheckWord { user, word }, now).1 == Ok::<
            OutcomeModel,
            SessionError,
        >(OutcomeModel::Reply { event: SessionEventModel::GameStatus(s.games[user]) }),
{
}

/// The seconds left in a game never increase as logical time advances,
/// and are exactly zero once the elapsed time reaches the time budget.
pub proof fn lemma_time_monotonic(
    g: crate::session_io::GameStatusModel,
    now1: u64,
    now2: u64,
)
    requires
        now1 <= now2,
    ensures
        left_seconds_at(g, now2) <= left_seconds_at(g, now1),
        left_seconds_at(g, now2) == 0 <==> now2 >= g.start_timestamp + INIT_SECONDS,
{
}

/// A scored guess whose correct-position count equals the word length
/// decides the game as a win on the very next resumed reply, whatever
/// time or attempts remain, and the caller is answered with the final
/// status snapshot.
pub proof fn lemma_win_detection(
    s: StateModel,
    action: SessionActionModel,
    user: u64,
    correct_positions: Seq<u8>,
    contained_in_word: Seq<u8>,
    now: u64,
)
    requires
        s.session.session_status == SessionStatusModel::MessageReceive(
            EventModel::WordChecked { user, correct_positions, contained_in_word },
        ),
        correct_positions.len() == WORD_LEN,
        s.games.contains_key(user),
        s.games[user].history.len() > 0,
    ensures
        step(s, action, now).0.games[user].game_result == Some(GameResult::Win),
        step(s, action, now).1 == Ok::<OutcomeModel, SessionError>(
            OutcomeModel::Reply {
                event: SessionEventModel::GameStatus(step(s, action, now).0.games[user]),
            },
        ),
{
}

/// A scored guess that does not fully match, arriving when the attempt
/// budget is already spent or the time budget has run out, decides the
/// game as a loss on that resumed reply.
pub proof fn lemma_exhaustion_loses(
    s: StateModel,
    action: SessionActionModel,
    user: u64,
    correct_positions: Seq<u8>,
    contained_in_word: Seq<u8>,
    now: u64,
)
    requires
        s.session.session_status == SessionStatusModel::MessageReceive(
            EventModel::WordChecked { user, correct_positions, contained_in_word },
        ),
        correct_positions.len() != WORD_LEN,
        s.games.contains_key(user),
        s.games[user].history.len() > 0,
        s.games[user].left_attempts == 0 || left_seconds_at(s.games[user], now) == 0,
    ensures
        step(s, action, now).0.games[user].game_result == Some(GameResult::Lose),
        step(s, action, now).1 == Ok::<OutcomeModel, SessionError>(
            OutcomeModel::Reply {
                event: SessionEventModel::GameStatus(step(s, action, now).0.games[user]),
            },
        ),
{
}

/// A completed `StartGame` round-trip installs a fresh record — new
/// start time, full budgets, empty history, no outcome — discarding
/// whatever record the user had, and produces a reply and timeout
/// schedule that do not depend on the discarded record: a restart is
/// indistinguishable from a first-time start.
pub proof fn lemma_restart_fresh(
    s1: StateModel,
    s2: StateModel,
    action1: SessionActionModel,
    action2: SessionActionModel,
    user: u64,
    now: u64,
)
    requires
        s1.session.session_status == SessionStatusModel::MessageReceive(
            EventModel::GameStarted { user },
        ),
        s2.session.session_status == SessionStatusModel::MessageReceive(
            EventModel::GameStarted { user },
        ),
    ensures
        step(s1, action1, now).0.games[user] == fresh_status(now),
        step(s1, action1, now).0.session.session_status is Waiting,
        step(s1, action1, now).1 == step(s2, action2, now).1,
{
}

/// A game left alone after its start resolves itself: once logical
/// time passes the time budget, the next status check — in particular
/// the one self-scheduled at game start — decides the game as a loss
/// with no seconds left.
pub proof fn lemma_timeout_resolution(s: StateModel, user: u64, now: u64)
    requires
        s.session.session_status is Waiting,
        s.games.contains_key(user),
        s.games[user].game_result is None,
        now >= s.games[user].start_timestamp + INIT_SECONDS,
    ensures
        step(s, SessionActionModel::CheckGameStatus { user }, now).0.games[user].game_result
            == Some(GameResult::Lose),
        step(s, SessionActionModel::CheckGameStatus { user }, now).0.games[user].left_seconds == 0,
        step(s, SessionActionModel::CheckGameStatus { user }, now).1 == Ok::<
            OutcomeModel,
            SessionError,
        >(
            OutcomeModel::Reply {
                event: SessionEventModel::GameStatus(
                    step(s, SessionActionModel::CheckGameStatus { user }, now).0.games[user],
                ),
            },
        ),
{
}

} // verus!
