use game_session::orchestrator::{HandleResult, Orchestrator};
use game_session::session_io::{
    GameResult, GameStatus, Session, SessionAction, SessionEvent, SessionStatus, WordGuessResult,
};
use game_session::wordle::{Action, Event};

const TARGET_PROGRAM_ID: u64 = 2;
const USER1: u64 = 8;
const USER2: u64 = 9;

/// Seconds a logical block lasts in the runtime the orchestrator is
/// written for.
const BLOCK_SECONDS: u64 = 3;

/// Drives a full `StartGame` round-trip: forward the request
/// downstream, deliver the downstream reply, resume the suspended
/// caller, and hand back the event it was answered with.
fn run_start_game(o: &mut Orchestrator, user: u64, now: u64, sent_id: u64, orig_id: u64) -> SessionEvent {
    let r = o
        .handle_action(SessionAction::StartGame { user }, now)
        .expect("start must not abort");
    match r {
        HandleResult::SendDownstream { target, message } => {
            assert_eq!(target, TARGET_PROGRAM_ID);
            assert_eq!(message, Action::StartGame { user });
        }
        other => panic!("expected a downstream send, got {:?}", other),
    }
    o.note_sent(sent_id, orig_id);
    let wake = o.handle_reply(sent_id, Event::GameStarted { user });
    assert_eq!(wake, Some(orig_id));
    let r = o
        .handle_action(SessionAction::StartGame { user }, now)
        .expect("resume must not abort");
    match r {
        HandleResult::ReplyAndSchedule { event, check_user, delay_blocks } => {
            assert_eq!(check_user, user);
            assert_eq!(delay_blocks, 200);
            event
        }
        other => panic!("expected a reply with a scheduled timeout, got {:?}", other),
    }
}

/// Drives a `CheckWord` request.  If the orchestrator forwards it
/// downstream, delivers a scoring reply built from `correct` and
/// `contained` and resumes the caller; otherwise the request was
/// answered at once.  Hands back the event the caller received.
fn run_check_word(
    o: &mut Orchestrator,
    user: u64,
    word: &str,
    now: u64,
    correct: Vec<u8>,
    contained: Vec<u8>,
    sent_id: u64,
    orig_id: u64,
) -> SessionEvent {
    let action = SessionAction::CheckWord { user, word: word.to_owned() };
    let r = o.handle_action(action.clone(), now).expect("check must not abort");
    match r {
        HandleResult::SendDownstream { target, message } => {
            assert_eq!(target, TARGET_PROGRAM_ID);
            assert_eq!(message, Action::CheckWord { user, word: word.to_owned() });
            o.note_sent(sent_id, orig_id);
            let wake = o.handle_reply(
                sent_id,
                Event::WordChecked {
                    user,
                    correct_positions: correct,
                    contained_in_word: contained,
                },
            );
            assert_eq!(wake, Some(orig_id));
            match o.handle_action(action, now).expect("resume must not abort") {
                HandleResult::Reply { event } => event,
                other => panic!("expected a reply, got {:?}", other),
            }
        }
        HandleResult::Reply { event } => event,
        other => panic!("expected a send or a reply, got {:?}", other),
    }
}

/// Asks for the user's status snapshot and hands it back.
fn run_status_check(o: &mut Orchestrator, user: u64, now: u64) -> GameStatus {
    match o
        .handle_action(SessionAction::CheckGameStatus { user }, now)
        .expect("status check must not abort")
    {
        HandleResult::Reply { event } => match event {
            SessionEvent::GameStatus(g) => g,
            other => panic!("expected a status snapshot, got {:?}", other),
        },
        other => panic!("expected a reply, got {:?}", other),
    }
}

#[test]
fn test_succeed() {
    let mut o = Orchestrator::init(TARGET_PROGRAM_ID);
    let mut now: u64 = BLOCK_SECONDS;

    let started = run_start_game(&mut o, USER1, now, 101, 201);
    assert_eq!(started, SessionEvent::GameStarted { user: USER1 });

    now += 20 * BLOCK_SECONDS;

    let first = run_check_word(&mut o, USER1, "house", now, vec![0, 1], vec![4], 102, 202);
    assert_eq!(
        first,
        SessionEvent::WordChecked { user: USER1, correct_positions: vec![0, 1], contained_in_word: vec![4] }
    );

    let second = run_check_word(&mut o, USER1, "human", now, vec![0], vec![2], 103, 203);
    assert_eq!(
        second,
        SessionEvent::WordChecked { user: USER1, correct_positions: vec![0], contained_in_word: vec![2] }
    );

    // A fully correct guess wins the game on the resumed reply.
    let third = run_check_word(&mut o, USER1, "horse", now, vec![0, 1, 2, 3, 4], vec![], 104, 204);
    match third {
        SessionEvent::GameStatus(g) => {
            assert_eq!(g.game_result, Some(GameResult::Win));
            assert_eq!(g.history.len(), 3);
        }
        other => panic!("expected the final status, got {:?}", other),
    }

    let snapshot = run_status_check(&mut o, USER1, now);
    assert_eq!(snapshot.game_result, Some(GameResult::Win));
    assert_eq!(snapshot.history.len(), 3);
    assert_eq!(snapshot.history[2].word, "horse");
    assert_eq!(snapshot.history[2].correct_positions, Some(vec![0, 1, 2, 3, 4]));
}

#[test]
fn test_delayed_message() {
    let mut o = Orchestrator::init(TARGET_PROGRAM_ID);
    let start_time: u64 = BLOCK_SECONDS;

    let started = run_start_game(&mut o, USER1, start_time, 101, 201);
    assert_eq!(started, SessionEvent::GameStarted { user: USER1 });

    // The self-scheduled status check fires 200 blocks after the start
    // and resolves the abandoned game to a loss.
    let fire_time = start_time + 200 * BLOCK_SECONDS;
    let resolved = run_status_check(&mut o, USER1, fire_time);
    assert_eq!(resolved.game_result, Some(GameResult::Lose));
    assert_eq!(resolved.left_seconds, 0);

    // A later check by the user sees the same settled outcome.
    let later = run_status_check(&mut o, USER1, fire_time + 10 * BLOCK_SECONDS);
    assert_eq!(later.game_result, Some(GameResult::Lose));
    assert_eq!(later.left_seconds, 0);
}

#[test]
fn test_restart() {
    let mut o = Orchestrator::init(TARGET_PROGRAM_ID);
    let mut now: u64 = BLOCK_SECONDS;

    let started = run_start_game(&mut o, USER1, now, 101, 201);
    assert_eq!(started, SessionEvent::GameStarted { user: USER1 });

    now += 20 * BLOCK_SECONDS;
    let guessed = run_check_word(&mut o, USER1, "huodd", now, vec![0], vec![], 102, 202);
    assert_eq!(
        guessed,
        SessionEvent::WordChecked { user: USER1, correct_positions: vec![0], contained_in_word: vec![] }
    );

    now += 10 * BLOCK_SECONDS;

    // Restarting mid-game answers exactly like a first-time start and
    // installs a fresh record.
    let restarted = run_start_game(&mut o, USER1, now, 103, 203);
    assert_eq!(restarted, SessionEvent::GameStarted { user: USER1 });

    let snapshot = run_status_check(&mut o, USER1, now);
    assert_eq!(snapshot.start_timestamp, now);
    assert_eq!(snapshot.left_attempts, 3);
    assert_eq!(snapshot.left_seconds, 600);
    assert_eq!(snapshot.history.len(), 0);
    assert_eq!(snapshot.game_result, None);
}

#[test]
fn test_attempts_run_out() {
    let mut o = Orchestrator::init(TARGET_PROGRAM_ID);
    let mut now: u64 = BLOCK_SECONDS;

    let started = run_start_game(&mut o, USER1, now, 101, 201);
    assert_eq!(started, SessionEvent::GameStarted { user: USER1 });

    now += 20 * BLOCK_SECONDS;
    let first = run_check_word(&mut o, USER1, "huodd", now, vec![0], vec![], 102, 202);
    assert_eq!(
        first,
        SessionEvent::WordChecked { user: USER1, correct_positions: vec![0], contained_in_word: vec![] }
    );

    now += 10 * BLOCK_SECONDS;
    let second = run_check_word(&mut o, USER1, "huodd", now, vec![0], vec![], 103, 203);
    assert_eq!(
        second,
        SessionEvent::WordChecked { user: USER1, correct_positions: vec![0], contained_in_word: vec![] }
    );

    now += 10 * BLOCK_SECONDS;
    // The third and last guess spends the attempt budget: its resumed
    // reply decides the game as a loss even though time remains.
    let third = run_check_word(&mut o, USER1, "huodd", now, vec![0], vec![], 104, 204);
    match third {
        SessionEvent::GameStatus(g) => {
            assert_eq!(g.game_result, Some(GameResult::Lose));
            assert_eq!(g.left_attempts, 0);
            assert!(g.left_seconds > 0);
        }
        other => panic!("expected the final status, got {:?}", other),
    }

    let snapshot = run_status_check(&mut o, USER1, now);
    assert_eq!(snapshot.game_result, Some(GameResult::Lose));
}

#[test]
fn test_mutiple_user() {
    let mut o = Orchestrator::init(TARGET_PROGRAM_ID);
    let mut now: u64 = BLOCK_SECONDS;

    let started = run_start_game(&mut o, USER1, now, 101, 201);
    assert_eq!(started, SessionEvent::GameStarted { user: USER1 });

    let started = run_start_game(&mut o, USER2, now, 102, 202);
    assert_eq!(started, SessionEvent::GameStarted { user: USER2 });

    now += 20 * BLOCK_SECONDS;
    let first = run_check_word(&mut o, USER1, "house", now, vec![0, 1, 2, 3, 4], vec![], 103, 203);
    match first {
        SessionEvent::GameStatus(g) => assert_eq!(g.game_result, Some(GameResult::Win)),
        other => panic!("expected the final status, got {:?}", other),
    }

    now += 20 * BLOCK_SECONDS;
    // The second user's game is untouched by the first user's win.
    let second = run_check_word(&mut o, USER2, "houud", now, vec![0, 1, 2], vec![], 104, 204);
    assert_eq!(
        second,
        SessionEvent::WordChecked { user: USER2, correct_positions: vec![0, 1, 2], contained_in_word: vec![] }
    );
    let snapshot = run_status_check(&mut o, USER2, now);
    assert_eq!(snapshot.game_result, None);
    assert_eq!(snapshot.left_attempts, 2);
    assert_eq!(snapshot.history.len(), 1);
}

#[test]
fn test_busy_slot_rejects_other_requests() {
    let mut o = Orchestrator::init(TARGET_PROGRAM_ID);
    let now: u64 = BLOCK_SECONDS;

    // Park USER1's start in the single continuation slot.
    let r = o
        .handle_action(SessionAction::StartGame { user: USER1 }, now)
        .expect("start must not abort");
    assert!(matches!(r, HandleResult::SendDownstream { .. }));
    o.note_sent(101, 201);

    // While the call is outstanding, any request but a fresh start is
    // turned away without a state change.
    let rejected = o
        .handle_action(
            SessionAction::CheckWord { user: USER2, word: "house".to_owned() },
            now,
        )
        .expect("a busy rejection is a normal reply");
    assert_eq!(
        rejected,
        HandleResult::Reply {
            event: SessionEvent::GameError(
                "Message has already sent, and you could restart the game".to_owned()
            )
        }
    );

    let rejected = o
        .handle_action(SessionAction::CheckGameStatus { user: USER1 }, now)
        .expect("a busy rejection is a normal reply");
    assert!(matches!(
        rejected,
        HandleResult::Reply { event: SessionEvent::GameError(_) }
    ));

    // A fresh start always wins the slot: it is re-sent, not queued.
    let r = o
        .handle_action(SessionAction::StartGame { user: USER2 }, now)
        .expect("start must not abort");
    assert_eq!(
        r,
        HandleResult::SendDownstream {
            target: TARGET_PROGRAM_ID,
            message: Action::StartGame { user: USER2 }
        }
    );
}

#[test]
fn test_unrelated_reply_ignored() {
    let mut o = Orchestrator::init(TARGET_PROGRAM_ID);
    let now: u64 = BLOCK_SECONDS;

    let r = o
        .handle_action(SessionAction::StartGame { user: USER1 }, now)
        .expect("start must not abort");
    assert!(matches!(r, HandleResult::SendDownstream { .. }));
    o.note_sent(101, 201);

    // A reply whose correlation id does not match the outstanding call
    // neither wakes anybody nor changes the continuation record.
    let wake = o.handle_reply(999, Event::GameStarted { user: USER1 });
    assert_eq!(wake, None);
    let snapshot: Session = o.state();
    assert_eq!(snapshot.msg_ids, (101, 201));
    assert_eq!(snapshot.session_status, SessionStatus::MessageSent);

    // The matching reply still arrives at the right caller afterwards.
    let wake = o.handle_reply(101, Event::GameStarted { user: USER1 });
    assert_eq!(wake, Some(201));
}

#[test]
fn test_terminal_status_is_immutable() {
    let mut o = Orchestrator::init(TARGET_PROGRAM_ID);
    let now: u64 = BLOCK_SECONDS;

    let started = run_start_game(&mut o, USER1, now, 101, 201);
    assert_eq!(started, SessionEvent::GameStarted { user: USER1 });
    let won = run_check_word(&mut o, USER1, "house", now, vec![0, 1, 2, 3, 4], vec![], 102, 202);
    match won {
        SessionEvent::GameStatus(g) => assert_eq!(g.game_result, Some(GameResult::Win)),
        other => panic!("expected the final status, got {:?}", other),
    }

    // A further guess is answered with the settled status at once, and
    // neither spends an attempt nor grows the history.
    let after = run_check_word(&mut o, USER1, "worse", now, vec![], vec![], 103, 203);
    match after {
        SessionEvent::GameStatus(g) => {
            assert_eq!(g.game_result, Some(GameResult::Win));
            assert_eq!(g.left_attempts, 2);
            assert_eq!(g.history.len(), 1);
        }
        other => panic!("expected the settled status, got {:?}", other),
    }
}

#[test]
fn test_expired_guess_is_refused() {
    let mut o = Orchestrator::init(TARGET_PROGRAM_ID);
    let start_time: u64 = BLOCK_SECONDS;

    let started = run_start_game(&mut o, USER1, start_time, 101, 201);
    assert_eq!(started, SessionEvent::GameStarted { user: USER1 });

    // Exactly at the time budget the game is over: the guess is
    // refused without a downstream call and the game is lost.
    let refused = run_check_word(&mut o, USER1, "house", start_time + 600, vec![], vec![], 102, 202);
    assert_eq!(
        refused,
        SessionEvent::GameError("The left seconds or attemps is over".to_owned())
    );
    let snapshot = run_status_check(&mut o, USER1, start_time + 600);
    assert_eq!(snapshot.game_result, Some(GameResult::Lose));
    assert_eq!(snapshot.left_seconds, 0);
    assert_eq!(snapshot.history.len(), 0);
}

#[test]
fn test_aborts_leave_state_unchanged() {
    let mut o = Orchestrator::init(TARGET_PROGRAM_ID);
    let now: u64 = BLOCK_SECONDS;

    // A guess or status check by a user with no game aborts that call.
    let r = o.handle_action(SessionAction::CheckWord { user: USER1, word: "house".to_owned() }, now);
    assert_eq!(r, Err(game_session::machine::SessionError::UserNotFound));
    let r = o.handle_action(SessionAction::CheckGameStatus { user: USER1 }, now);
    assert_eq!(r, Err(game_session::machine::SessionError::UserNotFound));

    // A scoring reply for a user who never started aborts the resume.
    let mut o = Orchestrator::init(TARGET_PROGRAM_ID);
    let r = o
        .handle_action(SessionAction::StartGame { user: USER1 }, now)
        .expect("start must not abort");
    assert!(matches!(r, HandleResult::SendDownstream { .. }));
    o.note_sent(101, 201);
    let wake = o.handle_reply(
        101,
        Event::WordChecked { user: USER1, correct_positions: vec![], contained_in_word: vec![] },
    );
    assert_eq!(wake, Some(201));
    let r = o.handle_action(SessionAction::StartGame { user: USER1 }, now);
    assert_eq!(r, Err(game_session::machine::SessionError::UserNotFound));

    // A scoring reply for a started game with no pending guess aborts
    // with the history error.
    let mut o = Orchestrator::init(TARGET_PROGRAM_ID);
    let started = run_start_game(&mut o, USER1, now, 102, 202);
    assert_eq!(started, SessionEvent::GameStarted { user: USER1 });
    let r = o
        .handle_action(SessionAction::StartGame { user: USER1 }, now)
        .expect("start must not abort");
    assert!(matches!(r, HandleResult::SendDownstream { .. }));
    o.note_sent(103, 203);
    let wake = o.handle_reply(
        103,
        Event::WordChecked { user: USER1, correct_positions: vec![], contained_in_word: vec![] },
    );
    assert_eq!(wake, Some(203));
    let r = o.handle_action(SessionAction::StartGame { user: USER1 }, now);
    assert_eq!(r, Err(game_session::machine::SessionError::EmptyHistory));

    // The abort changed nothing: the carried reply is still pending,
    // and processing it aborts the same way.
    let r = o.handle_action(SessionAction::CheckGameStatus { user: USER1 }, now);
    assert_eq!(r, Err(game_session::machine::SessionError::EmptyHistory));
}

#[test]
fn test_left_seconds_formula() {
    let record = GameStatus {
        start_timestamp: 100,
        left_seconds: 600,
        left_attempts: 3,
        history: Vec::new(),
        game_result: None,
    };
    assert_eq!(game_session::orchestrator::get_left_seconds(&record, 100), 600);
    assert_eq!(game_session::orchestrator::get_left_seconds(&record, 160), 540);
    assert_eq!(game_session::orchestrator::get_left_seconds(&record, 699), 1);
    assert_eq!(game_session::orchestrator::get_left_seconds(&record, 700), 0);
    assert_eq!(game_session::orchestrator::get_left_seconds(&record, 7000), 0);
}

#[test]
fn test_state_snapshot() {
    let mut o = Orchestrator::init(TARGET_PROGRAM_ID);
    let snapshot: Session = o.state();
    assert_eq!(snapshot.target_program_id, TARGET_PROGRAM_ID);
    assert_eq!(snapshot.msg_ids, (0, 0));
    assert_eq!(snapshot.session_status, SessionStatus::Waiting);

    let r = o
        .handle_action(SessionAction::StartGame { user: USER1 }, BLOCK_SECONDS)
        .expect("start must not abort");
    assert!(matches!(r, HandleResult::SendDownstream { .. }));
    o.note_sent(7, 11);
    let snapshot = o.state();
    assert_eq!(snapshot.msg_ids, (7, 11));
    assert_eq!(snapshot.session_status, SessionStatus::MessageSent);
}

#[test]
fn test_store_accessors() {
    let mut store = game_session::store::GameStatusStore::new();
    assert!(store.get_or_fail(USER1).is_none());

    let record = GameStatus {
        start_timestamp: 40,
        left_seconds: 600,
        left_attempts: 3,
        history: vec![WordGuessResult {
            word: "house".to_owned(),
            correct_positions: None,
            contained_in_word: None,
        }],
        game_result: None,
    };
    store.insert_or_replace(USER1, record.clone());
    assert_eq!(store.get_or_fail(USER1), Some(&record));
    assert!(store.get_or_fail(USER2).is_none());

    // Scoring fills exactly the most recent guess.
    store
        .update_latest_guess(USER1, &vec![0, 2], &vec![1])
        .expect("the record has a pending guess");
    let scored = store.get_or_fail(USER1).expect("the record is still there");
    assert_eq!(scored.history[0].word, "house");
    assert_eq!(scored.history[0].correct_positions, Some(vec![0, 2]));
    assert_eq!(scored.history[0].contained_in_word, Some(vec![1]));

    // Both failure cases leave the store unchanged.
    assert_eq!(
        store.update_latest_guess(USER2, &vec![], &vec![]),
        Err(game_session::machine::SessionError::UserNotFound)
    );
    let mut empty_history = record.clone();
    empty_history.history.clear();
    store.insert_or_replace(USER2, empty_history);
    assert_eq!(
        store.update_latest_guess(USER2, &vec![], &vec![]),
        Err(game_session::machine::SessionError::EmptyHistory)
    );

    let taken = store.take(USER1).expect("the record is there to take");
    assert_eq!(taken.history[0].correct_positions, Some(vec![0, 2]));
    assert!(store.get_or_fail(USER1).is_none());
    assert!(store.take(USER1).is_none());
}
