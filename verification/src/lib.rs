//! A verified session orchestrator for a multi-round word-guessing game.
//!
//! The orchestrator sits between end users and a downstream game-logic
//! service.  It accepts user requests, forwards at most one request at a
//! time to the downstream service, and maintains per-user game records
//! (timing, attempt budget, guess history, outcome) across many
//! interleaved rounds.  All decision logic is verified; performing the
//! actual message sends, replies and waits is left to the embedding
//! runtime glue.

use vstd::prelude::*;

pub mod laws;
pub mod machine;
pub mod orchestrator;
pub mod session_io;
pub mod store;
pub mod wordle;

verus! {

/// Number of logical blocks a game may last.
pub const INIT_BLOCKS: u64 = 200;

/// Seconds per logical block.
pub const SECONDS_BLOCKS_RATIO: u64 = 3;

/// Seconds of play granted at the start of a game.
pub const INIT_SECONDS: u64 = INIT_BLOCKS * SECONDS_BLOCKS_RATIO;

/// Number of guesses granted at the start of a game.
pub const INIT_ATTEMPTS: u32 = 3;

/// Length every scored guess word must have.
pub const WORD_LEN: u32 = 5;

} // verus!
