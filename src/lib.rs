//! Settlement logic of a two-player duel: move-set scoring, the message
//! framing of signed submissions, the contract's key state and the
//! settlement order handed to the public ledger.

pub mod duel;
pub mod error;
pub mod keys;
pub mod score;
pub mod signature;
