//! Escrow-backed two-party games, encrypted chat channels and anonymous
//! polls, written as verified state machines over plain values.
//!
//! Every operation takes the record it works on and the plain values it
//! needs, checks all it has to check before it changes anything, and hands
//! back what the ledger must do: a transfer to perform, a record to store.
//! A refused operation leaves its record exactly as it was.

pub mod address;
pub mod addressing;
pub mod channel;
pub mod coinflip;
pub mod coinflip_proofs;
pub mod commitment;
pub mod error;
pub mod escrow;
pub mod tictactoe;
pub mod tictactoe_proofs;
pub mod voting;
