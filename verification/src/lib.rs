//! A multi-round commit-reveal game lifecycle engine.
//!
//! Games are created, joined, started, played in rounds and settled. Each
//! round players first submit a cryptographic commitment to a hidden choice
//! and later reveal the choice together with the nonce that sealed the
//! commitment; the engine verifies the reveal against the stored digest.
//! Escrowed joining fees and a pluggable scoring rule settle the game when
//! it ends.

pub mod error;
pub mod state;
pub mod commitment;
pub mod decimal;
pub mod rewards;
pub mod msg;
pub mod store;
pub mod query;
pub mod execute;
pub mod rock_paper_scissors;
pub mod dilemma;
pub mod trade;
pub mod asteroid;
pub mod lifecycle;
pub mod laws;
