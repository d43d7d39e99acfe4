//! Decision logic of a Solana transaction stack that submits Jito bundles,
//! recovers from rejected submissions with the help of a reasoning model,
//! and waits for confirmations on a Geyser stream.

pub mod agent;
pub mod chain;
pub mod cycle;
pub mod geyser;
pub mod jito;
pub mod text;
pub mod tip;
pub mod wallet;
