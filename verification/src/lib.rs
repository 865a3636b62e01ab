//! Precondition checker for accelerating an unconfirmed wallet transaction.
//!
//! Before a fee bump may proceed, four guards must pass in order: the target
//! address must be encoded for the wallet's network, the wallet must own it,
//! the transaction must still be unconfirmed, and its current fee rate must be
//! strictly below the requested threshold. The checker is pure validation: it
//! never talks to a wallet or a chain client itself. Instead it hands the
//! caller a sequence of typestate values, each naming the one query whose
//! answer it needs next, so no query can be made out of order and none is made
//! once a guard has failed.

pub mod fee_rate;
pub mod session;
pub mod types;
