//! A sealed-bid auction whose bid amounts stay encrypted.
//!
//! Bid amounts live in an external homomorphic coprocessor and are known here
//! only by opaque handles. The library decides every step of the protocol:
//! which operations are admissible in which phase, how the running maximum is
//! folded from coprocessor answers, and how each bid is settled once the
//! bidder presents a verified decryption of its win flag. The host performs the
//! coprocessor calls and the fund transfers and hands their results back.

pub mod error;
pub mod types;
pub mod state;
pub mod lifecycle;
pub mod ledger;
pub mod settlement;
pub mod comments;
pub mod laws;
