//! Protocol core of a unidirectional (Spillman) Bitcoin payment channel.
//!
//! A payer and a payee agree on channel rules, fund a shared output and
//! exchange payment transactions of strictly increasing value. Every
//! artifact received from the counterparty is checked against the channel
//! rules before it is accepted; the contracts of this crate state exactly
//! which artifacts are accepted and which error each rejected one yields.
//!
//! Keys, scripts, transactions and partially signed transactions are plain
//! values ([`key`], [`tx`], [`psbt`]). The `bitcoin` crate builds the
//! scripts ([`script`]) and computes transaction ids, signature hashes and
//! signature checks ([`consensus`]); what is assumed of it is written down
//! there. [`channel`] holds the channel itself, and [`laws`] what holds of
//! it for all inputs.

pub mod bytes;
pub mod channel;
pub mod consensus;
pub mod error;
pub mod key;
pub mod laws;
pub mod psbt;
pub mod script;
pub mod tx;

pub use channel::{Channel, ChannelParams, PaymentInfo};
pub use error::{ConfigError, FinalizeError, FundingError, PaymentError, SpillError};
