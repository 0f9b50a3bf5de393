//! Failure categories, grouped by the operation that reports them.

use vstd::prelude::*;
use crate::bytes::{lower_hex, to_lower_hex};
use crate::consensus::{amount_display, amount_text};
use crate::key::PublicKey;

verus! {

/// A channel parameter is invalid; the channel cannot be configured.
#[non_exhaustive]
#[derive(Debug, Clone, Copy, PartialEq, Eq)]
pub enum ConfigError {
    /// The channel capacity is zero.
    InvalidCapacity,
    /// A public key is not in compressed form.
    UncompressedPublicKey,
    /// The refund delay is zero in one of its encodings.
    InvalidRefundLocktime,
}

/// The claimed funding transaction does not fund the channel.
#[non_exhaustive]
#[derive(Debug, Clone, Copy, PartialEq, Eq)]
pub enum FundingError {
    /// The transaction id differs from the one in the claimed outpoint.
    TxidMismatch,
    /// The transaction has no output at the claimed index.
    OutputNotFound,
    /// The output's value is not the channel capacity.
    ValueMismatch,
    /// The output does not pay to the channel's funding script.
    ScriptMismatch,
}

/// A payment cannot be built, or a received payment is rejected.
#[non_exhaustive]
#[derive(Debug, Clone, Copy, PartialEq, Eq)]
pub enum PaymentError {
    /// Amount, fee and what was already sent exceed the capacity.
    ExceedsCapacity { available: u64, required: u64 },
    /// The payment spends more than one input.
    MultipleInputs,
    /// The payment has no input.
    MissingInput,
    /// The input does not spend the funding output.
    FundingOutpointMismatch,
    /// The input declares no spent output.
    MissingWitnessUtxo,
    /// The declared spent output is not the funding output.
    WitnessUtxoMismatch,
    /// The input carries no witness script.
    MissingWitnessScript,
    /// The witness script is not the channel's funding script.
    WitnessScriptMismatch,
    /// The input's sequence number is not the maximum.
    InvalidSequence,
    /// The transaction's lock time is not zero.
    NonZeroLocktime,
    /// No output pays the payee.
    MissingPayeeOutput,
    /// The payee's output does not exceed what was already sent.
    PaymentNotIncremental,
    /// The outputs together exceed the capacity.
    OutputsExceedFundingAmount,
    /// The payer's signature is absent.
    MissingSignature,
    /// The payer's signature does not commit to all outputs.
    InvalidSighash,
    /// The payer's signature does not verify.
    InvalidSignature,
}

/// Data that a final transaction needs is absent.
#[non_exhaustive]
#[derive(Debug, PartialEq, Eq)]
pub enum FinalizeError {
    /// The signature of this key is absent.
    MissingSignature { public_key: PublicKey },
    /// The input carries no witness script.
    MissingWitnessScript,
}

/// Every failure of this crate, grouped by the operation that reports it.
#[non_exhaustive]
#[derive(Debug, PartialEq, Eq)]
pub enum SpillError {
    /// A channel parameter is invalid.
    Config(ConfigError),
    /// The claimed funding transaction does not fund the channel.
    Funding(FundingError),
    /// A payment cannot be built, or a received payment is rejected.
    Payment(PaymentError),
    /// Data that a final transaction needs is absent.
    Finalize(FinalizeError),
}

/// The text that describes a failure.
pub open spec fn error_message(error: SpillError) -> Seq<char> {
    match error {
        SpillError::Config(e) => match e {
            ConfigError::InvalidCapacity => "channel capacity must be non-zero."@,
            ConfigError::UncompressedPublicKey => "public key must be compressed"@,
            ConfigError::InvalidRefundLocktime => "invalid refund locktime (must be greater than 0)"@,
        },
        SpillError::Funding(e) => match e {
            FundingError::TxidMismatch => "funding transaction does not match expected id"@,
            FundingError::OutputNotFound => "funding transaction output not found"@,
            FundingError::ValueMismatch => "funding transaction output value does not match expected"@,
            FundingError::ScriptMismatch => "funding transaction output script does not match expected"@,
        },
        SpillError::Payment(e) => match e {
            PaymentError::ExceedsCapacity { available, required } =>
                "payment exceeds channel capacity (available: "@ + amount_display(available)
                    + ", required: "@ + amount_display(required) + ")"@,
            PaymentError::MultipleInputs => "payment transaction has more than one input"@,
            PaymentError::MissingInput => "payment transaction is missing input"@,
            PaymentError::FundingOutpointMismatch =>
                "payment transaction does not reference funding transaction"@,
            PaymentError::MissingWitnessUtxo => "payment transaction missing witness utxo"@,
            PaymentError::WitnessUtxoMismatch =>
                "payment transaction witness utxo does not match expected"@,
            PaymentError::MissingWitnessScript => "payment transaction missing witness script"@,
            PaymentError::WitnessScriptMismatch =>
                "payment transaction witness script does not match expected"@,
            PaymentError::InvalidSequence => "payment transaction sequence is not MAX"@,
            PaymentError::NonZeroLocktime => "payment transaction uses non-final locktime"@,
            PaymentError::MissingPayeeOutput => "payment transaction missing output to payee"@,
            PaymentError::PaymentNotIncremental =>
                "payee output value must be greater than previous payment"@,
            PaymentError::OutputsExceedFundingAmount =>
                "payment transaction outputs exceed funding amount"@,
            PaymentError::MissingSignature => "payment transaction missing payer's signature"@,
            PaymentError::InvalidSighash => "payment transaction signature has invalid sighash"@,
            PaymentError::InvalidSignature => "payment transaction signature is invalid"@,
        },
        SpillError::Finalize(e) => match e {
            FinalizeError::MissingSignature { public_key } =>
                "PSBT is missing signature for public key "@ + lower_hex(public_key@),
            FinalizeError::MissingWitnessScript => "PSBT is missing witness script"@,
        },
    }
}

impl SpillError {
    /// Describes the failure in words. Amounts are written as the `bitcoin`
    /// crate displays them, a key as its bytes in hexadecimal notation.
    pub fn message(&self) -> (text: String)
        ensures
            text@ == error_message(*self),
    {
        match self {
            SpillError::Config(e) => match e {
                ConfigError::InvalidCapacity => String::from_str("channel capacity must be non-zero."),
                ConfigError::UncompressedPublicKey => String::from_str("public key must be compressed"),
                ConfigError::InvalidRefundLocktime => String::from_str(
                    "invalid refund locktime (must be greater than 0)",
                ),
            },
            SpillError::Funding(e) => match e {
                FundingError::TxidMismatch => String::from_str(
                    "funding transaction does not match expected id",
                ),
                FundingError::OutputNotFound => String::from_str("funding transaction output not found"),
                FundingError::ValueMismatch => String::from_str(
                    "funding transaction output value does not match expected",
                ),
                FundingError::ScriptMismatch => String::from_str(
                    "funding transaction output script does not match expected",
                ),
            },
            SpillError::Payment(e) => match e {
                PaymentError::ExceedsCapacity { available, required } => {
                    let mut text = String::from_str("payment exceeds channel capacity (available: ");
                    let available_text = amount_text(*available);
                    text.append(available_text.as_str());
                    text.append(", required: ");
                    let required_text = amount_text(*required);
                    text.append(required_text.as_str());
                    text.append(")");
                    text
                },
                PaymentError::MultipleInputs => String::from_str(
                    "payment transaction has more than one input",
                ),
                PaymentError::MissingInput => String::from_str("payment transaction is missing input"),
                PaymentError::FundingOutpointMismatch => String::from_str(
                    "payment transaction does not reference funding transaction",
                ),
                PaymentError::MissingWitnessUtxo => String::from_str(
                    "payment transaction missing witness utxo",
                ),
                PaymentError::WitnessUtxoMismatch => String::from_str(
                    "payment transaction witness utxo does not match expected",
                ),
                PaymentError::MissingWitnessScript => String::from_str(
                    "payment transaction missing witness script",
                ),
                PaymentError::WitnessScriptMismatch => String::from_str(
                    "payment transaction witness script does not match expected",
                ),
                PaymentError::InvalidSequence => String::from_str(
                    "payment transaction sequence is not MAX",
                ),
                PaymentError::NonZeroLocktime => String::from_str(
                    "payment transaction uses non-final locktime",
                ),
                PaymentError::MissingPayeeOutput => String::from_str(
                    "payment transaction missing output to payee",
                ),
                PaymentError::PaymentNotIncremental => String::from_str(
                    "payee output value must be greater than previous payment",
                ),
                PaymentError::OutputsExceedFundingAmount => String::from_str(
                    "payment transaction outputs exceed funding amount",
                ),
                PaymentError::MissingSignature => String::from_str(
                    "payment transaction missing payer's signature",
                ),
                PaymentError::InvalidSighash => String::from_str(
                    "payment transaction signature has invalid sighash",
                ),
                PaymentError::InvalidSignature => String::from_str(
                    "payment transaction signature is invalid",
                ),
            },
            SpillError::Finalize(e) => match e {
                FinalizeError::MissingSignature { public_key } => {
                    let mut text = String::from_str("PSBT is missing signature for public key ");
                    let key_text = to_lower_hex(&public_key.bytes);
                    text.append(key_text.as_str());
                    text
                },
                FinalizeError::MissingWitnessScript => String::from_str("PSBT is missing witness script"),
            },
        }
    }
}

} // verus!
