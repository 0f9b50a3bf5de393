//! What only the `bitcoin` crate computes: the id of a transaction, the
//! hash that a signature signs, whether a signature verifies, and the text
//! for an amount.

use vstd::prelude::*;
use bitcoin::absolute::LockTime;
use bitcoin::hashes;
use bitcoin::secp256k1::{ecdsa::Signature, Message, PublicKey, Secp256k1};
use bitcoin::sighash::SighashCache;
use bitcoin::transaction::Version;
use bitcoin::{Amount, EcdsaSighashType, OutPoint, Script, Sequence, Transaction, TxIn, TxOut};
use crate::tx::TransactionView;

verus! {

/// The id of a transaction: the double SHA-256 of its serialization
/// without witness data.
pub uninterp spec fn txid(tx: TransactionView) -> Seq<u8>;

/// The BIP 143 signature hash of a transaction for spending, with its input
/// `input_index`, a P2WSH output of `value` satoshi that commits to
/// `witness_script`, under the signature hash type that
/// `EcdsaSighashType::from_consensus` reads from `sighash_flag`.
pub uninterp spec fn p2wsh_sighash(
    tx: TransactionView,
    input_index: int,
    witness_script: Seq<u8>,
    value: u64,
    sighash_flag: u32,
) -> Seq<u8>;

/// Whether `signature`, the DER encoding of an ECDSA signature, verifies
/// under the serialized public key `key` for the 32-byte message `digest`.
/// It does not where the signature or the key cannot be decoded.
pub uninterp spec fn ecdsa_verifies(digest: Seq<u8>, signature: Seq<u8>, key: Seq<u8>) -> bool;

/// An amount of satoshi as the `bitcoin` crate displays it.
pub uninterp spec fn amount_display(satoshi: u64) -> Seq<char>;

/// `Amount`'s `Display`: the text for an amount, a function of the amount
/// alone.
#[verifier::external_body]
pub(crate) fn amount_text(satoshi: u64) -> (text: String)
    ensures
        text@ == amount_display(satoshi),
{
    Amount::from_sat(satoshi).to_string()
}

/// `Transaction::compute_txid`: the transaction id, a function of the
/// transaction's fields alone. The id does not read the witnesses of the
/// inputs, which the conversion leaves empty.
#[verifier::external_body]
pub(crate) fn compute_txid(tx: &crate::tx::Transaction) -> (id: [u8; 32])
    ensures
        id@ == txid(tx@),
{
    let input = tx.input.iter().map(|i| TxIn {
        previous_output: OutPoint::new(hashes::Hash::from_byte_array(i.previous_output.txid), i.previous_output.vout),
        script_sig: i.script_sig.clone().into(),
        sequence: Sequence(i.sequence),
        ..Default::default()
    }).collect();
    let output = tx.output.iter().map(|o| TxOut {
        value: Amount::from_sat(o.value),
        script_pubkey: o.script_pubkey.clone().into(),
    }).collect();
    let version = Version(tx.version);
    let lock_time = LockTime::from_consensus(tx.lock_time);
    hashes::Hash::to_byte_array(Transaction { version, lock_time, input, output }.compute_txid())
}

/// `SighashCache::p2wsh_signature_hash`: the signature hash, a function of
/// the transaction, the index, the script, the value and the type alone.
/// The hash does not read the unlocking data of the inputs, which the
/// conversion leaves empty. The call fails only for an index that names no
/// input, which the precondition leaves out.
#[verifier::external_body]
pub(crate) fn p2wsh_signature_hash(
    tx: &crate::tx::Transaction,
    input_index: usize,
    witness_script: &Vec<u8>,
    value: u64,
    sighash_flag: u32,
) -> (digest: [u8; 32])
    requires
        input_index < tx@.input.len(),
    ensures
        digest@ == p2wsh_sighash(tx@, input_index as int, witness_script@, value, sighash_flag),
{
    let input = tx.input.iter().map(|i| TxIn {
        previous_output: OutPoint::new(hashes::Hash::from_byte_array(i.previous_output.txid), i.previous_output.vout),
        sequence: Sequence(i.sequence),
        ..Default::default()
    }).collect();
    let output = tx.output.iter().map(|o| TxOut {
        value: Amount::from_sat(o.value),
        script_pubkey: o.script_pubkey.clone().into(),
    }).collect();
    let tx = Transaction { version: Version(tx.version), lock_time: LockTime::from_consensus(tx.lock_time), input, output };
    let ty = EcdsaSighashType::from_consensus(sighash_flag);
    let hash = SighashCache::new(&tx)
        .p2wsh_signature_hash(input_index, Script::from_bytes(witness_script), Amount::from_sat(value), ty);
    hashes::Hash::to_byte_array(hash.unwrap())
}

/// `Secp256k1::verify_ecdsa`: whether the signature verifies under the key
/// for the digest. A signature or a key that `Signature::from_der` or
/// `PublicKey::from_slice` refuses does not verify.
#[verifier::external_body]
pub(crate) fn verify_ecdsa(digest: &[u8; 32], signature: &Vec<u8>, key: &Vec<u8>) -> (valid: bool)
    ensures
        valid == ecdsa_verifies(digest@, signature@, key@),
{
    match (Signature::from_der(signature), PublicKey::from_slice(key)) {
        (Ok(s), Ok(k)) => {
            Secp256k1::verification_only().verify_ecdsa(&Message::from_digest(*digest), &s, &k).is_ok()
        },
        _ => false,
    }
}

} // verus!
