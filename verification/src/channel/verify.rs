//! Checking what the counterparty hands over: the funding transaction and
//! each payment.

use vstd::prelude::*;
use crate::bytes::hash_eq;
use crate::channel::payment::PaymentInfo;
use crate::channel::{Channel, ChannelParams, ChannelView};
use crate::consensus::{
    compute_txid, ecdsa_verifies, p2wsh_sighash, p2wsh_signature_hash, txid, verify_ecdsa,
};
use crate::error::{FundingError, PaymentError, SpillError};
use crate::psbt::{find_partial_sig, sighash_flag, Psbt, PsbtView, SighashType};
use crate::script::{p2wpkh, p2wpkh_script, p2wsh, p2wsh_script, SEQUENCE_MAX};
use crate::tx::{
    find_output, lemma_found_output_is_counted, total_value, OutPoint, Transaction,
    TransactionView, TxOut,
};

verus! {

/// The reason for which a transaction is refused as the funding of a
/// channel of the given capacity, if it is. `computed_txid` is the id of the
/// transaction and `expected_script` the output script that pays to the
/// channel's funding script.
pub open spec fn funding_error(
    capacity: u64,
    expected_script: Seq<u8>,
    computed_txid: Seq<u8>,
    tx: TransactionView,
    outpoint: OutPoint,
) -> Option<FundingError> {
    if computed_txid != outpoint.txid@ {
        Some(FundingError::TxidMismatch)
    } else if outpoint.vout >= tx.output.len() {
        Some(FundingError::OutputNotFound)
    } else if tx.output[outpoint.vout as int].value != capacity {
        Some(FundingError::ValueMismatch)
    } else if tx.output[outpoint.vout as int].script_pubkey != expected_script {
        Some(FundingError::ScriptMismatch)
    } else {
        None
    }
}

/// Checks a transaction against a claimed outpoint, given the id of the
/// transaction and the output script that funds the channel. The checks
/// come in this order: the id is the claimed one; the claimed output
/// exists; its value is the capacity; its script is the expected one. On
/// success the result is the output that funds the channel.
pub fn check_funding_output<'a>(
    capacity: u64,
    expected_script: &Vec<u8>,
    computed_txid: &[u8; 32],
    tx: &'a Transaction,
    outpoint: &OutPoint,
) -> (checked: Result<&'a TxOut, FundingError>)
    ensures
        match funding_error(capacity, expected_script@, computed_txid@, tx@, *outpoint) {
            Some(e) => checked == Err::<&TxOut, FundingError>(e),
            None => checked matches Ok(output) && output@ == tx@.output[outpoint.vout as int],
        },
{
    if !hash_eq(computed_txid, &outpoint.txid) {
        return Err(FundingError::TxidMismatch);
    }
    let index = outpoint.vout as usize;
    if index >= tx.output.len() {
        return Err(FundingError::OutputNotFound);
    }
    let output = &tx.output[index];
    if output.value != capacity {
        return Err(FundingError::ValueMismatch);
    }
    let same_script = output.script_pubkey == *expected_script;
    proof {
        if same_script {
            assert(output.script_pubkey@ =~= expected_script@);
        }
    }
    if !same_script {
        return Err(FundingError::ScriptMismatch);
    }
    Ok(output)
}

impl ChannelParams {
    /// Checks the transaction that the counterparty claims to fund the
    /// channel, and opens the channel on it. The transaction is accepted
    /// if and only if its id is the one in `outpoint`, it has an output at
    /// the index in `outpoint`, that output holds exactly the capacity, and
    /// it pays to the channel's funding script; each failed check has its
    /// own error, and the first one that fails decides.
    pub fn verify_funding_tx(&self, tx: &Transaction, outpoint: OutPoint) -> (channel: Result<
        Channel,
        SpillError,
    >)
        ensures
            match funding_error(
                self@.capacity,
                p2wsh_script(self@.funding_script),
                txid(tx@),
                tx@,
                outpoint,
            ) {
                Some(e) => channel == Err::<Channel, SpillError>(SpillError::Funding(e)),
                None => channel matches Ok(c) && c@ == (ChannelView {
                    params: self@,
                    funding_outpoint: outpoint,
                    funding_utxo: tx@.output[outpoint.vout as int],
                    sent: 0,
                }) && c@.wf(),
            },
    {
        proof {
            use_type_invariant(self);
        }
        let computed_txid = compute_txid(tx);
        let expected_script = p2wsh(&self.funding_script);
        match check_funding_output(self.capacity, &expected_script, &computed_txid, tx, &outpoint) {
            Err(e) => Err(SpillError::Funding(e)),
            Ok(output) => Ok(
                Channel {
                    params: self.clone(),
                    funding_outpoint: outpoint,
                    funding_utxo: output.clone(),
                    sent: 0,
                },
            ),
        }
    }
}

/// What the checks of a payment that need no signature verification give:
/// the first error in their order, or what the payment amounts to.
/// `payee_script` is the output script that pays to the payee.
///
/// The artifact must have exactly one input, which spends the funding
/// output, declares the funding output as the output it spends and the
/// funding script as its witness script, and has the maximal sequence
/// number; the lock time must be zero; an output must pay the payee, more
/// than was sent before; the outputs together must not exceed the capacity;
/// the payer's signature must be present and commit to all outputs.
pub open spec fn payment_check(channel: ChannelView, psbt: PsbtView, payee_script: Seq<u8>) -> Result<
    PaymentInfo,
    PaymentError,
> {
    let tx = psbt.unsigned_tx;
    let input = psbt.inputs[0];
    let payment = find_output(tx.output, payee_script);
    let signature = find_partial_sig(input.partial_sigs, channel.params.payer);
    if psbt.inputs.len() > 1 || tx.input.len() > 1 {
        Err(PaymentError::MultipleInputs)
    } else if psbt.inputs.len() == 0 || tx.input.len() == 0 {
        Err(PaymentError::MissingInput)
    } else if tx.input[0].previous_output != channel.funding_outpoint {
        Err(PaymentError::FundingOutpointMismatch)
    } else if input.witness_utxo is None {
        Err(PaymentError::MissingWitnessUtxo)
    } else if input.witness_utxo != Some(channel.funding_utxo) {
        Err(PaymentError::WitnessUtxoMismatch)
    } else if input.witness_script is None {
        Err(PaymentError::MissingWitnessScript)
    } else if input.witness_script != Some(channel.params.funding_script) {
        Err(PaymentError::WitnessScriptMismatch)
    } else if tx.input[0].sequence != SEQUENCE_MAX {
        Err(PaymentError::InvalidSequence)
    } else if tx.lock_time != 0 {
        Err(PaymentError::NonZeroLocktime)
    } else if payment is None {
        Err(PaymentError::MissingPayeeOutput)
    } else if payment->0.value <= channel.sent {
        Err(PaymentError::PaymentNotIncremental)
    } else if total_value(tx.output) > channel.params.capacity {
        Err(PaymentError::OutputsExceedFundingAmount)
    } else if signature is None {
        Err(PaymentError::MissingSignature)
    } else if signature->0.sighash_type != SighashType::All {
        Err(PaymentError::InvalidSighash)
    } else {
        Ok(
            PaymentInfo {
                total: payment->0.value,
                current: (payment->0.value - channel.sent) as u64,
                fee: (channel.params.capacity - total_value(tx.output)) as u64,
            },
        )
    }
}

/// Whether the payer's signature on the one input of a payment verifies:
/// under the payer's key, for the signature hash of that input against the
/// funding script and the capacity.
pub open spec fn payer_signature_verifies(channel: ChannelView, psbt: PsbtView) -> bool {
    let signature = find_partial_sig(psbt.inputs[0].partial_sigs, channel.params.payer)->0;
    ecdsa_verifies(
        p2wsh_sighash(
            psbt.unsigned_tx,
            0,
            channel.params.funding_script,
            channel.params.capacity,
            sighash_flag(signature.sighash_type),
        ),
        signature.signature,
        channel.params.payer,
    )
}

/// What the verification of a payment gives, from what the checks before
/// the signature verification gave and from whether the signature verifies.
pub open spec fn payment_result(checked: Result<PaymentInfo, PaymentError>, signature_verifies: bool) -> Result<
    PaymentInfo,
    SpillError,
> {
    match checked {
        Err(e) => Err(SpillError::Payment(e)),
        Ok(info) => if signature_verifies {
            Ok(info)
        } else {
            Err(SpillError::Payment(PaymentError::InvalidSignature))
        },
    }
}

/// What the verification of a payment against a channel gives.
pub open spec fn payment_verdict(channel: ChannelView, psbt: PsbtView) -> Result<PaymentInfo, SpillError> {
    payment_result(
        payment_check(channel, psbt, p2wpkh_script(channel.params.payee)),
        payer_signature_verifies(channel, psbt),
    )
}

/// What a payment that passes the checks amounts to is more than what was
/// sent before and no more than the capacity, and the parts add up.
pub proof fn lemma_checked_payment_is_bounded(channel: ChannelView, psbt: PsbtView, payee_script: Seq<u8>)
    requires
        payment_check(channel, psbt, payee_script) is Ok,
    ensures
        ({
            let info = payment_check(channel, psbt, payee_script)->Ok_0;
            &&& channel.sent < info.total <= channel.params.capacity
            &&& info.current == info.total - channel.sent
            &&& info.fee == channel.params.capacity - total_value(psbt.unsigned_tx.output)
            &&& info.total + info.fee <= channel.params.capacity
        }),
{
    lemma_found_output_is_counted(psbt.unsigned_tx.output, payee_script);
}

impl Channel {
    /// Checks a payment but for the verification of the payer's signature,
    /// given the output script that pays to the payee. The checks come in
    /// the order of `payment_check`, and the first one that fails decides.
    pub fn check_payment(&self, psbt: &Psbt, payee_script: &Vec<u8>) -> (checked: Result<
        PaymentInfo,
        PaymentError,
    >)
        ensures
            checked == payment_check(self@, psbt@, payee_script@),
    {
        proof {
            use_type_invariant(self);
        }
        if psbt.inputs.len() > 1 || psbt.unsigned_tx.input.len() > 1 {
            return Err(PaymentError::MultipleInputs);
        }
        if psbt.inputs.len() == 0 || psbt.unsigned_tx.input.len() == 0 {
            return Err(PaymentError::MissingInput);
        }
        let txin = &psbt.unsigned_tx.input[0];
        let input = &psbt.inputs[0];
        if !txin.previous_output.same_as(&self.funding_outpoint) {
            return Err(PaymentError::FundingOutpointMismatch);
        }
        match &input.witness_utxo {
            None => {
                return Err(PaymentError::MissingWitnessUtxo);
            },
            Some(utxo) => {
                if !utxo.same_as(&self.funding_utxo) {
                    return Err(PaymentError::WitnessUtxoMismatch);
                }
            },
        }
        match &input.witness_script {
            None => {
                return Err(PaymentError::MissingWitnessScript);
            },
            Some(script) => {
                let same = *script == self.params.funding_script;
                proof {
                    if same {
                        assert(script@ =~= self.params.funding_script@);
                    }
                }
                if !same {
                    return Err(PaymentError::WitnessScriptMismatch);
                }
            },
        }
        if txin.sequence != SEQUENCE_MAX {
            return Err(PaymentError::InvalidSequence);
        }
        if psbt.unsigned_tx.lock_time != 0 {
            return Err(PaymentError::NonZeroLocktime);
        }
        let total: u64 = match psbt.unsigned_tx.find_output(payee_script) {
            None => {
                return Err(PaymentError::MissingPayeeOutput);
            },
            Some(payment) => payment.value,
        };
        if total <= self.sent {
            return Err(PaymentError::PaymentNotIncremental);
        }
        let outputs: u64 = match psbt.unsigned_tx.total_output_value() {
            None => {
                return Err(PaymentError::OutputsExceedFundingAmount);
            },
            Some(sum) => sum,
        };
        if outputs > self.params.capacity {
            return Err(PaymentError::OutputsExceedFundingAmount);
        }
        match input.partial_sig(&self.params.payer) {
            None => {
                return Err(PaymentError::MissingSignature);
            },
            Some(signature) => {
                if !signature.sighash_type.is_all() {
                    return Err(PaymentError::InvalidSighash);
                }
            },
        }
        Ok(PaymentInfo { total, current: total - self.sent, fee: self.params.capacity - outputs })
    }

    /// Verifies a payment that the payer hands over, without changing the
    /// channel. The payment is accepted if and only if it passes every
    /// check of `payment_check` and the payer's signature verifies for the
    /// signature hash that is computed here from the transaction, the
    /// funding script and the capacity; the result then tells what the
    /// payment amounts to.
    pub fn verify_payment_psbt(&self, psbt: &Psbt) -> (verdict: Result<PaymentInfo, SpillError>)
        ensures
            verdict == payment_verdict(self@, psbt@),
    {
        proof {
            use_type_invariant(self);
            use_type_invariant(&self.params);
        }
        let payee_script = p2wpkh(&self.params.payee).unwrap();
        let info = match self.check_payment(psbt, &payee_script) {
            Err(e) => {
                return Err(SpillError::Payment(e));
            },
            Ok(info) => info,
        };
        let signature = psbt.inputs[0].partial_sig(&self.params.payer).unwrap();
        let digest = p2wsh_signature_hash(
            &psbt.unsigned_tx,
            0,
            &self.params.funding_script,
            self.params.capacity,
            signature.sighash_type.to_u32(),
        );
        let verifies = verify_ecdsa(&digest, &signature.signature, &self.params.payer.bytes);
        conclude_payment(info, verifies)
    }
}

/// Accepts a payment that passed the checks before the signature
/// verification if the signature verifies, and refuses it if not.
pub fn conclude_payment(info: PaymentInfo, signature_verifies: bool) -> (verdict: Result<
    PaymentInfo,
    SpillError,
>)
    ensures
        verdict == payment_result(Ok(info), signature_verifies),
{
    if signature_verifies {
        Ok(info)
    } else {
        Err(SpillError::Payment(PaymentError::InvalidSignature))
    }
}

} // verus!
