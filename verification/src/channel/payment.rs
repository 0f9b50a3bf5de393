//! Building the next payment and applying a received one.

use vstd::prelude::*;
use crate::channel::verify::{lemma_checked_payment_is_bounded, payment_verdict};
use crate::channel::{Channel, ChannelView};
use crate::error::{PaymentError, SpillError};
use crate::psbt::{empty_output, Psbt, PsbtInputView, PsbtView};
use crate::script::{p2wpkh, p2wpkh_script, SEQUENCE_MAX};
use crate::tx::{Transaction, TransactionView, TxIn, TxInView, TxOut, TxOutView, TX_VERSION};

verus! {

/// What a verified payment amounts to, in satoshi.
#[derive(Debug, Clone, Copy, PartialEq, Eq)]
pub struct PaymentInfo {
    /// What the payee has been paid in all, this payment included.
    pub total: u64,
    /// What this payment adds to what the payee had before.
    pub current: u64,
    /// What the transaction leaves to the miners.
    pub fee: u64,
}

/// What the channel's one input declares before it is signed: the funding
/// output that it spends and the funding script.
pub open spec fn funding_input(channel: ChannelView) -> PsbtInputView {
    PsbtInputView {
        witness_utxo: Some(channel.funding_utxo),
        witness_script: Some(channel.params.funding_script),
        partial_sigs: Seq::empty(),
        final_script_witness: None,
    }
}

/// The unsigned payment that pays `amount` more to the payee and leaves
/// `fee` to the miners: one input that spends the funding output with the
/// maximal sequence number; a first output that pays the payee `amount` and
/// all that was sent before; a second output that pays the payer the rest
/// of the capacity; version 2 and lock time zero.
pub open spec fn payment_psbt(channel: ChannelView, amount: u64, fee: u64) -> PsbtView {
    let total = amount + channel.sent;
    PsbtView {
        unsigned_tx: TransactionView {
            version: TX_VERSION,
            lock_time: 0,
            input: seq![
                TxInView {
                    previous_output: channel.funding_outpoint,
                    script_sig: Seq::empty(),
                    sequence: SEQUENCE_MAX,
                    witness: Seq::empty(),
                },
            ],
            output: seq![
                TxOutView { value: total as u64, script_pubkey: p2wpkh_script(channel.params.payee) },
                TxOutView {
                    value: (channel.params.capacity - total - fee) as u64,
                    script_pubkey: p2wpkh_script(channel.params.payer),
                },
            ],
        },
        inputs: seq![funding_input(channel)],
        outputs: seq![empty_output(), empty_output()],
    }
}

impl Channel {
    /// Builds the next payment, unsigned: `amount` more for the payee, `fee`
    /// for the miners. It is refused if the amount, the fee and what was
    /// sent before exceed the capacity together. The channel does not
    /// change. The sum of the three must fit in 64 bits.
    pub fn next_payment(&self, amount: u64, fee: u64) -> (payment: Result<Psbt, SpillError>)
        requires
            amount + self@.sent + fee <= u64::MAX,
        ensures
            amount + self@.sent + fee > self@.params.capacity ==> payment == Err::<Psbt, SpillError>(
                SpillError::Payment(
                    PaymentError::ExceedsCapacity {
                        available: self@.params.capacity,
                        required: (amount + self@.sent + fee) as u64,
                    },
                ),
            ),
            amount + self@.sent + fee <= self@.params.capacity ==> (payment matches Ok(psbt)
                && psbt@ == payment_psbt(self@, amount, fee) && psbt@.wf()),
    {
        proof {
            use_type_invariant(self);
            use_type_invariant(&self.params);
        }
        let required: u64 = amount + self.sent + fee;
        if required > self.params.capacity {
            return Err(
                SpillError::Payment(
                    PaymentError::ExceedsCapacity { available: self.params.capacity, required },
                ),
            );
        }
        let input = TxIn {
            previous_output: self.funding_outpoint,
            script_sig: Vec::new(),
            sequence: SEQUENCE_MAX,
            witness: Vec::new(),
        };
        let payment = TxOut {
            value: amount + self.sent,
            script_pubkey: p2wpkh(&self.params.payee).unwrap(),
        };
        let change = TxOut {
            value: self.params.capacity - required,
            script_pubkey: p2wpkh(&self.params.payer).unwrap(),
        };
        let tx = Transaction {
            version: TX_VERSION,
            lock_time: 0,
            input: vec![input],
            output: vec![payment, change],
        };
        assert(tx@.input[0].witness =~= Seq::empty());
        let mut psbt = Psbt::from_unsigned_tx(tx).unwrap();
        assert(psbt.inputs.len() == psbt@.inputs.len());
        assert(psbt.inputs[0]@ == psbt@.inputs[0]);
        psbt.inputs[0].witness_script = Some(self.params.funding_script.clone());
        psbt.inputs[0].witness_utxo = Some(self.funding_utxo.clone());
        proof {
            let expected = payment_psbt(self@, amount, fee);
            assert(psbt@.unsigned_tx.input =~= expected.unsigned_tx.input);
            assert(psbt@.unsigned_tx.output =~= expected.unsigned_tx.output);
            assert(psbt@.inputs =~= expected.inputs);
            assert(psbt@.outputs =~= expected.outputs);
        }
        Ok(psbt)
    }

    /// Verifies a payment and, if it is accepted, records it: what was sent
    /// becomes the payment's total. A payment that is refused leaves the
    /// channel as it was. What was sent never decreases and never exceeds
    /// the capacity.
    pub fn apply_payment(&mut self, psbt: &Psbt) -> (applied: Result<PaymentInfo, SpillError>)
        ensures
            applied == payment_verdict(old(self)@, psbt@),
            match applied {
                Ok(info) => final(self)@ == (ChannelView { sent: info.total, ..old(self)@ }),
                Err(_) => final(self)@ == old(self)@,
            },
            old(self)@.sent <= final(self)@.sent <= final(self)@.params.capacity,
    {
        proof {
            use_type_invariant(&*self);
        }
        let info = self.verify_payment_psbt(psbt)?;
        proof {
            lemma_checked_payment_is_bounded(self@, psbt@, p2wpkh_script(self@.params.payee));
        }
        self.sent = info.total;
        Ok(info)
    }
}

} // verus!
