//! The unsigned transactions that open and that unwind a channel.

use vstd::prelude::*;
use crate::channel::payment::funding_input;
use crate::channel::{Channel, ChannelParams, ChannelParamsView, ChannelView};
use crate::psbt::{Psbt, PsbtOutputView, PsbtView};
use crate::script::{p2wsh, p2wsh_script};
use crate::tx::{Transaction, TransactionView, TxIn, TxInView, TxOut, TxOutView, TX_VERSION};

verus! {

/// The skeleton of the funding transaction: no input yet, and one output
/// that pays the capacity to the funding script and carries that script;
/// version 2 and lock time zero.
pub open spec fn funding_psbt(params: ChannelParamsView) -> PsbtView {
    PsbtView {
        unsigned_tx: TransactionView {
            version: TX_VERSION,
            lock_time: 0,
            input: Seq::empty(),
            output: seq![
                TxOutView {
                    value: params.capacity,
                    script_pubkey: p2wsh_script(params.funding_script),
                },
            ],
        },
        inputs: Seq::empty(),
        outputs: seq![PsbtOutputView { witness_script: Some(params.funding_script) }],
    }
}

/// The skeleton of the refund transaction: one input that spends the
/// funding output with the refund delay as its sequence number, and no
/// output yet; version 2 and lock time zero.
pub open spec fn refund_psbt(channel: ChannelView) -> PsbtView {
    PsbtView {
        unsigned_tx: TransactionView {
            version: TX_VERSION,
            lock_time: 0,
            input: seq![
                TxInView {
                    previous_output: channel.funding_outpoint,
                    script_sig: Seq::empty(),
                    sequence: channel.params.refund_locktime,
                    witness: Seq::empty(),
                },
            ],
            output: Seq::empty(),
        },
        inputs: seq![funding_input(channel)],
        outputs: Seq::empty(),
    }
}

impl ChannelParams {
    /// Builds the skeleton of the funding transaction. The payer adds the
    /// inputs that fund it and an output for the change, and signs it.
    pub fn funding_psbt(&self) -> (psbt: Psbt)
        ensures
            psbt@ == funding_psbt(self@),
            psbt@.wf(),
    {
        proof {
            use_type_invariant(self);
        }
        let output = TxOut { value: self.capacity, script_pubkey: p2wsh(&self.funding_script) };
        let tx = Transaction {
            version: TX_VERSION,
            lock_time: 0,
            input: Vec::new(),
            output: vec![output],
        };
        let mut psbt = Psbt::from_unsigned_tx(tx).unwrap();
        assert(psbt.outputs.len() == psbt@.outputs.len());
        psbt.outputs[0].witness_script = Some(self.funding_script.clone());
        proof {
            let expected = funding_psbt(self@);
            assert(psbt@.unsigned_tx.input =~= expected.unsigned_tx.input);
            assert(psbt@.unsigned_tx.output =~= expected.unsigned_tx.output);
            assert(psbt@.inputs =~= expected.inputs);
            assert(psbt@.outputs =~= expected.outputs);
        }
        psbt
    }
}

impl Channel {
    /// Builds the skeleton of the refund transaction. The payer adds the
    /// output that takes the funds back, less a fee, and signs it; the
    /// transaction is valid once the refund delay has passed.
    pub fn refund_psbt(&self) -> (psbt: Psbt)
        ensures
            psbt@ == refund_psbt(self@),
            psbt@.wf(),
    {
        proof {
            use_type_invariant(self);
            use_type_invariant(&self.params);
        }
        let input = TxIn {
            previous_output: self.funding_outpoint,
            script_sig: Vec::new(),
            sequence: self.params.refund_locktime,
            witness: Vec::new(),
        };
        let tx = Transaction {
            version: TX_VERSION,
            lock_time: 0,
            input: vec![input],
            output: Vec::new(),
        };
        assert(tx@.input[0].witness =~= Seq::empty());
        let mut psbt = Psbt::from_unsigned_tx(tx).unwrap();
        assert(psbt.inputs.len() == psbt@.inputs.len());
        assert(psbt.inputs[0]@ == psbt@.inputs[0]);
        psbt.inputs[0].witness_utxo = Some(self.funding_utxo.clone());
        psbt.inputs[0].witness_script = Some(self.params.funding_script.clone());
        proof {
            let expected = refund_psbt(self@);
            assert(psbt@.unsigned_tx.input =~= expected.unsigned_tx.input);
            assert(psbt@.unsigned_tx.output =~= expected.unsigned_tx.output);
            assert(psbt@.inputs =~= expected.inputs);
            assert(psbt@.outputs =~= expected.outputs);
        }
        psbt
    }
}

} // verus!
