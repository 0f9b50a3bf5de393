//! Turning collected signatures into the witness that spends the funding
//! output, by either branch of the funding script.

use vstd::prelude::*;
use crate::channel::Channel;
use crate::error::{FinalizeError, SpillError};
use crate::psbt::{
    find_partial_sig, sighash_flag, PartialSig, PartialSigView, Psbt, PsbtInputView, PsbtView,
};

verus! {

/// The two ways to spend the funding output, one for each branch of the
/// funding script.
#[derive(Debug, Clone, Copy, PartialEq, Eq)]
pub enum Branch {
    /// Payer and payee settle together.
    Payment,
    /// The payer takes the funds back after the refund delay.
    Refund,
}

/// The witness item that selects a branch of the funding script: true for
/// the payment, false for the refund.
pub open spec fn selector(branch: Branch) -> u8 {
    match branch {
        Branch::Payment => 1,
        Branch::Refund => 0,
    }
}

impl Branch {
    /// The witness item that selects the branch.
    pub fn selector(self) -> (byte: u8)
        ensures
            byte == selector(self),
    {
        match self {
            Branch::Payment => 1,
            Branch::Refund => 0,
        }
    }
}

/// A signature as a witness item: its DER encoding, then one byte for the
/// signature hash type.
pub open spec fn signature_item(signature: PartialSigView) -> Seq<u8> {
    signature.signature.push(sighash_flag(signature.sighash_type) as u8)
}

/// The witness stack of the payment branch: an empty item, which the
/// multi-signature check consumes beyond the signatures; the payer's
/// signature; the payee's signature; the selector; the funding script.
pub open spec fn payment_witness(payer: PartialSigView, payee: PartialSigView, script: Seq<u8>) -> Seq<
    Seq<u8>,
> {
    seq![
        Seq::empty(),
        signature_item(payer),
        signature_item(payee),
        seq![selector(Branch::Payment)],
        script,
    ]
}

/// The witness stack of the refund branch: the payer's signature; the
/// selector; the funding script.
pub open spec fn refund_witness(payer: PartialSigView, script: Seq<u8>) -> Seq<Seq<u8>> {
    seq![signature_item(payer), seq![selector(Branch::Refund)], script]
}

/// Whether an artifact carries no signature of `key` on its first input.
/// One without inputs carries none.
pub open spec fn lacks_signature(psbt: PsbtView, key: Seq<u8>) -> bool {
    psbt.inputs.len() == 0 || find_partial_sig(psbt.inputs[0].partial_sigs, key) is None
}

/// The signature of `key` on the first input of an artifact.
pub open spec fn signature_of(psbt: PsbtView, key: Seq<u8>) -> PartialSigView {
    find_partial_sig(psbt.inputs[0].partial_sigs, key)->0
}

/// An artifact once its first input is final: the input has the witness
/// and no partial signatures; nothing else has changed.
pub open spec fn finalized(psbt: PsbtView, witness: Seq<Seq<u8>>) -> PsbtView {
    PsbtView {
        inputs: psbt.inputs.update(
            0,
            PsbtInputView {
                partial_sigs: Seq::empty(),
                final_script_witness: Some(witness),
                ..psbt.inputs[0]
            },
        ),
        ..psbt
    }
}

/// Builds the witness item of a signature.
pub fn signature_witness_item(signature: &PartialSig) -> (item: Vec<u8>)
    ensures
        item@ == signature_item(signature@),
{
    let mut item = signature.signature.clone();
    let flag: u32 = signature.sighash_type.to_u32();
    item.push(flag as u8);
    item
}

impl Channel {
    /// Makes a payment final: from the signatures of payer and payee on the
    /// first input it builds the witness of the payment branch, stores it in
    /// the input and removes the partial signatures. It fails, and leaves
    /// the artifact as it was, where the payer's signature is absent, else
    /// where the payee's is, else where the input carries no witness
    /// script. It does not verify the signatures.
    pub fn finalize_payment_tx(&self, psbt: &mut Psbt) -> (done: Result<(), SpillError>)
        ensures
            lacks_signature(old(psbt)@, self@.params.payer) ==> final(psbt)@ == old(psbt)@ && (
            done matches Err(SpillError::Finalize(FinalizeError::MissingSignature { public_key }))
                && public_key@ == self@.params.payer),
            !lacks_signature(old(psbt)@, self@.params.payer) && lacks_signature(
                old(psbt)@,
                self@.params.payee,
            ) ==> final(psbt)@ == old(psbt)@ && (done matches Err(
                SpillError::Finalize(FinalizeError::MissingSignature { public_key }),
            ) && public_key@ == self@.params.payee),
            !lacks_signature(old(psbt)@, self@.params.payer) && !lacks_signature(
                old(psbt)@,
                self@.params.payee,
            ) ==> match old(psbt)@.inputs[0].witness_script {
                None => final(psbt)@ == old(psbt)@ && done == Err::<(), SpillError>(
                    SpillError::Finalize(FinalizeError::MissingWitnessScript),
                ),
                Some(script) => done == Ok::<(), SpillError>(()) && final(psbt)@ == finalized(
                    old(psbt)@,
                    payment_witness(
                        signature_of(old(psbt)@, self@.params.payer),
                        signature_of(old(psbt)@, self@.params.payee),
                        script,
                    ),
                ),
            },
            old(psbt)@.wf() ==> final(psbt)@.wf(),
    {
        if psbt.inputs.len() == 0 {
            return Err(
                SpillError::Finalize(
                    FinalizeError::MissingSignature { public_key: self.params.payer.clone() },
                ),
            );
        }
        let input = &psbt.inputs[0];
        let payer_item = match input.partial_sig(&self.params.payer) {
            None => {
                return Err(
                    SpillError::Finalize(
                        FinalizeError::MissingSignature { public_key: self.params.payer.clone() },
                    ),
                );
            },
            Some(signature) => signature_witness_item(signature),
        };
        let payee_item = match input.partial_sig(&self.params.payee) {
            None => {
                return Err(
                    SpillError::Finalize(
                        FinalizeError::MissingSignature { public_key: self.params.payee.clone() },
                    ),
                );
            },
            Some(signature) => signature_witness_item(signature),
        };
        let script = match &input.witness_script {
            None => {
                return Err(SpillError::Finalize(FinalizeError::MissingWitnessScript));
            },
            Some(script) => script.clone(),
        };
        let ghost stack = payment_witness(
            signature_of(psbt@, self@.params.payer),
            signature_of(psbt@, self@.params.payee),
            script@,
        );
        let mut witness: Vec<Vec<u8>> = Vec::new();
        witness.push(Vec::new());
        witness.push(payer_item);
        witness.push(payee_item);
        witness.push(vec![Branch::Payment.selector()]);
        witness.push(script);
        assert(witness.deep_view() =~~= stack);
        psbt.inputs[0].final_script_witness = Some(witness);
        psbt.inputs[0].partial_sigs = Vec::new();
        proof {
            assert(psbt.inputs[0]@.partial_sigs =~= Seq::empty());
            assert(psbt@.inputs =~= finalized(old(psbt)@, stack).inputs);
        }
        Ok(())
    }

    /// Makes a refund final: from the payer's signature on the first input
    /// it builds the witness of the refund branch, stores it in the input
    /// and removes the partial signatures. It fails, and leaves the artifact
    /// as it was, where the payer's signature is absent, else where the
    /// input carries no witness script. It does not verify the signature.
    pub fn finalize_refund_tx(&self, psbt: &mut Psbt) -> (done: Result<(), SpillError>)
        ensures
            lacks_signature(old(psbt)@, self@.params.payer) ==> final(psbt)@ == old(psbt)@ && (
            done matches Err(SpillError::Finalize(FinalizeError::MissingSignature { public_key }))
                && public_key@ == self@.params.payer),
            !lacks_signature(old(psbt)@, self@.params.payer) ==> match old(
                psbt,
            )@.inputs[0].witness_script {
                None => final(psbt)@ == old(psbt)@ && done == Err::<(), SpillError>(
                    SpillError::Finalize(FinalizeError::MissingWitnessScript),
                ),
                Some(script) => done == Ok::<(), SpillError>(()) && final(psbt)@ == finalized(
                    old(psbt)@,
                    refund_witness(signature_of(old(psbt)@, self@.params.payer), script),
                ),
            },
            old(psbt)@.wf() ==> final(psbt)@.wf(),
    {
        if psbt.inputs.len() == 0 {
            return Err(
                SpillError::Finalize(
                    FinalizeError::MissingSignature { public_key: self.params.payer.clone() },
                ),
            );
        }
        let input = &psbt.inputs[0];
        let payer_item = match input.partial_sig(&self.params.payer) {
            None => {
                return Err(
                    SpillError::Finalize(
                        FinalizeError::MissingSignature { public_key: self.params.payer.clone() },
                    ),
                );
            },
            Some(signature) => signature_witness_item(signature),
        };
        let script = match &input.witness_script {
            None => {
                return Err(SpillError::Finalize(FinalizeError::MissingWitnessScript));
            },
            Some(script) => script.clone(),
        };
        let ghost stack = refund_witness(signature_of(psbt@, self@.params.payer), script@);
        let mut witness: Vec<Vec<u8>> = Vec::new();
        witness.push(payer_item);
        witness.push(vec![Branch::Refund.selector()]);
        witness.push(script);
        assert(witness.deep_view() =~~= stack);
        psbt.inputs[0].final_script_witness = Some(witness);
        psbt.inputs[0].partial_sigs = Vec::new();
        proof {
            assert(psbt.inputs[0]@.partial_sigs =~= Seq::empty());
            assert(psbt@.inputs =~= finalized(old(psbt)@, stack).inputs);
        }
        Ok(())
    }
}

} // verus!
