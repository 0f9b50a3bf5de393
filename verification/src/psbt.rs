//! Partially signed transactions: an unsigned transaction, and for each
//! input and output what is known about it until the transaction is final.

use vstd::prelude::*;
use crate::key::PublicKey;
use crate::tx::{Transaction, TransactionView, TxOut, TxOutView};

verus! {

/// Which parts of a transaction an ECDSA signature commits to.
#[derive(Debug, Clone, Copy, PartialEq, Eq, PartialOrd, Ord, Hash)]
pub enum SighashType {
    /// All inputs and all outputs.
    All,
    /// All inputs and no output.
    NoOutputs,
    /// All inputs and the output with the index of the signed input.
    Single,
    /// The signed input alone and all outputs.
    AllPlusAnyoneCanPay,
    /// The signed input alone and no output.
    NoOutputsPlusAnyoneCanPay,
    /// The signed input alone and the output with its index.
    SinglePlusAnyoneCanPay,
}

/// The consensus encoding of a signature hash type.
pub open spec fn sighash_flag(sighash_type: SighashType) -> u32 {
    match sighash_type {
        SighashType::All => 0x01,
        SighashType::NoOutputs => 0x02,
        SighashType::Single => 0x03,
        SighashType::AllPlusAnyoneCanPay => 0x81,
        SighashType::NoOutputsPlusAnyoneCanPay => 0x82,
        SighashType::SinglePlusAnyoneCanPay => 0x83,
    }
}

impl SighashType {
    /// The consensus encoding of the type.
    pub fn to_u32(self) -> (flag: u32)
        ensures
            flag == sighash_flag(self),
    {
        match self {
            SighashType::All => 0x01,
            SighashType::NoOutputs => 0x02,
            SighashType::Single => 0x03,
            SighashType::AllPlusAnyoneCanPay => 0x81,
            SighashType::NoOutputsPlusAnyoneCanPay => 0x82,
            SighashType::SinglePlusAnyoneCanPay => 0x83,
        }
    }

    /// Whether the type commits to all inputs and all outputs.
    pub fn is_all(self) -> (all: bool)
        ensures
            all == (self == SighashType::All),
    {
        match self {
            SighashType::All => true,
            _ => false,
        }
    }
}

/// One party's signature on an input: the key, the DER encoding of the
/// ECDSA signature, and what the signature commits to.
#[derive(Debug, PartialEq, Eq, PartialOrd, Ord, Hash)]
pub struct PartialSig {
    pub public_key: PublicKey,
    pub signature: Vec<u8>,
    pub sighash_type: SighashType,
}

/// What a `PartialSig` holds.
pub struct PartialSigView {
    pub public_key: Seq<u8>,
    pub signature: Seq<u8>,
    pub sighash_type: SighashType,
}

/// What is known about one input of a partially signed transaction.
#[derive(Debug, PartialEq, Eq, PartialOrd, Ord, Hash)]
pub struct PsbtInput {
    /// The output that the input spends.
    pub witness_utxo: Option<TxOut>,
    /// The script that the spent output commits to.
    pub witness_script: Option<Vec<u8>>,
    /// The signatures collected so far, at most one for a key.
    pub partial_sigs: Vec<PartialSig>,
    /// The witness stack, once the input is final.
    pub final_script_witness: Option<Vec<Vec<u8>>>,
}

/// What a `PsbtInput` holds.
pub struct PsbtInputView {
    pub witness_utxo: Option<TxOutView>,
    pub witness_script: Option<Seq<u8>>,
    pub partial_sigs: Seq<PartialSigView>,
    pub final_script_witness: Option<Seq<Seq<u8>>>,
}

/// What is known about one output of a partially signed transaction.
#[derive(Debug, PartialEq, Eq, PartialOrd, Ord, Hash)]
pub struct PsbtOutput {
    /// The script that the output commits to.
    pub witness_script: Option<Vec<u8>>,
}

/// What a `PsbtOutput` holds.
pub struct PsbtOutputView {
    pub witness_script: Option<Seq<u8>>,
}

/// A partially signed transaction.
#[derive(Debug, PartialEq, Eq, PartialOrd, Ord, Hash)]
pub struct Psbt {
    pub unsigned_tx: Transaction,
    pub inputs: Vec<PsbtInput>,
    pub outputs: Vec<PsbtOutput>,
}

/// What a `Psbt` holds.
pub struct PsbtView {
    pub unsigned_tx: TransactionView,
    pub inputs: Seq<PsbtInputView>,
    pub outputs: Seq<PsbtOutputView>,
}

/// The bytes of a script that may be absent.
pub open spec fn script_view(script: Option<Vec<u8>>) -> Option<Seq<u8>> {
    match script {
        Some(s) => Some(s@),
        None => None,
    }
}

impl View for PartialSig {
    type V = PartialSigView;

    open spec fn view(&self) -> PartialSigView {
        PartialSigView {
            public_key: self.public_key@,
            signature: self.signature@,
            sighash_type: self.sighash_type,
        }
    }
}

impl DeepView for PartialSig {
    type V = PartialSigView;

    open spec fn deep_view(&self) -> PartialSigView {
        self@
    }
}

impl View for PsbtInput {
    type V = PsbtInputView;

    open spec fn view(&self) -> PsbtInputView {
        PsbtInputView {
            witness_utxo: match self.witness_utxo {
                Some(o) => Some(o@),
                None => None,
            },
            witness_script: script_view(self.witness_script),
            partial_sigs: self.partial_sigs.deep_view(),
            final_script_witness: match self.final_script_witness {
                Some(w) => Some(w.deep_view()),
                None => None,
            },
        }
    }
}

impl DeepView for PsbtInput {
    type V = PsbtInputView;

    open spec fn deep_view(&self) -> PsbtInputView {
        self@
    }
}

impl View for PsbtOutput {
    type V = PsbtOutputView;

    open spec fn view(&self) -> PsbtOutputView {
        PsbtOutputView { witness_script: script_view(self.witness_script) }
    }
}

impl DeepView for PsbtOutput {
    type V = PsbtOutputView;

    open spec fn deep_view(&self) -> PsbtOutputView {
        self@
    }
}

impl View for Psbt {
    type V = PsbtView;

    open spec fn view(&self) -> PsbtView {
        PsbtView {
            unsigned_tx: self.unsigned_tx@,
            inputs: self.inputs.deep_view(),
            outputs: self.outputs.deep_view(),
        }
    }
}

/// An input of which nothing is known yet.
pub open spec fn empty_input() -> PsbtInputView {
    PsbtInputView {
        witness_utxo: None,
        witness_script: None,
        partial_sigs: Seq::empty(),
        final_script_witness: None,
    }
}

/// An output of which nothing is known yet.
pub open spec fn empty_output() -> PsbtOutputView {
    PsbtOutputView { witness_script: None }
}

/// Whether no input of a transaction carries unlocking data.
pub open spec fn is_unsigned(tx: TransactionView) -> bool {
    forall|i: int|
        0 <= i < tx.input.len() ==> (#[trigger] tx.input[i]).script_sig.len() == 0
            && tx.input[i].witness.len() == 0
}

/// The signature that is recorded for `key`: the first one, should a key
/// occur more than once.
pub open spec fn find_partial_sig(sigs: Seq<PartialSigView>, key: Seq<u8>) -> Option<
    PartialSigView,
>
    decreases sigs.len(),
{
    if sigs.len() == 0 {
        None
    } else if sigs.first().public_key == key {
        Some(sigs.first())
    } else {
        find_partial_sig(sigs.drop_first(), key)
    }
}

/// Whether no key has more than one signature.
pub open spec fn distinct_keys(sigs: Seq<PartialSigView>) -> bool {
    forall|i: int, j: int|
        0 <= i < j < sigs.len() ==> (#[trigger] sigs[i]).public_key != (#[trigger] sigs[j]).public_key
}

impl Clone for PartialSig {
    fn clone(&self) -> (copy: Self)
        ensures
            copy@ == self@,
    {
        PartialSig {
            public_key: self.public_key.clone(),
            signature: self.signature.clone(),
            sighash_type: self.sighash_type,
        }
    }
}

impl Clone for PsbtInput {
    fn clone(&self) -> (copy: Self)
        ensures
            copy@ == self@,
    {
        let copy = PsbtInput {
            witness_utxo: match &self.witness_utxo {
                Some(output) => Some(output.clone()),
                None => None,
            },
            witness_script: match &self.witness_script {
                Some(script) => Some(script.clone()),
                None => None,
            },
            partial_sigs: self.partial_sigs.clone(),
            final_script_witness: match &self.final_script_witness {
                Some(witness) => Some(witness.clone()),
                None => None,
            },
        };
        copy
    }
}

impl Clone for PsbtOutput {
    fn clone(&self) -> (copy: Self)
        ensures
            copy@ == self@,
    {
        PsbtOutput {
            witness_script: match &self.witness_script {
                Some(script) => Some(script.clone()),
                None => None,
            },
        }
    }
}

impl Clone for Psbt {
    fn clone(&self) -> (copy: Self)
        ensures
            copy@ == self@,
    {
        let copy = Psbt {
            unsigned_tx: self.unsigned_tx.clone(),
            inputs: self.inputs.clone(),
            outputs: self.outputs.clone(),
        };
        copy
    }
}

impl PsbtView {
    /// Whether the artifact is well formed: it knows of as many inputs and
    /// outputs as the transaction has, the transaction carries no unlocking
    /// data, and no key has two signatures on an input.
    pub open spec fn wf(self) -> bool {
        &&& self.inputs.len() == self.unsigned_tx.input.len()
        &&& self.outputs.len() == self.unsigned_tx.output.len()
        &&& is_unsigned(self.unsigned_tx)
        &&& forall|i: int|
            0 <= i < self.inputs.len() ==> distinct_keys((#[trigger] self.inputs[i]).partial_sigs)
    }
}

impl Default for PsbtInput {
    fn default() -> (input: Self)
        ensures
            input@ == empty_input(),
    {
        let input = PsbtInput {
            witness_utxo: None,
            witness_script: None,
            partial_sigs: Vec::new(),
            final_script_witness: None,
        };
        assert(input@.partial_sigs =~= Seq::empty());
        input
    }
}

impl Default for PsbtOutput {
    fn default() -> (output: Self)
        ensures
            output@ == empty_output(),
    {
        PsbtOutput { witness_script: None }
    }
}

impl PsbtInput {
    /// The signature recorded for `key`, if there is one.
    pub fn partial_sig(&self, key: &PublicKey) -> (found: Option<&PartialSig>)
        ensures
            found.is_some() == find_partial_sig(self@.partial_sigs, key@).is_some(),
            found matches Some(sig) ==> Some(sig@) == find_partial_sig(self@.partial_sigs, key@),
    {
        let mut i: usize = 0;
        assert(self@.partial_sigs.skip(0) =~= self@.partial_sigs);
        while i < self.partial_sigs.len()
            invariant
                i <= self.partial_sigs.len(),
                find_partial_sig(self@.partial_sigs, key@) == find_partial_sig(
                    self@.partial_sigs.skip(i as int),
                    key@,
                ),
            decreases self.partial_sigs.len() - i,
        {
            proof {
                let rest = self@.partial_sigs.skip(i as int);
                assert(rest.drop_first() =~= self@.partial_sigs.skip(i + 1));
            }
            if self.partial_sigs[i].public_key.same_as(key) {
                return Some(&self.partial_sigs[i]);
            }
            i += 1;
        }
        None
    }
}

/// A signature that is added at the end is found where its key had none
/// before; no other key gains or loses one.
pub proof fn lemma_find_after_push(sigs: Seq<PartialSigView>, added: PartialSigView, key: Seq<u8>)
    ensures
        find_partial_sig(sigs.push(added), key) == if find_partial_sig(sigs, key) is Some {
            find_partial_sig(sigs, key)
        } else if added.public_key == key {
            Some(added)
        } else {
            None
        },
    decreases sigs.len(),
{
    if sigs.len() == 0 {
        assert(sigs.push(added).drop_first() =~= sigs);
    } else {
        assert(sigs.push(added).drop_first() =~= sigs.drop_first().push(added));
        if sigs.first().public_key != key {
            lemma_find_after_push(sigs.drop_first(), added, key);
        }
    }
}

/// A signature that takes the place of the first one of its key is found
/// for that key; no other key gains or loses one.
pub proof fn lemma_find_after_update(
    sigs: Seq<PartialSigView>,
    at: int,
    replacement: PartialSigView,
    key: Seq<u8>,
)
    requires
        0 <= at < sigs.len(),
        sigs[at].public_key == replacement.public_key,
        forall|j: int| 0 <= j < at ==> (#[trigger] sigs[j]).public_key != replacement.public_key,
    ensures
        find_partial_sig(sigs.update(at, replacement), key) == if key == replacement.public_key {
            Some(replacement)
        } else {
            find_partial_sig(sigs, key)
        },
    decreases sigs.len(),
{
    let updated = sigs.update(at, replacement);
    if at == 0 {
        assert(updated.drop_first() =~= sigs.drop_first());
    } else {
        assert(updated.drop_first() =~= sigs.drop_first().update(at - 1, replacement));
        lemma_find_after_update(sigs.drop_first(), at - 1, replacement, key);
    }
}

/// A key that occurs nowhere among the signatures has none.
pub proof fn lemma_find_first_absent(sigs: Seq<PartialSigView>, key: Seq<u8>)
    requires
        forall|j: int| 0 <= j < sigs.len() ==> (#[trigger] sigs[j]).public_key != key,
    ensures
        find_partial_sig(sigs, key) is None,
    decreases sigs.len(),
{
    if sigs.len() > 0 {
        lemma_find_first_absent(sigs.drop_first(), key);
    }
}

impl PsbtInput {
    /// Records a signature for its key, in place of the one that the key
    /// had, if it had one. The signatures of other keys stay, and so does
    /// the rest of the input. Where no key had two signatures, none has
    /// two afterwards.
    pub fn insert_partial_sig(&mut self, signature: PartialSig)
        ensures
            find_partial_sig(final(self)@.partial_sigs, signature@.public_key) == Some(signature@),
            forall|key: Seq<u8>|
                key != signature@.public_key ==> #[trigger] find_partial_sig(
                    final(self)@.partial_sigs,
                    key,
                ) == find_partial_sig(old(self)@.partial_sigs, key),
            distinct_keys(old(self)@.partial_sigs) ==> distinct_keys(final(self)@.partial_sigs),
            final(self)@ == (PsbtInputView {
                partial_sigs: final(self)@.partial_sigs,
                ..old(self)@
            }),
    {
        let ghost before = self@.partial_sigs;
        let ghost added = signature@;
        let mut i: usize = 0;
        while i < self.partial_sigs.len()
            invariant
                i <= self.partial_sigs.len(),
                self@ == old(self)@,
                added == signature@,
                before == self@.partial_sigs,
                before.len() == self.partial_sigs.len(),
                forall|j: int| 0 <= j < i ==> (#[trigger] before[j]).public_key != added.public_key,
            ensures
                i <= self.partial_sigs.len(),
                self@ == old(self)@,
                before == self@.partial_sigs,
                before.len() == self.partial_sigs.len(),
                forall|j: int| 0 <= j < i ==> (#[trigger] before[j]).public_key != added.public_key,
                i < self.partial_sigs.len() ==> before[i as int].public_key == added.public_key,
            decreases self.partial_sigs.len() - i,
        {
            if self.partial_sigs[i].public_key.same_as(&signature.public_key) {
                break ;
            }
            i += 1;
        }
        if i < self.partial_sigs.len() {
            self.partial_sigs[i] = signature;
            proof {
                let after = self@.partial_sigs;
                assert(after =~= before.update(i as int, added));
                assert forall|key: Seq<u8>| true implies #[trigger] find_partial_sig(after, key)
                    == if key == added.public_key {
                    Some(added)
                } else {
                    find_partial_sig(before, key)
                } by {
                    lemma_find_after_update(before, i as int, added, key);
                }
            }
        } else {
            self.partial_sigs.push(signature);
            proof {
                let after = self@.partial_sigs;
                assert(after =~= before.push(added));
                assert forall|key: Seq<u8>| true implies #[trigger] find_partial_sig(after, key)
                    == if find_partial_sig(before, key) is Some {
                    find_partial_sig(before, key)
                } else if added.public_key == key {
                    Some(added)
                } else {
                    None
                } by {
                    lemma_find_after_push(before, added, key);
                }
                lemma_find_first_absent(before, added.public_key);
            }
        }
    }
}

impl Psbt {
    /// The partially signed transaction that starts from an unsigned one,
    /// with nothing known about its inputs and outputs. There is none for a
    /// transaction with an input that carries unlocking data.
    pub fn from_unsigned_tx(tx: Transaction) -> (psbt: Option<Psbt>)
        ensures
            psbt.is_some() == is_unsigned(tx@),
            psbt matches Some(p) ==> {
                &&& p@.unsigned_tx == tx@
                &&& p@.inputs == Seq::new(tx@.input.len(), |i: int| empty_input())
                &&& p@.outputs == Seq::new(tx@.output.len(), |i: int| empty_output())
                &&& p@.wf()
            },
    {
        let mut i: usize = 0;
        while i < tx.input.len()
            invariant
                i <= tx.input.len(),
                forall|j: int|
                    0 <= j < i ==> (#[trigger] tx@.input[j]).script_sig.len() == 0
                        && tx@.input[j].witness.len() == 0,
            decreases tx.input.len() - i,
        {
            if tx.input[i].script_sig.len() != 0 || tx.input[i].witness.len() != 0 {
                proof {
                    let bad = tx@.input[i as int];
                }
                return None;
            }
            i += 1;
        }
        let mut inputs: Vec<PsbtInput> = Vec::new();
        let mut n: usize = 0;
        while n < tx.input.len()
            invariant
                n <= tx.input.len(),
                inputs.len() == n,
                forall|j: int| 0 <= j < n ==> (#[trigger] inputs[j])@ == empty_input(),
            decreases tx.input.len() - n,
        {
            inputs.push(PsbtInput::default());
            n += 1;
        }
        let mut outputs: Vec<PsbtOutput> = Vec::new();
        let mut m: usize = 0;
        while m < tx.output.len()
            invariant
                m <= tx.output.len(),
                outputs.len() == m,
                forall|j: int| 0 <= j < m ==> (#[trigger] outputs[j])@ == empty_output(),
            decreases tx.output.len() - m,
        {
            outputs.push(PsbtOutput::default());
            m += 1;
        }
        let psbt = Psbt { unsigned_tx: tx, inputs, outputs };
        Some(psbt)
    }
}

} // verus!
