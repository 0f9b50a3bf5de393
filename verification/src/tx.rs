//! Transactions as plain values.

use vstd::prelude::*;
use crate::bytes::hash_eq;

verus! {

/// The transaction version that the channel's transactions use.
pub const TX_VERSION: i32 = 2;

/// A reference to one output of a transaction.
#[derive(Debug, Clone, Copy, PartialEq, Eq, PartialOrd, Ord, Hash)]
pub struct OutPoint {
    /// The id of the transaction, in the byte order in which it is hashed.
    pub txid: [u8; 32],
    /// The index of the output in that transaction.
    pub vout: u32,
}

/// An output: a value in satoshi and the script that locks it.
#[derive(Debug, PartialEq, Eq, PartialOrd, Ord, Hash)]
pub struct TxOut {
    pub value: u64,
    pub script_pubkey: Vec<u8>,
}

/// What a `TxOut` holds.
pub struct TxOutView {
    pub value: u64,
    pub script_pubkey: Seq<u8>,
}

/// An input: the output it spends, its unlocking data and its sequence number.
#[derive(Debug, PartialEq, Eq, PartialOrd, Ord, Hash)]
pub struct TxIn {
    pub previous_output: OutPoint,
    pub script_sig: Vec<u8>,
    pub sequence: u32,
    pub witness: Vec<Vec<u8>>,
}

/// What a `TxIn` holds.
pub struct TxInView {
    pub previous_output: OutPoint,
    pub script_sig: Seq<u8>,
    pub sequence: u32,
    pub witness: Seq<Seq<u8>>,
}

/// A transaction. `lock_time` is the consensus encoding of the lock time.
#[derive(Debug, PartialEq, Eq, PartialOrd, Ord, Hash)]
pub struct Transaction {
    pub version: i32,
    pub lock_time: u32,
    pub input: Vec<TxIn>,
    pub output: Vec<TxOut>,
}

/// What a `Transaction` holds.
pub struct TransactionView {
    pub version: i32,
    pub lock_time: u32,
    pub input: Seq<TxInView>,
    pub output: Seq<TxOutView>,
}

impl View for TxOut {
    type V = TxOutView;

    open spec fn view(&self) -> TxOutView {
        TxOutView { value: self.value, script_pubkey: self.script_pubkey@ }
    }
}

impl DeepView for TxOut {
    type V = TxOutView;

    open spec fn deep_view(&self) -> TxOutView {
        self@
    }
}

impl View for TxIn {
    type V = TxInView;

    open spec fn view(&self) -> TxInView {
        TxInView {
            previous_output: self.previous_output,
            script_sig: self.script_sig@,
            sequence: self.sequence,
            witness: self.witness.deep_view(),
        }
    }
}

impl DeepView for TxIn {
    type V = TxInView;

    open spec fn deep_view(&self) -> TxInView {
        self@
    }
}

impl View for Transaction {
    type V = TransactionView;

    open spec fn view(&self) -> TransactionView {
        TransactionView {
            version: self.version,
            lock_time: self.lock_time,
            input: self.input.deep_view(),
            output: self.output.deep_view(),
        }
    }
}

impl Clone for TxOut {
    fn clone(&self) -> (copy: Self)
        ensures
            copy@ == self@,
    {
        TxOut { value: self.value, script_pubkey: self.script_pubkey.clone() }
    }
}

impl Clone for TxIn {
    fn clone(&self) -> (copy: Self)
        ensures
            copy@ == self@,
    {
        TxIn {
            previous_output: self.previous_output,
            script_sig: self.script_sig.clone(),
            sequence: self.sequence,
            witness: self.witness.clone(),
        }
    }
}

impl Clone for Transaction {
    fn clone(&self) -> (copy: Self)
        ensures
            copy@ == self@,
    {
        let copy = Transaction {
            version: self.version,
            lock_time: self.lock_time,
            input: self.input.clone(),
            output: self.output.clone(),
        };
        copy
    }
}

impl OutPoint {
    /// Whether two references name the same output.
    pub fn same_as(&self, other: &OutPoint) -> (same: bool)
        ensures
            same == (*self == *other),
    {
        self.vout == other.vout && hash_eq(&self.txid, &other.txid)
    }
}

impl TxOut {
    /// Whether two outputs hold the same value and script.
    pub fn same_as(&self, other: &TxOut) -> (same: bool)
        ensures
            same == (self@ == other@),
    {
        let same = self.value == other.value && self.script_pubkey == other.script_pubkey;
        proof {
            if same {
                assert(self.script_pubkey@ =~= other.script_pubkey@);
            }
        }
        same
    }
}

/// The sum of the values of some outputs.
pub open spec fn total_value(outputs: Seq<TxOutView>) -> nat
    decreases outputs.len(),
{
    if outputs.len() == 0 {
        0
    } else {
        total_value(outputs.drop_last()) + outputs.last().value as nat
    }
}

/// The first of some outputs that is locked by `script`, if there is one.
pub open spec fn find_output(outputs: Seq<TxOutView>, script: Seq<u8>) -> Option<TxOutView>
    decreases outputs.len(),
{
    if outputs.len() == 0 {
        None
    } else if outputs.first().script_pubkey == script {
        Some(outputs.first())
    } else {
        find_output(outputs.drop_first(), script)
    }
}

impl Transaction {
    /// The sum of the values of the outputs, where it fits in 64 bits.
    pub fn total_output_value(&self) -> (total: Option<u64>)
        ensures
            total.is_some() == (total_value(self@.output) <= u64::MAX),
            total matches Some(t) ==> t == total_value(self@.output),
    {
        let mut sum: u64 = 0;
        let mut i: usize = 0;
        while i < self.output.len()
            invariant
                i <= self.output.len(),
                sum == total_value(self@.output.take(i as int)),
            decreases self.output.len() - i,
        {
            proof {
                let next = self@.output.take(i + 1);
                assert(next.drop_last() =~= self@.output.take(i as int));
                lemma_total_value_monotonic(self@.output, i + 1);
            }
            match sum.checked_add(self.output[i].value) {
                Some(s) => {
                    sum = s;
                },
                None => {
                    return None;
                },
            }
            i += 1;
        }
        assert(self@.output.take(i as int) =~= self@.output);
        Some(sum)
    }

    /// The first output that is locked by `script`, if there is one.
    pub fn find_output(&self, script: &Vec<u8>) -> (found: Option<&TxOut>)
        ensures
            found.is_some() == find_output(self@.output, script@).is_some(),
            found matches Some(o) ==> Some(o@) == find_output(self@.output, script@),
    {
        let mut i: usize = 0;
        assert(self@.output.skip(0) =~= self@.output);
        while i < self.output.len()
            invariant
                i <= self.output.len(),
                find_output(self@.output, script@) == find_output(
                    self@.output.skip(i as int),
                    script@,
                ),
            decreases self.output.len() - i,
        {
            proof {
                let rest = self@.output.skip(i as int);
                assert(rest.drop_first() =~= self@.output.skip(i + 1));
            }
            let same = self.output[i].script_pubkey == *script;
            proof {
                if same {
                    assert(self.output[i as int].script_pubkey@ =~= script@);
                }
            }
            if same {
                return Some(&self.output[i]);
            }
            i += 1;
        }
        None
    }
}

/// The sum over a prefix of the outputs is at most the sum over all.
pub proof fn lemma_total_value_monotonic(outputs: Seq<TxOutView>, n: int)
    requires
        0 <= n <= outputs.len(),
    ensures
        total_value(outputs.take(n)) <= total_value(outputs),
    decreases outputs.len(),
{
    if n < outputs.len() {
        lemma_total_value_monotonic(outputs.drop_last(), n);
        assert(outputs.drop_last().take(n) =~= outputs.take(n));
    } else {
        assert(outputs.take(n) =~= outputs);
    }
}

/// The value of an output is at most the sum over the outputs that it is
/// found among.
pub proof fn lemma_found_output_is_counted(outputs: Seq<TxOutView>, script: Seq<u8>)
    requires
        find_output(outputs, script) is Some,
    ensures
        find_output(outputs, script)->0.value <= total_value(outputs),
        find_output(outputs, script)->0.script_pubkey == script,
    decreases outputs.len(),
{
    lemma_total_value_split_first(outputs);
    if outputs.first().script_pubkey != script {
        lemma_found_output_is_counted(outputs.drop_first(), script);
    }
}

/// The sum over some outputs is the value of the first and the sum over
/// the rest.
pub proof fn lemma_total_value_split_first(outputs: Seq<TxOutView>)
    requires
        outputs.len() > 0,
    ensures
        total_value(outputs) == outputs.first().value + total_value(outputs.drop_first()),
    decreases outputs.len(),
{
    if outputs.len() == 1 {
        assert(outputs.drop_first() =~= outputs.drop_last());
    } else {
        lemma_total_value_split_first(outputs.drop_last());
        assert(outputs.drop_last().drop_first() =~= outputs.drop_first().drop_last());
    }
}

} // verus!
