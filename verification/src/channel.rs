//! The channel: its configuration and its state.

use vstd::prelude::*;
use crate::error::{ConfigError, SpillError};
use crate::key::{is_compressed_key, PublicKey};
use crate::script::{
    funding_script, funding_script_bytes, is_zero_delay, p2wsh_script, refund_delay_is_zero,
};
use crate::tx::{OutPoint, TxOut, TxOutView};

pub mod finalize;
pub mod payment;
pub mod psbt;
pub mod verify;

pub use payment::PaymentInfo;

verus! {

/// The rules of a channel, on which payer and payee have agreed. They do
/// not change while the channel lives.
#[derive(Debug)]
pub struct ChannelParams {
    payer: PublicKey,
    payee: PublicKey,
    capacity: u64,
    funding_script: Vec<u8>,
    refund_locktime: u32,
}

/// A funded channel: its rules, the output that funds it, and how much of
/// it has been paid to the payee so far.
#[derive(Debug)]
pub struct Channel {
    params: ChannelParams,
    funding_outpoint: OutPoint,
    funding_utxo: TxOut,
    sent: u64,
}

/// What a `ChannelParams` holds.
pub struct ChannelParamsView {
    /// The payer's key, serialized.
    pub payer: Seq<u8>,
    /// The payee's key, serialized.
    pub payee: Seq<u8>,
    /// The value that the channel locks, in satoshi.
    pub capacity: u64,
    /// The relative lock time after which the payer may take the funds back.
    pub refund_locktime: u32,
    /// The spending script of the funding output.
    pub funding_script: Seq<u8>,
}

impl ChannelParamsView {
    /// Whether the rules are valid: a capacity above zero, two compressed
    /// keys, a refund delay that is not zero, and the spending script that
    /// follows from them.
    pub open spec fn wf(self) -> bool {
        &&& self.capacity > 0
        &&& is_compressed_key(self.payer)
        &&& is_compressed_key(self.payee)
        &&& !is_zero_delay(self.refund_locktime)
        &&& self.funding_script == funding_script_bytes(self.payer, self.payee, self.refund_locktime)
    }
}

/// What a `Channel` holds.
pub struct ChannelView {
    /// The rules of the channel.
    pub params: ChannelParamsView,
    /// The reference to the output that funds the channel.
    pub funding_outpoint: OutPoint,
    /// The output that funds the channel, as it was seen in the funding
    /// transaction.
    pub funding_utxo: TxOutView,
    /// What has been paid to the payee so far, in satoshi.
    pub sent: u64,
}

impl ChannelView {
    /// Whether the state is valid: valid rules, a funding output of the
    /// capacity that pays to the funding script, and no more sent than the
    /// capacity.
    pub open spec fn wf(self) -> bool {
        &&& self.params.wf()
        &&& self.funding_utxo.value == self.params.capacity
        &&& self.funding_utxo.script_pubkey == p2wsh_script(self.params.funding_script)
        &&& self.sent <= self.params.capacity
    }
}

impl View for Channel {
    type V = ChannelView;

    closed spec fn view(&self) -> ChannelView {
        ChannelView {
            params: self.params@,
            funding_outpoint: self.funding_outpoint,
            funding_utxo: self.funding_utxo@,
            sent: self.sent,
        }
    }
}

impl Clone for ChannelParams {
    fn clone(&self) -> (copy: Self)
        ensures
            copy@ == self@,
    {
        proof {
            use_type_invariant(self);
        }
        ChannelParams {
            payer: self.payer.clone(),
            payee: self.payee.clone(),
            capacity: self.capacity,
            funding_script: self.funding_script.clone(),
            refund_locktime: self.refund_locktime,
        }
    }
}

impl Clone for Channel {
    fn clone(&self) -> (copy: Self)
        ensures
            copy@ == self@,
    {
        proof {
            use_type_invariant(self);
        }
        Channel {
            params: self.params.clone(),
            funding_outpoint: self.funding_outpoint,
            funding_utxo: self.funding_utxo.clone(),
            sent: self.sent,
        }
    }
}

impl View for ChannelParams {
    type V = ChannelParamsView;

    closed spec fn view(&self) -> ChannelParamsView {
        ChannelParamsView {
            payer: self.payer@,
            payee: self.payee@,
            capacity: self.capacity,
            refund_locktime: self.refund_locktime,
            funding_script: self.funding_script@,
        }
    }
}

/// The reason for which a configuration is refused, if it is: the first of
/// a zero capacity, a key that is not compressed, a refund delay of zero.
pub open spec fn config_error(
    payer: Seq<u8>,
    payee: Seq<u8>,
    capacity: u64,
    refund_locktime: u32,
) -> Option<ConfigError> {
    if capacity == 0 {
        Some(ConfigError::InvalidCapacity)
    } else if !(is_compressed_key(payer) && is_compressed_key(payee)) {
        Some(ConfigError::UncompressedPublicKey)
    } else if is_zero_delay(refund_locktime) {
        Some(ConfigError::InvalidRefundLocktime)
    } else {
        None
    }
}

impl ChannelParams {
    /// Every value of the type holds valid rules.
    #[verifier::type_invariant]
    closed spec fn inv(&self) -> bool {
        self@.wf()
    }

    /// Configures a channel from the two keys, the capacity in satoshi and
    /// the refund delay, and builds its spending script. It fails for a
    /// capacity of zero, else for a key that is not compressed, else for a
    /// refund delay that is zero in one of its three encodings.
    pub fn new(payer: PublicKey, payee: PublicKey, capacity: u64, refund_locktime: u32) -> (params:
        Result<ChannelParams, SpillError>)
        ensures
            match config_error(payer@, payee@, capacity, refund_locktime) {
                Some(e) => params == Err::<ChannelParams, SpillError>(SpillError::Config(e)),
                None => params matches Ok(p) && p@ == (ChannelParamsView {
                    payer: payer@,
                    payee: payee@,
                    capacity,
                    refund_locktime,
                    funding_script: funding_script_bytes(payer@, payee@, refund_locktime),
                }) && p@.wf(),
            },
    {
        if capacity == 0 {
            return Err(SpillError::Config(ConfigError::InvalidCapacity));
        }
        if !(payer.compressed() && payee.compressed()) {
            return Err(SpillError::Config(ConfigError::UncompressedPublicKey));
        }
        if refund_delay_is_zero(refund_locktime) {
            return Err(SpillError::Config(ConfigError::InvalidRefundLocktime));
        }
        let funding_script = funding_script(&payer, &payee, refund_locktime);
        Ok(ChannelParams { payer, payee, capacity, funding_script, refund_locktime })
    }

    /// The payer's key.
    pub fn payer(&self) -> (key: &PublicKey)
        ensures
            key@ == self@.payer,
    {
        &self.payer
    }

    /// The payee's key.
    pub fn payee(&self) -> (key: &PublicKey)
        ensures
            key@ == self@.payee,
    {
        &self.payee
    }

    /// The value that the channel locks, in satoshi.
    pub fn capacity(&self) -> (capacity: u64)
        ensures
            capacity == self@.capacity,
            capacity > 0,
    {
        proof {
            use_type_invariant(self);
        }
        self.capacity
    }

    /// The relative lock time after which the payer may take the funds back.
    pub fn refund_locktime(&self) -> (delay: u32)
        ensures
            delay == self@.refund_locktime,
            !is_zero_delay(delay),
    {
        proof {
            use_type_invariant(self);
        }
        self.refund_locktime
    }

    /// The spending script of the funding output.
    pub fn funding_script(&self) -> (script: &Vec<u8>)
        ensures
            script@ == self@.funding_script,
            script@ == funding_script_bytes(self@.payer, self@.payee, self@.refund_locktime),
    {
        proof {
            use_type_invariant(self);
        }
        &self.funding_script
    }
}

impl Channel {
    /// Every value of the type holds a valid state.
    #[verifier::type_invariant]
    closed spec fn inv(&self) -> bool {
        self@.wf()
    }

    /// The rules of the channel.
    pub fn params(&self) -> (params: &ChannelParams)
        ensures
            params@ == self@.params,
    {
        &self.params
    }

    /// The reference to the output that funds the channel.
    pub fn funding_outpoint(&self) -> (outpoint: OutPoint)
        ensures
            outpoint == self@.funding_outpoint,
    {
        self.funding_outpoint
    }

    /// The output that funds the channel.
    pub fn funding_utxo(&self) -> (output: &TxOut)
        ensures
            output@ == self@.funding_utxo,
    {
        &self.funding_utxo
    }

    /// What has been paid to the payee so far, in satoshi. It is never more
    /// than the capacity.
    pub fn sent(&self) -> (sent: u64)
        ensures
            sent == self@.sent,
            sent <= self@.params.capacity,
    {
        proof {
            use_type_invariant(self);
        }
        self.sent
    }
}

} // verus!
