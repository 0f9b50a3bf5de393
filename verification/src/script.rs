//! The channel's spending script and the standard output scripts derived
//! from it, built with the script builder of the `bitcoin` crate.

use vstd::prelude::*;
use crate::key::{is_compressed_key, PublicKey};

verus! {

/// `OP_IF`: opens the branch taken when the selector is true.
pub const OP_IF: u8 = 0x63;

/// `OP_ELSE`: opens the branch taken when the selector is false.
pub const OP_ELSE: u8 = 0x67;

/// `OP_ENDIF`: closes the conditional.
pub const OP_ENDIF: u8 = 0x68;

/// `OP_DROP`: removes the top stack item.
pub const OP_DROP: u8 = 0x75;

/// `OP_CHECKSIG`: checks one signature against one key.
pub const OP_CHECKSIG: u8 = 0xac;

/// `OP_CHECKMULTISIG`: checks m signatures against n keys.
pub const OP_CHECKMULTISIG: u8 = 0xae;

/// `OP_CHECKSEQUENCEVERIFY`: enforces a relative lock time.
pub const OP_CSV: u8 = 0xb2;

/// The sequence number that disables relative lock time and replacement.
pub const SEQUENCE_MAX: u32 = 0xFFFF_FFFF;

/// The flag that marks a relative lock time as counted in units of 512
/// seconds instead of blocks.
pub const SEQUENCE_TIME_FLAG: u32 = 0x0040_0000;

/// The script builder of the `bitcoin` crate.
#[verifier::external_type_specification]
#[verifier::external_body]
pub struct ExBuilder(bitcoin::blockdata::script::Builder);

/// The bytes of the script that a builder has assembled so far.
pub uninterp spec fn builder_bytes(b: bitcoin::blockdata::script::Builder) -> Seq<u8>;

/// The SHA-256 hash of a witness script, by which a P2WSH output commits to it.
pub uninterp spec fn wscript_hash(script: Seq<u8>) -> Seq<u8>;

/// The HASH160 of a serialized public key, by which a P2WPKH output names it.
pub uninterp spec fn wpubkey_hash(key: Seq<u8>) -> Seq<u8>;

/// The opcode or length prefix that announces a data push of `n` bytes.
pub open spec fn push_prefix(n: nat) -> Seq<u8> {
    if n < 0x4c {
        seq![n as u8]
    } else if n < 0x100 {
        seq![0x4cu8, n as u8]
    } else if n < 0x1_0000 {
        seq![0x4du8, (n % 0x100) as u8, (n / 0x100) as u8]
    } else {
        seq![
            0x4eu8,
            (n % 0x100) as u8,
            ((n / 0x100) % 0x100) as u8,
            ((n / 0x1_0000) % 0x100) as u8,
            ((n / 0x100_0000) % 0x100) as u8,
        ]
    }
}

/// A data push: the prefix for the length, then the data.
pub open spec fn push_data(data: Seq<u8>) -> Seq<u8> {
    push_prefix(data.len()) + data
}

/// A non-zero number in script encoding: the magnitude in little-endian
/// bytes, the sign in the highest bit of the last byte, with one more
/// byte where the magnitude already uses that bit.
pub open spec fn script_num(magnitude: nat, negative: bool) -> Seq<u8>
    decreases magnitude,
{
    let sign: nat = if negative { 0x80 } else { 0 };
    if magnitude > 0xFF {
        seq![(magnitude % 0x100) as u8] + script_num(magnitude / 0x100, negative)
    } else if magnitude >= 0x80 {
        seq![magnitude as u8, sign as u8]
    } else {
        seq![(magnitude + sign) as u8]
    }
}

/// The instruction that pushes an integer: a dedicated opcode for -1 and for
/// 0 to 16, else a data push of the number in script encoding.
pub open spec fn push_int(n: int) -> Seq<u8> {
    if n == -1 || 1 <= n <= 16 {
        seq![(0x50 + n) as u8]
    } else if n == 0 {
        seq![0u8]
    } else if n < 0 {
        push_data(script_num((-n) as nat, true))
    } else {
        push_data(script_num(n as nat, false))
    }
}

/// The channel's spending script. With a true selector it asks for the
/// signatures of both payer and payee; with a false one it asks that
/// `refund_delay` has passed since the funding, and for the payer's signature.
pub open spec fn funding_script_bytes(payer: Seq<u8>, payee: Seq<u8>, refund_delay: u32) -> Seq<u8> {
    seq![OP_IF] + push_int(2) + push_data(payer) + push_data(payee) + push_int(2)
        + seq![OP_CHECKMULTISIG, OP_ELSE] + push_int(refund_delay as int)
        + seq![OP_CSV, OP_DROP] + push_data(payer) + seq![OP_CHECKSIG, OP_ENDIF]
}

/// The P2WSH output script that pays to a witness script.
pub open spec fn p2wsh_script(witness_script: Seq<u8>) -> Seq<u8> {
    seq![0x00u8, 0x20u8] + wscript_hash(witness_script)
}

/// The P2WPKH output script that pays to a compressed public key.
pub open spec fn p2wpkh_script(key: Seq<u8>) -> Seq<u8> {
    seq![0x00u8, 0x14u8] + wpubkey_hash(key)
}

/// The sequence number of a relative lock time of `blocks` blocks.
pub open spec fn delay_in_blocks(blocks: u16) -> u32 {
    blocks as u32
}

/// The sequence number of a relative lock time of `intervals` units of 512
/// seconds.
pub open spec fn delay_in_intervals(intervals: u16) -> u32 {
    (intervals as u32) | SEQUENCE_TIME_FLAG
}

/// Whether a refund delay is zero as a raw sequence number, as a number of
/// blocks or as a number of 512-second intervals.
pub open spec fn is_zero_delay(refund_delay: u32) -> bool {
    refund_delay == 0 || refund_delay == delay_in_blocks(0) || refund_delay == delay_in_intervals(0)
}

/// `Builder::new`: a builder that holds the empty script.
#[verifier::external_body]
fn builder_new() -> (b: bitcoin::blockdata::script::Builder)
    ensures
        builder_bytes(b) == Seq::<u8>::empty(),
{
    bitcoin::blockdata::script::Builder::new()
}

/// `Builder::push_opcode`: appends the one byte of the opcode.
#[verifier::external_body]
fn builder_push_opcode(b: bitcoin::blockdata::script::Builder, opcode: u8) -> (r:
    bitcoin::blockdata::script::Builder)
    ensures
        builder_bytes(r) == builder_bytes(b).push(opcode),
{
    b.push_opcode(bitcoin::opcodes::Opcode::from(opcode))
}

/// `Builder::push_int`: appends the instruction that pushes the integer,
/// the dedicated opcode where there is one. The builder panics on the
/// least integer of 64 bits, whose encoding takes nine bytes; the
/// precondition leaves it out.
#[verifier::external_body]
fn builder_push_int(b: bitcoin::blockdata::script::Builder, n: i64) -> (r:
    bitcoin::blockdata::script::Builder)
    requires
        n > i64::MIN,
    ensures
        builder_bytes(r) == builder_bytes(b) + push_int(n as int),
{
    b.push_int(n)
}

/// `Builder::push_sequence`: appends the instruction that pushes the
/// sequence number as an integer.
#[verifier::external_body]
fn builder_push_sequence(b: bitcoin::blockdata::script::Builder, sequence: u32) -> (r:
    bitcoin::blockdata::script::Builder)
    ensures
        builder_bytes(r) == builder_bytes(b) + push_int(sequence as int),
{
    b.push_sequence(bitcoin::Sequence::from_consensus(sequence))
}

/// `Builder::push_slice`: appends a push of the data. The builder panics on
/// data of 4 GiB or more, which the precondition leaves out.
#[verifier::external_body]
fn builder_push_slice(b: bitcoin::blockdata::script::Builder, data: &Vec<u8>) -> (r:
    bitcoin::blockdata::script::Builder)
    requires
        data@.len() < 0x1_0000_0000,
    ensures
        builder_bytes(r) == builder_bytes(b) + push_data(data@),
{
    b.push_slice(bitcoin::script::PushBytesBuf::try_from(data.clone()).unwrap())
}

/// `Builder::into_bytes`: the assembled script.
#[verifier::external_body]
fn builder_into_bytes(b: bitcoin::blockdata::script::Builder) -> (script: Vec<u8>)
    ensures
        script@ == builder_bytes(b),
{
    b.into_bytes()
}

/// `Sequence::from_height`: the sequence number of a relative lock time of
/// `height` blocks, which is that number.
#[verifier::external_body]
fn sequence_from_height(height: u16) -> (sequence: u32)
    ensures
        sequence == delay_in_blocks(height),
{
    bitcoin::Sequence::from_height(height).to_consensus_u32()
}

/// `Sequence::from_512_second_intervals`: the sequence number of a relative
/// lock time of `intervals` units of 512 seconds, which is that number with
/// the time flag set.
#[verifier::external_body]
fn sequence_from_512_second_intervals(intervals: u16) -> (sequence: u32)
    ensures
        sequence == delay_in_intervals(intervals),
{
    bitcoin::Sequence::from_512_second_intervals(intervals).to_consensus_u32()
}

/// `Script::wscript_hash`: the hash by which a P2WSH output commits to the
/// script. It depends on the script's bytes alone.
#[verifier::external_body]
fn script_wscript_hash(script: &Vec<u8>) -> (hash: [u8; 32])
    ensures
        hash@ == wscript_hash(script@),
{
    bitcoin::hashes::Hash::to_byte_array(bitcoin::Script::from_bytes(script).wscript_hash())
}

/// `ScriptBuf::new_p2wsh`: witness version 0, then a push of the 32 bytes
/// of the script hash.
#[verifier::external_body]
fn script_new_p2wsh(hash: &[u8; 32]) -> (script: Vec<u8>)
    ensures
        script@ == seq![0x00u8, 0x20u8] + hash@,
{
    bitcoin::ScriptBuf::new_p2wsh(&bitcoin::hashes::Hash::from_byte_array(*hash)).into_bytes()
}

/// `hash160::Hash::hash`: the hash by which a P2WPKH output names a key. It
/// depends on the key's bytes alone.
#[verifier::external_body]
fn key_wpubkey_hash(key: &Vec<u8>) -> (hash: [u8; 20])
    ensures
        hash@ == wpubkey_hash(key@),
{
    bitcoin::hashes::Hash::to_byte_array(<bitcoin::hashes::hash160::Hash as bitcoin::hashes::Hash>::hash(key))
}

/// `ScriptBuf::new_p2wpkh`: witness version 0, then a push of the 20 bytes
/// of the key hash.
#[verifier::external_body]
fn script_new_p2wpkh(hash: &[u8; 20]) -> (script: Vec<u8>)
    ensures
        script@ == seq![0x00u8, 0x14u8] + hash@,
{
    bitcoin::ScriptBuf::new_p2wpkh(&bitcoin::hashes::Hash::from_byte_array(*hash)).into_bytes()
}

/// Whether a refund delay is zero under one of the three ways to write one.
pub fn refund_delay_is_zero(refund_delay: u32) -> (zero: bool)
    ensures
        zero == is_zero_delay(refund_delay),
{
    let blocks: u32 = sequence_from_height(0);
    let intervals: u32 = sequence_from_512_second_intervals(0);
    refund_delay == 0 || refund_delay == blocks || refund_delay == intervals
}

/// Builds the channel's spending script from the two keys and the refund
/// delay. Equal inputs give equal scripts, byte for byte.
pub fn funding_script(payer: &PublicKey, payee: &PublicKey, refund_delay: u32) -> (script: Vec<u8>)
    requires
        payer@.len() < 0x1_0000_0000,
        payee@.len() < 0x1_0000_0000,
    ensures
        script@ == funding_script_bytes(payer@, payee@, refund_delay),
{
    let b = builder_new();
    let b = builder_push_opcode(b, OP_IF);
    let b = builder_push_int(b, 2);
    let b = builder_push_slice(b, &payer.bytes);
    let b = builder_push_slice(b, &payee.bytes);
    let b = builder_push_int(b, 2);
    let b = builder_push_opcode(b, OP_CHECKMULTISIG);
    let b = builder_push_opcode(b, OP_ELSE);
    let b = builder_push_sequence(b, refund_delay);
    let b = builder_push_opcode(b, OP_CSV);
    let b = builder_push_opcode(b, OP_DROP);
    let b = builder_push_slice(b, &payer.bytes);
    let b = builder_push_opcode(b, OP_CHECKSIG);
    let b = builder_push_opcode(b, OP_ENDIF);
    let script = builder_into_bytes(b);
    script
}

/// The output script that pays to a witness script by its hash.
pub fn p2wsh(witness_script: &Vec<u8>) -> (script: Vec<u8>)
    ensures
        script@ == p2wsh_script(witness_script@),
        script@.len() == 34,
{
    let hash = script_wscript_hash(witness_script);
    script_new_p2wsh(&hash)
}

/// The output script that pays to a public key by its hash, for a key in
/// compressed form; none for any other.
pub fn p2wpkh(key: &PublicKey) -> (script: Option<Vec<u8>>)
    ensures
        script.is_some() == is_compressed_key(key@),
        script matches Some(s) ==> s@ == p2wpkh_script(key@) && s@.len() == 22,
{
    if key.compressed() {
        let hash = key_wpubkey_hash(&key.bytes);
        Some(script_new_p2wpkh(&hash))
    } else {
        None
    }
}

} // verus!
