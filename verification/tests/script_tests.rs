use bitcoin::opcodes::all::{
    OP_CHECKMULTISIG, OP_CHECKSIG, OP_CSV, OP_DROP, OP_ELSE, OP_ENDIF, OP_IF,
};
use bitcoin::secp256k1::{Secp256k1, SecretKey};
use bitcoin::{script, ScriptBuf, Sequence};
use spill::key::PublicKey;
use spill::script::{funding_script, p2wpkh, p2wsh, refund_delay_is_zero};

fn bitcoin_key(seed: u8) -> bitcoin::PublicKey {
    let secp = Secp256k1::new();
    let secret = SecretKey::from_slice(&[seed; 32]).unwrap();
    bitcoin::PublicKey::new(secret.public_key(&secp))
}

fn key(seed: u8) -> PublicKey {
    PublicKey::from_bytes(bitcoin_key(seed).to_bytes())
}

fn bitcoin_script(payer: u8, payee: u8, delay: Sequence) -> ScriptBuf {
    script::Builder::new()
        .push_opcode(OP_IF)
        .push_int(2)
        .push_key(&bitcoin_key(payer))
        .push_key(&bitcoin_key(payee))
        .push_int(2)
        .push_opcode(OP_CHECKMULTISIG)
        .push_opcode(OP_ELSE)
        .push_sequence(delay)
        .push_opcode(OP_CSV)
        .push_opcode(OP_DROP)
        .push_key(&bitcoin_key(payer))
        .push_opcode(OP_CHECKSIG)
        .push_opcode(OP_ENDIF)
        .into_script()
}

#[test]
fn funding_script_has_the_documented_layout() {
    let payer = key(1);
    let payee = key(2);
    let script = funding_script(&payer, &payee, 6);
    let mut expected: Vec<u8> = vec![0x63, 0x52, 0x21];
    expected.extend_from_slice(&payer.bytes);
    expected.push(0x21);
    expected.extend_from_slice(&payee.bytes);
    expected.extend_from_slice(&[0x52, 0xae, 0x67, 0x56, 0xb2, 0x75, 0x21]);
    expected.extend_from_slice(&payer.bytes);
    expected.extend_from_slice(&[0xac, 0x68]);
    assert_eq!(script, expected);
}

#[test]
fn funding_script_equals_the_builder_chain() {
    let delays = [
        Sequence::from_height(6),
        Sequence::from_height(16),
        Sequence::from_height(17),
        Sequence::from_height(127),
        Sequence::from_height(128),
        Sequence::from_height(255),
        Sequence::from_height(256),
        Sequence::from_height(0xFFFF),
        Sequence::from_512_second_intervals(1),
        Sequence::from_512_second_intervals(0xFFFF),
        Sequence::from_consensus(0x0080_0000),
        Sequence::from_consensus(0x7FFF_FFFF),
        Sequence::from_consensus(0x8000_0000),
        Sequence::MAX,
    ];
    for delay in delays {
        let script = funding_script(&key(1), &key(2), delay.to_consensus_u32());
        assert_eq!(script, bitcoin_script(1, 2, delay).into_bytes());
    }
}

#[test]
fn funding_script_encodes_wide_delays_as_script_numbers() {
    let payer = key(1);
    let payee = key(2);
    let at = 3 + 33 + 1 + 33 + 3;
    let script = funding_script(&payer, &payee, 0x0040_0001);
    assert_eq!(&script[at..at + 4], &[0x03, 0x01, 0x00, 0x40]);
    let script = funding_script(&payer, &payee, 0xFFFF_FFFF);
    assert_eq!(&script[at..at + 6], &[0x05, 0xff, 0xff, 0xff, 0xff, 0x00]);
    let script = funding_script(&payer, &payee, 128);
    assert_eq!(&script[at..at + 3], &[0x02, 0x80, 0x00]);
}

#[test]
fn funding_script_is_deterministic() {
    let a = funding_script(&key(3), &key(4), 144);
    let b = funding_script(&key(3), &key(4), 144);
    assert_eq!(a, b);
    assert_ne!(a, funding_script(&key(4), &key(3), 144));
    assert_ne!(a, funding_script(&key(3), &key(4), 145));
}

#[test]
fn p2wsh_is_version_zero_and_the_script_hash() {
    let script = funding_script(&key(1), &key(2), 6);
    let expected = ScriptBuf::new_p2wsh(&ScriptBuf::from_bytes(script.clone()).wscript_hash());
    let got = p2wsh(&script);
    assert_eq!(got, expected.into_bytes());
    assert_eq!(&got[..2], &[0x00, 0x20]);
    assert_eq!(got.len(), 34);
}

#[test]
fn p2wpkh_is_version_zero_and_the_key_hash() {
    let expected = ScriptBuf::new_p2wpkh(&bitcoin_key(5).wpubkey_hash().unwrap());
    let got = p2wpkh(&key(5)).unwrap();
    assert_eq!(got, expected.into_bytes());
    assert_eq!(&got[..2], &[0x00, 0x14]);
    assert_eq!(got.len(), 22);
}

#[test]
fn p2wpkh_refuses_an_uncompressed_key() {
    let mut theirs = bitcoin_key(5);
    theirs.compressed = false;
    assert!(theirs.wpubkey_hash().is_err());
    let key = PublicKey::from_bytes(theirs.to_bytes());
    assert_eq!(key.bytes.len(), 65);
    assert!(p2wpkh(&key).is_none());
}

#[test]
fn zero_delay_in_each_encoding() {
    assert!(refund_delay_is_zero(Sequence::ZERO.to_consensus_u32()));
    assert!(refund_delay_is_zero(Sequence::from_height(0).to_consensus_u32()));
    assert!(refund_delay_is_zero(Sequence::from_512_second_intervals(0).to_consensus_u32()));
    assert!(!refund_delay_is_zero(Sequence::from_height(1).to_consensus_u32()));
    assert!(!refund_delay_is_zero(Sequence::from_512_second_intervals(1).to_consensus_u32()));
    assert!(!refund_delay_is_zero(Sequence::MAX.to_consensus_u32()));
}
