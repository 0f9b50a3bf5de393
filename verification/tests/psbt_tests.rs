use bitcoin::secp256k1::{Message, Secp256k1, SecretKey};
use spill::bytes::{hash_eq, to_lower_hex};
use spill::key::PublicKey;
use spill::psbt::{PartialSig, Psbt, PsbtInput, PsbtOutput, SighashType};
use spill::tx::{OutPoint, Transaction, TxIn, TxOut};

fn key(byte: u8) -> PublicKey {
    PublicKey::from_bytes(vec![byte; 33])
}

fn sig(key_byte: u8, signature: &[u8]) -> PartialSig {
    PartialSig {
        public_key: key(key_byte),
        signature: signature.to_vec(),
        sighash_type: SighashType::All,
    }
}

fn unsigned_input(vout: u32) -> TxIn {
    TxIn {
        previous_output: OutPoint { txid: [9; 32], vout },
        script_sig: vec![],
        sequence: 0xFFFF_FFFF,
        witness: vec![],
    }
}

fn tx(input: Vec<TxIn>, output: Vec<TxOut>) -> Transaction {
    Transaction { version: 2, lock_time: 0, input, output }
}

fn out(value: u64, script: &[u8]) -> TxOut {
    TxOut { value, script_pubkey: script.to_vec() }
}

#[test]
fn from_unsigned_tx_starts_with_nothing_known() {
    let tx = tx(vec![unsigned_input(0), unsigned_input(1)], vec![out(5, &[0x51])]);
    let psbt = Psbt::from_unsigned_tx(tx.clone()).unwrap();
    assert_eq!(psbt.unsigned_tx, tx);
    assert_eq!(psbt.inputs, vec![PsbtInput::default(), PsbtInput::default()]);
    assert_eq!(psbt.outputs, vec![PsbtOutput::default()]);
    assert_eq!(
        PsbtInput::default(),
        PsbtInput {
            witness_utxo: None,
            witness_script: None,
            partial_sigs: vec![],
            final_script_witness: None,
        }
    );
    assert_eq!(PsbtOutput::default(), PsbtOutput { witness_script: None });
}

#[test]
fn from_unsigned_tx_accepts_the_empty_transaction() {
    let psbt = Psbt::from_unsigned_tx(tx(vec![], vec![])).unwrap();
    assert!(psbt.inputs.is_empty());
    assert!(psbt.outputs.is_empty());
}

#[test]
fn from_unsigned_tx_refuses_unlocking_data() {
    let mut with_script = unsigned_input(0);
    with_script.script_sig = vec![0x51];
    assert!(Psbt::from_unsigned_tx(tx(vec![unsigned_input(1), with_script], vec![])).is_none());
    let mut with_witness = unsigned_input(0);
    with_witness.witness = vec![vec![]];
    assert!(Psbt::from_unsigned_tx(tx(vec![with_witness], vec![])).is_none());
}

#[test]
fn from_unsigned_tx_agrees_with_the_bitcoin_constructor() {
    let theirs = |script_sig: Vec<u8>, witness: Vec<Vec<u8>>| {
        bitcoin::Psbt::from_unsigned_tx(bitcoin::Transaction {
            version: bitcoin::transaction::Version::TWO,
            lock_time: bitcoin::absolute::LockTime::ZERO,
            input: vec![bitcoin::TxIn {
                previous_output: bitcoin::OutPoint::null(),
                script_sig: bitcoin::ScriptBuf::from_bytes(script_sig),
                sequence: bitcoin::Sequence::MAX,
                witness: bitcoin::Witness::from_slice(&witness),
            }],
            output: vec![],
        })
    };
    let ours = |script_sig: Vec<u8>, witness: Vec<Vec<u8>>| {
        let mut input = unsigned_input(0);
        input.script_sig = script_sig;
        input.witness = witness;
        Psbt::from_unsigned_tx(tx(vec![input], vec![]))
    };
    for (script_sig, witness) in [
        (vec![], vec![]),
        (vec![0x00], vec![]),
        (vec![], vec![vec![0x01]]),
        (vec![], vec![vec![]]),
        (vec![0x51], vec![vec![0x01]]),
    ] {
        let expected = theirs(script_sig.clone(), witness.clone());
        let got = ours(script_sig, witness);
        assert_eq!(got.is_some(), expected.is_ok());
        if let (Some(got), Ok(expected)) = (got, expected) {
            assert_eq!(got.inputs.len(), expected.inputs.len());
            assert_eq!(got.outputs.len(), expected.outputs.len());
        }
    }
}

#[test]
fn partial_sig_finds_the_signature_of_a_key() {
    let mut input = PsbtInput::default();
    assert!(input.partial_sig(&key(2)).is_none());
    input.insert_partial_sig(sig(2, &[1, 2, 3]));
    input.insert_partial_sig(sig(3, &[4, 5]));
    assert_eq!(input.partial_sig(&key(2)), Some(&sig(2, &[1, 2, 3])));
    assert_eq!(input.partial_sig(&key(3)), Some(&sig(3, &[4, 5])));
    assert!(input.partial_sig(&key(4)).is_none());
    assert!(input.partial_sig(&PublicKey::from_bytes(vec![2; 32])).is_none());
}

#[test]
fn partial_sig_finds_the_first_of_two() {
    let input = PsbtInput {
        witness_utxo: None,
        witness_script: None,
        partial_sigs: vec![sig(2, &[1]), sig(3, &[2]), sig(2, &[3])],
        final_script_witness: None,
    };
    assert_eq!(input.partial_sig(&key(2)), Some(&sig(2, &[1])));
}

#[test]
fn insert_partial_sig_replaces_the_signature_of_the_key() {
    let mut input = PsbtInput::default();
    input.witness_script = Some(vec![0x51]);
    input.insert_partial_sig(sig(2, &[1]));
    input.insert_partial_sig(sig(3, &[2]));
    input.insert_partial_sig(sig(2, &[9, 9]));
    assert_eq!(input.partial_sigs.len(), 2);
    assert_eq!(input.partial_sig(&key(2)), Some(&sig(2, &[9, 9])));
    assert_eq!(input.partial_sig(&key(3)), Some(&sig(3, &[2])));
    assert_eq!(input.witness_script, Some(vec![0x51]));
    assert_eq!(input.witness_utxo, None);
    assert_eq!(input.final_script_witness, None);
}

#[test]
fn insert_partial_sig_behaves_as_the_map_of_the_bitcoin_psbt() {
    let secp = Secp256k1::new();
    let secret = |seed: u8| SecretKey::from_slice(&[seed; 32]).unwrap();
    let bitcoin_key = |seed: u8| bitcoin::PublicKey::new(secret(seed).public_key(&secp));
    let signature = |seed: u8, digest: u8| bitcoin::ecdsa::Signature {
        signature: secp.sign_ecdsa(&Message::from_digest([digest; 32]), &secret(seed)),
        sighash_type: bitcoin::EcdsaSighashType::All,
    };
    let mut theirs = bitcoin::psbt::Input::default();
    let mut ours = PsbtInput::default();
    for (seed, digest) in [(1, 1), (2, 1), (1, 2), (3, 3), (2, 4)] {
        let s = signature(seed, digest);
        theirs.partial_sigs.insert(bitcoin_key(seed), s);
        ours.insert_partial_sig(PartialSig {
            public_key: PublicKey::from_bytes(bitcoin_key(seed).to_bytes()),
            signature: s.signature.serialize_der().to_vec(),
            sighash_type: SighashType::All,
        });
    }
    assert_eq!(ours.partial_sigs.len(), theirs.partial_sigs.len());
    for (key, s) in &theirs.partial_sigs {
        let found = ours.partial_sig(&PublicKey::from_bytes(key.to_bytes())).unwrap();
        assert_eq!(found.signature, s.signature.serialize_der().to_vec());
    }
}

#[test]
fn sighash_types_have_their_consensus_encoding() {
    assert_eq!(SighashType::All.to_u32(), 0x01);
    assert_eq!(SighashType::NoOutputs.to_u32(), 0x02);
    assert_eq!(SighashType::Single.to_u32(), 0x03);
    assert_eq!(SighashType::AllPlusAnyoneCanPay.to_u32(), 0x81);
    assert_eq!(SighashType::NoOutputsPlusAnyoneCanPay.to_u32(), 0x82);
    assert_eq!(SighashType::SinglePlusAnyoneCanPay.to_u32(), 0x83);
    assert!(SighashType::All.is_all());
    assert!(!SighashType::AllPlusAnyoneCanPay.is_all());
    assert!(!SighashType::NoOutputs.is_all());
}

#[test]
fn total_output_value_adds_the_outputs() {
    assert_eq!(tx(vec![], vec![]).total_output_value(), Some(0));
    assert_eq!(tx(vec![], vec![out(7, &[])]).total_output_value(), Some(7));
    let three = tx(vec![], vec![out(1, &[]), out(20, &[]), out(300, &[])]);
    assert_eq!(three.total_output_value(), Some(321));
    let most = tx(vec![], vec![out(u64::MAX - 1, &[]), out(1, &[])]);
    assert_eq!(most.total_output_value(), Some(u64::MAX));
}

#[test]
fn total_output_value_has_no_value_beyond_64_bits() {
    let over = tx(vec![], vec![out(u64::MAX, &[]), out(1, &[])]);
    assert_eq!(over.total_output_value(), None);
    let over = tx(vec![], vec![out(1, &[]), out(u64::MAX, &[]), out(0, &[])]);
    assert_eq!(over.total_output_value(), None);
}

#[test]
fn find_output_finds_the_first_output_with_the_script() {
    let tx = tx(vec![], vec![out(1, &[0x51]), out(2, &[0x52]), out(3, &[0x52])]);
    assert_eq!(tx.find_output(&vec![0x52]), Some(&out(2, &[0x52])));
    assert_eq!(tx.find_output(&vec![0x51]), Some(&out(1, &[0x51])));
    assert_eq!(tx.find_output(&vec![0x53]), None);
    assert_eq!(tx.find_output(&vec![]), None);
    assert_eq!(tx.find_output(&vec![0x52, 0x00]), None);
}

#[test]
fn copies_are_equal() {
    let mut input = PsbtInput::default();
    input.witness_utxo = Some(out(5, &[0x00, 0x14]));
    input.witness_script = Some(vec![0x51]);
    input.final_script_witness = Some(vec![vec![], vec![1, 2]]);
    input.insert_partial_sig(sig(2, &[1]));
    let mut txin = unsigned_input(4);
    txin.witness = vec![vec![7], vec![]];
    txin.script_sig = vec![0x51];
    let psbt = Psbt {
        unsigned_tx: tx(vec![txin], vec![out(9, &[0x52])]),
        inputs: vec![input],
        outputs: vec![PsbtOutput { witness_script: Some(vec![0x53]) }],
    };
    assert_eq!(psbt.clone(), psbt);
    assert_eq!(psbt.unsigned_tx.clone(), psbt.unsigned_tx);
    assert_eq!(psbt.inputs[0].partial_sigs[0].clone(), sig(2, &[1]));
}

#[test]
fn same_as_is_equality() {
    let a = OutPoint { txid: [1; 32], vout: 0 };
    let mut b = a;
    assert!(a.same_as(&b));
    b.txid[31] = 2;
    assert!(!a.same_as(&b));
    assert!(!a.same_as(&OutPoint { txid: [1; 32], vout: 1 }));
    assert!(out(1, &[0x51]).same_as(&out(1, &[0x51])));
    assert!(!out(1, &[0x51]).same_as(&out(2, &[0x51])));
    assert!(!out(1, &[0x51]).same_as(&out(1, &[0x51, 0x00])));
    assert!(key(2).same_as(&key(2)));
    assert!(!key(2).same_as(&key(3)));
    assert!(hash_eq(&[5; 32], &[5; 32]));
    let mut other = [5; 32];
    other[0] = 4;
    assert!(!hash_eq(&[5; 32], &other));
}

#[test]
fn keys_are_compressed_at_33_bytes() {
    assert!(key(2).compressed());
    assert!(!PublicKey::from_bytes(vec![4; 65]).compressed());
    assert!(!PublicKey::from_bytes(vec![]).compressed());
    assert!(!PublicKey::from_bytes(vec![2; 32]).compressed());
    assert!(!PublicKey::from_bytes(vec![2; 34]).compressed());
    assert_eq!(PublicKey::from_bytes(vec![1, 2, 3]).bytes, vec![1, 2, 3]);
}

#[test]
fn hex_is_two_lower_case_digits_for_a_byte() {
    assert_eq!(to_lower_hex(&vec![]), "");
    assert_eq!(to_lower_hex(&vec![0x00]), "00");
    assert_eq!(to_lower_hex(&vec![0x0f, 0xf0, 0xab]), "0ff0ab");
    assert_eq!(
        to_lower_hex(&vec![0x01, 0x23, 0x45, 0x67, 0x89, 0xab, 0xcd, 0xef]),
        "0123456789abcdef"
    );
    let all: Vec<u8> = (0..=255).collect();
    let expected: String = all.iter().map(|b| format!("{:02x}", b)).collect();
    assert_eq!(to_lower_hex(&all), expected);
}
