use csv2::address::{generate_p2wsh_address, Address};
use csv2::network::NETWORK;
use csv2::script::csv2_script;
use csv2::sequence::csv2_sequence;
use csv2::transaction::{spend, OutPoint, Transaction, TxIn, TxOut};
use miniscript::bitcoin::consensus::encode::deserialize_hex;

const TXID: &str = "000102030405060708090a0b0c0d0e0f101112131415161718191a1b1c1d1e1f";

fn txid_bytes() -> [u8; 32] {
    let mut bytes = [0u8; 32];
    for (i, byte) in bytes.iter_mut().enumerate() {
        *byte = 31 - i as u8;
    }
    bytes
}

fn destination() -> Address {
    Address::parse(&generate_p2wsh_address(0, NETWORK)).expect("an address")
}

#[test]
fn spend_builds_one_input_and_one_output() {
    let outpoint = OutPoint { txid: txid_bytes(), vout: 3 };
    let address = destination();
    let tx = spend(outpoint, 10, 5000, address.clone());
    let expected = Transaction {
        version: 2,
        lock_time: 0,
        input: vec![TxIn {
            previous_output: outpoint,
            script_sig: vec![],
            sequence: 2097162,
            witness: vec![vec![0x03, 0x0a, 0x00, 0x20, 0xb2]],
        }],
        output: vec![TxOut { value: 5000, script_pubkey: address.script_pubkey() }],
    };
    assert_eq!(tx, expected);
}

#[test]
fn spend_carries_the_witness_script_of_its_timelock() {
    for timelock in [0u16, 1, 10, 255, 256, 65535] {
        let tx = spend(OutPoint { txid: [7; 32], vout: 0 }, timelock, 1, destination());
        assert_eq!(tx.input.len(), 1);
        assert_eq!(tx.output.len(), 1);
        assert_eq!(tx.input[0].sequence, csv2_sequence(timelock));
        assert_eq!(tx.input[0].sequence, u32::from(timelock) | (1 << 21));
        assert_eq!(tx.input[0].witness, vec![csv2_script(csv2_sequence(timelock))]);
        assert!(tx.input[0].script_sig.is_empty());
        assert_eq!(tx.version, 2);
        assert_eq!(tx.lock_time, 0);
    }
}

#[test]
fn hex_of_a_spend() {
    let tx = spend(OutPoint { txid: txid_bytes(), vout: 0 }, 10, 5000, destination());
    assert_eq!(
        tx.to_hex(),
        "020000000001011f1e1d1c1b1a191817161514131211100f0e0d0c0b0a09080706050403020100\
         00000000000a002000018813000000000000220020c2ec87163a5d98d39f9f64afcee92d3f7bef\
         3f29f365a4e833ad11cd2fff8ca50105030a0020b200000000"
    );
}

#[test]
fn hex_of_a_spend_at_the_limits() {
    let tx = spend(OutPoint { txid: txid_bytes(), vout: 7 }, 65535, 4294967295, destination());
    assert_eq!(
        tx.to_hex(),
        "020000000001011f1e1d1c1b1a191817161514131211100f0e0d0c0b0a09080706050403020100\
         0700000000ffff200001ffffffff00000000220020c2ec87163a5d98d39f9f64afcee92d3f7bef\
         3f29f365a4e833ad11cd2fff8ca5010503ffff20b200000000"
    );
}

#[test]
fn hex_is_lower_case_and_even() {
    let tx = spend(OutPoint { txid: [0xab; 32], vout: 0xcdef }, 0xabcd, 0xfedcba, destination());
    let hex = tx.to_hex();
    assert_eq!(hex.len() % 2, 0);
    assert!(hex.chars().all(|c| c.is_ascii_digit() || ('a'..='f').contains(&c)));
    assert!(hex.contains(&"ab".repeat(32)));
}

#[test]
fn hex_decodes_to_the_transaction_asked_for() {
    let address = destination();
    let tx = spend(OutPoint { txid: txid_bytes(), vout: 0 }, 10, 5000, address.clone());
    let decoded: miniscript::bitcoin::Transaction = deserialize_hex(&tx.to_hex()).expect("decodes");
    assert_eq!(decoded.version.0, 2);
    assert_eq!(decoded.lock_time.to_consensus_u32(), 0);
    assert_eq!(decoded.input.len(), 1);
    assert_eq!(decoded.output.len(), 1);
    assert_eq!(decoded.input[0].previous_output.txid.to_string(), TXID);
    assert_eq!(decoded.input[0].previous_output.vout, 0);
    assert!(decoded.input[0].script_sig.is_empty());
    assert_eq!(decoded.input[0].sequence.to_consensus_u32(), 2097162);
    assert_eq!(decoded.input[0].sequence.to_consensus_u32(), 10 | 2097152);
    assert_eq!(decoded.input[0].witness.to_vec(), vec![vec![0x03, 0x0a, 0x00, 0x20, 0xb2]]);
    assert_eq!(decoded.output[0].value.to_sat(), 5000);
    assert_eq!(decoded.output[0].script_pubkey.as_bytes(), address.script_pubkey());
}

#[test]
fn hex_of_any_transaction_decodes_to_it() {
    let tx = Transaction {
        version: 1,
        lock_time: 500_000_123,
        input: vec![
            TxIn {
                previous_output: OutPoint { txid: [1; 32], vout: 1 },
                script_sig: vec![0x51],
                sequence: 0xffff_fffe,
                witness: vec![],
            },
            TxIn {
                previous_output: OutPoint { txid: [2; 32], vout: 2 },
                script_sig: vec![],
                sequence: 5,
                witness: vec![vec![], vec![1, 2, 3]],
            },
        ],
        output: vec![
            TxOut { value: 1, script_pubkey: vec![0x6a] },
            TxOut { value: u64::MAX, script_pubkey: vec![] },
        ],
    };
    let decoded: miniscript::bitcoin::Transaction = deserialize_hex(&tx.to_hex()).expect("decodes");
    assert_eq!(decoded.version.0, 1);
    assert_eq!(decoded.lock_time.to_consensus_u32(), 500_000_123);
    assert_eq!(decoded.input.len(), 2);
    assert_eq!(decoded.input[0].script_sig.as_bytes(), &[0x51]);
    assert_eq!(decoded.input[0].sequence.to_consensus_u32(), 0xffff_fffe);
    assert!(decoded.input[0].witness.is_empty());
    assert_eq!(decoded.input[1].previous_output.vout, 2);
    assert_eq!(decoded.input[1].witness.to_vec(), vec![vec![], vec![1, 2, 3]]);
    assert_eq!(decoded.output.len(), 2);
    assert_eq!(decoded.output[0].script_pubkey.as_bytes(), &[0x6a]);
    assert_eq!(decoded.output[1].value.to_sat(), u64::MAX);
}

#[test]
fn hex_of_a_transaction_without_witness() {
    let tx = Transaction {
        version: 2,
        lock_time: 0,
        input: vec![TxIn {
            previous_output: OutPoint { txid: [0; 32], vout: 0xffff_ffff },
            script_sig: vec![],
            sequence: 0xffff_ffff,
            witness: vec![],
        }],
        output: vec![TxOut { value: 0, script_pubkey: vec![] }],
    };
    let zeros = "00".repeat(32);
    let expected = format!("0200000001{}ffffffff00ffffffff01{}0000000000", zeros, "00".repeat(8));
    assert_eq!(tx.to_hex(), expected);
}
