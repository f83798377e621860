use csv2::address::Address;
use csv2::cli::{execute, run, usage, Outcome};
use csv2::command::{is_help_request, Command, Error};
use csv2::network::Network;
use csv2::transaction::OutPoint;
use miniscript::bitcoin::consensus::encode::deserialize_hex;

const TXID: &str = "000102030405060708090a0b0c0d0e0f101112131415161718191a1b1c1d1e1f";
const ADDRESS: &str = "bcrt1qctkgw936tkvd88ulvjhua6fd8aa770ef7dj6f6pn45gu6tll3jjs08wuuy";
const MAINNET: &str = "bc1qctkgw936tkvd88ulvjhua6fd8aa770ef7dj6f6pn45gu6tll3jjs4kj4n3";
const TESTNET: &str = "tb1qctkgw936tkvd88ulvjhua6fd8aa770ef7dj6f6pn45gu6tll3jjsz7y6f7";

fn args(words: &[&str]) -> Vec<String> {
    words.iter().map(|word| word.to_string()).collect()
}

fn outpoint_text() -> String {
    format!("{}:0", TXID)
}

#[test]
fn help_is_asked_for_by_the_first_argument() {
    assert!(is_help_request(&args(&["bin", "-help"])));
    assert!(is_help_request(&args(&["bin", "-h"])));
    assert!(is_help_request(&args(&["bin", "-h", "address", "ten"])));
    assert!(!is_help_request(&args(&[])));
    assert!(!is_help_request(&args(&["bin"])));
    assert!(!is_help_request(&args(&["-h"])));
    assert!(!is_help_request(&args(&["bin", "--help"])));
    assert!(!is_help_request(&args(&["bin", "-H"])));
    assert!(!is_help_request(&args(&["bin", "help"])));
    assert!(!is_help_request(&args(&["bin", "address", "-h"])));
}

#[test]
fn help_is_given_whatever_else_is_there() {
    assert_eq!(run(args(&["bin", "-help"])), Outcome::Help);
    assert_eq!(run(args(&["bin", "-h"])), Outcome::Help);
    assert_eq!(run(args(&["bin", "-h", "not a number"])), Outcome::Help);
    assert_eq!(run(args(&["bin", "-help", "o", "t", "a", "x"])), Outcome::Help);
    assert_eq!(run(args(&["bin", "-h", "1", "2", "3", "4", "5", "6"])), Outcome::Help);
    assert_eq!(Outcome::Help.status(), 0);
}

#[test]
fn a_run_without_arguments_ends_on_the_usage() {
    let outcome = run(args(&["bin"]));
    assert_eq!(outcome, Outcome::Failed(Error::Usage));
    assert_eq!(outcome.status(), 1);
    assert_eq!(run(args(&[])), Outcome::Failed(Error::Usage));
    assert_eq!(Error::Usage.message(), None);
}

#[test]
fn address_ten_prints_the_address() {
    let outcome = run(args(&["bin", "address", "10"]));
    let expected = "bcrt1qyxcspw9rhhe7j5jaf06la8xgzw8q7vvduxm7rxsxpgwpjwcv879qyu9jzy";
    assert_eq!(outcome, Outcome::Done(expected.to_string()));
    assert_eq!(outcome.status(), 0);
    assert_eq!(run(args(&["bin", "address", "10"])), outcome);
}

#[test]
fn spend_prints_the_transaction() {
    let outcome = run(args(&["bin", "spend", &outpoint_text(), "10", "5000", ADDRESS]));
    let expected = "020000000001011f1e1d1c1b1a191817161514131211100f0e0d0c0b0a09080706050403020100\
                    00000000000a002000018813000000000000220020c2ec87163a5d98d39f9f64afcee92d3f7bef\
                    3f29f365a4e833ad11cd2fff8ca50105030a0020b200000000";
    assert_eq!(outcome, Outcome::Done(expected.to_string()));
    assert_eq!(outcome.status(), 0);
}

#[test]
fn spend_prints_what_decodes_with_the_flagged_sequence() {
    let outcome = run(args(&["bin", "spend", &outpoint_text(), "10", "5000", ADDRESS]));
    let hex = match outcome {
        Outcome::Done(hex) => hex,
        other => panic!("{:?}", other),
    };
    let tx: miniscript::bitcoin::Transaction = deserialize_hex(&hex).expect("decodes");
    assert_eq!(tx.input.len(), 1);
    assert_eq!(tx.output.len(), 1);
    assert_eq!(tx.input[0].sequence.to_consensus_u32(), 2097162);
    assert_eq!(tx.input[0].previous_output.to_string(), outpoint_text());
    assert_eq!(tx.input[0].witness.to_vec(), vec![vec![0x03, 0x0a, 0x00, 0x20, 0xb2]]);
    assert_eq!(tx.output[0].value.to_sat(), 5000);
    let destination = Address::parse(ADDRESS).expect("an address");
    assert_eq!(tx.output[0].script_pubkey.as_bytes(), destination.script_pubkey());
}

#[test]
fn spend_refuses_an_address_of_another_network() {
    for address in [MAINNET, TESTNET, "32iVBEu4dxkUQk9dJbZUiBiQdmypcEyJRf"] {
        let outcome = run(args(&["bin", "spend", &outpoint_text(), "10", "5000", address]));
        assert_eq!(outcome, Outcome::Failed(Error::WrongNetwork(Network::Regtest)));
        assert_eq!(outcome.status(), 1);
    }
}

#[test]
fn spend_takes_a_legacy_test_address() {
    let address = "2N83imGV3gPwBzKJQvWJ7cRUY2SpUyU6A5e";
    let outcome = run(args(&["bin", "spend", &outpoint_text(), "10", "5000", address]));
    assert!(matches!(outcome, Outcome::Done(_)));
}

#[test]
fn execute_carries_out_a_command() {
    assert_eq!(
        execute(Command::Address { timelock: 0 }),
        Ok("bcrt1qctkgw936tkvd88ulvjhua6fd8aa770ef7dj6f6pn45gu6tll3jjs08wuuy".to_string())
    );
    let spend = Command::Spend {
        outpoint: OutPoint { txid: [0; 32], vout: 0 },
        timelock: 1,
        spend_amount: 1,
        address: Address::parse(MAINNET).expect("an address"),
    };
    assert_eq!(execute(spend), Err(Error::WrongNetwork(Network::Regtest)));
}

#[test]
fn failures_are_reported_with_the_text_that_failed() {
    let outcome = run(args(&["bin", "address", "70000"]));
    assert_eq!(outcome, Outcome::Failed(Error::InvalidTimelock("70000".to_string())));
    assert_eq!(outcome.status(), 1);
    let outcome = run(args(&["bin", "spend", "nothing", "10", "5000", ADDRESS]));
    assert_eq!(outcome, Outcome::Failed(Error::InvalidOutpoint("nothing".to_string())));
    let outcome = run(args(&["bin", "frobnicate", "10"]));
    assert_eq!(outcome, Outcome::Failed(Error::Usage));
}

#[test]
fn messages() {
    let text = |error: Error| error.message().expect("a message");
    assert_eq!(text(Error::InvalidOutpoint("abc".to_string())), "Invalid outpoint abc");
    assert_eq!(text(Error::InvalidTimelock("70000".to_string())), "Invalid timelock value 70000");
    assert_eq!(text(Error::InvalidTimelock(String::new())), "Invalid timelock value ");
    assert_eq!(text(Error::InvalidAmount("-5".to_string())), "Invalid amount value -5");
    assert_eq!(text(Error::InvalidAddress("xyz".to_string())), "Invalid address xyz");
    assert_eq!(
        text(Error::WrongNetwork(Network::Regtest)),
        "Address not valid for network regtest"
    );
}

#[test]
fn networks_are_shown_by_their_names() {
    let shown = |network: Network| Error::WrongNetwork(network).message().expect("a message");
    assert_eq!(shown(Network::Bitcoin), "Address not valid for network bitcoin");
    assert_eq!(shown(Network::Testnet), "Address not valid for network testnet");
    assert_eq!(shown(Network::Testnet4), "Address not valid for network testnet4");
    assert_eq!(shown(Network::Signet), "Address not valid for network signet");
    let outside = miniscript::bitcoin::Network::Regtest.to_string();
    assert_eq!(shown(Network::Regtest), format!("Address not valid for network {}", outside));
}

#[test]
fn usage_names_the_program() {
    let expected = "Usage:
    - csv2 address <timelock>  Generate a P2WSH address with the specified timelock
    - csv2 spend <outpoint> <sat_amount_to_spend> <address>  Spend from the specified outpoint
    - csv2 -help or csv2 -h  Show this help message

This binary is a helper to build & spend \"anyone can spend after timelock\" coins.
It's not intended to be used in real-world conditions but as a helper for experimenting
with the possibility to extend Bitcoin's relative locktime by adding a new flag to the nSequence field.
";
    assert_eq!(usage("csv2"), expected);
    assert_eq!(usage("./target/debug/tool"), expected.replace("csv2", "./target/debug/tool"));
    assert_eq!(usage(""), expected.replace("csv2", ""));
}
