//! Addresses in their text encoding.

use vstd::prelude::*;
use vstd::string::*;
use std::str::FromStr;
use miniscript::bitcoin::address::NetworkUnchecked;
use miniscript::bitcoin::Script;
use crate::network::Network;
use crate::script::{csv2_script, csv2_script_bytes, lemma_scripts_differ};
use crate::sequence::{csv2_sequence, flagged_sequence};

verus! {

/// Whether `text` is the encoding of an address, of whatever kind and on
/// whatever network.
pub uninterp spec fn address_decodes(text: Seq<char>) -> bool;

/// Whether the address that `text` encodes can be used on `network`.
pub uninterp spec fn address_on_network(text: Seq<char>, network: Network) -> bool;

/// The output script that pays to the address that `text` encodes.
pub uninterp spec fn address_script(text: Seq<char>) -> Seq<u8>;

/// The encoding of the address that pays, on `network`, to the hash of the
/// witness script `script`.
pub uninterp spec fn p2wsh_address(script: Seq<u8>, network: Network) -> Seq<char>;

/// An address as the text that encodes it. The network it is meant for has
/// not been looked at.
#[derive(Debug, PartialEq, Eq)]
pub struct Address {
    text: String,
}

impl View for Address {
    type V = Seq<char>;

    closed spec fn view(&self) -> Seq<char> {
        self.text@
    }
}

/// `FromStr` of the outside crate's unchecked `Address`: whether `text`
/// parses, as a segwit address or else as a legacy one.
#[verifier::external_body]
fn text_decodes(text: &str) -> (ok: bool)
    ensures
        ok == address_decodes(text@),
{
    miniscript::bitcoin::Address::<NetworkUnchecked>::from_str(text).is_ok()
}

/// `Address::is_valid_for_network` on the address that `text` parses to.
#[verifier::external_body]
fn text_on_network(text: &str, network: Network) -> (valid: bool)
    requires
        address_decodes(text@),
    ensures
        valid == address_on_network(text@, network),
{
    let network = match network {
        Network::Bitcoin => miniscript::bitcoin::Network::Bitcoin,
        Network::Testnet => miniscript::bitcoin::Network::Testnet,
        Network::Testnet4 => miniscript::bitcoin::Network::Testnet4,
        Network::Signet => miniscript::bitcoin::Network::Signet,
        Network::Regtest => miniscript::bitcoin::Network::Regtest,
    };
    let address = miniscript::bitcoin::Address::<NetworkUnchecked>::from_str(text);
    address.expect("the text decodes").is_valid_for_network(network)
}

/// `Address::script_pubkey` on the address that `text` parses to, as bytes.
#[verifier::external_body]
fn text_script(text: &str) -> (script: Vec<u8>)
    requires
        address_decodes(text@),
    ensures
        script@ == address_script(text@),
{
    let address = miniscript::bitcoin::Address::<NetworkUnchecked>::from_str(text);
    address.expect("the text decodes").assume_checked().script_pubkey().into_bytes()
}

/// `Address::p2wsh` on the script `script`, shown as text. The address made is
/// a segwit address under the network's prefix, and the text shown is its
/// bech32 encoding: read again it decodes, to an address under the same
/// prefix, which is one that can be used on `network`.
#[verifier::external_body]
fn p2wsh_text(script: &Vec<u8>, network: Network) -> (text: String)
    ensures
        text@ == p2wsh_address(script@, network),
        address_decodes(text@),
        address_on_network(text@, network),
{
    let network = match network {
        Network::Bitcoin => miniscript::bitcoin::Network::Bitcoin,
        Network::Testnet => miniscript::bitcoin::Network::Testnet,
        Network::Testnet4 => miniscript::bitcoin::Network::Testnet4,
        Network::Signet => miniscript::bitcoin::Network::Signet,
        Network::Regtest => miniscript::bitcoin::Network::Regtest,
    };
    miniscript::bitcoin::Address::p2wsh(Script::from_bytes(script), network).to_string()
}

impl Address {
    #[verifier::type_invariant]
    spec fn decodes(self) -> bool {
        address_decodes(self.text@)
    }

    /// Takes `text` for an address if it encodes one.
    pub fn parse(text: &str) -> (parsed: Option<Address>)
        ensures
            parsed is Some == address_decodes(text@),
            parsed matches Some(address) ==> address@ == text@,
    {
        if text_decodes(text) {
            Some(Address { text: text.to_owned() })
        } else {
            None
        }
    }

    /// The text of the address.
    pub fn as_str(&self) -> (text: &str)
        ensures
            text@ == self@,
    {
        self.text.as_str()
    }

    /// Whether the address can be used on `network`.
    pub fn is_valid_for_network(&self, network: Network) -> (valid: bool)
        ensures
            valid == address_on_network(self@, network),
    {
        proof {
            use_type_invariant(self);
        }
        text_on_network(self.text.as_str(), network)
    }

    /// The output script that pays to the address.
    pub fn script_pubkey(&self) -> (script: Vec<u8>)
        ensures
            script@ == address_script(self@),
    {
        proof {
            use_type_invariant(self);
        }
        text_script(self.text.as_str())
    }
}

impl Clone for Address {
    fn clone(&self) -> (copy: Address)
        ensures
            copy@ == self@,
    {
        proof {
            use_type_invariant(self);
        }
        Address { text: self.text.clone() }
    }
}

/// The address text for a timelock on a network.
pub open spec fn timelock_address(timelock: u16, network: Network) -> Seq<char> {
    p2wsh_address(csv2_script_bytes(flagged_sequence(timelock)), network)
}

/// The address, on `network`, of the outputs that anyone can spend once
/// `timelock` blocks have passed: it pays to the hash of the witness script
/// for `timelock`. The text returned depends on the two arguments alone; it
/// is the encoding of an address, and of one that can be used on `network`.
pub fn generate_p2wsh_address(timelock: u16, network: Network) -> (address: String)
    ensures
        address@ == timelock_address(timelock, network),
        address_decodes(address@),
        address_on_network(address@, network),
{
    let script = csv2_script(csv2_sequence(timelock));
    p2wsh_text(&script, network)
}

/// Two timelocks that differ have addresses that differ, unless the address
/// encoding maps their two witness scripts, which differ, to one text.
pub proof fn lemma_addresses_differ(a: u16, b: u16, network: Network)
    requires
        a != b,
        p2wsh_address(csv2_script_bytes(flagged_sequence(a)), network) == p2wsh_address(
            csv2_script_bytes(flagged_sequence(b)),
            network,
        ) ==> csv2_script_bytes(flagged_sequence(a)) == csv2_script_bytes(flagged_sequence(b)),
    ensures
        timelock_address(a, network) != timelock_address(b, network),
{
    lemma_scripts_differ(a, b);
}

} // verus!
