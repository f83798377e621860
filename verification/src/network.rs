//! The networks an address can belong to.

use vstd::prelude::*;

verus! {

/// A Bitcoin network.
#[derive(Clone, Copy, Debug, PartialEq, Eq, Structural)]
pub enum Network {
    /// The main network.
    Bitcoin,
    /// The third test network.
    Testnet,
    /// The fourth test network.
    Testnet4,
    /// The signet network.
    Signet,
    /// A local regression-test network.
    Regtest,
}

/// The network that this library builds for.
pub const NETWORK: Network = Network::Regtest;

/// The name under which a network is shown.
pub open spec fn network_name(network: Network) -> Seq<char> {
    match network {
        Network::Bitcoin => "bitcoin"@,
        Network::Testnet => "testnet"@,
        Network::Testnet4 => "testnet4"@,
        Network::Signet => "signet"@,
        Network::Regtest => "regtest"@,
    }
}

/// `Display` of the outside crate's `Network`: each network is shown by its
/// name in lower case, as `network_name` lists them.
#[verifier::external_body]
pub(crate) fn display_network(network: Network) -> (name: String)
    ensures
        name@ == network_name(network),
{
    let network = match network {
        Network::Bitcoin => miniscript::bitcoin::Network::Bitcoin,
        Network::Testnet => miniscript::bitcoin::Network::Testnet,
        Network::Testnet4 => miniscript::bitcoin::Network::Testnet4,
        Network::Signet => miniscript::bitcoin::Network::Signet,
        Network::Regtest => miniscript::bitcoin::Network::Regtest,
    };
    network.to_string()
}

} // verus!
