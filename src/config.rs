use vstd::prelude::*;
use vstd::string::*;

use crate::types::Network;

verus! {

/// Endpoint of the registry ledger for a network.
pub open spec fn registry_endpoint(network: Network) -> Seq<char> {
    match network {
        Network::Testnet => "ws://127.0.0.1:9935"@,
        Network::Mainnet => "wss://rpc.polkadot.io"@,
    }
}

/// Endpoint of the issuance ledger for a network.
pub open spec fn issuance_endpoint(network: Network) -> Seq<char> {
    match network {
        Network::Testnet => "ws://127.0.0.1:9933"@,
        Network::Mainnet => "wss://asset-hub-polkadot-rpc.polkadot.io"@,
    }
}

/// Endpoint of the identity ledger for a network.
pub open spec fn identity_endpoint(network: Network) -> Seq<char> {
    match network {
        Network::Testnet => "wss://people-paseo.rpc.amforc.com"@,
        Network::Mainnet => "wss://people-polkadot-rpc.polkadot.io"@,
    }
}

/// The endpoints of the registry, issuance and identity ledgers, in that order.
pub fn get_rpc_urls(network: Network) -> (r: (String, String, String))
    ensures
        r.0@ == registry_endpoint(network),
        r.1@ == issuance_endpoint(network),
        r.2@ == identity_endpoint(network),
{
    match network {
        Network::Testnet => (
            String::from_str("ws://127.0.0.1:9935"),
            String::from_str("ws://127.0.0.1:9933"),
            String::from_str("wss://people-paseo.rpc.amforc.com"),
        ),
        Network::Mainnet => (
            String::from_str("wss://rpc.polkadot.io"),
            String::from_str("wss://asset-hub-polkadot-rpc.polkadot.io"),
            String::from_str("wss://people-polkadot-rpc.polkadot.io"),
        ),
    }
}

} // verus!
