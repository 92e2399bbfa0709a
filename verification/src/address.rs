//! The sweep's destination: an on-chain address, checked against the network
//! that the node runs on before anything else is tried.

use vstd::prelude::*;
use ldk_node::bitcoin::address::NetworkUnchecked;
use ldk_node::bitcoin::{Address, Network};
use crate::sweep::{begun, AddressVerdict, Sweep, SweepAction, SweepPolicy};

verus! {

/// The network that a node runs on.
#[derive(Clone, Copy, Debug, PartialEq, Eq, Structural)]
pub enum NetworkId {
    Bitcoin,
    Testnet,
    Testnet4,
    Signet,
    Regtest,
}

/// How `text` fares as an address for `network`: no address at all, an
/// address of another network, or a valid one.
pub uninterp spec fn address_verdict(text: Seq<char>, network: NetworkId) -> AddressVerdict;

/// Parses `text` with `Address::from_str` of the bitcoin crate and checks the
/// result with `Address::require_network`. Trusted: the verdict is a function
/// of the text and the network alone, here called `address_verdict`; a text
/// that does not parse is `Malformed`, one that parses and fails the network
/// check is `WrongNetwork`.
#[verifier::external_body]
fn classify_address(text: &str, network: NetworkId) -> (verdict: AddressVerdict)
    ensures
        verdict == address_verdict(text@, network),
{
    let required = match network {
        NetworkId::Bitcoin => Network::Bitcoin,
        NetworkId::Testnet => Network::Testnet,
        NetworkId::Testnet4 => Network::Testnet4,
        NetworkId::Signet => Network::Signet,
        NetworkId::Regtest => Network::Regtest,
    };
    match text.parse::<Address<NetworkUnchecked>>() {
        Err(_) => AddressVerdict::Malformed,
        Ok(address) => match address.require_network(required) {
            Err(_) => AddressVerdict::WrongNetwork,
            Ok(_) => AddressVerdict::Valid,
        },
    }
}

/// Begins a sweep to the address in `text` on a node of `network`: the
/// address is checked first, and a bad one aborts before any
/// synchronisation is asked for.
pub fn begin_sweep(text: &str, network: NetworkId, policy: SweepPolicy) -> (r: (
    Sweep,
    SweepAction,
))
    ensures
        r == begun(address_verdict(text@, network), policy),
        address_verdict(text@, network) != AddressVerdict::Valid ==> r.1 is Abort && r.0.phase is Aborted,
        address_verdict(text@, network) == AddressVerdict::Valid ==> r.1 == (SweepAction::Sync {
            after_secs: 0,
        }),
{
    let verdict = classify_address(text, network);
    Sweep::begin(verdict, policy)
}

} // verus!
