//! Node settings that arrive as text: the network and the log level. Each
//! name is matched without regard to case; a name that is not known falls
//! back to a default, and the caller is told so.

use vstd::prelude::*;
use crate::address::NetworkId;

verus! {

/// How much the node logs.
#[derive(Clone, Copy, Debug, PartialEq, Eq, Structural)]
pub enum LogLevel {
    Trace,
    Debug,
    Info,
    Warn,
    Error,
}

/// A setting as it was resolved from its name.
#[derive(Clone, Copy, Debug, PartialEq, Eq)]
pub struct Resolved<T> {
    /// The value named, or the default.
    pub value: T,
    /// Whether the name was known. If not, `value` is the default and the
    /// operator is owed a warning.
    pub recognised: bool,
}

/// Seconds between two background synchronisations of the on-chain wallet.
pub const ONCHAIN_WALLET_SYNC_INTERVAL_SECS: u64 = 120;

/// Seconds between two background synchronisations of the lightning wallet.
pub const LIGHTNING_WALLET_SYNC_INTERVAL_SECS: u64 = 60;

/// Seconds between two updates of the fee rate cache.
pub const FEE_RATE_CACHE_UPDATE_INTERVAL_SECS: u64 = 300;

/// `text` in lower case.
pub uninterp spec fn lowercased(text: Seq<char>) -> Seq<char>;

/// The network that a lower-case name stands for.
pub open spec fn network_named(lower: Seq<char>) -> Option<NetworkId> {
    if lower == "bitcoin"@ {
        Some(NetworkId::Bitcoin)
    } else if lower == "testnet"@ {
        Some(NetworkId::Testnet)
    } else if lower == "regtest"@ {
        Some(NetworkId::Regtest)
    } else if lower == "signet"@ {
        Some(NetworkId::Signet)
    } else {
        None
    }
}

/// The log level that a lower-case name stands for.
pub open spec fn log_level_named(lower: Seq<char>) -> Option<LogLevel> {
    if lower == "trace"@ {
        Some(LogLevel::Trace)
    } else if lower == "debug"@ {
        Some(LogLevel::Debug)
    } else if lower == "info"@ {
        Some(LogLevel::Info)
    } else if lower == "warn"@ {
        Some(LogLevel::Warn)
    } else if lower == "error"@ {
        Some(LogLevel::Error)
    } else {
        None
    }
}

/// A named value, or the default where the name is not known.
pub open spec fn resolved<T>(named: Option<T>, default: T) -> Resolved<T> {
    match named {
        Some(value) => Resolved { value, recognised: true },
        None => Resolved { value: default, recognised: false },
    }
}

/// Calls `str::to_lowercase` of std. Trusted: the result is a function of
/// the text alone, here called `lowercased`.
#[verifier::external_body]
fn lowercase(text: &str) -> (lower: String)
    ensures
        lower@ == lowercased(text@),
{
    text.to_lowercase()
}

/// Whether `text` is exactly `word`.
fn is_word(text: &String, word: &str) -> (same: bool)
    ensures
        same == (text@ == word@),
{
    let w: String = word.to_owned();
    *text == w
}

/// The network that a name in lower case stands for: `bitcoin`, `testnet`,
/// `regtest` or `signet`. Any other name stands for none.
pub fn network_from_lowercase(lower: &String) -> (network: Option<NetworkId>)
    ensures
        network == network_named(lower@),
{
    if is_word(lower, "bitcoin") {
        Some(NetworkId::Bitcoin)
    } else if is_word(lower, "testnet") {
        Some(NetworkId::Testnet)
    } else if is_word(lower, "regtest") {
        Some(NetworkId::Regtest)
    } else if is_word(lower, "signet") {
        Some(NetworkId::Signet)
    } else {
        None
    }
}

/// The log level that a name in lower case stands for: `trace`, `debug`,
/// `info`, `warn` or `error`. Any other name stands for none.
pub fn log_level_from_lowercase(lower: &String) -> (level: Option<LogLevel>)
    ensures
        level == log_level_named(lower@),
{
    if is_word(lower, "trace") {
        Some(LogLevel::Trace)
    } else if is_word(lower, "debug") {
        Some(LogLevel::Debug)
    } else if is_word(lower, "info") {
        Some(LogLevel::Info)
    } else if is_word(lower, "warn") {
        Some(LogLevel::Warn)
    } else if is_word(lower, "error") {
        Some(LogLevel::Error)
    } else {
        None
    }
}

/// Resolves the network setting. The name is matched in any case; one that
/// is not known gives the Bitcoin main network, marked as not recognised.
pub fn resolve_network(name: &str) -> (r: Resolved<NetworkId>)
    ensures
        r == resolved(network_named(lowercased(name@)), NetworkId::Bitcoin),
{
    let lower = lowercase(name);
    match network_from_lowercase(&lower) {
        Some(value) => Resolved { value, recognised: true },
        None => Resolved { value: NetworkId::Bitcoin, recognised: false },
    }
}

/// Resolves the log level setting. The name is matched in any case; one
/// that is not known gives `Debug`, marked as not recognised.
pub fn resolve_log_level(name: &str) -> (r: Resolved<LogLevel>)
    ensures
        r == resolved(log_level_named(lowercased(name@)), LogLevel::Debug),
{
    let lower = lowercase(name);
    match log_level_from_lowercase(&lower) {
        Some(value) => Resolved { value, recognised: true },
        None => Resolved { value: LogLevel::Debug, recognised: false },
    }
}

} // verus!
