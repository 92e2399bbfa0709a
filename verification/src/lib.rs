//! Decision logic for driving a Lightning node through its unreliable,
//! asynchronous state: waiting for outbound liquidity, sending a payment with
//! bounded exponential backoff while following the node's payment list, and
//! sweeping on-chain funds once the wallets are synchronised.
//!
//! The node itself is reached by the caller. Each loop here is a state
//! machine: the caller performs the action it is told, and hands back what
//! the node answered.

pub mod backoff;
pub mod liquidity;
pub mod status;
pub mod engine;
pub mod sweep;
pub mod target;
pub mod address;
pub mod config;
