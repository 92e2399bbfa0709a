//! The sync-gated sweep: wallet synchronisation retried within a fixed
//! budget, a balance check, then one send-all. The sweep decides; its caller
//! talks to the node and hands back what it answered.

use vstd::prelude::*;
use crate::liquidity::POLL_INTERVAL_SECS;

verus! {

/// Failed synchronisations that are retried. One more is fatal.
pub const SYNC_RETRY_CEILING: u32 = 10;

/// Exit code for a missing argument.
pub const EXIT_USAGE: u8 = 1;

/// Exit code for input that does not parse or does not fit the node.
pub const EXIT_INVALID_INPUT: u8 = 2;

/// Exit code for wallets that still fail to synchronise after all retries.
pub const EXIT_SYNC_EXHAUSTED: u8 = 3;

/// Exit code for an operation that the node refused.
pub const EXIT_OPERATION_FAILED: u8 = 4;

/// Exit code for a sweep with nothing spendable.
pub const EXIT_NOTHING_TO_SWEEP: u8 = 5;

/// Whether the sweep leaves the anchor reserves in the wallet.
#[derive(Clone, Copy, Debug, PartialEq, Eq, Structural)]
pub struct SweepPolicy {
    /// Drain the reserves too. Off unless asked for.
    pub drain_including_reserves: bool,
}

/// How the destination address fared against the node's network.
#[derive(Clone, Copy, Debug, PartialEq, Eq, Structural)]
pub enum AddressVerdict {
    /// The text is no address.
    Malformed,
    /// An address, but of another network than the node's.
    WrongNetwork,
    /// An address of the node's network.
    Valid,
}

/// The node's balances at one moment, in satoshi.
#[derive(Clone, Copy, Debug, PartialEq, Eq, Structural)]
pub struct Balances {
    pub total_onchain_sats: u64,
    pub spendable_onchain_sats: u64,
    pub total_lightning_sats: u64,
}

/// The identifier of the sweep transaction.
#[derive(Clone, Copy, Debug, PartialEq, Eq)]
pub struct TxId {
    pub bytes: [u8; 32],
}

/// Why a sweep was given up.
#[derive(Clone, Copy, Debug, PartialEq, Eq, Structural)]
pub enum SweepError {
    /// The destination is no address.
    InvalidAddress,
    /// The destination belongs to another network than the node's.
    WrongNetwork,
    /// The wallets failed to synchronise once more than is retried.
    SyncExhausted,
    /// Nothing on chain is spendable.
    NothingToSweep,
    /// The node refused the send-all.
    SendFailed,
}

/// Where the sweep stands.
#[derive(Clone, Copy, Debug, PartialEq, Eq)]
pub enum SweepPhase {
    /// A synchronisation is out; `failures` of them have failed so far.
    Syncing { failures: u32 },
    /// The wallets are synchronised and the balances are being fetched.
    CheckingBalance,
    /// The send-all is out.
    Sweeping,
    /// The node took the sweep. Nothing follows.
    Swept { txid: TxId },
    /// The sweep was given up. Nothing follows.
    Aborted { error: SweepError },
}

/// What the node answered to the action last asked for.
#[derive(Clone, Copy, Debug, PartialEq, Eq)]
pub enum SweepEvent {
    SyncSucceeded,
    SyncFailed,
    BalancesFetched { balances: Balances },
    SweepAccepted { txid: TxId },
    SweepRejected,
}

/// What the caller does next.
#[derive(Clone, Copy, Debug, PartialEq, Eq, Structural)]
pub enum SweepAction {
    /// Sleep `after_secs`, then synchronise the wallets and report the result.
    Sync { after_secs: u64 },
    /// Fetch the balances and report them.
    FetchBalances,
    /// Send everything to the destination, once, and report the result.
    SendAll { retain_reserves: bool },
    /// Nothing new: the answer to the last action is still owed.
    Wait,
    /// The sweep is out: report the transaction.
    Finish,
    /// Give up with this error.
    Abort { error: SweepError },
}

/// One sweep: its phase and the policy it was started with.
#[derive(Clone, Copy, Debug, PartialEq, Eq)]
pub struct Sweep {
    pub phase: SweepPhase,
    pub policy: SweepPolicy,
}

impl Default for SweepPolicy {
    /// The reserves stay.
    fn default() -> (p: SweepPolicy)
        ensures
            !p.drain_including_reserves,
    {
        SweepPolicy { drain_including_reserves: false }
    }
}

impl SweepPolicy {
    /// The flag handed to the node's send-all: keep the reserves unless the
    /// policy drains them.
    pub fn retain_reserves(&self) -> (retain: bool)
        ensures
            retain == !self.drain_including_reserves,
    {
        !self.drain_including_reserves
    }
}

impl SweepError {
    /// The exit code that tells the operator which error it was.
    pub open spec fn code(self) -> u8 {
        match self {
            SweepError::InvalidAddress => EXIT_INVALID_INPUT,
            SweepError::WrongNetwork => EXIT_INVALID_INPUT,
            SweepError::SyncExhausted => EXIT_SYNC_EXHAUSTED,
            SweepError::NothingToSweep => EXIT_NOTHING_TO_SWEEP,
            SweepError::SendFailed => EXIT_OPERATION_FAILED,
        }
    }

    /// The process exit code for this error: 2 for a bad address, 3 for
    /// synchronisation given up, 5 for nothing to sweep, 4 for a refused send.
    pub fn exit_code(&self) -> (code: u8)
        ensures
            code == self.code(),
            code == 2 || code == 3 || code == 4 || code == 5,
    {
        match self {
            SweepError::InvalidAddress => EXIT_INVALID_INPUT,
            SweepError::WrongNetwork => EXIT_INVALID_INPUT,
            SweepError::SyncExhausted => EXIT_SYNC_EXHAUSTED,
            SweepError::NothingToSweep => EXIT_NOTHING_TO_SWEEP,
            SweepError::SendFailed => EXIT_OPERATION_FAILED,
        }
    }
}

/// How a sweep begins: a bad destination ends it before any synchronisation;
/// a good one starts the first synchronisation at once.
pub open spec fn begun(verdict: AddressVerdict, policy: SweepPolicy) -> (Sweep, SweepAction) {
    match verdict {
        AddressVerdict::Malformed => (
            Sweep { phase: SweepPhase::Aborted { error: SweepError::InvalidAddress }, policy },
            SweepAction::Abort { error: SweepError::InvalidAddress },
        ),
        AddressVerdict::WrongNetwork => (
            Sweep { phase: SweepPhase::Aborted { error: SweepError::WrongNetwork }, policy },
            SweepAction::Abort { error: SweepError::WrongNetwork },
        ),
        AddressVerdict::Valid => (
            Sweep { phase: SweepPhase::Syncing { failures: 0 }, policy },
            SweepAction::Sync { after_secs: 0 },
        ),
    }
}

/// The sweep's transition: the state and the action that follow `ev` in `s`.
pub open spec fn sweep_next(s: Sweep, ev: SweepEvent) -> (Sweep, SweepAction) {
    match (s.phase, ev) {
        (SweepPhase::Syncing { .. }, SweepEvent::SyncSucceeded) => (
            Sweep { phase: SweepPhase::CheckingBalance, ..s },
            SweepAction::FetchBalances,
        ),
        (SweepPhase::Syncing { failures }, SweepEvent::SyncFailed) => if failures
            >= SYNC_RETRY_CEILING {
            (
                Sweep { phase: SweepPhase::Aborted { error: SweepError::SyncExhausted }, ..s },
                SweepAction::Abort { error: SweepError::SyncExhausted },
            )
        } else {
            (
                Sweep { phase: SweepPhase::Syncing { failures: (failures + 1) as u32 }, ..s },
                SweepAction::Sync { after_secs: POLL_INTERVAL_SECS },
            )
        },
        (SweepPhase::CheckingBalance, SweepEvent::BalancesFetched { balances }) => if balances.spendable_onchain_sats
            == 0 {
            (
                Sweep { phase: SweepPhase::Aborted { error: SweepError::NothingToSweep }, ..s },
                SweepAction::Abort { error: SweepError::NothingToSweep },
            )
        } else {
            (
                Sweep { phase: SweepPhase::Sweeping, ..s },
                SweepAction::SendAll { retain_reserves: !s.policy.drain_including_reserves },
            )
        },
        (SweepPhase::Sweeping, SweepEvent::SweepAccepted { txid }) => (
            Sweep { phase: SweepPhase::Swept { txid }, ..s },
            SweepAction::Finish,
        ),
        (SweepPhase::Sweeping, SweepEvent::SweepRejected) => (
            Sweep { phase: SweepPhase::Aborted { error: SweepError::SendFailed }, ..s },
            SweepAction::Abort { error: SweepError::SendFailed },
        ),
        (SweepPhase::Swept { .. }, _) => (s, SweepAction::Finish),
        (SweepPhase::Aborted { error }, _) => (s, SweepAction::Abort { error }),
        _ => (s, SweepAction::Wait),
    }
}

impl Sweep {
    /// The sweep's result once it has one: the transaction, or the error.
    pub open spec fn outcome(&self) -> Option<Result<TxId, SweepError>> {
        match self.phase {
            SweepPhase::Swept { txid } => Some(Ok(txid)),
            SweepPhase::Aborted { error } => Some(Err(error)),
            _ => None,
        }
    }

    /// Begins a sweep to a destination that was checked against the node's
    /// network. A destination that is no address, or of another network,
    /// aborts at once; otherwise the first synchronisation is due.
    pub fn begin(verdict: AddressVerdict, policy: SweepPolicy) -> (r: (Sweep, SweepAction))
        ensures
            r == begun(verdict, policy),
    {
        match verdict {
            AddressVerdict::Malformed => (
                Sweep { phase: SweepPhase::Aborted { error: SweepError::InvalidAddress }, policy },
                SweepAction::Abort { error: SweepError::InvalidAddress },
            ),
            AddressVerdict::WrongNetwork => (
                Sweep { phase: SweepPhase::Aborted { error: SweepError::WrongNetwork }, policy },
                SweepAction::Abort { error: SweepError::WrongNetwork },
            ),
            AddressVerdict::Valid => (
                Sweep { phase: SweepPhase::Syncing { failures: 0 }, policy },
                SweepAction::Sync { after_secs: 0 },
            ),
        }
    }

    /// Takes the node's answer and moves the sweep on, as `sweep_next` says.
    pub fn step(&mut self, event: SweepEvent) -> (action: SweepAction)
        ensures
            (*final(self), action) == sweep_next(*old(self), event),
    {
        match (self.phase, event) {
            (SweepPhase::Syncing { .. }, SweepEvent::SyncSucceeded) => {
                self.phase = SweepPhase::CheckingBalance;
                SweepAction::FetchBalances
            },
            (SweepPhase::Syncing { failures }, SweepEvent::SyncFailed) => {
                if failures >= SYNC_RETRY_CEILING {
                    self.phase = SweepPhase::Aborted { error: SweepError::SyncExhausted };
                    SweepAction::Abort { error: SweepError::SyncExhausted }
                } else {
                    self.phase = SweepPhase::Syncing { failures: failures + 1 };
                    SweepAction::Sync { after_secs: POLL_INTERVAL_SECS }
                }
            },
            (SweepPhase::CheckingBalance, SweepEvent::BalancesFetched { balances }) => {
                if balances.spendable_onchain_sats == 0 {
                    self.phase = SweepPhase::Aborted { error: SweepError::NothingToSweep };
                    SweepAction::Abort { error: SweepError::NothingToSweep }
                } else {
                    self.phase = SweepPhase::Sweeping;
                    SweepAction::SendAll { retain_reserves: self.policy.retain_reserves() }
                }
            },
            (SweepPhase::Sweeping, SweepEvent::SweepAccepted { txid }) => {
                self.phase = SweepPhase::Swept { txid };
                SweepAction::Finish
            },
            (SweepPhase::Sweeping, SweepEvent::SweepRejected) => {
                self.phase = SweepPhase::Aborted { error: SweepError::SendFailed };
                SweepAction::Abort { error: SweepError::SendFailed }
            },
            (SweepPhase::Swept { .. }, _) => SweepAction::Finish,
            (SweepPhase::Aborted { error }, _) => SweepAction::Abort { error },
            _ => SweepAction::Wait,
        }
    }

    /// The sweep's result once it has one: the transaction that the node
    /// took, or the error it was given up with.
    pub fn result(&self) -> (r: Option<Result<TxId, SweepError>>)
        ensures
            r == self.outcome(),
    {
        match self.phase {
            SweepPhase::Swept { txid } => Some(Ok(txid)),
            SweepPhase::Aborted { error } => Some(Err(error)),
            _ => None,
        }
    }
}

/// The state after a run of events, each answering the action before it.
pub open spec fn sweep_run(s: Sweep, events: Seq<SweepEvent>) -> Sweep
    decreases events.len(),
{
    if events.len() == 0 {
        s
    } else {
        sweep_next(sweep_run(s, events.drop_last()), events.last()).0
    }
}

/// How many send-alls the sweep asks for over a run of events.
pub open spec fn send_alls_asked(s: Sweep, events: Seq<SweepEvent>) -> nat
    decreases events.len(),
{
    if events.len() == 0 {
        0
    } else {
        send_alls_asked(s, events.drop_last()) + if sweep_next(
            sweep_run(s, events.drop_last()),
            events.last(),
        ).1 is SendAll {
            1nat
        } else {
            0nat
        }
    }
}

/// `n` synchronisations in a row that fail.
pub open spec fn sync_failures(n: nat) -> Seq<SweepEvent> {
    Seq::new(n, |i: int| SweepEvent::SyncFailed)
}

/// The synchronisation budget. A sweep to a valid destination retries up to
/// ten failed synchronisations, each after the poll interval, and a success
/// at any of those eleven attempts leads on to the balance check; the
/// eleventh failure in a row aborts with `SyncExhausted`, for good.
pub proof fn sync_budget_law(policy: SweepPolicy, n: nat)
    requires
        n <= SYNC_RETRY_CEILING + 1,
    ensures
        ({
            let s = sweep_run(begun(AddressVerdict::Valid, policy).0, sync_failures(n));
            &&& s.policy == policy
            &&& n <= SYNC_RETRY_CEILING ==> s.phase == (SweepPhase::Syncing { failures: n as u32 })
                && sweep_next(s, SweepEvent::SyncSucceeded) == (
                Sweep { phase: SweepPhase::CheckingBalance, policy },
                SweepAction::FetchBalances,
            )
            &&& n < SYNC_RETRY_CEILING ==> sweep_next(s, SweepEvent::SyncFailed).1 == (
                SweepAction::Sync { after_secs: POLL_INTERVAL_SECS })
            &&& n == SYNC_RETRY_CEILING ==> sweep_next(s, SweepEvent::SyncFailed).1 == (
                SweepAction::Abort { error: SweepError::SyncExhausted })
            &&& n == SYNC_RETRY_CEILING + 1 ==> s.phase == (SweepPhase::Aborted {
                error: SweepError::SyncExhausted,
            }) && forall|ev: SweepEvent| #[trigger]
                sweep_next(s, ev) == (s, SweepAction::Abort { error: SweepError::SyncExhausted })
            &&& send_alls_asked(begun(AddressVerdict::Valid, policy).0, sync_failures(n)) == 0
        }),
    decreases n,
{
    if n > 0 {
        sync_budget_law(policy, (n - 1) as nat);
        assert(sync_failures(n).drop_last() =~= sync_failures((n - 1) as nat));
        assert(sync_failures(n).last() == SweepEvent::SyncFailed);
    }
}

/// A send-all is asked for in one case only: the balances just fetched show
/// something spendable. Its flag is the policy's.
pub proof fn send_all_needs_spendable_funds(s: Sweep, ev: SweepEvent)
    requires
        sweep_next(s, ev).1 is SendAll,
    ensures
        s.phase is CheckingBalance,
        ev is BalancesFetched,
        ev->balances.spendable_onchain_sats > 0,
        sweep_next(s, ev).1 == (SweepAction::SendAll {
            retain_reserves: !s.policy.drain_including_reserves,
        }),
{
}

/// Any spendable balance is swept, however small: whether it covers the
/// reserves is for the node to say.
pub proof fn spendable_funds_are_swept(s: Sweep, balances: Balances)
    requires
        s.phase is CheckingBalance,
        balances.spendable_onchain_sats > 0,
    ensures
        sweep_next(s, SweepEvent::BalancesFetched { balances }) == (
            Sweep { phase: SweepPhase::Sweeping, policy: s.policy },
            SweepAction::SendAll { retain_reserves: !s.policy.drain_including_reserves },
        ),
{
}

/// A sweep that has ended stays as it is and asks for no send-all.
pub proof fn ended_sweep_is_terminal(s: Sweep, events: Seq<SweepEvent>)
    requires
        s.phase is Swept || s.phase is Aborted,
    ensures
        sweep_run(s, events) == s,
        send_alls_asked(s, events) == 0,
    decreases events.len(),
{
    if events.len() > 0 {
        ended_sweep_is_terminal(s, events.drop_last());
    }
}

/// Zero spendable balance aborts the sweep before any send-all: the step
/// that sees it aborts with `NothingToSweep`, and nothing that follows asks
/// for a send-all.
pub proof fn zero_balance_aborts_before_send_all(
    s: Sweep,
    balances: Balances,
    later: Seq<SweepEvent>,
)
    requires
        s.phase is CheckingBalance,
        balances.spendable_onchain_sats == 0,
    ensures
        ({
            let (aborted, action) = sweep_next(s, SweepEvent::BalancesFetched { balances });
            &&& aborted.phase == (SweepPhase::Aborted { error: SweepError::NothingToSweep })
            &&& action == (SweepAction::Abort { error: SweepError::NothingToSweep })
            &&& sweep_run(aborted, later) == aborted
            &&& send_alls_asked(aborted, later) == 0
        }),
{
    let aborted = sweep_next(s, SweepEvent::BalancesFetched { balances }).0;
    ended_sweep_is_terminal(aborted, later);
}

/// The sweep is one shot: whatever the node answers, and in whatever order,
/// a sweep asks for at most one send-all, and for none before the balances
/// were checked.
pub proof fn sweep_is_one_shot(verdict: AddressVerdict, policy: SweepPolicy, events: Seq<SweepEvent>)
    ensures
        send_alls_asked(begun(verdict, policy).0, events) <= 1,
        (sweep_run(begun(verdict, policy).0, events).phase is Syncing || sweep_run(
            begun(verdict, policy).0,
            events,
        ).phase is CheckingBalance) ==> send_alls_asked(begun(verdict, policy).0, events) == 0,
    decreases events.len(),
{
    if events.len() > 0 {
        sweep_is_one_shot(verdict, policy, events.drop_last());
    }
}

} // verus!
