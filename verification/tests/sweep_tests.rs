use megalith_lsps2::address::{begin_sweep, NetworkId};
use megalith_lsps2::sweep::{
    AddressVerdict, Balances, Sweep, SweepAction, SweepError, SweepEvent, SweepPhase, SweepPolicy,
    TxId, EXIT_INVALID_INPUT, EXIT_NOTHING_TO_SWEEP, EXIT_OPERATION_FAILED, EXIT_SYNC_EXHAUSTED,
    EXIT_USAGE, SYNC_RETRY_CEILING,
};

const MAINNET_P2SH: &str = "32iVBEu4dxkUQk9dJbZUiBiQdmypcEyJRf";
const MAINNET_SEGWIT: &str = "bc1qvzvkjn4q3nszqxrv3nraga2r822xjty3ykvkuw";
const TESTNET_P2SH: &str = "2N83imGV3gPwBzKJQvWJ7cRUY2SpUyU6A5e";

fn keep() -> SweepPolicy {
    SweepPolicy::default()
}

fn drain() -> SweepPolicy {
    SweepPolicy { drain_including_reserves: true }
}

fn balances(spendable: u64) -> SweepEvent {
    SweepEvent::BalancesFetched {
        balances: Balances {
            total_onchain_sats: spendable + 1_000,
            spendable_onchain_sats: spendable,
            total_lightning_sats: 77,
        },
    }
}

fn synced(policy: SweepPolicy) -> Sweep {
    let (mut s, _) = Sweep::begin(AddressVerdict::Valid, policy);
    assert_eq!(s.step(SweepEvent::SyncSucceeded), SweepAction::FetchBalances);
    s
}

#[test]
fn exit_codes_are_the_documented_ones() {
    assert_eq!(EXIT_USAGE, 1);
    assert_eq!(EXIT_INVALID_INPUT, 2);
    assert_eq!(EXIT_SYNC_EXHAUSTED, 3);
    assert_eq!(EXIT_OPERATION_FAILED, 4);
    assert_eq!(EXIT_NOTHING_TO_SWEEP, 5);
    assert_eq!(SweepError::InvalidAddress.exit_code(), 2);
    assert_eq!(SweepError::WrongNetwork.exit_code(), 2);
    assert_eq!(SweepError::SyncExhausted.exit_code(), 3);
    assert_eq!(SweepError::SendFailed.exit_code(), 4);
    assert_eq!(SweepError::NothingToSweep.exit_code(), 5);
}

#[test]
fn default_policy_retains_reserves() {
    assert!(!SweepPolicy::default().drain_including_reserves);
    assert!(SweepPolicy::default().retain_reserves());
    assert!(!drain().retain_reserves());
}

#[test]
fn bad_address_aborts_before_any_sync() {
    let (s, action) = Sweep::begin(AddressVerdict::Malformed, keep());
    assert_eq!(action, SweepAction::Abort { error: SweepError::InvalidAddress });
    assert_eq!(s.result(), Some(Err(SweepError::InvalidAddress)));
    let (s, action) = Sweep::begin(AddressVerdict::WrongNetwork, keep());
    assert_eq!(action, SweepAction::Abort { error: SweepError::WrongNetwork });
    assert_eq!(s.result(), Some(Err(SweepError::WrongNetwork)));
}

#[test]
fn valid_address_starts_syncing_at_once() {
    let (s, action) = Sweep::begin(AddressVerdict::Valid, keep());
    assert_eq!(action, SweepAction::Sync { after_secs: 0 });
    assert_eq!(s.phase, SweepPhase::Syncing { failures: 0 });
    assert_eq!(s.result(), None);
}

#[test]
fn address_text_is_checked_against_the_network() {
    let (s, action) = begin_sweep(MAINNET_P2SH, NetworkId::Bitcoin, keep());
    assert_eq!(action, SweepAction::Sync { after_secs: 0 });
    assert_eq!(s.phase, SweepPhase::Syncing { failures: 0 });

    let (_, action) = begin_sweep(MAINNET_SEGWIT, NetworkId::Bitcoin, drain());
    assert_eq!(action, SweepAction::Sync { after_secs: 0 });

    let (s, action) = begin_sweep(MAINNET_P2SH, NetworkId::Testnet, keep());
    assert_eq!(action, SweepAction::Abort { error: SweepError::WrongNetwork });
    assert_eq!(s.result(), Some(Err(SweepError::WrongNetwork)));

    let (_, action) = begin_sweep(MAINNET_SEGWIT, NetworkId::Regtest, keep());
    assert_eq!(action, SweepAction::Abort { error: SweepError::WrongNetwork });
}

#[test]
fn legacy_test_address_fits_every_test_network() {
    for net in [NetworkId::Testnet, NetworkId::Testnet4, NetworkId::Signet, NetworkId::Regtest] {
        let (_, action) = begin_sweep(TESTNET_P2SH, net, keep());
        assert_eq!(action, SweepAction::Sync { after_secs: 0 }, "{:?}", net);
    }
    let (_, action) = begin_sweep(TESTNET_P2SH, NetworkId::Bitcoin, keep());
    assert_eq!(action, SweepAction::Abort { error: SweepError::WrongNetwork });
}

#[test]
fn text_that_is_no_address_is_rejected() {
    for text in ["", "not an address", "32iVBEu4dxkUQk9dJbZUiBiQdmypcEyJRg", "bc1qqqqq"] {
        let (s, action) = begin_sweep(text, NetworkId::Bitcoin, keep());
        assert_eq!(action, SweepAction::Abort { error: SweepError::InvalidAddress }, "{:?}", text);
        assert_eq!(s.phase, SweepPhase::Aborted { error: SweepError::InvalidAddress });
    }
}

#[test]
fn ten_sync_failures_are_retried_the_eleventh_is_fatal() {
    assert_eq!(SYNC_RETRY_CEILING, 10);
    let (mut s, _) = Sweep::begin(AddressVerdict::Valid, keep());
    for n in 1u32..=10 {
        assert_eq!(s.step(SweepEvent::SyncFailed), SweepAction::Sync { after_secs: 2 });
        assert_eq!(s.phase, SweepPhase::Syncing { failures: n });
    }
    assert_eq!(
        s.step(SweepEvent::SyncFailed),
        SweepAction::Abort { error: SweepError::SyncExhausted }
    );
    assert_eq!(s.result(), Some(Err(SweepError::SyncExhausted)));
    // and it stays so
    assert_eq!(
        s.step(SweepEvent::SyncSucceeded),
        SweepAction::Abort { error: SweepError::SyncExhausted }
    );
    assert_eq!(s.result(), Some(Err(SweepError::SyncExhausted)));
}

#[test]
fn a_success_within_the_budget_leads_to_the_balance_check() {
    for failures in 0..=10 {
        let (mut s, _) = Sweep::begin(AddressVerdict::Valid, keep());
        for _ in 0..failures {
            assert_eq!(s.step(SweepEvent::SyncFailed), SweepAction::Sync { after_secs: 2 });
        }
        assert_eq!(s.step(SweepEvent::SyncSucceeded), SweepAction::FetchBalances);
        assert_eq!(s.phase, SweepPhase::CheckingBalance);
    }
}

#[test]
fn zero_spendable_balance_aborts_without_send_all() {
    let mut s = synced(keep());
    assert_eq!(
        s.step(balances(0)),
        SweepAction::Abort { error: SweepError::NothingToSweep }
    );
    assert_eq!(s.result(), Some(Err(SweepError::NothingToSweep)));
    for ev in [balances(5), SweepEvent::SyncSucceeded, SweepEvent::SweepRejected] {
        assert_eq!(s.step(ev), SweepAction::Abort { error: SweepError::NothingToSweep });
    }
}

#[test]
fn small_balance_is_still_swept_with_reserves_retained() {
    let mut s = synced(keep());
    assert_eq!(s.step(balances(1)), SweepAction::SendAll { retain_reserves: true });
    assert_eq!(s.phase, SweepPhase::Sweeping);
}

#[test]
fn draining_policy_turns_the_reserve_flag_off() {
    let mut s = synced(drain());
    assert_eq!(s.step(balances(123_456)), SweepAction::SendAll { retain_reserves: false });
}

#[test]
fn accepted_sweep_yields_the_transaction() {
    let mut s = synced(keep());
    s.step(balances(50_000));
    let txid = TxId { bytes: [0xab; 32] };
    assert_eq!(s.step(SweepEvent::SweepAccepted { txid }), SweepAction::Finish);
    assert_eq!(s.result(), Some(Ok(txid)));
    assert_eq!(s.step(SweepEvent::SweepRejected), SweepAction::Finish);
    assert_eq!(s.result(), Some(Ok(txid)));
}

#[test]
fn refused_sweep_is_not_retried() {
    let mut s = synced(keep());
    s.step(balances(50_000));
    assert_eq!(
        s.step(SweepEvent::SweepRejected),
        SweepAction::Abort { error: SweepError::SendFailed }
    );
    assert_eq!(s.result(), Some(Err(SweepError::SendFailed)));
    assert_eq!(
        s.step(balances(50_000)),
        SweepAction::Abort { error: SweepError::SendFailed }
    );
}

#[test]
fn answers_out_of_turn_change_nothing() {
    let (mut s, _) = Sweep::begin(AddressVerdict::Valid, keep());
    let before = s;
    assert_eq!(s.step(balances(9)), SweepAction::Wait);
    assert_eq!(s.step(SweepEvent::SweepRejected), SweepAction::Wait);
    assert_eq!(s, before);
    let mut s = synced(keep());
    let before = s;
    assert_eq!(s.step(SweepEvent::SyncFailed), SweepAction::Wait);
    assert_eq!(s.step(SweepEvent::SyncSucceeded), SweepAction::Wait);
    assert_eq!(s, before);
}
