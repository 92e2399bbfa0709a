use megalith_lsps2::liquidity::{
    assess, checked_liquidity_requirement, first_open_poll, gate_open, liquidity_requirement,
    liquidity_step, ChannelSnapshot, GateAction, LiquidityReport, FIXED_HEADROOM_MSAT,
    POLL_INTERVAL_SECS,
};

fn chan(ready: bool, usable: bool, out_msat: u64) -> ChannelSnapshot {
    ChannelSnapshot {
        is_channel_ready: ready,
        is_usable: usable,
        outbound_capacity_msat: out_msat,
        inbound_capacity_msat: 0,
        channel_value_sats: out_msat / 1000,
        short_channel_id: None,
    }
}

#[test]
fn requirement_of_ten_million() {
    assert_eq!(liquidity_requirement(10_000_000), 10_210_000);
    assert_eq!(checked_liquidity_requirement(10_000_000), Some(10_210_000));
}

#[test]
fn requirement_of_zero_is_the_headroom() {
    assert_eq!(liquidity_requirement(0), FIXED_HEADROOM_MSAT);
    assert_eq!(FIXED_HEADROOM_MSAT, 10_000);
}

#[test]
fn requirement_rounds_the_margin_down() {
    assert_eq!(liquidity_requirement(49), 49 + 0 + 10_000);
    assert_eq!(liquidity_requirement(50), 50 + 1 + 10_000);
    assert_eq!(liquidity_requirement(250_000_000), 255_010_000);
}

#[test]
fn requirement_is_at_least_the_amount() {
    for amount in [0u64, 1, 49, 50, 51, 1_000, 10_000_000, 1 << 40, 1 << 60] {
        assert!(liquidity_requirement(amount) >= amount);
    }
}

#[test]
fn checked_requirement_is_none_exactly_on_overflow() {
    assert_eq!(checked_liquidity_requirement(u64::MAX), None);
    assert_eq!(checked_liquidity_requirement(u64::MAX - 10_000), None);
    // largest amount a with a + a/50 + 10_000 <= u64::MAX
    let mut a: u64 = u64::MAX / 51 * 50;
    while (a as u128) + (a as u128) / 50 + 10_000 > u64::MAX as u128 {
        a -= 1;
    }
    while (a as u128 + 1) + (a as u128 + 1) / 50 + 10_000 <= u64::MAX as u128 {
        a += 1;
    }
    let need = checked_liquidity_requirement(a);
    assert_eq!(need, Some(a + a / 50 + 10_000));
    assert_eq!(checked_liquidity_requirement(a + 1), None);
}

#[test]
fn one_usable_channel_with_enough_capacity_opens_the_gate() {
    let need = liquidity_requirement(10_000_000);
    let chans = vec![chan(true, true, 10_500_000)];
    assert_eq!(liquidity_step(&chans, need), GateAction::Proceed);
}

#[test]
fn capacity_equal_to_the_amount_does_not_open_the_gate() {
    let need = liquidity_requirement(10_000_000);
    let chans = vec![chan(true, true, 10_000_000)];
    assert_eq!(
        liquidity_step(&chans, need),
        GateAction::SleepThenPoll { secs: 2 }
    );
}

#[test]
fn capacity_exactly_at_the_requirement_opens_the_gate() {
    let chans = vec![chan(true, true, 10_210_000)];
    assert_eq!(liquidity_step(&chans, 10_210_000), GateAction::Proceed);
    let chans = vec![chan(true, true, 10_209_999)];
    assert_eq!(
        liquidity_step(&chans, 10_210_000),
        GateAction::SleepThenPoll { secs: POLL_INTERVAL_SECS }
    );
}

#[test]
fn empty_channel_list_is_a_poll_that_waits() {
    let chans: Vec<ChannelSnapshot> = Vec::new();
    let report = assess(&chans);
    assert_eq!(
        report,
        LiquidityReport { channels: 0, ready: 0, usable: 0, total_outbound_msat: 0 }
    );
    assert_eq!(liquidity_step(&chans, 1), GateAction::SleepThenPoll { secs: 2 });
    assert_eq!(liquidity_step(&chans, 0), GateAction::SleepThenPoll { secs: 2 });
}

#[test]
fn ready_but_unusable_channel_does_not_count() {
    let chans = vec![chan(true, false, 50_000_000)];
    let report = assess(&chans);
    assert_eq!(report.ready, 1);
    assert_eq!(report.usable, 0);
    assert_eq!(report.total_outbound_msat, 50_000_000);
    assert_eq!(liquidity_step(&chans, 1_000), GateAction::SleepThenPoll { secs: 2 });
}

#[test]
fn no_usable_channel_never_opens_whatever_the_capacity() {
    let chans = vec![chan(true, false, u64::MAX), chan(false, false, u64::MAX)];
    assert_eq!(liquidity_step(&chans, 0), GateAction::SleepThenPoll { secs: 2 });
    assert_eq!(liquidity_step(&chans, u64::MAX), GateAction::SleepThenPoll { secs: 2 });
}

#[test]
fn capacity_is_summed_over_all_channels() {
    let chans = vec![
        chan(true, true, 4_000_000),
        chan(true, false, 5_000_000),
        chan(false, false, 1_500_000),
    ];
    let report = assess(&chans);
    assert_eq!(report.channels, 3);
    assert_eq!(report.ready, 2);
    assert_eq!(report.usable, 1);
    assert_eq!(report.total_outbound_msat, 10_500_000);
    assert_eq!(liquidity_step(&chans, 10_210_000), GateAction::Proceed);
}

#[test]
fn sum_saturates_instead_of_overflowing() {
    let chans = vec![chan(true, true, u64::MAX - 5), chan(true, true, 10), chan(true, true, 7)];
    let report = assess(&chans);
    assert_eq!(report.total_outbound_msat, u64::MAX);
    assert_eq!(report.usable, 3);
    assert_eq!(liquidity_step(&chans, u64::MAX), GateAction::Proceed);
}

#[test]
fn gate_open_reads_the_report() {
    let r = LiquidityReport { channels: 2, ready: 2, usable: 1, total_outbound_msat: 100 };
    assert!(gate_open(&r, 100));
    assert!(!gate_open(&r, 101));
    let r = LiquidityReport { channels: 2, ready: 2, usable: 0, total_outbound_msat: 100 };
    assert!(!gate_open(&r, 0));
}

#[test]
fn gate_opens_at_the_first_sufficient_poll() {
    let need = liquidity_requirement(10_000_000);
    let polls = vec![
        vec![],
        vec![chan(false, false, 0)],
        vec![chan(true, false, 20_000_000)],
        vec![chan(true, true, 10_000_000)],
        vec![chan(true, true, 10_500_000)],
        vec![chan(true, true, 99_000_000)],
    ];
    assert_eq!(first_open_poll(&polls, need), Some(4));
}

#[test]
fn gate_stays_shut_over_polls_without_usable_channel() {
    let polls = vec![
        vec![chan(true, false, u64::MAX)],
        vec![],
        vec![chan(true, false, 1), chan(false, false, u64::MAX)],
    ];
    assert_eq!(first_open_poll(&polls, 0), None);
    assert_eq!(first_open_poll(&polls, 1_000), None);
    assert_eq!(first_open_poll(&Vec::new(), 0), None);
}
