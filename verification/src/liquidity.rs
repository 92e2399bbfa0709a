//! The liquidity gate: a payment is only dispatched once a poll of the node's
//! channels shows a usable channel and enough outbound capacity in total.

use vstd::prelude::*;

verus! {

/// Absolute buffer, in millisatoshi, added on top of the fee margin.
pub const FIXED_HEADROOM_MSAT: u64 = 10_000;

/// The fee margin is the amount divided by this: two percent.
pub const FEE_MARGIN_DIVISOR: u64 = 50;

/// Seconds between two polls of the node.
pub const POLL_INTERVAL_SECS: u64 = 2;

/// One channel as one poll saw it. Nothing of it outlives the poll.
#[derive(Clone, Copy, Debug, PartialEq, Eq)]
pub struct ChannelSnapshot {
    /// The funding is confirmed.
    pub is_channel_ready: bool,
    /// The channel is ready and its peer is connected: payments can route through it.
    pub is_usable: bool,
    /// What the channel can send right now, in millisatoshi.
    pub outbound_capacity_msat: u64,
    /// What the channel can receive right now, in millisatoshi.
    pub inbound_capacity_msat: u64,
    /// The channel's total value, in satoshi.
    pub channel_value_sats: u64,
    /// The short channel id, once the channel has one.
    pub short_channel_id: Option<u64>,
}

/// What one poll of the channel list amounts to.
#[derive(Clone, Copy, Debug, PartialEq, Eq)]
pub struct LiquidityReport {
    /// Channels listed.
    pub channels: usize,
    /// Channels whose funding is confirmed.
    pub ready: usize,
    /// Channels that payments can route through.
    pub usable: usize,
    /// Outbound capacity of all channels together, cut off at `u64::MAX`.
    pub total_outbound_msat: u64,
}

/// What the liquidity gate tells its caller to do after a poll.
#[derive(Clone, Copy, Debug, PartialEq, Eq)]
pub enum GateAction {
    /// Liquidity is there: go on to dispatch the payment.
    Proceed,
    /// Not yet: sleep for this many seconds, then poll again.
    SleepThenPoll { secs: u64 },
}

/// Amount plus two percent plus the fixed headroom.
pub open spec fn requirement_of(amount_msat: nat) -> nat {
    amount_msat + amount_msat / (FEE_MARGIN_DIVISOR as nat) + FIXED_HEADROOM_MSAT as nat
}

/// Outbound capacity of all the channels, as a mathematical sum.
pub open spec fn sum_outbound(chans: Seq<ChannelSnapshot>) -> nat
    decreases chans.len(),
{
    if chans.len() == 0 {
        0
    } else {
        sum_outbound(chans.drop_last()) + chans.last().outbound_capacity_msat as nat
    }
}

/// How many of the channels are usable.
pub open spec fn count_usable(chans: Seq<ChannelSnapshot>) -> nat
    decreases chans.len(),
{
    if chans.len() == 0 {
        0
    } else {
        count_usable(chans.drop_last()) + if chans.last().is_usable {
            1nat
        } else {
            0nat
        }
    }
}

/// How many of the channels have their funding confirmed.
pub open spec fn count_ready(chans: Seq<ChannelSnapshot>) -> nat
    decreases chans.len(),
{
    if chans.len() == 0 {
        0
    } else {
        count_ready(chans.drop_last()) + if chans.last().is_channel_ready {
            1nat
        } else {
            0nat
        }
    }
}

/// A sum as a `u64` holds it when every addition saturates.
pub open spec fn saturated(n: nat) -> nat {
    if n <= u64::MAX as nat {
        n
    } else {
        u64::MAX as nat
    }
}

/// The liquidity gate's condition on one poll: a usable channel, and enough outbound
/// capacity over all channels.
pub open spec fn gate_satisfied(chans: Seq<ChannelSnapshot>, need_msat: u64) -> bool {
    count_usable(chans) > 0 && saturated(sum_outbound(chans)) >= need_msat as nat
}

/// No more channels are usable, or ready, than are listed.
pub proof fn lemma_counts_bounded(chans: Seq<ChannelSnapshot>)
    ensures
        count_usable(chans) <= chans.len(),
        count_ready(chans) <= chans.len(),
    decreases chans.len(),
{
    if chans.len() > 0 {
        lemma_counts_bounded(chans.drop_last());
    }
}

/// The liquidity a payment of `amount_msat` needs: the amount, a fee margin
/// of two percent, and the fixed headroom.
pub fn liquidity_requirement(amount_msat: u64) -> (need_msat: u64)
    requires
        requirement_of(amount_msat as nat) <= u64::MAX,
    ensures
        need_msat as nat == requirement_of(amount_msat as nat),
        need_msat >= amount_msat,
{
    amount_msat + amount_msat / FEE_MARGIN_DIVISOR + FIXED_HEADROOM_MSAT
}

/// The same requirement for any amount: `None` exactly where it does not fit
/// in a `u64`.
pub fn checked_liquidity_requirement(amount_msat: u64) -> (need_msat: Option<u64>)
    ensures
        need_msat is Some <==> requirement_of(amount_msat as nat) <= u64::MAX,
        need_msat matches Some(n) ==> n as nat == requirement_of(amount_msat as nat) && n
            >= amount_msat,
{
    let margin: u64 = amount_msat / FEE_MARGIN_DIVISOR;
    if amount_msat <= u64::MAX - FIXED_HEADROOM_MSAT && margin <= u64::MAX - FIXED_HEADROOM_MSAT
        - amount_msat {
        Some(liquidity_requirement(amount_msat))
    } else {
        None
    }
}

/// Sums up one poll: how many channels there are, how many are ready, how
/// many usable, and their outbound capacity together. The sum saturates.
pub fn assess(chans: &Vec<ChannelSnapshot>) -> (report: LiquidityReport)
    ensures
        report.channels == chans@.len(),
        report.ready as nat == count_ready(chans@),
        report.usable as nat == count_usable(chans@),
        report.total_outbound_msat as nat == saturated(sum_outbound(chans@)),
{
    let mut total: u64 = 0;
    let mut ready: usize = 0;
    let mut usable: usize = 0;
    let mut i: usize = 0;
    while i < chans.len()
        invariant
            i <= chans.len(),
            ready as nat == count_ready(chans@.take(i as int)),
            usable as nat == count_usable(chans@.take(i as int)),
            total as nat == saturated(sum_outbound(chans@.take(i as int))),
        decreases chans.len() - i,
    {
        proof {
            let next = chans@.take(i + 1);
            assert(next.drop_last() =~= chans@.take(i as int));
            assert(next.last() == chans@[i as int]);
            lemma_counts_bounded(chans@.take(i as int));
        }
        let c = &chans[i];
        if c.is_channel_ready {
            ready = ready + 1;
        }
        if c.is_usable {
            usable = usable + 1;
        }
        total = total.saturating_add(c.outbound_capacity_msat);
        i = i + 1;
    }
    proof {
        assert(chans@.take(chans@.len() as int) =~= chans@);
    }
    LiquidityReport { channels: chans.len(), ready, usable, total_outbound_msat: total }
}

/// Whether a poll with this report opens the liquidity gate for `need_msat`.
pub fn gate_open(report: &LiquidityReport, need_msat: u64) -> (open: bool)
    ensures
        open == (report.usable > 0 && report.total_outbound_msat >= need_msat),
{
    report.usable > 0 && report.total_outbound_msat >= need_msat
}

/// The liquidity gate's decision on one poll: proceed if a channel is usable and the
/// channels together can send `need_msat`; otherwise sleep the poll interval
/// and poll again. An empty list is a poll like any other.
pub fn liquidity_step(chans: &Vec<ChannelSnapshot>, need_msat: u64) -> (action: GateAction)
    ensures
        gate_satisfied(chans@, need_msat) ==> action == GateAction::Proceed,
        !gate_satisfied(chans@, need_msat) ==> action == (GateAction::SleepThenPoll {
            secs: POLL_INTERVAL_SECS,
        }),
        count_usable(chans@) == 0 ==> action != GateAction::Proceed,
{
    let report = assess(chans);
    if gate_open(&report, need_msat) {
        GateAction::Proceed
    } else {
        GateAction::SleepThenPoll { secs: POLL_INTERVAL_SECS }
    }
}

/// The liquidity gate, polling the lists of `polls` one after the other, proceeds at
/// poll `k`: that poll satisfies it, and none before did.
pub open spec fn gate_opens_at(polls: Seq<Vec<ChannelSnapshot>>, need_msat: u64, k: int) -> bool {
    &&& 0 <= k < polls.len()
    &&& gate_satisfied(polls[k]@, need_msat)
    &&& forall|j: int| 0 <= j < k ==> !gate_satisfied(#[trigger] polls[j]@, need_msat)
}

/// Usability gates progress: a poll without a usable channel never satisfies
/// the liquidity gate, whatever capacity it shows, so over polls that all lack one the
/// gate proceeds nowhere.
pub proof fn gate_waits_for_usable_channel(polls: Seq<Vec<ChannelSnapshot>>, need_msat: u64)
    requires
        forall|j: int| 0 <= j < polls.len() ==> count_usable(#[trigger] polls[j]@) == 0,
    ensures
        forall|j: int| 0 <= j < polls.len() ==> !gate_satisfied(#[trigger] polls[j]@, need_msat),
        forall|k: int| !gate_opens_at(polls, need_msat, k),
{
}

/// Once a poll shows a usable channel and enough capacity, the liquidity gate has
/// proceeded: at that poll or at an earlier one, and at no other.
pub proof fn gate_opens_by_first_sufficient_poll(
    polls: Seq<Vec<ChannelSnapshot>>,
    need_msat: u64,
    k: int,
) -> (r: int)
    requires
        0 <= k < polls.len(),
        gate_satisfied(polls[k]@, need_msat),
    ensures
        0 <= r <= k,
        gate_opens_at(polls, need_msat, r),
        forall|q: int| gate_opens_at(polls, need_msat, q) ==> q == r,
    decreases k,
{
    if exists|j: int| 0 <= j < k && gate_satisfied(#[trigger] polls[j]@, need_msat) {
        let j = choose|j: int| 0 <= j < k && gate_satisfied(#[trigger] polls[j]@, need_msat);
        gate_opens_by_first_sufficient_poll(polls, need_msat, j)
    } else {
        k
    }
}

/// Runs the liquidity gate over recorded polls, oldest first, and returns the index of
/// the poll at which it proceeds: the first with a usable channel and enough
/// outbound capacity. `None` if the liquidity gate is still waiting after the last.
pub fn first_open_poll(polls: &Vec<Vec<ChannelSnapshot>>, need_msat: u64) -> (at: Option<usize>)
    ensures
        at matches Some(k) ==> gate_opens_at(polls@, need_msat, k as int),
        at is None ==> forall|j: int|
            0 <= j < polls@.len() ==> !gate_satisfied(#[trigger] polls@[j]@, need_msat),
{
    let mut i: usize = 0;
    while i < polls.len()
        invariant
            i <= polls.len(),
            forall|j: int| 0 <= j < i ==> !gate_satisfied(#[trigger] polls@[j]@, need_msat),
        decreases polls.len() - i,
    {
        match liquidity_step(&polls[i], need_msat) {
            GateAction::Proceed => {
                return Some(i);
            },
            GateAction::SleepThenPoll { .. } => {},
        }
        i = i + 1;
    }
    None
}

} // verus!
