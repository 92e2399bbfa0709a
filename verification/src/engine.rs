//! The dispatch-retry engine: one payment intent driven to settlement. The
//! engine decides; its caller sends, sleeps and polls as told, and hands back
//! what the node answered.

use vstd::prelude::*;
use crate::backoff::{counted_up, Backoff};
use crate::liquidity::POLL_INTERVAL_SECS;
use crate::status::{observe, observed, Observation, PaymentHandle, PaymentRecord, PaymentState};

verus! {

/// Where the intent stands.
#[derive(Clone, Copy, Debug, PartialEq, Eq)]
pub enum Phase {
    /// A first send is out and no send has been accepted yet.
    Dispatching,
    /// A send was accepted; its handle is followed in the payment list.
    Watching { handle: PaymentHandle },
    /// Still watching, with a resend out after the list showed `handle` failed.
    Resending { handle: PaymentHandle },
    /// The list showed the payment settled. Nothing follows.
    Done { handle: PaymentHandle, settled_msat: u64 },
}

/// What the node answered to the action last asked for.
#[derive(Clone, Copy, Debug, PartialEq, Eq)]
pub enum Event {
    /// The send was accepted into the outbound pipeline under this handle.
    SendAccepted { handle: PaymentHandle },
    /// The send failed at once.
    SendRejected,
    /// A poll of the payment list, read for the handle being watched.
    Observed { observation: Observation },
}

/// What the caller does next.
#[derive(Clone, Copy, Debug, PartialEq, Eq, Structural)]
pub enum Action {
    /// Sleep `after_secs`, then send the payment and report the result.
    Send { after_secs: u64 },
    /// Sleep `after_secs`, then fetch the payment list and report what it
    /// shows of the watched handle.
    Poll { after_secs: u64 },
    /// Nothing new: the answer to the last action is still owed.
    Wait,
    /// The payment is settled: no more sends, no more polls.
    Idle,
}

/// What the step has to tell the operator.
#[derive(Clone, Copy, Debug, PartialEq, Eq, Structural)]
pub enum Report {
    /// Send number `attempt` was accepted.
    Sent { attempt: u64 },
    /// Send number `attempt` failed at once; the next follows in `retry_in_secs`.
    SendFailed { attempt: u64, retry_in_secs: u64 },
    /// The list does not show the payment yet.
    NotListed,
    /// The payment is listed and in flight.
    InFlight,
    /// The list shows the payment failed; a resend follows in `retry_in_secs`.
    Failed { retry_in_secs: u64 },
    /// The list shows the payment settled with this amount.
    Succeeded { amount_msat: u64 },
    /// The resend, send number `attempt`, was accepted and is watched from now on.
    Resent { attempt: u64 },
    /// The resend, send number `attempt`, failed at once; the old handle stays.
    ResendFailed { attempt: u64 },
    /// The intent was settled before; the event changed nothing.
    AlreadySettled,
    /// The event answers no action that is out; it changed nothing.
    Unexpected,
}

/// A step's result for the caller.
#[derive(Clone, Copy, Debug, PartialEq, Eq, Structural)]
pub struct Outcome {
    pub action: Action,
    pub report: Report,
}

/// One payment intent: its phase, its place in the backoff schedule, and the
/// number of the send last issued.
#[derive(Clone, Copy, Debug, PartialEq, Eq)]
pub struct Engine {
    pub phase: Phase,
    pub backoff: Backoff,
    pub attempt: u64,
}

/// The amount recorded at settlement: the listed one, zero where none is listed.
pub open spec fn settled_amount(observation: Observation) -> u64 {
    match observation.amount_msat {
        Some(a) => a,
        None => 0,
    }
}

/// The engine's transition: the state and the outcome that follow `ev` in `e`.
pub open spec fn next(e: Engine, ev: Event) -> (Engine, Outcome) {
    match (e.phase, ev) {
        (Phase::Dispatching, Event::SendAccepted { handle }) => (
            Engine { phase: Phase::Watching { handle }, ..e },
            Outcome { action: Action::Poll { after_secs: 0 }, report: Report::Sent { attempt: e.attempt } },
        ),
        (Phase::Dispatching, Event::SendRejected) => (
            Engine {
                phase: Phase::Dispatching,
                backoff: e.backoff.after_failure(),
                attempt: counted_up(e.attempt as nat) as u64,
            },
            Outcome {
                action: Action::Send { after_secs: e.backoff.delay_secs },
                report: Report::SendFailed {
                    attempt: e.attempt,
                    retry_in_secs: e.backoff.delay_secs,
                },
            },
        ),
        (Phase::Watching { handle }, Event::Observed { observation }) => match observation.state {
            PaymentState::Unknown => (
                e,
                Outcome {
                    action: Action::Poll { after_secs: POLL_INTERVAL_SECS },
                    report: Report::NotListed,
                },
            ),
            PaymentState::Pending => (
                e,
                Outcome {
                    action: Action::Poll { after_secs: POLL_INTERVAL_SECS },
                    report: Report::InFlight,
                },
            ),
            PaymentState::Succeeded => (
                Engine {
                    phase: Phase::Done { handle, settled_msat: settled_amount(observation) },
                    ..e
                },
                Outcome {
                    action: Action::Idle,
                    report: Report::Succeeded { amount_msat: settled_amount(observation) },
                },
            ),
            PaymentState::Failed => (
                Engine {
                    phase: Phase::Resending { handle },
                    backoff: e.backoff.after_failure(),
                    attempt: counted_up(e.attempt as nat) as u64,
                },
                Outcome {
                    action: Action::Send { after_secs: e.backoff.delay_secs },
                    report: Report::Failed { retry_in_secs: e.backoff.delay_secs },
                },
            ),
        },
        (Phase::Resending { handle }, Event::SendAccepted { handle: fresh }) => (
            Engine { phase: Phase::Watching { handle: fresh }, ..e },
            Outcome {
                action: Action::Poll { after_secs: POLL_INTERVAL_SECS },
                report: Report::Resent { attempt: e.attempt },
            },
        ),
        (Phase::Resending { handle }, Event::SendRejected) => (
            Engine { phase: Phase::Watching { handle }, ..e },
            Outcome {
                action: Action::Poll { after_secs: POLL_INTERVAL_SECS },
                report: Report::ResendFailed { attempt: e.attempt },
            },
        ),
        (Phase::Done { .. }, _) => (
            e,
            Outcome { action: Action::Idle, report: Report::AlreadySettled },
        ),
        _ => (e, Outcome { action: Action::Wait, report: Report::Unexpected }),
    }
}

impl Engine {
    /// The schedule is in order and at least the first send is counted.
    pub open spec fn wf(&self) -> bool {
        self.backoff.wf() && self.attempt >= 1
    }

    /// The handle being followed: the one most recently issued.
    pub open spec fn current(&self) -> Option<PaymentHandle> {
        match self.phase {
            Phase::Dispatching => None,
            Phase::Watching { handle } => Some(handle),
            Phase::Resending { handle } => Some(handle),
            Phase::Done { handle, .. } => Some(handle),
        }
    }

    /// A new intent, once the liquidity gate has let it through. The caller
    /// sends at once and reports the result: that is send number one.
    pub fn start() -> (r: (Engine, Action))
        ensures
            r.0.wf(),
            r.0.phase is Dispatching,
            r.0.attempt == 1,
            r.0.backoff == Backoff::new_spec(),
            r.1 == (Action::Send { after_secs: 0 }),
    {
        (
            Engine { phase: Phase::Dispatching, backoff: Backoff::new(), attempt: 1 },
            Action::Send { after_secs: 0 },
        )
    }

    /// The handle being followed, if a send was accepted yet.
    pub fn current_handle(&self) -> (h: Option<PaymentHandle>)
        ensures
            h == self.current(),
    {
        match self.phase {
            Phase::Dispatching => None,
            Phase::Watching { handle } => Some(handle),
            Phase::Resending { handle } => Some(handle),
            Phase::Done { handle, .. } => Some(handle),
        }
    }

    /// Whether the payment is settled.
    pub fn is_done(&self) -> (done: bool)
        ensures
            done == (self.phase is Done),
    {
        match self.phase {
            Phase::Done { .. } => true,
            _ => false,
        }
    }

    /// The settled amount, once the payment is settled.
    pub fn settled_msat(&self) -> (amount: Option<u64>)
        ensures
            amount == match self.phase {
                Phase::Done { settled_msat, .. } => Some(settled_msat),
                _ => None,
            },
    {
        match self.phase {
            Phase::Done { settled_msat, .. } => Some(settled_msat),
            _ => None,
        }
    }

    /// Takes the node's answer and moves the intent on, as `next` says.
    pub fn step(&mut self, event: Event) -> (outcome: Outcome)
        ensures
            (*final(self), outcome) == next(*old(self), event),
            old(self).wf() ==> final(self).wf(),
    {
        proof {
            if self.wf() {
                lemma_next_keeps_wf(*self, event);
            }
        }
        match (self.phase, event) {
            (Phase::Dispatching, Event::SendAccepted { handle }) => {
                self.phase = Phase::Watching { handle };
                Outcome {
                    action: Action::Poll { after_secs: 0 },
                    report: Report::Sent { attempt: self.attempt },
                }
            },
            (Phase::Dispatching, Event::SendRejected) => {
                let failed: u64 = self.attempt;
                let secs: u64 = self.escalate();
                Outcome {
                    action: Action::Send { after_secs: secs },
                    report: Report::SendFailed { attempt: failed, retry_in_secs: secs },
                }
            },
            (Phase::Watching { handle }, Event::Observed { observation }) => {
                match observation.state {
                    PaymentState::Unknown => Outcome {
                        action: Action::Poll { after_secs: POLL_INTERVAL_SECS },
                        report: Report::NotListed,
                    },
                    PaymentState::Pending => Outcome {
                        action: Action::Poll { after_secs: POLL_INTERVAL_SECS },
                        report: Report::InFlight,
                    },
                    PaymentState::Succeeded => {
                        let amount: u64 = match observation.amount_msat {
                            Some(a) => a,
                            None => 0,
                        };
                        self.phase = Phase::Done { handle, settled_msat: amount };
                        Outcome {
                            action: Action::Idle,
                            report: Report::Succeeded { amount_msat: amount },
                        }
                    },
                    PaymentState::Failed => {
                        self.phase = Phase::Resending { handle };
                        let secs: u64 = self.escalate();
                        Outcome {
                            action: Action::Send { after_secs: secs },
                            report: Report::Failed { retry_in_secs: secs },
                        }
                    },
                }
            },
            (Phase::Resending { handle }, Event::SendAccepted { handle: fresh }) => {
                self.phase = Phase::Watching { handle: fresh };
                Outcome {
                    action: Action::Poll { after_secs: POLL_INTERVAL_SECS },
                    report: Report::Resent { attempt: self.attempt },
                }
            },
            (Phase::Resending { handle }, Event::SendRejected) => {
                self.phase = Phase::Watching { handle };
                Outcome {
                    action: Action::Poll { after_secs: POLL_INTERVAL_SECS },
                    report: Report::ResendFailed { attempt: self.attempt },
                }
            },
            (Phase::Done { .. }, _) => Outcome {
                action: Action::Idle,
                report: Report::AlreadySettled,
            },
            _ => Outcome { action: Action::Wait, report: Report::Unexpected },
        }
    }

    /// Books one failure: the schedule moves on and the next send is counted.
    /// Returns the seconds to sleep before that send.
    fn escalate(&mut self) -> (secs: u64)
        ensures
            secs == old(self).backoff.delay_secs,
            final(self).phase == old(self).phase,
            final(self).backoff == old(self).backoff.after_failure(),
            final(self).attempt == counted_up(old(self).attempt as nat) as u64,
    {
        let secs: u64 = self.backoff.record_failure();
        if self.attempt < u64::MAX {
            self.attempt = self.attempt + 1;
        }
        secs
    }

    /// Takes a full payment list as one poll fetched it, reads it for the
    /// handle being followed, and steps on what it shows. Before any send
    /// was accepted there is no handle to look for, and nothing changes.
    pub fn on_payments(&mut self, list: &Vec<PaymentRecord>) -> (outcome: Outcome)
        ensures
            old(self).wf() ==> final(self).wf(),
            old(self).current() matches Some(h) ==> (*final(self), outcome) == next(
                *old(self),
                Event::Observed { observation: observed(list@, h.id()) },
            ),
            old(self).current() is None ==> *final(self) == *old(self) && outcome == (Outcome {
                action: Action::Wait,
                report: Report::Unexpected,
            }),
    {
        match self.current_handle() {
            Some(h) => {
                let observation = observe(list, &h);
                self.step(Event::Observed { observation })
            },
            None => Outcome { action: Action::Wait, report: Report::Unexpected },
        }
    }
}

/// The state after a run of events, each answering the action before it.
pub open spec fn run(e: Engine, events: Seq<Event>) -> Engine
    decreases events.len(),
{
    if events.len() == 0 {
        e
    } else {
        next(run(e, events.drop_last()), events.last()).0
    }
}

/// How many sends the engine asks for over a run of events.
pub open spec fn sends_asked(e: Engine, events: Seq<Event>) -> nat
    decreases events.len(),
{
    if events.len() == 0 {
        0
    } else {
        sends_asked(e, events.drop_last()) + if next(
            run(e, events.drop_last()),
            events.last(),
        ).1.action is Send {
            1nat
        } else {
            0nat
        }
    }
}

/// `n` sends in a row that fail at once.
pub open spec fn rejections(n: nat) -> Seq<Event> {
    Seq::new(n, |i: int| Event::SendRejected)
}

/// The engine as `start` returns it.
pub open spec fn started() -> Engine {
    Engine { phase: Phase::Dispatching, backoff: Backoff::new_spec(), attempt: 1 }
}

/// Every transition keeps the engine in order.
pub proof fn lemma_next_keeps_wf(e: Engine, ev: Event)
    requires
        e.wf(),
    ensures
        next(e, ev).0.wf(),
{
    e.backoff.lemma_after_failure();
}

/// A send is asked for in two cases only: the first send failed at once, or
/// the list showed the watched payment failed. Never while the payment is
/// pending or not yet listed, never while another send is out, never once
/// settled.
pub proof fn send_follows_failure_only(e: Engine, ev: Event)
    requires
        next(e, ev).1.action is Send,
    ensures
        (e.phase is Dispatching && ev is SendRejected) || (e.phase is Watching && ev is Observed
            && ev->observation.state == PaymentState::Failed),
{
}

/// A listing that is missing or pending is no evidence of failure: the engine
/// keeps watching the same handle, counts no attempt, leaves the schedule
/// alone, and polls again after the poll interval.
pub proof fn pending_or_unlisted_keeps_watching(e: Engine, observation: Observation)
    requires
        e.phase is Watching,
        observation.state == PaymentState::Pending || observation.state == PaymentState::Unknown,
    ensures
        next(e, Event::Observed { observation }).0 == e,
        next(e, Event::Observed { observation }).1.action == (Action::Poll {
            after_secs: POLL_INTERVAL_SECS,
        }),
{
}

/// A failed status seen while watching gives exactly one send before the
/// next poll: the step asks for one send after the backoff delay and counts
/// it; whatever that send returns, the step after asks for a poll and for no
/// further send. An accepted resend replaces the watched handle, a rejected
/// one leaves it.
pub proof fn failed_status_resends_once(e: Engine, observation: Observation, answer: Event)
    requires
        e.wf(),
        e.phase is Watching,
        observation.state == PaymentState::Failed,
        answer is SendAccepted || answer is SendRejected,
    ensures
        ({
            let (e1, o1) = next(e, Event::Observed { observation });
            let (e2, o2) = next(e1, answer);
            &&& o1.action == (Action::Send { after_secs: e.backoff.delay_secs })
            &&& e1.attempt as nat == counted_up(e.attempt as nat)
            &&& e1.backoff == e.backoff.after_failure()
            &&& e1.current() == e.current()
            &&& o2.action == (Action::Poll { after_secs: POLL_INTERVAL_SECS })
            &&& e2.phase is Watching
            &&& e2.attempt == e1.attempt
            &&& e2.backoff == e1.backoff
            &&& answer matches Event::SendAccepted { handle } ==> e2.current() == Some(handle)
            &&& answer is SendRejected ==> e2.current() == e.current()
            &&& sends_asked(e, seq![Event::Observed { observation }, answer]) == 1
        }),
{
    let first = Event::Observed { observation };
    let both = seq![first, answer];
    assert(both.drop_last() =~= seq![first]);
    assert(seq![first].drop_last() =~= Seq::<Event>::empty());
    assert(run(e, Seq::<Event>::empty()) == e);
    assert(sends_asked(e, Seq::<Event>::empty()) == 0);
    assert(run(e, seq![first]) == next(e, first).0);
    assert(sends_asked(e, seq![first]) == 1);
}

/// Settlement is terminal: from a settled engine no run of events changes
/// the state or asks for a send.
pub proof fn done_is_terminal(e: Engine, events: Seq<Event>)
    requires
        e.phase is Done,
    ensures
        run(e, events) == e,
        sends_asked(e, events) == 0,
        forall|ev: Event| #[trigger] next(e, ev).1.action == Action::Idle,
    decreases events.len(),
{
    if events.len() > 0 {
        done_is_terminal(e, events.drop_last());
    }
}

/// The schedule as the engine lives it: after `n` first sends that fail at
/// once, the engine is still dispatching, has counted `n + 1` sends, and the
/// sleep it asks for after the next failure is `backoff_delay(n + 1)`.
pub proof fn rejected_sends_follow_schedule(n: nat)
    requires
        n < u64::MAX,
    ensures
        run(started(), rejections(n)).wf(),
        run(started(), rejections(n)).phase is Dispatching,
        run(started(), rejections(n)).attempt == n + 1,
        run(started(), rejections(n)).backoff.failures == n,
        next(run(started(), rejections(n)), Event::SendRejected).1.action == (Action::Send {
            after_secs: crate::backoff::backoff_delay(n + 1) as u64,
        }),
        sends_asked(started(), rejections(n)) == n,
    decreases n,
{
    if n > 0 {
        rejected_sends_follow_schedule((n - 1) as nat);
        assert(rejections(n).drop_last() =~= rejections((n - 1) as nat));
        assert(rejections(n).last() == Event::SendRejected);
        run(started(), rejections((n - 1) as nat)).backoff.lemma_after_failure();
    } else {
        assert(crate::backoff::pow2(0) == 1);
    }
    run(started(), rejections(n)).backoff.lemma_after_failure();
}

} // verus!
