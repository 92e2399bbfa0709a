//! The node's payment list as the engine reads it: records keyed by the
//! handle that a send returned, and the lookup of one handle in a poll.

use vstd::prelude::*;

verus! {

/// Number of bytes in a payment handle.
pub const HANDLE_LEN: usize = 32;

/// The identifier that the node returned when it accepted a send. Two handles
/// name the same send when their bytes agree.
#[derive(Clone, Copy, Debug, PartialEq, Eq)]
pub struct PaymentHandle {
    pub bytes: [u8; 32],
}

/// How the node lists a payment.
#[derive(Clone, Copy, Debug, PartialEq, Eq, Structural)]
pub enum PaymentStatus {
    Pending,
    Succeeded,
    Failed,
}

/// What the engine knows of a payment after a poll. `Unknown` is the case in
/// which the list does not show the handle yet: not seen, rather than seen
/// and pending.
#[derive(Clone, Copy, Debug, PartialEq, Eq, Structural)]
pub enum PaymentState {
    Pending,
    Succeeded,
    Failed,
    Unknown,
}

/// One entry of the node's payment list.
#[derive(Clone, Copy, Debug, PartialEq, Eq)]
pub struct PaymentRecord {
    pub handle: PaymentHandle,
    pub status: PaymentStatus,
    /// The amount, in millisatoshi, where the node knows it.
    pub amount_msat: Option<u64>,
}

/// What a poll showed of one handle.
#[derive(Clone, Copy, Debug, PartialEq, Eq, Structural)]
pub struct Observation {
    pub state: PaymentState,
    /// The listed amount; `None` where the handle is not listed or the entry has none.
    pub amount_msat: Option<u64>,
}

impl PaymentHandle {
    /// The handle's bytes.
    pub open spec fn id(&self) -> Seq<u8> {
        self.bytes@
    }

    /// A handle of these bytes.
    pub fn new(bytes: [u8; 32]) -> (h: PaymentHandle)
        ensures
            h.bytes == bytes,
            h.id() == bytes@,
    {
        PaymentHandle { bytes }
    }

    /// Whether both handles name the same send.
    pub fn same_as(&self, other: &PaymentHandle) -> (same: bool)
        ensures
            same == (self.id() == other.id()),
    {
        let mut i: usize = 0;
        while i < HANDLE_LEN
            invariant
                i <= HANDLE_LEN,
                forall|j: int| 0 <= j < i ==> self.bytes@[j] == other.bytes@[j],
            decreases HANDLE_LEN - i,
        {
            if self.bytes[i] != other.bytes[i] {
                return false;
            }
            i = i + 1;
        }
        proof {
            assert(self.bytes@ =~= other.bytes@);
        }
        true
    }
}

/// The state that a listed status stands for.
pub open spec fn state_of(status: PaymentStatus) -> PaymentState {
    match status {
        PaymentStatus::Pending => PaymentState::Pending,
        PaymentStatus::Succeeded => PaymentState::Succeeded,
        PaymentStatus::Failed => PaymentState::Failed,
    }
}

/// Entry `i` is the first of `list` with the handle `id`.
pub open spec fn first_listed_at(list: Seq<PaymentRecord>, id: Seq<u8>, i: int) -> bool {
    &&& 0 <= i < list.len()
    &&& list[i].handle.id() == id
    &&& forall|j: int| 0 <= j < i ==> (#[trigger] list[j]).handle.id() != id
}

/// No entry of `list` has the handle `id`.
pub open spec fn not_listed(list: Seq<PaymentRecord>, id: Seq<u8>) -> bool {
    forall|j: int| 0 <= j < list.len() ==> (#[trigger] list[j]).handle.id() != id
}

/// What `list` shows of the handle `id`: state and amount of the first entry
/// with that handle, or `Unknown` where there is none.
pub open spec fn observed(list: Seq<PaymentRecord>, id: Seq<u8>) -> Observation {
    if exists|i: int| first_listed_at(list, id, i) {
        let i = choose|i: int| first_listed_at(list, id, i);
        Observation { state: state_of(list[i].status), amount_msat: list[i].amount_msat }
    } else {
        Observation { state: PaymentState::Unknown, amount_msat: None }
    }
}

/// At most one entry is the first with a given handle.
pub proof fn lemma_first_listed_unique(list: Seq<PaymentRecord>, id: Seq<u8>, i: int, k: int)
    requires
        first_listed_at(list, id, i),
        first_listed_at(list, id, k),
    ensures
        i == k,
{
    if i < k {
        assert(list[i].handle.id() != id);
    } else if k < i {
        assert(list[k].handle.id() != id);
    }
}

/// Scans a full payment list for the handle and says what it shows: the
/// first matching entry decides; a list without the handle gives `Unknown`.
pub fn observe(list: &Vec<PaymentRecord>, handle: &PaymentHandle) -> (obs: Observation)
    ensures
        obs == observed(list@, handle.id()),
        obs.state == PaymentState::Unknown <==> not_listed(list@, handle.id()),
        forall|i: int|
            first_listed_at(list@, handle.id(), i) ==> obs.state == state_of(list@[i].status)
                && obs.amount_msat == list@[i].amount_msat,
{
    let mut i: usize = 0;
    while i < list.len()
        invariant
            i <= list.len(),
            forall|j: int| 0 <= j < i ==> (#[trigger] list@[j]).handle.id() != handle.id(),
        decreases list.len() - i,
    {
        if list[i].handle.same_as(handle) {
            let state = match list[i].status {
                PaymentStatus::Pending => PaymentState::Pending,
                PaymentStatus::Succeeded => PaymentState::Succeeded,
                PaymentStatus::Failed => PaymentState::Failed,
            };
            proof {
                assert(first_listed_at(list@, handle.id(), i as int));
                assert forall|k: int| first_listed_at(list@, handle.id(), k) implies k == i by {
                    lemma_first_listed_unique(list@, handle.id(), i as int, k);
                }
            }
            return Observation { state, amount_msat: list[i].amount_msat };
        }
        i = i + 1;
    }
    proof {
        assert(not_listed(list@, handle.id()));
        assert forall|k: int| !first_listed_at(list@, handle.id(), k) by {
            if 0 <= k < list@.len() {
                assert(list@[k].handle.id() != handle.id());
            }
        }
    }
    Observation { state: PaymentState::Unknown, amount_msat: None }
}

} // verus!
