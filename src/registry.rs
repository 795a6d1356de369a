use std::collections::HashMap;
use vstd::prelude::*;

verus! {

broadcast use vstd::std_specs::hash::group_hash_axioms;

/// The bound that handed-out command handles stay below.
pub const MAX_HANDLE: i32 = 2147483647;

/// Every failure a bridged command can end in.
#[derive(PartialEq, Eq, Structural, Clone, Copy, Debug)]
pub enum BridgeError {
    /// The native call refused the command at once, with this status.
    InvocationRejected(i32),
    /// The callback fired with this non-zero status.
    DeliveredFailure(i32),
    /// No callback came within the wait budget.
    TimeoutExpired,
    /// A callback arrived for a handle with no pending slot.
    SpuriousCallback(i32),
    /// Every handle value has been used; none is reused.
    HandleSpaceExhausted,
    /// A wait was asked for on a handle with no slot.
    UnknownHandle(i32),
}

/// What a slot holds: nothing yet, or the outcome its callback delivered.
#[derive(Debug)]
pub enum SlotState {
    Pending,
    Delivered(Result<String, BridgeError>),
}

/// What one look at a slot tells a waiter.
#[derive(Debug)]
pub enum WaitStep {
    /// The command ended with this outcome; the slot is gone.
    Done(Result<String, BridgeError>),
    /// Nothing has been delivered yet and the deadline has not passed.
    KeepWaiting,
}

/// Abstract state of a registry: the next handle to hand out and the
/// pending-result slots by handle.
pub struct RegistryView {
    pub next: int,
    pub slots: Map<i32, SlotState>,
}

/// The outcome the callback adapter makes of a native callback: a zero
/// status carries the payload, any other status is a delivered failure.
pub open spec fn callback_outcome_spec(status: i32, payload: String) -> Result<String, BridgeError> {
    if status == 0 {
        Ok(payload)
    } else {
        Err(BridgeError::DeliveredFailure(status))
    }
}

/// Handles are positive, below `next`, and `next` never passes the largest
/// handle; so a fresh handle is never one that is live or was ever used.
pub open spec fn registry_wf(v: RegistryView) -> bool {
    &&& 1 <= v.next <= MAX_HANDLE
    &&& forall|h: i32| #[trigger] v.slots.contains_key(h) ==> 1 <= h < v.next
}

pub open spec fn allocate_spec(v: RegistryView) -> (RegistryView, Result<i32, BridgeError>) {
    if v.next >= MAX_HANDLE {
        (v, Err(BridgeError::HandleSpaceExhausted))
    } else {
        let h = v.next as i32;
        (RegistryView { next: v.next + 1, slots: v.slots.insert(h, SlotState::Pending) }, Ok(h))
    }
}

pub open spec fn deliver_spec(v: RegistryView, h: i32, status: i32, payload: String) -> (
    RegistryView,
    Result<(), BridgeError>,
) {
    if v.slots.contains_key(h) && v.slots[h] is Pending {
        (
            RegistryView {
                next: v.next,
                slots: v.slots.insert(h, SlotState::Delivered(callback_outcome_spec(status, payload))),
            },
            Ok(()),
        )
    } else {
        (v, Err(BridgeError::SpuriousCallback(h)))
    }
}

pub open spec fn poll_spec(v: RegistryView, h: i32, elapsed_ms: u64, timeout_ms: u64) -> (
    RegistryView,
    WaitStep,
) {
    if !v.slots.contains_key(h) {
        (v, WaitStep::Done(Err(BridgeError::UnknownHandle(h))))
    } else {
        match v.slots[h] {
            SlotState::Delivered(r) => (
                RegistryView { next: v.next, slots: v.slots.remove(h) },
                WaitStep::Done(r),
            ),
            SlotState::Pending => if elapsed_ms >= timeout_ms {
                (
                    RegistryView { next: v.next, slots: v.slots.remove(h) },
                    WaitStep::Done(Err(BridgeError::TimeoutExpired)),
                )
            } else {
                (v, WaitStep::KeepWaiting)
            },
        }
    }
}

pub open spec fn invoked_spec(v: RegistryView, h: i32, status: i32) -> (RegistryView, Result<(), BridgeError>) {
    if status == 0 {
        (v, Ok(()))
    } else {
        (
            RegistryView { next: v.next, slots: v.slots.remove(h) },
            Err(BridgeError::InvocationRejected(status)),
        )
    }
}

/// One operation on the registry, as the serialized sequence of calls that
/// the registry's lock makes of concurrent callers.
pub enum RegistryOp {
    Allocate,
    Deliver(i32, i32, String),
    Poll(i32, u64, u64),
    Invoked(i32, i32),
}

pub open spec fn apply_op(v: RegistryView, op: RegistryOp) -> RegistryView {
    match op {
        RegistryOp::Allocate => allocate_spec(v).0,
        RegistryOp::Deliver(h, status, payload) => deliver_spec(v, h, status, payload).0,
        RegistryOp::Poll(h, elapsed_ms, timeout_ms) => poll_spec(v, h, elapsed_ms, timeout_ms).0,
        RegistryOp::Invoked(h, status) => invoked_spec(v, h, status).0,
    }
}

/// The state after running `ops` in order from `v`.
pub open spec fn run_ops(v: RegistryView, ops: Seq<RegistryOp>) -> RegistryView
    decreases ops.len(),
{
    if ops.len() == 0 {
        v
    } else {
        apply_op(run_ops(v, ops.drop_last()), ops.last())
    }
}

/// The handles that the successful allocations among `ops` returned, in order.
pub open spec fn issued_handles(v: RegistryView, ops: Seq<RegistryOp>) -> Seq<i32>
    decreases ops.len(),
{
    if ops.len() == 0 {
        Seq::empty()
    } else {
        let before = issued_handles(v, ops.drop_last());
        match (ops.last(), allocate_spec(run_ops(v, ops.drop_last())).1) {
            (RegistryOp::Allocate, Ok(h)) => before.push(h),
            _ => before,
        }
    }
}

proof fn lemma_run_keeps_wf(v: RegistryView, ops: Seq<RegistryOp>)
    requires
        registry_wf(v),
    ensures
        registry_wf(run_ops(v, ops)),
        run_ops(v, ops).next >= v.next,
        forall|i: int|
            0 <= i < issued_handles(v, ops).len() ==> v.next <= #[trigger] issued_handles(v, ops)[i]
                < run_ops(v, ops).next,
        forall|i: int, j: int|
            0 <= i < j < issued_handles(v, ops).len() ==> #[trigger] issued_handles(v, ops)[i]
                < #[trigger] issued_handles(v, ops)[j],
    decreases ops.len(),
{
    if ops.len() > 0 {
        let prefix = ops.drop_last();
        lemma_run_keeps_wf(v, prefix);
        let w = run_ops(v, prefix);
        assert(registry_wf(apply_op(w, ops.last()))) by {
            let w2 = apply_op(w, ops.last());
            assert forall|k: i32| #[trigger] w2.slots.contains_key(k) implies 1 <= k < w2.next by {
                if k != w.next {
                    assert(w.slots.contains_key(k));
                }
            }
        }
        let before = issued_handles(v, prefix);
        let after = issued_handles(v, ops);
        let w2 = run_ops(v, ops);
        assert(w2 == apply_op(w, ops.last()));
        assert(w2.next >= w.next);
        match (ops.last(), allocate_spec(w).1) {
            (RegistryOp::Allocate, Ok(h)) => {
                assert(after == before.push(h));
                assert(h == w.next && w2.next == w.next + 1);
                assert forall|i: int, j: int| 0 <= i < j < after.len() implies #[trigger] after[i]
                    < #[trigger] after[j] by {
                    if j == after.len() - 1 {
                        assert(after[i] == before[i]);
                    } else {
                        assert(after[i] == before[i] && after[j] == before[j]);
                    }
                }
                assert forall|i: int| 0 <= i < after.len() implies v.next <= #[trigger] after[i]
                    < w2.next by {
                    if i < before.len() {
                        assert(after[i] == before[i]);
                    }
                }
            },
            _ => {
                assert(after == before);
            },
        }
    }
}

/// Handles are never handed out twice: over any sequence of registry
/// operations, the handles that allocations return strictly increase, so they
/// are pairwise distinct, and each is new to the table when it is issued.
pub proof fn lemma_issued_handles_distinct(v: RegistryView, ops: Seq<RegistryOp>)
    requires
        registry_wf(v),
    ensures
        forall|i: int, j: int|
            0 <= i < issued_handles(v, ops).len() && 0 <= j < issued_handles(v, ops).len() && i
                != j ==> issued_handles(v, ops)[i] != issued_handles(v, ops)[j],
        forall|h: i32| #[trigger] v.slots.contains_key(h) ==> !issued_handles(v, ops).contains(h),
        allocate_spec(v).1 is Ok ==> !v.slots.contains_key(allocate_spec(v).1->Ok_0),
{
    lemma_run_keeps_wf(v, ops);
    let s = issued_handles(v, ops);
    assert forall|i: int, j: int| 0 <= i < s.len() && 0 <= j < s.len() && i != j implies s[i] != s[j] by {
        if i < j {
            assert(s[i] < s[j]);
        } else {
            assert(s[j] < s[i]);
        }
    }
    assert forall|h: i32| #[trigger] v.slots.contains_key(h) implies !s.contains(h) by {
        if s.contains(h) {
            let i = choose|i: int| 0 <= i < s.len() && s[i] == h;
            assert(v.next <= s[i]);
        }
    }
}

/// A result delivered once to a freshly allocated handle is what its waiter
/// receives: the payload itself for a zero status, the failure otherwise.
pub proof fn lemma_delivery_reaches_waiter(
    v: RegistryView,
    status: i32,
    payload: String,
    elapsed_ms: u64,
    timeout_ms: u64,
)
    requires
        registry_wf(v),
        allocate_spec(v).1 is Ok,
    ensures
        ({
            let (v1, a) = allocate_spec(v);
            let h = a->Ok_0;
            let (v2, d) = deliver_spec(v1, h, status, payload);
            let (v3, w) = poll_spec(v2, h, elapsed_ms, timeout_ms);
            &&& d == Ok::<(), BridgeError>(())
            &&& w == WaitStep::Done(callback_outcome_spec(status, payload))
            &&& (status == 0 ==> w == WaitStep::Done(Ok::<String, BridgeError>(payload)))
            &&& !v3.slots.contains_key(h)
        }),
{
}

/// A second delivery to the same handle is reported as spurious and leaves
/// the first delivered outcome in place for the waiter.
pub proof fn lemma_second_delivery_spurious(
    v: RegistryView,
    h: i32,
    status1: i32,
    payload1: String,
    status2: i32,
    payload2: String,
    elapsed_ms: u64,
    timeout_ms: u64,
)
    requires
        registry_wf(v),
        v.slots.contains_key(h),
        v.slots[h] is Pending,
    ensures
        ({
            let (v1, d1) = deliver_spec(v, h, status1, payload1);
            let (v2, d2) = deliver_spec(v1, h, status2, payload2);
            &&& d1 == Ok::<(), BridgeError>(())
            &&& d2 == Err::<(), BridgeError>(BridgeError::SpuriousCallback(h))
            &&& v2 == v1
            &&& poll_spec(v2, h, elapsed_ms, timeout_ms).1 == WaitStep::Done(callback_outcome_spec(status1, payload1))
        }),
{
}

/// A wait for a slot with nothing delivered keeps waiting while less than
/// the timeout has elapsed; once the timeout has elapsed it ends in a timeout
/// and retires the slot, so a late callback for that handle is reported as
/// spurious and reaches nobody.
pub proof fn lemma_timeout_retires_slot(
    v: RegistryView,
    h: i32,
    elapsed_ms: u64,
    timeout_ms: u64,
    status: i32,
    payload: String,
)
    requires
        registry_wf(v),
        v.slots.contains_key(h),
        v.slots[h] is Pending,
    ensures
        elapsed_ms < timeout_ms ==> poll_spec(v, h, elapsed_ms, timeout_ms) == (v, WaitStep::KeepWaiting),
        elapsed_ms >= timeout_ms ==> ({
            let (v1, w) = poll_spec(v, h, elapsed_ms, timeout_ms);
            let (v2, d) = deliver_spec(v1, h, status, payload);
            &&& w == WaitStep::Done(Err::<String, BridgeError>(BridgeError::TimeoutExpired))
            &&& !v1.slots.contains_key(h)
            &&& d == Err::<(), BridgeError>(BridgeError::SpuriousCallback(h))
            &&& v2 == v1
        }),
{
}

/// Maps a native callback's status and payload to the outcome a waiter gets.
pub fn callback_outcome(status: i32, payload: String) -> (r: Result<String, BridgeError>)
    ensures
        r == callback_outcome_spec(status, payload),
{
    if status == 0 {
        Ok(payload)
    } else {
        Err(BridgeError::DeliveredFailure(status))
    }
}

/// The correlation table from command handles to pending-result slots.
///
/// Handles are handed out in increasing order and never reused, so a late
/// callback for a retired handle can never reach a newer command.
pub struct Registry {
    next: i32,
    slots: HashMap<i32, SlotState>,
}

impl View for Registry {
    type V = RegistryView;

    closed spec fn view(&self) -> RegistryView {
        RegistryView { next: self.next as int, slots: self.slots@ }
    }
}

impl Registry {
    pub open spec fn wf(&self) -> bool {
        registry_wf(self@)
    }

    /// An empty registry whose first handle is 1.
    pub fn new() -> (r: Registry)
        ensures
            r.wf(),
            r@.next == 1,
            r@.slots.is_empty(),
    {
        let r = Registry { next: 1, slots: HashMap::new() };
        assert(r@.slots =~= Map::empty());
        r
    }

    /// Hands out a fresh handle and opens its pending slot.
    pub fn allocate(&mut self) -> (r: Result<i32, BridgeError>)
        requires
            old(self).wf(),
        ensures
            final(self).wf(),
            (final(self)@, r) == allocate_spec(old(self)@),
    {
        if self.next >= MAX_HANDLE {
            return Err(BridgeError::HandleSpaceExhausted);
        }
        let h = self.next;
        self.slots.insert(h, SlotState::Pending);
        self.next = h + 1;
        assert forall|k: i32| #[trigger] self.slots@.contains_key(k) implies 1 <= k < self.next by {
            if k != h {
                assert(old(self)@.slots.contains_key(k));
            }
        }
        Ok(h)
    }

    /// Hands the callback's outcome to the slot of `h`. A handle with no
    /// pending slot (unknown, retired, or already delivered) is reported as a
    /// spurious callback and changes nothing.
    pub fn deliver(&mut self, h: i32, status: i32, payload: String) -> (r: Result<(), BridgeError>)
        requires
            old(self).wf(),
        ensures
            final(self).wf(),
            (final(self)@, r) == deliver_spec(old(self)@, h, status, payload),
    {
        let pending = match self.slots.get(&h) {
            Some(SlotState::Pending) => true,
            _ => false,
        };
        if pending {
            let outcome = callback_outcome(status, payload);
            self.slots.insert(h, SlotState::Delivered(outcome));
            Ok(())
        } else {
            Err(BridgeError::SpuriousCallback(h))
        }
    }

    /// One look at the slot of `h` by its waiter, `elapsed_ms` into a wait of
    /// at most `timeout_ms`. A delivered outcome is taken out; a pending slot
    /// whose timeout has elapsed is retired and yields a timeout; otherwise
    /// the waiter keeps waiting.
    pub fn poll(&mut self, h: i32, elapsed_ms: u64, timeout_ms: u64) -> (r: WaitStep)
        requires
            old(self).wf(),
        ensures
            final(self).wf(),
            (final(self)@, r) == poll_spec(old(self)@, h, elapsed_ms, timeout_ms),
    {
        let pending = match self.slots.get(&h) {
            None => {
                return WaitStep::Done(Err(BridgeError::UnknownHandle(h)));
            },
            Some(SlotState::Pending) => true,
            Some(SlotState::Delivered(_)) => false,
        };
        if pending && elapsed_ms < timeout_ms {
            return WaitStep::KeepWaiting;
        }
        match self.slots.remove(&h) {
            Some(SlotState::Delivered(r)) => WaitStep::Done(r),
            _ => WaitStep::Done(Err(BridgeError::TimeoutExpired)),
        }
    }

    /// Records the native call's immediate status for `h`. A rejection
    /// retires the slot, as no callback will follow.
    pub fn invoked(&mut self, h: i32, status: i32) -> (r: Result<(), BridgeError>)
        requires
            old(self).wf(),
        ensures
            final(self).wf(),
            (final(self)@, r) == invoked_spec(old(self)@, h, status),
    {
        if status == 0 {
            Ok(())
        } else {
            self.slots.remove(&h);
            assert forall|k: i32| #[trigger] self.slots@.contains_key(k) implies 1 <= k < self.next by {
                assert(old(self)@.slots.contains_key(k));
            }
            Err(BridgeError::InvocationRejected(status))
        }
    }
}

} // verus!
