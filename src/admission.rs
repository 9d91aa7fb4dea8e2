//! Abstract model of the admission budget, and the laws it obeys.
use vstd::prelude::*;

verus! {

/// The state of the admission budget as a mathematical value.
///
/// `in_use` permits are held; `waiters` are the tickets of requests still
/// waiting for a permit, oldest first. Waiters are served first come,
/// first served.
pub struct GateView {
    pub capacity: nat,
    pub in_use: nat,
    pub waiters: Seq<u64>,
    pub next_ticket: u64,
}

/// The ticket handed out after `t`.
pub open spec fn ticket_after(t: u64) -> u64 {
    if t == u64::MAX {
        0
    } else {
        (t + 1) as u64
    }
}

impl GateView {
    /// No more permits are held than the budget allows, and nobody waits
    /// while a permit is free.
    pub open spec fn wf(self) -> bool {
        &&& self.in_use <= self.capacity
        &&& self.waiters.len() > 0 ==> self.in_use == self.capacity
    }

    /// Permits that could be handed out right now.
    pub open spec fn available(self) -> nat {
        (self.capacity - self.in_use) as nat
    }

    /// A new request is admitted at once.
    pub open spec fn admits(self) -> bool {
        self.waiters.len() == 0 && self.in_use < self.capacity
    }

    /// The state after one more request for a permit.
    pub open spec fn after_acquire(self) -> GateView {
        if self.admits() {
            GateView { in_use: self.in_use + 1, next_ticket: ticket_after(self.next_ticket), ..self }
        } else {
            GateView {
                waiters: self.waiters.push(self.next_ticket),
                next_ticket: ticket_after(self.next_ticket),
                ..self
            }
        }
    }

    /// The waiter that a returned permit goes to, if any.
    pub open spec fn woken_by_release(self) -> Option<u64> {
        if self.waiters.len() > 0 {
            Some(self.waiters[0])
        } else {
            None
        }
    }

    /// The state after one held permit is given back.
    pub open spec fn after_release(self) -> GateView {
        if self.waiters.len() > 0 {
            GateView { waiters: self.waiters.drop_first(), ..self }
        } else {
            GateView { in_use: (self.in_use - 1) as nat, ..self }
        }
    }
}

/// Every step keeps the budget: at no time are more permits held than the
/// configured maximum, and a request made while no permit is free waits.
pub proof fn lemma_budget_is_never_exceeded(v: GateView)
    requires
        v.wf(),
    ensures
        v.in_use <= v.capacity,
        v.after_acquire().wf(),
        v.after_acquire().in_use <= v.capacity,
        v.available() == 0 ==> !v.admits() && v.after_acquire().in_use == v.in_use
            && v.after_acquire().waiters == v.waiters.push(v.next_ticket),
        v.in_use > 0 ==> v.after_release().wf(),
{
}

/// A request for an unknown namespace costs nothing in the end: taking a
/// permit and giving it straight back leaves the free permits and the
/// waiters as they were.
pub proof fn lemma_unknown_namespace_keeps_capacity(v: GateView)
    requires
        v.wf(),
        v.admits(),
    ensures
        v.after_acquire().after_release().available() == v.available(),
        v.after_acquire().after_release().in_use == v.in_use,
        v.after_acquire().after_release().waiters == v.waiters,
        v.after_acquire().after_release().capacity == v.capacity,
{
}

/// Giving back a permit frees exactly one unit of the budget: either the
/// oldest waiter now holds it, or one more permit is free.
pub proof fn lemma_release_frees_one(v: GateView)
    requires
        v.wf(),
        v.in_use > 0,
    ensures
        v.waiters.len() == 0 ==> v.after_release().available() == v.available() + 1
            && v.woken_by_release() is None,
        v.waiters.len() > 0 ==> v.woken_by_release() == Some(v.waiters[0])
            && v.after_release().waiters == v.waiters.drop_first()
            && v.after_release().in_use == v.in_use,
{
}

/// Requests for the same namespace are not merged: two requests admitted in
/// a row hold two permits.
pub proof fn lemma_requests_are_not_merged(v: GateView)
    requires
        v.wf(),
        v.waiters.len() == 0,
        v.in_use + 2 <= v.capacity,
    ensures
        v.after_acquire().admits(),
        v.after_acquire().after_acquire().in_use == v.in_use + 2,
        v.after_acquire().after_acquire().available() + 2 == v.available(),
{
}

} // verus!
