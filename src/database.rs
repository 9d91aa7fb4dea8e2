//! The database gateway: admission of namespace handles under a global
//! concurrency budget, and the listing of namespaces.
use std::collections::VecDeque;
use vstd::prelude::*;

use crate::admission::{ticket_after, GateView};
use crate::catalog::{CatalogError, Namespace, NamespaceSchema};
use crate::retry::{delay_after, Backoff, BackoffConfig};

verus! {

/// One unit of the concurrency budget. It cannot be copied: whoever owns it
/// owns the unit, until it goes back to the gateway that issued it.
pub struct Permit {
    ticket: u64,
}

impl View for Permit {
    type V = u64;

    /// The ticket of the request that this permit was issued for.
    closed spec fn view(&self) -> u64 {
        self.ticket
    }
}

impl Permit {
    /// The ticket of the request that this permit was issued for.
    pub fn ticket(&self) -> (r: u64)
        ensures
            r == self@,
    {
        self.ticket
    }
}

/// Outcome of a request for a permit.
pub enum Admission {
    /// A permit was free and is now held by the caller.
    Admitted(Permit),
    /// No permit was free: the request waits under this ticket until a
    /// permit is handed to it.
    Queued(u64),
}

/// An admitted, schema-resolved view of one namespace. It owns the permit
/// that admitted it; giving the handle back is the only way to free it.
pub struct QuerierNamespace {
    name: String,
    schema: NamespaceSchema,
    permit: Permit,
}

impl QuerierNamespace {
    pub closed spec fn spec_name(&self) -> Seq<char> {
        self.name@
    }

    pub closed spec fn spec_schema(&self) -> NamespaceSchema {
        self.schema
    }

    /// Ticket of the permit that this handle holds.
    pub closed spec fn spec_ticket(&self) -> u64 {
        self.permit@
    }

    /// The namespace's name.
    pub fn name(&self) -> (r: &String)
        ensures
            r@ == self.spec_name(),
    {
        &self.name
    }

    /// The schema that was resolved for the namespace.
    pub fn schema(&self) -> (r: &NamespaceSchema)
        ensures
            *r == self.spec_schema(),
    {
        &self.schema
    }

    /// Ticket of the permit that this handle holds.
    pub fn ticket(&self) -> (r: u64)
        ensures
            r == self.spec_ticket(),
    {
        self.permit.ticket()
    }
}

/// What to do after one attempt at listing the namespaces.
pub enum ListStep {
    /// The attempt succeeded: these are the namespaces.
    Done(Vec<Namespace>),
    /// The attempt failed: wait this many milliseconds and try again.
    Retry(u64),
}

/// Gateway to all namespaces.
///
/// It hands out at most `max_concurrent_queries` permits at a time. A request
/// made while none is free waits in a queue, and permits that come back go
/// to the waiters in the order in which they asked.
pub struct QuerierDatabase {
    backoff_config: BackoffConfig,
    max_concurrent_queries: usize,
    in_use: usize,
    waiters: VecDeque<u64>,
    next_ticket: u64,
}

impl View for QuerierDatabase {
    type V = GateView;

    closed spec fn view(&self) -> GateView {
        GateView {
            capacity: self.max_concurrent_queries as nat,
            in_use: self.in_use as nat,
            waiters: self.waiters@,
            next_ticket: self.next_ticket,
        }
    }
}

impl QuerierDatabase {
    /// Largest concurrency budget that a gateway accepts.
    pub const MAX_CONCURRENT_QUERIES_MAX: usize = 65535;

    /// Well-formedness: the budget holds, and it lies within the ceiling.
    pub closed spec fn inv(&self) -> bool {
        &&& self@.wf()
        &&& self.max_concurrent_queries <= Self::MAX_CONCURRENT_QUERIES_MAX
    }

    /// The retry policy of the namespace listing.
    pub closed spec fn spec_backoff_config(&self) -> BackoffConfig {
        self.backoff_config
    }

    /// A gateway with a budget of `max_concurrent_queries` permits, all free.
    pub fn new(max_concurrent_queries: usize) -> (r: Self)
        requires
            max_concurrent_queries <= Self::MAX_CONCURRENT_QUERIES_MAX,
        ensures
            r.inv(),
            r@.capacity == max_concurrent_queries,
            r@.in_use == 0,
            r@.waiters.len() == 0,
            r@.next_ticket == 0,
            r.spec_backoff_config() == BackoffConfig::spec_default(),
    {
        QuerierDatabase {
            backoff_config: BackoffConfig::default(),
            max_concurrent_queries,
            in_use: 0,
            waiters: VecDeque::new(),
            next_ticket: 0,
        }
    }

    /// The size of the budget.
    pub fn max_concurrent_queries(&self) -> (r: usize)
        ensures
            r == self@.capacity,
    {
        self.max_concurrent_queries
    }

    /// Permits held right now.
    pub fn in_use(&self) -> (r: usize)
        ensures
            r == self@.in_use,
    {
        self.in_use
    }

    /// Permits free right now.
    pub fn available_permits(&self) -> (r: usize)
        requires
            self.inv(),
        ensures
            r == self@.available(),
    {
        self.max_concurrent_queries - self.in_use
    }

    /// Requests waiting for a permit.
    pub fn waiting(&self) -> (r: usize)
        ensures
            r == self@.waiters.len(),
    {
        self.waiters.len()
    }

    fn take_ticket(&mut self) -> (t: u64)
        ensures
            t == old(self).next_ticket,
            final(self).next_ticket == ticket_after(t),
            final(self).max_concurrent_queries == old(self).max_concurrent_queries,
            final(self).in_use == old(self).in_use,
            final(self).waiters@ == old(self).waiters@,
            final(self).backoff_config == old(self).backoff_config,
    {
        let t = self.next_ticket;
        self.next_ticket = if t == u64::MAX {
            0
        } else {
            t + 1
        };
        t
    }

    /// A fresh retry state for listing the namespaces, under the gateway's
    /// policy.
    pub fn backoff(&self) -> (r: Backoff)
        ensures
            r.inv(),
            r.spec_config() == self.spec_backoff_config(),
            r.spec_failures() == 0,
    {
        let cfg = BackoffConfig {
            init_backoff_ms: self.backoff_config.init_backoff_ms,
            max_backoff_ms: self.backoff_config.max_backoff_ms,
            base: self.backoff_config.base,
        };
        Backoff::new(cfg)
    }

    /// Decides after one attempt at listing the namespaces. A successful
    /// attempt yields its list as it came; a failed one is retried, forever,
    /// after the next delay of `retry`. The permits play no part.
    pub fn namespaces(&self, retry: &mut Backoff, attempt: Result<Vec<Namespace>, CatalogError>) -> (r:
        ListStep)
        requires
            old(retry).inv(),
        ensures
            final(retry).inv(),
            final(retry).spec_config() == old(retry).spec_config(),
            match attempt {
                Ok(list) => r == ListStep::Done(list) && final(retry).spec_failures()
                    == old(retry).spec_failures(),
                Err(_) => r == ListStep::Retry(
                    delay_after(old(retry).spec_config(), old(retry).spec_failures()),
                ) && final(retry).spec_failures() == old(retry).spec_failures() + 1,
            },
    {
        match attempt {
            Ok(list) => ListStep::Done(list),
            Err(_) => ListStep::Retry(retry.next_delay_ms()),
        }
    }

    /// First step of a namespace lookup: ask for a permit. It is granted at
    /// once when one is free and nobody waits; otherwise the request joins
    /// the queue under its ticket.
    pub fn acquire(&mut self) -> (r: Admission)
        requires
            old(self).inv(),
        ensures
            final(self).inv(),
            final(self)@ == old(self)@.after_acquire(),
            final(self).spec_backoff_config() == old(self).spec_backoff_config(),
            match r {
                Admission::Admitted(p) => old(self)@.admits() && p@ == old(self)@.next_ticket,
                Admission::Queued(t) => !old(self)@.admits() && t == old(self)@.next_ticket,
            },
    {
        let t = self.take_ticket();
        if self.waiters.len() == 0 && self.in_use < self.max_concurrent_queries {
            self.in_use = self.in_use + 1;
            Admission::Admitted(Permit { ticket: t })
        } else {
            self.waiters.push_back(t);
            Admission::Queued(t)
        }
    }

    /// Withdraws a request that waits under `ticket`, as when its caller
    /// gives up. The other waiters keep their order and no permit changes
    /// hands. Returns whether such a request was waiting.
    pub fn cancel(&mut self, ticket: u64) -> (r: bool)
        requires
            old(self).inv(),
        ensures
            final(self).inv(),
            final(self).spec_backoff_config() == old(self).spec_backoff_config(),
            r == old(self)@.waiters.contains(ticket),
            !r ==> final(self)@ == old(self)@,
            r ==> exists|i: int|
                0 <= i < old(self)@.waiters.len() && old(self)@.waiters[i] == ticket && (forall|j: int|
                    0 <= j < i ==> old(self)@.waiters[j] != ticket) && final(self)@ == (GateView {
                    waiters: old(self)@.waiters.remove(i),
                    ..old(self)@
                }),
    {
        let n = self.waiters.len();
        let mut i: usize = 0;
        while i < n
            invariant
                *self == *old(self),
                self.inv(),
                n == self.waiters@.len(),
                i <= n,
                forall|j: int| 0 <= j < i ==> self.waiters@[j] != ticket,
            decreases n - i,
        {
            if self.waiters[i] == ticket {
                let ghost before = self@;
                self.waiters.remove(i);
                assert(before.waiters[i as int] == ticket);
                assert(before.waiters.len() > 0 && before.in_use == before.capacity);
                return true;
            }
            i = i + 1;
        }
        assert(!self.waiters@.contains(ticket));
        false
    }

    /// Gives a held permit back. It goes to the oldest waiter, which is
    /// returned; with nobody waiting it becomes free.
    pub fn return_permit(&mut self, permit: Permit) -> (r: Option<Permit>)
        requires
            old(self).inv(),
            old(self)@.in_use > 0,
        ensures
            final(self).inv(),
            final(self)@ == old(self)@.after_release(),
            final(self).spec_backoff_config() == old(self).spec_backoff_config(),
            match r {
                Some(p) => old(self)@.woken_by_release() == Some(p@),
                None => old(self)@.woken_by_release() is None,
            },
    {
        // The permit ends here; its unit moves to a waiter or becomes free.
        let _ = permit;
        match self.waiters.pop_front() {
            Some(t) => Some(Permit { ticket: t }),
            None => {
                self.in_use = self.in_use - 1;
                None
            },
        }
    }

    /// Second step of a namespace lookup, once `permit` is held and the
    /// schema of `name` was looked up. A known namespace gives a handle
    /// that keeps the permit; an unknown one gives none, and the permit goes
    /// back at once (to the oldest waiter, which is returned, if any).
    pub fn namespace(&mut self, name: String, permit: Permit, schema: Option<NamespaceSchema>) -> (r: (
        Option<QuerierNamespace>,
        Option<Permit>,
    ))
        requires
            old(self).inv(),
            old(self)@.in_use > 0,
        ensures
            final(self).inv(),
            final(self).spec_backoff_config() == old(self).spec_backoff_config(),
            match schema {
                Some(s) => {
                    &&& final(self)@ == old(self)@
                    &&& r.1 is None
                    &&& match r.0 {
                        Some(h) => h.spec_name() == name@ && h.spec_schema() == s && h.spec_ticket()
                            == permit@,
                        None => false,
                    }
                },
                None => {
                    &&& final(self)@ == old(self)@.after_release()
                    &&& r.0 is None
                    &&& match r.1 {
                        Some(p) => old(self)@.woken_by_release() == Some(p@),
                        None => old(self)@.woken_by_release() is None,
                    }
                },
            },
    {
        match schema {
            Some(schema) => (Some(QuerierNamespace { name, schema, permit }), None),
            None => (None, self.return_permit(permit)),
        }
    }

    /// Gives a handle back; its permit goes to the oldest waiter, which is
    /// returned, or becomes free.
    pub fn discard(&mut self, handle: QuerierNamespace) -> (r: Option<Permit>)
        requires
            old(self).inv(),
            old(self)@.in_use > 0,
        ensures
            final(self).inv(),
            final(self)@ == old(self)@.after_release(),
            final(self).spec_backoff_config() == old(self).spec_backoff_config(),
            match r {
                Some(p) => old(self)@.woken_by_release() == Some(p@),
                None => old(self)@.woken_by_release() is None,
            },
    {
        self.return_permit(handle.permit)
    }
}

} // verus!
