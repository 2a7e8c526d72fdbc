//! Bookkeeping for requests that are under way. The host makes the
//! requests; the dispatcher hands out a ticket for each, and lets the end of
//! each request change what is known of the server once and only once.

use crate::chat_client::{server_info_of, spec_server_info, FetchOutcome, ServerInfo};
use vstd::prelude::*;

verus! {

/// Tickets of the requests under way, and what is known of the server.
#[derive(Debug)]
pub struct ActionDispatcher {
    next_ticket: u64,
    in_flight: Vec<u64>,
    server_info: ServerInfo,
}

/// What a dispatcher is, as plain values.
pub struct DispatcherView {
    /// The ticket that the next request gets.
    pub next_ticket: nat,
    /// The tickets of the requests that have not ended.
    pub in_flight: Set<u64>,
    pub server_info: ServerInfo,
}

impl DispatcherView {
    /// The dispatcher after it handed out its next ticket.
    pub open spec fn dispatched(self) -> DispatcherView {
        DispatcherView {
            next_ticket: self.next_ticket + 1,
            in_flight: self.in_flight.insert(self.next_ticket as u64),
            ..self
        }
    }

    /// The dispatcher after the request with this ticket ended and left
    /// `info`. The end of a request that is not under way changes nothing.
    pub open spec fn completed(self, ticket: u64, info: ServerInfo) -> DispatcherView {
        if self.in_flight.contains(ticket) {
            DispatcherView {
                in_flight: self.in_flight.remove(ticket),
                server_info: info,
                ..self
            }
        } else {
            self
        }
    }

    /// Every ticket under way was handed out before.
    pub open spec fn wf(self) -> bool {
        &&& self.next_ticket <= u64::MAX
        &&& forall|t: u64| self.in_flight.contains(t) ==> t < self.next_ticket
    }
}

impl View for ActionDispatcher {
    type V = DispatcherView;

    closed spec fn view(&self) -> DispatcherView {
        DispatcherView {
            next_ticket: self.next_ticket as nat,
            in_flight: self.in_flight@.to_set(),
            server_info: self.server_info,
        }
    }
}

impl ActionDispatcher {
    #[verifier::type_invariant]
    spec fn inv(self) -> bool {
        &&& self.in_flight@.no_duplicates()
        &&& forall|i: int| 0 <= i < self.in_flight@.len() ==> self.in_flight@[i] < self.next_ticket
    }

    /// The view of a new dispatcher.
    pub open spec fn spec_new() -> DispatcherView {
        DispatcherView {
            next_ticket: 0,
            in_flight: Set::empty(),
            server_info: ServerInfo::spec_default(),
        }
    }

    /// A dispatcher with nothing under way, which knows the server as
    /// offline.
    pub fn new() -> (d: ActionDispatcher)
        ensures
            d@ == ActionDispatcher::spec_new(),
            d@.wf(),
    {
        let d = ActionDispatcher {
            next_ticket: 0,
            in_flight: Vec::new(),
            server_info: ServerInfo::default(),
        };
        assert(d.in_flight@.to_set() =~= Set::<u64>::empty());
        d
    }

    /// What is known of the server.
    pub fn server_info(&self) -> (info: ServerInfo)
        ensures
            info == self@.server_info,
    {
        self.server_info
    }

    /// Whether the request with this ticket is under way.
    pub fn is_pending(&self, ticket: u64) -> (pending: bool)
        ensures
            pending == self@.in_flight.contains(ticket),
    {
        self.position(ticket).is_some()
    }

    fn position(&self, ticket: u64) -> (at: Option<usize>)
        ensures
            match at {
                Some(i) => i < self.in_flight@.len() && self.in_flight@[i as int] == ticket,
                None => !self.in_flight@.contains(ticket),
            },
    {
        let mut i: usize = 0;
        while i < self.in_flight.len()
            invariant
                i <= self.in_flight.len(),
                forall|j: int| 0 <= j < i ==> self.in_flight@[j] != ticket,
            decreases self.in_flight.len() - i,
        {
            if self.in_flight[i] == ticket {
                return Some(i);
            }
            i = i + 1;
        }
        None
    }

    /// Registers a request that the host is about to make, and hands out
    /// its ticket. Tickets are never handed out twice; when they have run
    /// out, nothing is registered.
    pub fn dispatch(&mut self) -> (ticket: Option<u64>)
        ensures
            ticket is Some <==> old(self)@.next_ticket < u64::MAX,
            match ticket {
                Some(t) => {
                    &&& t == old(self)@.next_ticket
                    &&& !old(self)@.in_flight.contains(t)
                    &&& final(self)@ == old(self)@.dispatched()
                },
                None => final(self)@ == old(self)@,
            },
            old(self)@.wf(),
            final(self)@.wf(),
    {
        proof {
            use_type_invariant(&*self);
        }
        if self.next_ticket == u64::MAX {
            return None;
        }
        let t = self.next_ticket;
        let ghost before = self.in_flight@;
        assert(!before.contains(t));
        // The list is taken out while it changes, and put back whole.
        let mut flights: Vec<u64> = Vec::new();
        std::mem::swap(&mut self.in_flight, &mut flights);
        flights.push(t);
        self.next_ticket = t + 1;
        std::mem::swap(&mut self.in_flight, &mut flights);
        proof {
            assert(self.in_flight@ == before.push(t));
            assert(self.in_flight@.to_set() =~= before.to_set().insert(t)) by {
                assert forall|x: u64| self.in_flight@.contains(x) <==> before.contains(x) || x
                    == t by {
                    if before.contains(x) {
                        let i = choose|i: int| 0 <= i < before.len() && before[i] == x;
                        assert(self.in_flight@[i] == x);
                    }
                    if x == t {
                        assert(self.in_flight@[before.len() as int] == x);
                    }
                }
            }
        }
        Some(t)
    }

    /// The request with this ticket ended as `outcome`. If it was under
    /// way, what it found replaces what was known of the server, whole, and
    /// the ticket is used up. Otherwise nothing changes.
    pub fn complete(&mut self, ticket: u64, outcome: &FetchOutcome) -> (applied: bool)
        ensures
            applied == old(self)@.in_flight.contains(ticket),
            final(self)@ == old(self)@.completed(ticket, spec_server_info(*outcome)),
            old(self)@.wf(),
            final(self)@.wf(),
    {
        proof {
            use_type_invariant(&*self);
        }
        match self.position(ticket) {
            Some(i) => {
                let ghost before = self.in_flight@;
                let mut flights: Vec<u64> = Vec::new();
                std::mem::swap(&mut self.in_flight, &mut flights);
                flights.remove(i);
                std::mem::swap(&mut self.in_flight, &mut flights);
                self.server_info = server_info_of(outcome);
                proof {
                    assert(self.in_flight@ == before.remove(i as int));
                    assert(before.contains(ticket));
                    assert(self.in_flight@.to_set() =~= before.to_set().remove(ticket)) by {
                        assert forall|x: u64|
                            self.in_flight@.contains(x) <==> before.contains(x) && x
                                != ticket by {
                            if self.in_flight@.contains(x) {
                                let j = choose|j: int|
                                    0 <= j < self.in_flight@.len() && self.in_flight@[j] == x;
                                if j < i {
                                    assert(before[j] == x);
                                } else {
                                    assert(before[j + 1] == x);
                                }
                            }
                            if before.contains(x) && x != ticket {
                                let j = choose|j: int| 0 <= j < before.len() && before[j] == x;
                                if j < i {
                                    assert(self.in_flight@[j] == x);
                                } else {
                                    assert(self.in_flight@[j - 1] == x);
                                }
                            }
                        }
                    }
                }
                true
            },
            None => false,
        }
    }
}

/// A request ends once: after the end of a request was applied, a second
/// report for the same ticket changes nothing.
pub proof fn lemma_complete_once(
    d: DispatcherView,
    ticket: u64,
    first: ServerInfo,
    second: ServerInfo,
)
    ensures
        d.completed(ticket, first).completed(ticket, second) == d.completed(ticket, first),
        !d.completed(ticket, first).in_flight.contains(ticket),
{
}

/// A request that is under way, when it ends, leaves exactly what it
/// found: both fields come from that one request.
pub proof fn lemma_complete_replaces_whole(d: DispatcherView, ticket: u64, info: ServerInfo)
    requires
        d.in_flight.contains(ticket),
    ensures
        d.completed(ticket, info).server_info == info,
{
}

} // verus!
