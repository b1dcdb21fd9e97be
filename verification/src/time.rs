//! Bookkeeping of started timeouts: at most one live ticket per timer.
use vstd::prelude::*;

use crate::common::{SecsTimeoutUnit, TimeoutId, TimeoutTicket};

verus! {

/// Hands out consecutive timeout ids, wrapping at `u64::MAX`.
pub struct TimeoutIdGenerator {
    next: u64,
}

impl TimeoutIdGenerator {
    pub closed spec fn next_id(&self) -> u64 {
        self.next
    }

    pub fn new() -> (r: TimeoutIdGenerator)
        ensures
            r.next_id() == 0,
    {
        TimeoutIdGenerator { next: 0 }
    }

    pub fn generate(&mut self) -> (id: TimeoutId)
        ensures
            id.0 == old(self).next_id(),
            final(self).next_id() == (old(self).next_id() as int + 1) % 0x1_0000_0000_0000_0000,
    {
        let id = TimeoutId(self.next);
        self.next = self.next.wrapping_add(1);
        id
    }
}

/// Whether `s` has an entry for `unit`.
pub open spec fn has_unit(s: Seq<TimeoutTicket>, unit: SecsTimeoutUnit) -> bool {
    exists|i: int| 0 <= i < s.len() && s[i].timeout == unit
}

/// No two entries of `s` watch the same timer.
pub open spec fn units_distinct(s: Seq<TimeoutTicket>) -> bool {
    forall|i: int, j: int|
        0 <= i < s.len() && 0 <= j < s.len() && i != j ==> s[i].timeout != s[j].timeout
}

/// The entries of `s`, keyed by the timer that they watch.
pub open spec fn ticket_map(s: Seq<TimeoutTicket>) -> Map<SecsTimeoutUnit, TimeoutTicket> {
    Map::new(
        |u: SecsTimeoutUnit| has_unit(s, u),
        |u: SecsTimeoutUnit| s[choose|i: int| 0 <= i < s.len() && s[i].timeout == u],
    )
}

proof fn lemma_ticket_map_at(s: Seq<TimeoutTicket>, i: int)
    requires
        units_distinct(s),
        0 <= i < s.len(),
    ensures
        ticket_map(s).dom().contains(s[i].timeout),
        ticket_map(s)[s[i].timeout] == s[i],
{
    let u = s[i].timeout;
    assert(has_unit(s, u));
    let j = choose|j: int| 0 <= j < s.len() && s[j].timeout == u;
    assert(j == i);
}

proof fn lemma_ticket_map_push(s: Seq<TimeoutTicket>, t: TimeoutTicket)
    requires
        units_distinct(s),
        !has_unit(s, t.timeout),
    ensures
        units_distinct(s.push(t)),
        ticket_map(s.push(t)) == ticket_map(s).insert(t.timeout, t),
{
    let s2 = s.push(t);
    assert forall|u: SecsTimeoutUnit| #[trigger] has_unit(s2, u) == (has_unit(s, u) || u == t.timeout) by {
        if has_unit(s, u) {
            let i = choose|i: int| 0 <= i < s.len() && s[i].timeout == u;
            assert(s2[i].timeout == u);
        }
        if u == t.timeout {
            assert(s2[s.len() as int].timeout == u);
        }
        if has_unit(s2, u) && u != t.timeout {
            let i = choose|i: int| 0 <= i < s2.len() && s2[i].timeout == u;
            assert(s[i].timeout == u);
        }
    }
    assert(units_distinct(s2));
    lemma_ticket_map_at(s2, s.len() as int);
    assert forall|u: SecsTimeoutUnit| has_unit(s, u) implies #[trigger] ticket_map(s2)[u]
        == ticket_map(s)[u] by {
        let i = choose|i: int| 0 <= i < s.len() && s[i].timeout == u;
        lemma_ticket_map_at(s, i);
        lemma_ticket_map_at(s2, i);
    }
    assert(ticket_map(s2) =~= ticket_map(s).insert(t.timeout, t));
}

proof fn lemma_ticket_map_remove(s: Seq<TimeoutTicket>, i: int)
    requires
        units_distinct(s),
        0 <= i < s.len(),
    ensures
        units_distinct(s.remove(i)),
        ticket_map(s.remove(i)) == ticket_map(s).remove(s[i].timeout),
{
    let s2 = s.remove(i);
    let ut = s[i].timeout;
    assert forall|u: SecsTimeoutUnit| #[trigger] has_unit(s2, u) == (has_unit(s, u) && u != ut) by {
        if has_unit(s2, u) {
            let j = choose|j: int| 0 <= j < s2.len() && s2[j].timeout == u;
            if j < i {
                assert(s[j].timeout == u);
            } else {
                assert(s[j + 1].timeout == u);
            }
        }
        if has_unit(s, u) && u != ut {
            let j = choose|j: int| 0 <= j < s.len() && s[j].timeout == u;
            if j < i {
                assert(s2[j].timeout == u);
            } else {
                assert(s2[j - 1].timeout == u);
            }
        }
    }
    assert(units_distinct(s2));
    assert forall|u: SecsTimeoutUnit| has_unit(s2, u) implies #[trigger] ticket_map(s2)[u]
        == ticket_map(s)[u] by {
        let j = choose|j: int| 0 <= j < s2.len() && s2[j].timeout == u;
        lemma_ticket_map_at(s2, j);
        if j < i {
            lemma_ticket_map_at(s, j);
        } else {
            lemma_ticket_map_at(s, j + 1);
        }
    }
    assert(ticket_map(s2) =~= ticket_map(s).remove(ut));
}

/// Tracks the started timeouts, at most one per timer; restarting a timer
/// replaces its ticket.
pub struct TimeoutManager {
    id_generator: TimeoutIdGenerator,
    active: Vec<TimeoutTicket>,
}

impl TimeoutManager {
    /// The live tickets, keyed by timer.
    pub closed spec fn active_tickets(&self) -> Map<SecsTimeoutUnit, TimeoutTicket> {
        ticket_map(self.active@)
    }

    /// The id that the next issued ticket gets.
    pub closed spec fn next_id(&self) -> u64 {
        self.id_generator.next_id()
    }

    pub closed spec fn wf(&self) -> bool {
        units_distinct(self.active@)
    }

    /// Whether `ticket` is the live ticket of its timer.
    pub open spec fn spec_is_active(&self, ticket: TimeoutTicket) -> bool {
        &&& self.active_tickets().dom().contains(ticket.timeout)
        &&& self.active_tickets()[ticket.timeout] == ticket
    }

    pub fn new() -> (r: TimeoutManager)
        ensures
            r.wf(),
            r.active_tickets() == Map::<SecsTimeoutUnit, TimeoutTicket>::empty(),
            r.next_id() == 0,
    {
        let r = TimeoutManager { id_generator: TimeoutIdGenerator::new(), active: Vec::new() };
        assert(r.active_tickets() =~= Map::<SecsTimeoutUnit, TimeoutTicket>::empty());
        r
    }

    fn find(&self, unit: SecsTimeoutUnit) -> (r: Option<usize>)
        requires
            self.wf(),
        ensures
            match r {
                Some(i) => i < self.active@.len() && self.active@[i as int].timeout == unit,
                None => !has_unit(self.active@, unit),
            },
    {
        let mut i: usize = 0;
        while i < self.active.len()
            invariant
                i <= self.active@.len(),
                forall|j: int| 0 <= j < i ==> self.active@[j].timeout != unit,
            decreases self.active@.len() - i,
        {
            if self.active[i].timeout == unit {
                return Some(i);
            }
            i = i + 1;
        }
        None
    }

    /// Starts `timeout` under a fresh id, replacing any live ticket of that timer.
    pub fn issue(&mut self, timeout: SecsTimeoutUnit) -> (ticket: TimeoutTicket)
        requires
            old(self).wf(),
        ensures
            final(self).wf(),
            ticket.id.0 == old(self).next_id(),
            ticket.timeout == timeout,
            final(self).active_tickets() == old(self).active_tickets().insert(timeout, ticket),
            final(self).next_id() == (old(self).next_id() as int + 1) % 0x1_0000_0000_0000_0000,
    {
        let id = self.id_generator.generate();
        let ticket = TimeoutTicket { id, timeout };
        match self.find(timeout) {
            Some(i) => {
                proof {
                    lemma_ticket_map_remove(self.active@, i as int);
                }
                let ghost removed = self.active@.remove(i as int);
                self.active.remove(i);
                assert(self.active@ == removed);
                assert(!has_unit(self.active@, timeout)) by {
                    if has_unit(self.active@, timeout) {
                        assert(ticket_map(self.active@).dom().contains(timeout));
                    }
                }
                proof {
                    lemma_ticket_map_push(self.active@, ticket);
                }
                self.active.push(ticket);
                assert(ticket_map(self.active@) =~= ticket_map(old(self).active@).insert(
                    timeout,
                    ticket,
                ));
            },
            None => {
                proof {
                    lemma_ticket_map_push(self.active@, ticket);
                }
                self.active.push(ticket);
            },
        }
        ticket
    }

    /// Stops `target`; reports whether it was running.
    pub fn cancel(&mut self, target: SecsTimeoutUnit) -> (r: bool)
        requires
            old(self).wf(),
        ensures
            final(self).wf(),
            r == old(self).active_tickets().dom().contains(target),
            final(self).active_tickets() == old(self).active_tickets().remove(target),
            final(self).next_id() == old(self).next_id(),
    {
        match self.find(target) {
            Some(i) => {
                proof {
                    lemma_ticket_map_remove(self.active@, i as int);
                    lemma_ticket_map_at(self.active@, i as int);
                }
                self.active.remove(i);
                true
            },
            None => {
                assert(ticket_map(self.active@) =~= ticket_map(self.active@).remove(target));
                false
            },
        }
    }

    /// Whether `ticket` is still the live ticket of its timer.
    pub fn is_active(&self, ticket: &TimeoutTicket) -> (r: bool)
        requires
            self.wf(),
        ensures
            r == self.spec_is_active(*ticket),
    {
        match self.find(ticket.timeout) {
            Some(i) => {
                proof {
                    lemma_ticket_map_at(self.active@, i as int);
                }
                self.active[i] == *ticket
            },
            None => false,
        }
    }

    /// Consumes an expired ticket: true, and the timer stops, only when the
    /// ticket is still the live one of its timer; a stale or cancelled ticket
    /// changes nothing.
    pub fn fire(&mut self, ticket: &TimeoutTicket) -> (r: bool)
        requires
            old(self).wf(),
        ensures
            final(self).wf(),
            r == old(self).spec_is_active(*ticket),
            final(self).active_tickets() == if r {
                old(self).active_tickets().remove(ticket.timeout)
            } else {
                old(self).active_tickets()
            },
            final(self).next_id() == old(self).next_id(),
    {
        if self.is_active(ticket) {
            self.cancel(ticket.timeout);
            true
        } else {
            false
        }
    }
}

} // verus!
