//! The inventory ledger: how many tickets of each event are left, and the
//! ticket records that were issued against them.
//!
//! The ledger owns one rule: the units available for an event never fall
//! below zero and never exceed its capacity. Availability changes in one
//! place only, the check-and-decrement of [`EventPartial::reserve`], which
//! either grants the whole quantity or changes nothing.

use crate::event::{lifecycle, next_status, EventError, EventOp, EventStatus};
use crate::ticket::{next_state, step, TicketError, TicketOp, TicketStatus};
use vstd::prelude::*;

verus! {

/// What the ledger keeps of an event: its name, its capacity, the number of
/// units still available and its state. An absent `available` counts as zero.
#[derive(Debug, PartialEq, Eq)]
pub struct EventPartial {
    pub id: i32,
    pub name: String,
    pub capacity: i64,
    pub available: Option<i64>,
    pub status: EventStatus,
}

/// A grant of capacity: `quantity` units of event `event_id` were taken out
/// of the available units and wait to become tickets.
#[derive(Debug, Clone, Copy, PartialEq, Eq, Structural)]
pub struct Reservation {
    pub event_id: i32,
    pub quantity: i64,
}

/// Why the ledger refused a reservation.
#[derive(Debug, Clone, Copy, PartialEq, Eq, Structural)]
pub enum LedgerError {
    /// No event has the identifier.
    EventNotFound,
    /// Fewer units are available than were asked for.
    InsufficientSupply { available: i64, requested: i64 },
    /// The store could not carry out the operation; nothing was changed.
    StoreUnavailable,
}

/// The ledger's rule on numbers: from `available` units, a request for
/// `quantity` is granted in full if that many are left, and leaves
/// `available - quantity`; otherwise it is refused and leaves `available`.
pub open spec fn grant(available: int, quantity: int) -> Option<int> {
    if quantity <= available {
        Some(available - quantity)
    } else {
        None
    }
}

/// The units left after the requests `quantities` were put to the ledger one
/// after the other, starting from `available`.
pub open spec fn left_after(available: int, quantities: Seq<int>) -> int
    decreases quantities.len(),
{
    if quantities.len() == 0 {
        available
    } else {
        let before = left_after(available, quantities.drop_last());
        match grant(before, quantities.last()) {
            Some(rest) => rest,
            None => before,
        }
    }
}

/// The units granted in all when the requests `quantities` were put to the
/// ledger one after the other, starting from `available`.
pub open spec fn granted_in_all(available: int, quantities: Seq<int>) -> int
    decreases quantities.len(),
{
    if quantities.len() == 0 {
        0
    } else {
        let before = left_after(available, quantities.drop_last());
        granted_in_all(available, quantities.drop_last()) + if grant(before, quantities.last())
            is Some {
            quantities.last()
        } else {
            0
        }
    }
}

/// No oversell: however many requests for a positive number of units are put
/// to the ledger, in whatever order they are served, what is granted in all
/// never exceeds what was available at the start, and what is left is what
/// was there less what was granted.
pub proof fn lemma_no_oversell(available: int, quantities: Seq<int>)
    requires
        0 <= available,
        forall|i: int| 0 <= i < quantities.len() ==> quantities[i] > 0,
    ensures
        0 <= left_after(available, quantities) <= available,
        granted_in_all(available, quantities) + left_after(available, quantities) == available,
        0 <= granted_in_all(available, quantities) <= available,
    decreases quantities.len(),
{
    if quantities.len() > 0 {
        lemma_no_oversell(available, quantities.drop_last());
    }
}

/// Of two requests that together ask for more than is available, the one
/// served second is refused with what the first one left.
pub proof fn lemma_second_request_refused(available: int, first: int, second: int)
    requires
        0 < first <= available,
        0 < second,
        first + second > available,
    ensures
        grant(available, first) == Some(available - first),
        grant(available - first, second) is None,
        left_after(available, seq![first, second]) == available - first,
        granted_in_all(available, seq![first, second]) == first,
{
    let both = seq![first, second];
    assert(both.drop_last() =~= seq![first]);
    assert(seq![first].drop_last() =~= Seq::<int>::empty());
    assert(left_after(available, Seq::<int>::empty()) == available);
    assert(granted_in_all(available, Seq::<int>::empty()) == 0);
    assert(left_after(available, seq![first]) == available - first);
    assert(granted_in_all(available, seq![first]) == first);
}

impl Clone for EventPartial {
    fn clone(&self) -> (r: Self)
        ensures
            r == *self,
    {
        EventPartial {
            id: self.id,
            name: self.name.clone(),
            capacity: self.capacity,
            available: self.available,
            status: self.status,
        }
    }
}

impl EventPartial {
    /// The units still available; an absent count is zero.
    pub open spec fn remaining(&self) -> int {
        match self.available {
            Some(n) => n as int,
            None => 0,
        }
    }

    /// The ledger's rule for one event: `0 <= available <= capacity`.
    pub open spec fn wf(&self) -> bool {
        0 <= self.remaining() <= self.capacity
    }

    /// The units still available; an absent count is zero.
    pub fn units_left(&self) -> (n: i64)
        ensures
            n == self.remaining(),
    {
        match self.available {
            Some(n) => n,
            None => 0,
        }
    }

    /// Whether the record obeys the ledger's rule.
    pub fn is_well_formed(&self) -> (b: bool)
        ensures
            b == self.wf(),
    {
        let n = self.units_left();
        0 <= n && n <= self.capacity
    }

    /// The check-and-decrement. If fewer than `quantity` units are available
    /// the request is refused and the record stays as it is; otherwise
    /// `quantity` units leave the available ones and a grant comes back.
    /// Nothing but `available` ever changes.
    pub fn reserve(&mut self, quantity: i64) -> (r: Result<Reservation, LedgerError>)
        requires
            quantity > 0,
        ensures
            r is Ok <==> grant(old(self).remaining(), quantity as int) is Some,
            r is Ok ==> r == Ok::<Reservation, LedgerError>(
                Reservation { event_id: old(self).id, quantity },
            ) && *final(self) == (EventPartial {
                available: Some((old(self).remaining() - quantity) as i64),
                ..*old(self)
            }) && final(self).remaining() == old(self).remaining() - quantity,
            r is Err ==> r == Err::<Reservation, LedgerError>(
                LedgerError::InsufficientSupply {
                    available: old(self).remaining() as i64,
                    requested: quantity,
                },
            ) && *final(self) == *old(self),
            old(self).wf() ==> final(self).wf(),
    {
        let available = self.units_left();
        if available < quantity {
            Err(LedgerError::InsufficientSupply { available, requested: quantity })
        } else {
            self.available = Some(available - quantity);
            Ok(Reservation { event_id: self.id, quantity })
        }
    }

    /// Takes the event one step through its life cycle: see [`lifecycle`].
    /// Only the state ever changes.
    pub fn advance(&mut self, op: EventOp) -> (r: Result<EventStatus, EventError>)
        ensures
            match lifecycle(old(self).status, op) {
                Some(status) => r == Ok::<EventStatus, EventError>(status) && *final(self) == (
                EventPartial { status, ..*old(self) }),
                None => r == Err::<EventStatus, EventError>(
                    EventError::InvalidTransition { from: old(self).status, attempted: op },
                ) && *final(self) == *old(self),
            },
            final(self).wf() == old(self).wf(),
    {
        match next_status(self.status, op) {
            Ok(status) => {
                self.status = status;
                Ok(status)
            },
            Err(e) => Err(e),
        }
    }

    /// Gives back the units of a grant that did not become tickets.
    pub fn release(&mut self, grant: Reservation)
        requires
            old(self).wf(),
            grant.quantity > 0,
            old(self).remaining() + grant.quantity <= old(self).capacity,
        ensures
            final(self).wf(),
            *final(self) == (EventPartial {
                available: Some((old(self).remaining() + grant.quantity) as i64),
                ..*old(self)
            }),
    {
        let available = self.units_left();
        self.available = Some(available + grant.quantity);
    }
}

/// A ticket as the ledger records it.
#[derive(Debug, Clone, Copy, PartialEq, Eq, Structural)]
pub struct TicketRecord {
    pub id: i32,
    pub event_id: i32,
    pub user_id: Option<i32>,
    pub status: TicketStatus,
}

impl TicketRecord {
    /// The record after `op`, made for `user`, has gone through the state
    /// machine: see [`step`]. Only the state and the holder ever differ.
    pub fn apply(&self, op: TicketOp, user: Option<i32>) -> (r: Result<TicketRecord, TicketError>)
        ensures
            r == match step(self.status, self.user_id, op, user) {
                Ok((status, user_id)) => Ok::<TicketRecord, TicketError>(
                    TicketRecord { status, user_id, ..*self },
                ),
                Err(e) => Err(e),
            },
    {
        let same = match (self.user_id, user) {
            (Some(h), Some(u)) => h == u,
            (None, None) => true,
            _ => false,
        };
        match next_state(self.status, self.user_id, op, user, same) {
            Ok((status, user_id)) => Ok(TicketRecord { status, user_id, ..*self }),
            Err(e) => Err(e),
        }
    }
}

/// Whether the event with identifier `id` stands at position `i`.
pub open spec fn event_at(events: Seq<EventPartial>, id: i32, i: int) -> bool {
    0 <= i < events.len() && events[i].id == id
}

/// Whether some event has the identifier `id`.
pub open spec fn has_event(events: Seq<EventPartial>, id: i32) -> bool {
    exists|i: int| event_at(events, id, i)
}

/// The position of the event with identifier `id`, if there is one.
pub open spec fn event_index(events: Seq<EventPartial>, id: i32) -> int {
    choose|i: int| event_at(events, id, i)
}

/// The record of the event with identifier `id`, if there is one.
pub open spec fn lookup(events: Seq<EventPartial>, id: i32) -> Option<EventPartial> {
    if has_event(events, id) {
        Some(events[event_index(events, id)])
    } else {
        None
    }
}

/// The record of the ticket with identifier `id`, if there is one: the
/// `id`-th record issued.
pub open spec fn ticket_lookup(tickets: Seq<TicketRecord>, id: i32) -> Option<TicketRecord> {
    if 1 <= id <= tickets.len() {
        Some(tickets[id - 1])
    } else {
        None
    }
}

/// The number of ticket records, in any state, issued for `event_id`.
pub open spec fn issued(tickets: Seq<TicketRecord>, event_id: i32) -> int
    decreases tickets.len(),
{
    if tickets.len() == 0 {
        0
    } else {
        issued(tickets.drop_last(), event_id) + if tickets.last().event_id == event_id {
            1int
        } else {
            0int
        }
    }
}

/// The number of tickets for `event_id` that take up a place: those that are
/// reserved, sold or checked in.
pub open spec fn placed(tickets: Seq<TicketRecord>, event_id: i32) -> int
    decreases tickets.len(),
{
    if tickets.len() == 0 {
        0
    } else {
        placed(tickets.drop_last(), event_id) + if tickets.last().event_id == event_id
            && tickets.last().status.spec_holds_place() {
            1int
        } else {
            0int
        }
    }
}

/// What holds of the ledger at all times.
pub open spec fn ledger_wf(events: Seq<EventPartial>, tickets: Seq<TicketRecord>) -> bool {
    &&& forall|i: int| 0 <= i < events.len() ==> (#[trigger] events[i]).wf()
    &&& forall|i: int, j: int|
        0 <= i < j < events.len() ==> (#[trigger] events[i]).id != (#[trigger] events[j]).id
    &&& tickets.len() <= i32::MAX
    &&& forall|k: int| 0 <= k < tickets.len() ==> (#[trigger] tickets[k]).id == k + 1
    &&& forall|k: int|
        0 <= k < tickets.len() ==> has_event(events, (#[trigger] tickets[k]).event_id)
    &&& forall|i: int|
        0 <= i < events.len() ==> issued(tickets, (#[trigger] events[i]).id)
            + events[i].remaining() <= events[i].capacity
}

/// Counting the first `k + 1` records adds record `k` to the count of the
/// first `k`.
pub proof fn lemma_count_step(tickets: Seq<TicketRecord>, k: int, event_id: i32)
    requires
        0 <= k < tickets.len(),
    ensures
        issued(tickets.subrange(0, k + 1), event_id) == issued(tickets.subrange(0, k), event_id)
            + if tickets[k].event_id == event_id {
            1int
        } else {
            0int
        },
        placed(tickets.subrange(0, k + 1), event_id) == placed(tickets.subrange(0, k), event_id)
            + if tickets[k].event_id == event_id && tickets[k].status.spec_holds_place() {
            1int
        } else {
            0int
        },
{
    assert(tickets.subrange(0, k + 1).drop_last() =~= tickets.subrange(0, k));
}

/// One more record adds one to the count of its event and nothing to the
/// others.
pub proof fn lemma_issued_push(tickets: Seq<TicketRecord>, t: TicketRecord, event_id: i32)
    ensures
        issued(tickets.push(t), event_id) == issued(tickets, event_id) + if t.event_id
            == event_id {
            1int
        } else {
            0int
        },
{
    assert(tickets.push(t).drop_last() =~= tickets);
}

/// A change to a record that keeps its event keeps every count.
pub proof fn lemma_issued_update(
    tickets: Seq<TicketRecord>,
    k: int,
    t: TicketRecord,
    event_id: i32,
)
    requires
        0 <= k < tickets.len(),
        t.event_id == tickets[k].event_id,
    ensures
        issued(tickets.update(k, t), event_id) == issued(tickets, event_id),
    decreases tickets.len(),
{
    let changed = tickets.update(k, t);
    if k == tickets.len() - 1 {
        assert(changed.drop_last() =~= tickets.drop_last());
    } else {
        assert(changed.drop_last() =~= tickets.drop_last().update(k, t));
        lemma_issued_update(tickets.drop_last(), k, t, event_id);
    }
}

/// An event that no record names has no tickets issued.
pub proof fn lemma_issued_none(tickets: Seq<TicketRecord>, event_id: i32)
    requires
        forall|k: int| 0 <= k < tickets.len() ==> (#[trigger] tickets[k]).event_id != event_id,
    ensures
        issued(tickets, event_id) == 0,
    decreases tickets.len(),
{
    if tickets.len() > 0 {
        lemma_issued_none(tickets.drop_last(), event_id);
    }
}

/// The tickets that take up a place are among those issued.
pub proof fn lemma_placed_among_issued(tickets: Seq<TicketRecord>, event_id: i32)
    ensures
        0 <= placed(tickets, event_id) <= issued(tickets, event_id),
    decreases tickets.len(),
{
    if tickets.len() > 0 {
        lemma_placed_among_issued(tickets.drop_last(), event_id);
    }
}

/// Where identifiers are not repeated, an identifier has one position.
pub proof fn lemma_event_index_unique(events: Seq<EventPartial>, id: i32, i: int)
    requires
        forall|a: int, b: int|
            0 <= a < b < events.len() ==> (#[trigger] events[a]).id != (#[trigger] events[b]).id,
        event_at(events, id, i),
    ensures
        has_event(events, id),
        event_index(events, id) == i,
{
    let j = event_index(events, id);
    assert(event_at(events, id, j));
    if j < i {
        assert(events[j].id != events[i].id);
    } else if i < j {
        assert(events[i].id != events[j].id);
    }
}

/// For all states that the ledger reaches, the units available for an event
/// lie between zero and its capacity.
pub proof fn lemma_available_within_capacity(ledger: Ledger, i: int)
    requires
        ledger.wf(),
        0 <= i < ledger.events().len(),
    ensures
        0 <= ledger.events()[i].remaining() <= ledger.events()[i].capacity,
{
}

/// For all states that the ledger reaches, the tickets of an event that are
/// reserved, sold or checked in number no more than its capacity, and no more
/// than the units that have left the available ones.
pub proof fn lemma_placed_within_capacity(ledger: Ledger, i: int)
    requires
        ledger.wf(),
        0 <= i < ledger.events().len(),
    ensures
        placed(ledger.tickets(), ledger.events()[i].id) <= ledger.events()[i].capacity
            - ledger.events()[i].remaining(),
        placed(ledger.tickets(), ledger.events()[i].id) <= ledger.events()[i].capacity,
{
    lemma_placed_among_issued(ledger.tickets(), ledger.events()[i].id);
}

/// Reading has no effect and is repeatable: what [`Ledger::get_event`] and
/// [`Ledger::get_ticket`] return is fixed by the ledger's contents, so two
/// ledgers with the same contents, or one ledger read twice with no write in
/// between, give the same answers.
pub proof fn lemma_reads_repeat(a: Ledger, b: Ledger, event_id: i32, ticket_id: i32)
    requires
        a.events() == b.events(),
        a.tickets() == b.tickets(),
    ensures
        lookup(a.events(), event_id) == lookup(b.events(), event_id),
        ticket_lookup(a.tickets(), ticket_id) == ticket_lookup(b.tickets(), ticket_id),
{
}

/// The store of the ledger: the event records and the ticket records.
#[derive(Debug)]
pub struct Ledger {
    events: Vec<EventPartial>,
    tickets: Vec<TicketRecord>,
}

impl Ledger {
    /// The event records, in the order in which they were added.
    pub closed spec fn events(&self) -> Seq<EventPartial> {
        self.events@
    }

    /// The ticket records, in the order in which they were issued.
    pub closed spec fn tickets(&self) -> Seq<TicketRecord> {
        self.tickets@
    }

    /// What holds of the ledger at all times: every event obeys
    /// `0 <= available <= capacity`, identifiers are not repeated, the `k`-th
    /// ticket issued has identifier `k`, every ticket names a known event, and
    /// for every event the tickets issued and the units available together
    /// stay within the capacity.
    pub open spec fn wf(&self) -> bool {
        ledger_wf(self.events(), self.tickets())
    }

    /// A ledger without events and tickets.
    pub fn new() -> (ledger: Ledger)
        ensures
            ledger.wf(),
            ledger.events() == Seq::<EventPartial>::empty(),
            ledger.tickets() == Seq::<TicketRecord>::empty(),
    {
        Ledger { events: Vec::new(), tickets: Vec::new() }
    }

    /// The position of the event with identifier `event_id`.
    fn find(&self, event_id: i32) -> (r: Option<usize>)
        ensures
            r matches Some(i) ==> event_at(self.events(), event_id, i as int),
            r is None ==> !has_event(self.events(), event_id),
    {
        let mut i: usize = 0;
        while i < self.events.len()
            invariant
                i <= self.events.len(),
                forall|j: int| 0 <= j < i ==> !event_at(self.events@, event_id, j),
            decreases self.events.len() - i,
        {
            if self.events[i].id == event_id {
                return Some(i);
            }
            i += 1;
        }
        None
    }

    /// Adds an event record. The record is taken if it obeys
    /// `0 <= available <= capacity` and its identifier is new; otherwise the
    /// ledger stays as it is.
    pub fn add_event(&mut self, event: EventPartial) -> (added: bool)
        requires
            old(self).wf(),
        ensures
            final(self).wf(),
            added == (event.wf() && !has_event(old(self).events(), event.id)),
            added ==> final(self).events() == old(self).events().push(event),
            !added ==> final(self).events() == old(self).events(),
            final(self).tickets() == old(self).tickets(),
    {
        if !event.is_well_formed() {
            return false;
        }
        if self.find(event.id).is_some() {
            return false;
        }
        proof {
            let events = self.events@;
            let tickets = self.tickets@;
            let grown = events.push(event);
            assert forall|k: int| 0 <= k < tickets.len() implies (#[trigger] tickets[k]).event_id
                != event.id by {
                assert(has_event(events, tickets[k].event_id));
            }
            lemma_issued_none(tickets, event.id);
            assert forall|k: int| 0 <= k < tickets.len() implies has_event(
                grown,
                (#[trigger] tickets[k]).event_id,
            ) by {
                let i = event_index(events, tickets[k].event_id);
                assert(event_at(events, tickets[k].event_id, i));
                assert(event_at(grown, tickets[k].event_id, i));
            }
            assert forall|i: int, j: int| 0 <= i < j < grown.len() implies (#[trigger] grown[i]).id
                != (#[trigger] grown[j]).id by {
                if j == events.len() {
                    assert(!event_at(events, event.id, i));
                }
            }
            assert(ledger_wf(grown, tickets));
        }
        self.events.push(event);
        true
    }

    /// The number of event records.
    pub fn event_count(&self) -> (n: usize)
        ensures
            n == self.events().len(),
    {
        self.events.len()
    }

    /// The number of ticket records.
    pub fn ticket_count(&self) -> (n: usize)
        ensures
            n == self.tickets().len(),
    {
        self.tickets.len()
    }

    /// The number of tickets issued for `event_id`, in any state.
    pub fn issued_count(&self, event_id: i32) -> (n: usize)
        ensures
            n == issued(self.tickets(), event_id),
    {
        let mut n: usize = 0;
        let mut k: usize = 0;
        while k < self.tickets.len()
            invariant
                k <= self.tickets.len(),
                n <= k,
                n == issued(self.tickets@.subrange(0, k as int), event_id),
            decreases self.tickets.len() - k,
        {
            proof {
                lemma_count_step(self.tickets@, k as int, event_id);
            }
            if self.tickets[k].event_id == event_id {
                n += 1;
            }
            k += 1;
        }
        assert(self.tickets@.subrange(0, k as int) =~= self.tickets@);
        n
    }

    /// The number of tickets for `event_id` that take up a place: those that
    /// are reserved, sold or checked in.
    pub fn placed_count(&self, event_id: i32) -> (n: usize)
        ensures
            n == placed(self.tickets(), event_id),
    {
        let mut n: usize = 0;
        let mut k: usize = 0;
        while k < self.tickets.len()
            invariant
                k <= self.tickets.len(),
                n <= k,
                n == placed(self.tickets@.subrange(0, k as int), event_id),
            decreases self.tickets.len() - k,
        {
            proof {
                lemma_count_step(self.tickets@, k as int, event_id);
            }
            if self.tickets[k].event_id == event_id && self.tickets[k].status.holds_place() {
                n += 1;
            }
            k += 1;
        }
        assert(self.tickets@.subrange(0, k as int) =~= self.tickets@);
        n
    }

    /// The record of the event with identifier `event_id`. Reading changes
    /// nothing, and the answer depends on the ledger's contents alone.
    pub fn get_event(&self, event_id: i32) -> (r: Option<EventPartial>)
        requires
            self.wf(),
        ensures
            r == lookup(self.events(), event_id),
    {
        match self.find(event_id) {
            Some(i) => {
                proof {
                    lemma_event_index_unique(self.events@, event_id, i as int);
                }
                Some(self.events[i].clone())
            },
            None => None,
        }
    }

    /// The record of the ticket with identifier `ticket_id`. Reading changes
    /// nothing, and the answer depends on the ledger's contents alone.
    pub fn get_ticket(&self, ticket_id: i32) -> (r: Option<TicketRecord>)
        requires
            self.wf(),
        ensures
            r == ticket_lookup(self.tickets(), ticket_id),
            r matches Some(t) ==> t.id == ticket_id,
    {
        if ticket_id >= 1 && (ticket_id as usize) <= self.tickets.len() {
            Some(self.tickets[(ticket_id - 1) as usize])
        } else {
            None
        }
    }

    /// The atomic check-and-decrement for the event `event_id`: see
    /// [`EventPartial::reserve`]. No ticket record is touched.
    pub fn reserve_capacity(&mut self, event_id: i32, quantity: i64) -> (r: Result<
        Reservation,
        LedgerError,
    >)
        requires
            old(self).wf(),
            quantity > 0,
        ensures
            final(self).wf(),
            final(self).tickets() == old(self).tickets(),
            final(self).events().len() == old(self).events().len(),
            !has_event(old(self).events(), event_id) ==> r == Err::<Reservation, LedgerError>(
                LedgerError::EventNotFound,
            ) && final(self).events() == old(self).events(),
            has_event(old(self).events(), event_id) ==> ({
                let i = event_index(old(self).events(), event_id);
                let before = old(self).events()[i];
                match grant(before.remaining(), quantity as int) {
                    Some(rest) => r == Ok::<Reservation, LedgerError>(
                        Reservation { event_id, quantity },
                    ) && final(self).events() == old(self).events().update(
                        i,
                        EventPartial { available: Some(rest as i64), ..before },
                    ),
                    None => r == Err::<Reservation, LedgerError>(
                        LedgerError::InsufficientSupply {
                            available: before.remaining() as i64,
                            requested: quantity,
                        },
                    ) && final(self).events() == old(self).events(),
                }
            }),
    {
        let i = match self.find(event_id) {
            Some(i) => i,
            None => {
                return Err(LedgerError::EventNotFound);
            },
        };
        proof {
            lemma_event_index_unique(self.events@, event_id, i as int);
        }
        let mut record = self.events[i].clone();
        let r = record.reserve(quantity);
        if r.is_ok() {
            proof {
                lemma_wf_after_change(self.events@, self.tickets@, i as int, record);
            }
            self.events.set(i, record);
        }
        r
    }

    /// Gives the units of `grant` back to its event, for a grant whose
    /// tickets could not be issued.
    pub fn release_capacity(&mut self, grant: Reservation)
        requires
            old(self).wf(),
            grant.quantity > 0,
            has_event(old(self).events(), grant.event_id),
            ({
                let before = old(self).events()[event_index(old(self).events(), grant.event_id)];
                issued(old(self).tickets(), grant.event_id) + before.remaining() + grant.quantity
                    <= before.capacity
            }),
        ensures
            final(self).wf(),
            final(self).tickets() == old(self).tickets(),
            ({
                let i = event_index(old(self).events(), grant.event_id);
                let before = old(self).events()[i];
                final(self).events() == old(self).events().update(
                    i,
                    EventPartial {
                        available: Some((before.remaining() + grant.quantity) as i64),
                        ..before
                    },
                )
            }),
    {
        match self.find(grant.event_id) {
            Some(i) => {
                proof {
                    lemma_event_index_unique(self.events@, grant.event_id, i as int);
                    lemma_issued_nonnegative(self.tickets@, grant.event_id);
                }
                let mut record = self.events[i].clone();
                record.release(grant);
                proof {
                    lemma_wf_after_change(self.events@, self.tickets@, i as int, record);
                }
                self.events.set(i, record);
            },
            None => {},
        }
    }

    /// Issues the tickets of `grant` to `user_id`: `grant.quantity` records in
    /// state `Sold`, numbered onwards from the last ticket issued. If the
    /// numbers run out, nothing is issued and `StoreUnavailable` comes back.
    pub fn create_tickets(&mut self, grant: Reservation, user_id: i32) -> (r: Result<
        Vec<i32>,
        LedgerError,
    >)
        requires
            old(self).wf(),
            grant.quantity > 0,
            has_event(old(self).events(), grant.event_id),
            ({
                let before = old(self).events()[event_index(old(self).events(), grant.event_id)];
                issued(old(self).tickets(), grant.event_id) + before.remaining() + grant.quantity
                    <= before.capacity
            }),
        ensures
            final(self).wf(),
            final(self).events() == old(self).events(),
            r is Ok <==> old(self).tickets().len() + grant.quantity <= i32::MAX,
            r is Err ==> r == Err::<Vec<i32>, LedgerError>(LedgerError::StoreUnavailable)
                && final(self).tickets() == old(self).tickets(),
            r matches Ok(ids) ==> ids@ == new_ticket_ids(
                old(self).tickets().len() as int,
                grant.quantity as int,
            ) && final(self).tickets() == old(self).tickets() + new_tickets(
                old(self).tickets().len() as int,
                grant,
                user_id,
            ),
    {
        let first: usize = self.tickets.len();
        if grant.quantity > (i32::MAX as i64) - (first as i64) {
            return Err(LedgerError::StoreUnavailable);
        }
        let count: usize = grant.quantity as usize;
        let ghost events = self.events@;
        let ghost start = self.tickets@;
        let ghost at = event_index(events, grant.event_id);
        let mut ids: Vec<i32> = Vec::new();
        let mut j: usize = 0;
        proof {
            assert(event_at(events, grant.event_id, at));
            assert(self.tickets@ =~= start + new_tickets(first as int, grant, user_id).subrange(
                0,
                0,
            ));
            assert(ids@ =~= new_ticket_ids(first as int, grant.quantity as int).subrange(0, 0));
        }
        while j < count
            invariant
                j <= count,
                count == grant.quantity,
                first == start.len(),
                first + count <= i32::MAX,
                self.events@ == events,
                ledger_wf(events, start),
                event_at(events, grant.event_id, at),
                issued(start, grant.event_id) + events[at].remaining() + grant.quantity
                    <= events[at].capacity,
                self.tickets@ == start + new_tickets(first as int, grant, user_id).subrange(
                    0,
                    j as int,
                ),
                ids@ == new_ticket_ids(first as int, grant.quantity as int).subrange(0, j as int),
                ledger_wf(events, self.tickets@),
                issued(self.tickets@, grant.event_id) == issued(start, grant.event_id) + j,
            decreases count - j,
        {
            let id: i32 = (first + j + 1) as i32;
            let record = TicketRecord {
                id,
                event_id: grant.event_id,
                user_id: Some(user_id),
                status: TicketStatus::Sold,
            };
            proof {
                lemma_wf_after_issue(events, self.tickets@, record, at);
                lemma_issued_push(self.tickets@, record, grant.event_id);
                let all = new_tickets(first as int, grant, user_id);
                assert(all[j as int] == record);
                assert(all.subrange(0, j + 1) =~= all.subrange(0, j as int).push(record));
                assert(self.tickets@.push(record) =~= start + all.subrange(0, j + 1));
                let all_ids = new_ticket_ids(first as int, grant.quantity as int);
                assert(all_ids.subrange(0, j + 1) =~= all_ids.subrange(0, j as int).push(id));
            }
            self.tickets.push(record);
            ids.push(id);
            j += 1;
        }
        proof {
            let all = new_tickets(first as int, grant, user_id);
            assert(all.subrange(0, count as int) =~= all);
            let all_ids = new_ticket_ids(first as int, grant.quantity as int);
            assert(all_ids.subrange(0, count as int) =~= all_ids);
        }
        Ok(ids)
    }

    /// Puts the ticket `ticket_id` through the state machine: see
    /// [`step`]. On success the changed record comes back; on refusal nothing
    /// changes.
    pub fn transition_ticket(&mut self, ticket_id: i32, op: TicketOp, user: Option<i32>) -> (r:
        Result<TicketRecord, TicketError>)
        requires
            old(self).wf(),
        ensures
            final(self).wf(),
            final(self).events() == old(self).events(),
            !(1 <= ticket_id <= old(self).tickets().len()) ==> r == Err::<
                TicketRecord,
                TicketError,
            >(TicketError::NotFound) && final(self).tickets() == old(self).tickets(),
            1 <= ticket_id <= old(self).tickets().len() ==> ({
                let before = old(self).tickets()[ticket_id - 1];
                match step(before.status, before.user_id, op, user) {
                    Ok((status, user_id)) => r == Ok::<TicketRecord, TicketError>(
                        TicketRecord { status, user_id, ..before },
                    ) && final(self).tickets() == old(self).tickets().update(
                        ticket_id - 1,
                        TicketRecord { status, user_id, ..before },
                    ),
                    Err(e) => r == Err::<TicketRecord, TicketError>(e) && final(self).tickets()
                        == old(self).tickets(),
                }
            }),
    {
        if ticket_id < 1 || (ticket_id as usize) > self.tickets.len() {
            return Err(TicketError::NotFound);
        }
        let k: usize = (ticket_id - 1) as usize;
        match self.tickets[k].apply(op, user) {
            Ok(after) => {
                proof {
                    lemma_wf_after_transition(self.events@, self.tickets@, k as int, after);
                }
                self.tickets.set(k, after);
                Ok(after)
            },
            Err(e) => Err(e),
        }
    }

    /// Takes the event `event_id` one step through its life cycle: see
    /// [`lifecycle`]. Once an event has left `Published`, purchases for it are
    /// refused; tickets already sold stay as they are.
    pub fn advance_event(&mut self, event_id: i32, op: EventOp) -> (r: Result<
        EventStatus,
        EventError,
    >)
        requires
            old(self).wf(),
        ensures
            final(self).wf(),
            final(self).tickets() == old(self).tickets(),
            !has_event(old(self).events(), event_id) ==> r == Err::<EventStatus, EventError>(
                EventError::NotFound,
            ) && final(self).events() == old(self).events(),
            has_event(old(self).events(), event_id) ==> ({
                let i = event_index(old(self).events(), event_id);
                let before = old(self).events()[i];
                match lifecycle(before.status, op) {
                    Some(status) => r == Ok::<EventStatus, EventError>(status)
                        && final(self).events() == old(self).events().update(
                        i,
                        EventPartial { status, ..before },
                    ),
                    None => r == Err::<EventStatus, EventError>(
                        EventError::InvalidTransition { from: before.status, attempted: op },
                    ) && final(self).events() == old(self).events(),
                }
            }),
    {
        let i = match self.find(event_id) {
            Some(i) => i,
            None => {
                return Err(EventError::NotFound);
            },
        };
        proof {
            lemma_event_index_unique(self.events@, event_id, i as int);
        }
        let mut record = self.events[i].clone();
        let r = record.advance(op);
        if r.is_ok() {
            proof {
                lemma_wf_after_change(self.events@, self.tickets@, i as int, record);
            }
            self.events.set(i, record);
        }
        r
    }
}

/// The identifiers of `quantity` tickets issued after `first` earlier ones.
pub open spec fn new_ticket_ids(first: int, quantity: int) -> Seq<i32> {
    Seq::new(quantity as nat, |j: int| (first + j + 1) as i32)
}

/// The records of the tickets of `grant`, issued to `user_id` after `first`
/// earlier ones: all sold, all for the event of the grant.
pub open spec fn new_tickets(first: int, grant: Reservation, user_id: i32) -> Seq<TicketRecord> {
    Seq::new(
        grant.quantity as nat,
        |j: int|
            TicketRecord {
                id: (first + j + 1) as i32,
                event_id: grant.event_id,
                user_id: Some(user_id),
                status: TicketStatus::Sold,
            },
    )
}

/// The count over two runs of records is the sum of the counts.
pub proof fn lemma_issued_concat(a: Seq<TicketRecord>, b: Seq<TicketRecord>, event_id: i32)
    ensures
        issued(a + b, event_id) == issued(a, event_id) + issued(b, event_id),
    decreases b.len(),
{
    if b.len() == 0 {
        assert(a + b =~= a);
    } else {
        assert((a + b).drop_last() =~= a + b.drop_last());
        lemma_issued_concat(a, b.drop_last(), event_id);
    }
}

/// The tickets of a grant all count for the event of the grant, and for no
/// other.
pub proof fn lemma_issued_new_tickets(first: int, grant: Reservation, user_id: i32, event_id: i32)
    requires
        grant.quantity >= 0,
    ensures
        issued(new_tickets(first, grant, user_id), event_id) == if grant.event_id == event_id {
            grant.quantity as int
        } else {
            0
        },
        placed(new_tickets(first, grant, user_id), event_id) == issued(
            new_tickets(first, grant, user_id),
            event_id,
        ),
    decreases grant.quantity,
{
    if grant.quantity > 0 {
        let fewer = Reservation { quantity: (grant.quantity - 1) as i64, ..grant };
        assert(new_tickets(first, grant, user_id).drop_last() =~= new_tickets(
            first,
            fewer,
            user_id,
        ));
        lemma_issued_new_tickets(first, fewer, user_id, event_id);
    }
}

/// No count is negative.
pub proof fn lemma_issued_nonnegative(tickets: Seq<TicketRecord>, event_id: i32)
    ensures
        0 <= issued(tickets, event_id),
    decreases tickets.len(),
{
    if tickets.len() > 0 {
        lemma_issued_nonnegative(tickets.drop_last(), event_id);
    }
}

/// The ledger stays valid when one event record is replaced by one with the
/// same identifier that obeys the rule and leaves room for the tickets issued.
proof fn lemma_wf_after_change(
    events: Seq<EventPartial>,
    tickets: Seq<TicketRecord>,
    i: int,
    record: EventPartial,
)
    requires
        ledger_wf(events, tickets),
        0 <= i < events.len(),
        record.id == events[i].id,
        record.wf(),
        issued(tickets, record.id) + record.remaining() <= record.capacity,
    ensures
        ledger_wf(events.update(i, record), tickets),
{
    let changed = events.update(i, record);
    assert forall|k: int| 0 <= k < tickets.len() implies has_event(
        changed,
        (#[trigger] tickets[k]).event_id,
    ) by {
        let at = event_index(events, tickets[k].event_id);
        assert(event_at(events, tickets[k].event_id, at));
        assert(event_at(changed, tickets[k].event_id, at));
    }
    assert forall|a: int, b: int| 0 <= a < b < changed.len() implies (#[trigger] changed[a]).id
        != (#[trigger] changed[b]).id by {
        assert(events[a].id != events[b].id);
    }
    assert forall|a: int| 0 <= a < changed.len() implies issued(
        tickets,
        (#[trigger] changed[a]).id,
    ) + changed[a].remaining() <= changed[a].capacity by {
        if a != i {
            assert(issued(tickets, events[a].id) + events[a].remaining() <= events[a].capacity);
        }
    }
    assert forall|a: int| 0 <= a < changed.len() implies (#[trigger] changed[a]).wf() by {
        if a != i {
            assert(events[a].wf());
        }
    }
}

/// The ledger stays valid when the next ticket is issued for an event that
/// has room for it.
proof fn lemma_wf_after_issue(
    events: Seq<EventPartial>,
    tickets: Seq<TicketRecord>,
    record: TicketRecord,
    at: int,
)
    requires
        ledger_wf(events, tickets),
        event_at(events, record.event_id, at),
        record.id == tickets.len() + 1,
        tickets.len() + 1 <= i32::MAX,
        issued(tickets, record.event_id) + 1 + events[at].remaining() <= events[at].capacity,
    ensures
        ledger_wf(events, tickets.push(record)),
{
    let grown = tickets.push(record);
    assert forall|k: int| 0 <= k < grown.len() implies has_event(
        events,
        (#[trigger] grown[k]).event_id,
    ) by {
        if k < tickets.len() {
            assert(has_event(events, tickets[k].event_id));
        }
    }
    assert forall|a: int| 0 <= a < events.len() implies issued(grown, (#[trigger] events[a]).id)
        + events[a].remaining() <= events[a].capacity by {
        lemma_issued_push(tickets, record, events[a].id);
        assert(issued(tickets, events[a].id) + events[a].remaining() <= events[a].capacity);
        if events[a].id == record.event_id && a != at {
            if a < at {
                assert(events[a].id != events[at].id);
            } else {
                assert(events[at].id != events[a].id);
            }
        }
    }
    assert forall|k: int| 0 <= k < grown.len() implies (#[trigger] grown[k]).id == k + 1 by {
        if k < tickets.len() {
            assert(tickets[k].id == k + 1);
        }
    }
}

/// The ledger stays valid when a ticket changes its state or its holder.
proof fn lemma_wf_after_transition(
    events: Seq<EventPartial>,
    tickets: Seq<TicketRecord>,
    k: int,
    after: TicketRecord,
)
    requires
        ledger_wf(events, tickets),
        0 <= k < tickets.len(),
        after.id == tickets[k].id,
        after.event_id == tickets[k].event_id,
    ensures
        ledger_wf(events, tickets.update(k, after)),
{
    let changed = tickets.update(k, after);
    assert forall|a: int| 0 <= a < changed.len() implies has_event(
        events,
        (#[trigger] changed[a]).event_id,
    ) by {
        assert(has_event(events, tickets[a].event_id));
    }
    assert forall|a: int| 0 <= a < events.len() implies issued(changed, (#[trigger] events[a]).id)
        + events[a].remaining() <= events[a].capacity by {
        lemma_issued_update(tickets, k, after, events[a].id);
        assert(issued(tickets, events[a].id) + events[a].remaining() <= events[a].capacity);
    }
    assert forall|a: int| 0 <= a < changed.len() implies (#[trigger] changed[a]).id == a + 1 by {
        assert(tickets[a].id == a + 1);
    }
}

} // verus!
