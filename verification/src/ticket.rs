//! Tickets and the state machine that every ticket follows.
//!
//! | From | Operation | To | Guard |
//! |---|---|---|---|
//! | Available | reserve(user) | Reserved | ticket is unassigned |
//! | Reserved | sell(user) | Sold | user holds the reservation |
//! | Available | sell(user) | Sold | |
//! | Sold | check in | CheckedIn | |
//! | Available, Reserved, Sold | cancel | Cancelled | |
//!
//! Every other attempt fails with [`TicketError::InvalidTransition`] and
//! leaves the ticket as it was.

use crate::clock::Timestamp;
use crate::ident::{fresh_id, hyphenated, id_text, is_random_id};
use crate::sequences::{lemma_filter_prefix_empty, lemma_filter_prefix_step, lemma_prefix_full};
use crate::text::{blank, clone_optional, decimal, decimal_string, is_blank};
use vstd::prelude::*;

verus! {

/// Where a ticket stands in its life.
#[derive(Debug, Clone, Copy, PartialEq, Eq, Structural)]
pub enum TicketStatus {
    Available,
    Reserved,
    Sold,
    Cancelled,
    CheckedIn,
}

/// An operation of the state machine.
#[derive(Debug, Clone, Copy, PartialEq, Eq, Structural)]
pub enum TicketOp {
    Reserve,
    Sell,
    CheckIn,
    Cancel,
}

/// Why an operation on a ticket was refused.
#[derive(Debug, Clone, Copy, PartialEq, Eq, Structural)]
pub enum TicketError {
    /// The operation is not open to a ticket in state `from`.
    InvalidTransition { from: TicketStatus, attempted: TicketOp },
    /// No ticket has the identifier.
    NotFound,
}

/// The transition table on states alone: the state that `op` leads to from
/// `from`, or `None` where the table has no such row.
pub open spec fn transition(from: TicketStatus, op: TicketOp) -> Option<TicketStatus> {
    match (from, op) {
        (TicketStatus::Available, TicketOp::Reserve) => Some(TicketStatus::Reserved),
        (TicketStatus::Available, TicketOp::Sell) => Some(TicketStatus::Sold),
        (TicketStatus::Reserved, TicketOp::Sell) => Some(TicketStatus::Sold),
        (TicketStatus::Sold, TicketOp::CheckIn) => Some(TicketStatus::CheckedIn),
        (TicketStatus::Available, TicketOp::Cancel) => Some(TicketStatus::Cancelled),
        (TicketStatus::Reserved, TicketOp::Cancel) => Some(TicketStatus::Cancelled),
        (TicketStatus::Sold, TicketOp::Cancel) => Some(TicketStatus::Cancelled),
        _ => None,
    }
}

/// The guards of the table, for a ticket held by `holder` and an operation
/// made for `user`: reserving and selling name a user, a reservation needs an
/// unassigned ticket, and a reserved ticket is sold only to the user who
/// holds the reservation.
pub open spec fn guard<U>(
    from: TicketStatus,
    holder: Option<U>,
    op: TicketOp,
    user: Option<U>,
) -> bool {
    match op {
        TicketOp::Reserve => holder is None && user is Some,
        TicketOp::Sell => user is Some && (from == TicketStatus::Reserved ==> holder == user),
        _ => true,
    }
}

/// Who holds the ticket once `op` has been applied for `user`.
pub open spec fn holder_after<U>(holder: Option<U>, op: TicketOp, user: Option<U>) -> Option<U> {
    match op {
        TicketOp::Reserve => user,
        TicketOp::Sell => user,
        _ => holder,
    }
}

/// The state machine on (state, holder) pairs: the pair after `op`, or the
/// error that refuses it.
pub open spec fn step<U>(
    from: TicketStatus,
    holder: Option<U>,
    op: TicketOp,
    user: Option<U>,
) -> Result<(TicketStatus, Option<U>), TicketError> {
    match transition(from, op) {
        Some(to) if guard(from, holder, op, user) => Ok((to, holder_after(holder, op, user))),
        _ => Err(TicketError::InvalidTransition { from, attempted: op }),
    }
}

/// Executable form of [`transition`].
pub fn next_status(from: TicketStatus, op: TicketOp) -> (r: Option<TicketStatus>)
    ensures
        r == transition(from, op),
{
    match (from, op) {
        (TicketStatus::Available, TicketOp::Reserve) => Some(TicketStatus::Reserved),
        (TicketStatus::Available, TicketOp::Sell) => Some(TicketStatus::Sold),
        (TicketStatus::Reserved, TicketOp::Sell) => Some(TicketStatus::Sold),
        (TicketStatus::Sold, TicketOp::CheckIn) => Some(TicketStatus::CheckedIn),
        (TicketStatus::Available, TicketOp::Cancel) => Some(TicketStatus::Cancelled),
        (TicketStatus::Reserved, TicketOp::Cancel) => Some(TicketStatus::Cancelled),
        (TicketStatus::Sold, TicketOp::Cancel) => Some(TicketStatus::Cancelled),
        _ => None,
    }
}

/// Executable form of [`step`], for any kind of user identifier. The caller
/// compares the holder with the user and hands in whether they are the same.
pub fn next_state<U: Copy>(
    from: TicketStatus,
    holder: Option<U>,
    op: TicketOp,
    user: Option<U>,
    same: bool,
) -> (r: Result<(TicketStatus, Option<U>), TicketError>)
    requires
        same == (holder == user),
    ensures
        r == step(from, holder, op, user),
{
    let refused = Err(TicketError::InvalidTransition { from, attempted: op });
    let guarded = match op {
        TicketOp::Reserve => holder.is_none() && user.is_some(),
        TicketOp::Sell => user.is_some() && (from != TicketStatus::Reserved || same),
        _ => true,
    };
    if !guarded {
        return refused;
    }
    match next_status(from, op) {
        Some(to) => match op {
            TicketOp::Reserve | TicketOp::Sell => Ok((to, user)),
            _ => Ok((to, holder)),
        },
        None => refused,
    }
}

/// Every pair of a state and an operation that the table does not list is
/// refused with `InvalidTransition`, naming that state and that operation,
/// whoever holds the ticket and whoever asks; `Cancelled` and `CheckedIn` are
/// final; and the table has exactly the rows of the module's description.
pub proof fn lemma_unlisted_transitions_fail<U>(
    from: TicketStatus,
    holder: Option<U>,
    op: TicketOp,
    user: Option<U>,
)
    ensures
        transition(from, op) is None ==> step(from, holder, op, user) == Err::<
            (TicketStatus, Option<U>),
            TicketError,
        >(TicketError::InvalidTransition { from, attempted: op }),
        from == TicketStatus::Cancelled || from == TicketStatus::CheckedIn ==> transition(from, op)
            is None,
        transition(from, op) is Some <==> {
            ||| (from == TicketStatus::Available && op == TicketOp::Reserve)
            ||| (from == TicketStatus::Available && op == TicketOp::Sell)
            ||| (from == TicketStatus::Reserved && op == TicketOp::Sell)
            ||| (from == TicketStatus::Sold && op == TicketOp::CheckIn)
            ||| (from != TicketStatus::Cancelled && from != TicketStatus::CheckedIn && op
                == TicketOp::Cancel)
        },
{
}

/// Every state of a ticket is found again under its own name.
pub proof fn lemma_ticket_status_round_trip(status: TicketStatus)
    ensures
        TicketStatus::spec_parse(status.spec_name()) == Some(status),
{
    reveal_strlit("Available");
    reveal_strlit("Reserved");
    reveal_strlit("Sold");
    reveal_strlit("Cancelled");
    reveal_strlit("CheckedIn");
    assert("Available"@[0] == 'A');
    assert("Reserved"@[0] == 'R');
    assert("Sold"@.len() == 4);
    assert("Cancelled"@[1] == 'a');
    assert("CheckedIn"@[1] == 'h');
}

impl TicketStatus {
    /// The name of the state, as `Debug` prints it.
    pub open spec fn spec_name(self) -> Seq<char> {
        match self {
            TicketStatus::Available => "Available"@,
            TicketStatus::Reserved => "Reserved"@,
            TicketStatus::Sold => "Sold"@,
            TicketStatus::Cancelled => "Cancelled"@,
            TicketStatus::CheckedIn => "CheckedIn"@,
        }
    }

    /// The name of the state.
    pub fn name(&self) -> (s: &'static str)
        ensures
            s@ == self.spec_name(),
    {
        match self {
            TicketStatus::Available => "Available",
            TicketStatus::Reserved => "Reserved",
            TicketStatus::Sold => "Sold",
            TicketStatus::Cancelled => "Cancelled",
            TicketStatus::CheckedIn => "CheckedIn",
        }
    }

    /// The state with the given name, if there is one.
    pub open spec fn spec_parse(name: Seq<char>) -> Option<TicketStatus> {
        if name == "Available"@ {
            Some(TicketStatus::Available)
        } else if name == "Reserved"@ {
            Some(TicketStatus::Reserved)
        } else if name == "Sold"@ {
            Some(TicketStatus::Sold)
        } else if name == "Cancelled"@ {
            Some(TicketStatus::Cancelled)
        } else if name == "CheckedIn"@ {
            Some(TicketStatus::CheckedIn)
        } else {
            None
        }
    }

    /// The state with the given name, if there is one.
    pub fn parse(name: &str) -> (r: Option<TicketStatus>)
        ensures
            r == Self::spec_parse(name@),
    {
        let name = name.to_string();
        if name == "Available".to_string() {
            Some(TicketStatus::Available)
        } else if name == "Reserved".to_string() {
            Some(TicketStatus::Reserved)
        } else if name == "Sold".to_string() {
            Some(TicketStatus::Sold)
        } else if name == "Cancelled".to_string() {
            Some(TicketStatus::Cancelled)
        } else if name == "CheckedIn".to_string() {
            Some(TicketStatus::CheckedIn)
        } else {
            None
        }
    }

    /// Whether a ticket in this state takes up a place at the event.
    pub open spec fn spec_holds_place(&self) -> bool {
        *self == TicketStatus::Reserved || *self == TicketStatus::Sold || *self
            == TicketStatus::CheckedIn
    }

    /// Whether a ticket in this state takes up a place at the event.
    #[verifier::when_used_as_spec(spec_holds_place)]
    pub fn holds_place(&self) -> (b: bool)
        ensures
            b == self.spec_holds_place(),
    {
        match self {
            TicketStatus::Reserved | TicketStatus::Sold | TicketStatus::CheckedIn => true,
            _ => false,
        }
    }
}

impl TicketError {
    /// The text of the error.
    pub open spec fn spec_message(self) -> Seq<char> {
        match self {
            TicketError::InvalidTransition { attempted: TicketOp::Reserve, .. } =>
                "Ticket is not available for reservation."@,
            TicketError::InvalidTransition { attempted: TicketOp::Sell, .. } =>
                "Ticket is not available for sale."@,
            TicketError::InvalidTransition { attempted: TicketOp::CheckIn, .. } =>
                "Only sold tickets can be checked in."@,
            TicketError::InvalidTransition { attempted: TicketOp::Cancel, .. } =>
                "Ticket can no longer be cancelled."@,
            TicketError::NotFound => "Ticket not found."@,
        }
    }

    /// The text of the error, for people to read.
    pub fn message(&self) -> (s: String)
        ensures
            s@ == self.spec_message(),
    {
        match self {
            TicketError::InvalidTransition { attempted: TicketOp::Reserve, .. } =>
                "Ticket is not available for reservation.".to_string(),
            TicketError::InvalidTransition { attempted: TicketOp::Sell, .. } =>
                "Ticket is not available for sale.".to_string(),
            TicketError::InvalidTransition { attempted: TicketOp::CheckIn, .. } =>
                "Only sold tickets can be checked in.".to_string(),
            TicketError::InvalidTransition { attempted: TicketOp::Cancel, .. } =>
                "Ticket can no longer be cancelled.".to_string(),
            TicketError::NotFound => "Ticket not found.".to_string(),
        }
    }
}

/// One unit of an event's inventory.
#[derive(Debug)]
pub struct Ticket {
    id: u128,
    event_id: u128,
    user_id: Option<u128>,
    price_cents: u32,
    currency: String,
    status: TicketStatus,
    seat_number: Option<String>,
    tier: Option<String>,
    issued_at: Timestamp,
    updated_at: Timestamp,
    metadata: Option<String>,
}

/// What a [`Ticket`] holds, as mathematical values.
pub struct TicketView {
    pub id: u128,
    pub event_id: u128,
    pub user_id: Option<u128>,
    pub price_cents: u32,
    pub currency: Seq<char>,
    pub status: TicketStatus,
    pub seat_number: Option<Seq<char>>,
    pub tier: Option<Seq<char>>,
    pub issued_at: Timestamp,
    pub updated_at: Timestamp,
    pub metadata: Option<Seq<char>>,
}

impl View for Ticket {
    type V = TicketView;

    closed spec fn view(&self) -> TicketView {
        TicketView {
            id: self.id,
            event_id: self.event_id,
            user_id: self.user_id,
            price_cents: self.price_cents,
            currency: self.currency@,
            status: self.status,
            seat_number: self.seat_number.deep_view(),
            tier: self.tier.deep_view(),
            issued_at: self.issued_at,
            updated_at: self.updated_at,
            metadata: self.metadata.deep_view(),
        }
    }
}

impl TicketView {
    /// The ticket after a successful `op` made for `user` at time `now`, or
    /// the error that refuses `op`.
    pub open spec fn after(self, op: TicketOp, user: Option<u128>, now: Timestamp) -> Result<
        TicketView,
        TicketError,
    > {
        match step(self.status, self.user_id, op, user) {
            Ok((status, user_id)) => Ok(
                TicketView { status, user_id, updated_at: now, ..self },
            ),
            Err(e) => Err(e),
        }
    }

    /// The one-line description of the ticket.
    pub open spec fn summary(self) -> Seq<char> {
        "Ticket ID: "@ + hyphenated(self.id) + ", Event: "@ + hyphenated(self.event_id)
            + ", Status: "@ + self.status.spec_name() + ", Price: "@ + decimal(
            self.price_cents as int,
        ) + " "@ + self.currency
    }
}

impl Clone for Ticket {
    fn clone(&self) -> (r: Self)
        ensures
            r == *self,
    {
        Ticket {
            id: self.id,
            event_id: self.event_id,
            user_id: self.user_id,
            price_cents: self.price_cents,
            currency: self.currency.clone(),
            status: self.status,
            seat_number: clone_optional(&self.seat_number),
            tier: clone_optional(&self.tier),
            issued_at: self.issued_at,
            updated_at: self.updated_at,
            metadata: clone_optional(&self.metadata),
        }
    }
}

impl Ticket {
    /// A new, unassigned ticket for `event_id`, in state `Available`, with a
    /// fresh random identifier and the current time as its time of issue.
    pub fn new(
        event_id: u128,
        price_cents: u32,
        currency: String,
        tier: Option<String>,
        seat_number: Option<String>,
        metadata: Option<String>,
    ) -> (t: Ticket)
        ensures
            is_random_id(t@.id),
            t@.issued_at.wf(),
            t@ == (TicketView {
                id: t@.id,
                event_id,
                user_id: None,
                price_cents,
                currency: currency@,
                status: TicketStatus::Available,
                seat_number: seat_number.deep_view(),
                tier: tier.deep_view(),
                issued_at: t@.issued_at,
                updated_at: t@.issued_at,
                metadata: metadata.deep_view(),
            }),
    {
        let now = Timestamp::now();
        Ticket {
            id: fresh_id(),
            event_id,
            user_id: None,
            price_cents,
            currency,
            status: TicketStatus::Available,
            seat_number,
            tier,
            issued_at: now,
            updated_at: now,
            metadata,
        }
    }

    /// Applies `op`, made for `user`, through the state machine. On success
    /// the state and the holder are those of [`step`] and the time of the last
    /// update is the current time; nothing else changes. On refusal nothing
    /// changes at all.
    pub fn apply(&mut self, op: TicketOp, user: Option<u128>) -> (r: Result<(), TicketError>)
        ensures
            r is Ok <==> step(old(self)@.status, old(self)@.user_id, op, user) is Ok,
            r is Ok ==> Ok::<TicketView, TicketError>(final(self)@) == old(self)@.after(
                op,
                user,
                final(self)@.updated_at,
            ),
            r matches Err(e) ==> *final(self) == *old(self) && e == (
            TicketError::InvalidTransition { from: old(self)@.status, attempted: op }),
    {
        let same = match (self.user_id, user) {
            (Some(h), Some(u)) => h == u,
            (None, None) => true,
            _ => false,
        };
        match next_state(self.status, self.user_id, op, user, same) {
            Ok((status, user_id)) => {
                self.status = status;
                self.user_id = user_id;
                self.updated_at = Timestamp::now();
                Ok(())
            },
            Err(e) => Err(e),
        }
    }

    /// Reserves an available, unassigned ticket for `user_id`.
    pub fn reserve(&mut self, user_id: u128) -> (r: Result<(), TicketError>)
        ensures
            r is Ok <==> old(self)@.status == TicketStatus::Available && old(self)@.user_id is None,
            r is Ok ==> final(self)@ == (TicketView {
                status: TicketStatus::Reserved,
                user_id: Some(user_id),
                updated_at: final(self)@.updated_at,
                ..old(self)@
            }),
            r matches Err(e) ==> *final(self) == *old(self) && e == (
            TicketError::InvalidTransition {
                from: old(self)@.status,
                attempted: TicketOp::Reserve,
            }),
    {
        self.apply(TicketOp::Reserve, Some(user_id))
    }

    /// Sells the ticket to `user_id`: directly if it is available, or to the
    /// holder of the reservation if it is reserved.
    pub fn sell(&mut self, user_id: u128) -> (r: Result<(), TicketError>)
        ensures
            r is Ok <==> old(self)@.status == TicketStatus::Available || (old(self)@.status
                == TicketStatus::Reserved && old(self)@.user_id == Some(user_id)),
            r is Ok ==> final(self)@ == (TicketView {
                status: TicketStatus::Sold,
                user_id: Some(user_id),
                updated_at: final(self)@.updated_at,
                ..old(self)@
            }),
            r matches Err(e) ==> *final(self) == *old(self) && e == (
            TicketError::InvalidTransition {
                from: old(self)@.status,
                attempted: TicketOp::Sell,
            }),
    {
        self.apply(TicketOp::Sell, Some(user_id))
    }

    /// Withdraws a ticket that has not been checked in or cancelled already.
    pub fn cancel(&mut self) -> (r: Result<(), TicketError>)
        ensures
            r is Ok <==> old(self)@.status != TicketStatus::CheckedIn && old(self)@.status
                != TicketStatus::Cancelled,
            r is Ok ==> final(self)@ == (TicketView {
                status: TicketStatus::Cancelled,
                updated_at: final(self)@.updated_at,
                ..old(self)@
            }),
            r matches Err(e) ==> *final(self) == *old(self) && e == (
            TicketError::InvalidTransition {
                from: old(self)@.status,
                attempted: TicketOp::Cancel,
            }),
    {
        self.apply(TicketOp::Cancel, None)
    }

    /// Checks in a sold ticket.
    pub fn check_in(&mut self) -> (r: Result<(), TicketError>)
        ensures
            r is Ok <==> old(self)@.status == TicketStatus::Sold,
            r is Ok ==> final(self)@ == (TicketView {
                status: TicketStatus::CheckedIn,
                updated_at: final(self)@.updated_at,
                ..old(self)@
            }),
            r matches Err(e) ==> *final(self) == *old(self) && e == (
            TicketError::InvalidTransition {
                from: old(self)@.status,
                attempted: TicketOp::CheckIn,
            }),
    {
        self.apply(TicketOp::CheckIn, None)
    }

    /// Replaces the seat and records the time of the change.
    pub fn update_seat(&mut self, new_seat: Option<String>)
        ensures
            final(self)@ == (TicketView {
                seat_number: new_seat.deep_view(),
                updated_at: final(self)@.updated_at,
                ..old(self)@
            }),
    {
        self.seat_number = new_seat;
        self.updated_at = Timestamp::now();
    }

    /// Replaces the tier and records the time of the change.
    pub fn update_tier(&mut self, new_tier: Option<String>)
        ensures
            final(self)@ == (TicketView {
                tier: new_tier.deep_view(),
                updated_at: final(self)@.updated_at,
                ..old(self)@
            }),
    {
        self.tier = new_tier;
        self.updated_at = Timestamp::now();
    }

    /// The ticket's identifier.
    pub fn id(&self) -> (r: u128)
        ensures
            r == self@.id,
    {
        self.id
    }

    /// The event that the ticket admits to. It never changes.
    pub fn event_id(&self) -> (r: u128)
        ensures
            r == self@.event_id,
    {
        self.event_id
    }

    /// The user who holds the ticket, if any.
    pub fn user_id(&self) -> (r: Option<u128>)
        ensures
            r == self@.user_id,
    {
        self.user_id
    }

    /// The price in hundredths of the currency unit.
    pub fn price_cents(&self) -> (r: u32)
        ensures
            r == self@.price_cents,
    {
        self.price_cents
    }

    /// The currency of the price.
    pub fn currency(&self) -> (r: &str)
        ensures
            r@ == self@.currency,
    {
        self.currency.as_str()
    }

    /// The state of the ticket.
    pub fn status(&self) -> (r: TicketStatus)
        ensures
            r == self@.status,
    {
        self.status
    }

    /// The seat, if one is assigned.
    pub fn seat_number(&self) -> (r: &Option<String>)
        ensures
            r.deep_view() == self@.seat_number,
    {
        &self.seat_number
    }

    /// The tier, if the ticket has one.
    pub fn tier(&self) -> (r: &Option<String>)
        ensures
            r.deep_view() == self@.tier,
    {
        &self.tier
    }

    /// When the ticket was issued.
    pub fn issued_at(&self) -> (r: Timestamp)
        ensures
            r == self@.issued_at,
    {
        self.issued_at
    }

    /// When the ticket was last changed.
    pub fn updated_at(&self) -> (r: Timestamp)
        ensures
            r == self@.updated_at,
    {
        self.updated_at
    }

    /// Free-form data attached to the ticket.
    pub fn metadata(&self) -> (r: &Option<String>)
        ensures
            r.deep_view() == self@.metadata,
    {
        &self.metadata
    }

    /// A one-line description: identifiers, state and price.
    pub fn summary(&self) -> (s: String)
        ensures
            s@ == self@.summary(),
    {
        let mut s = String::new();
        s.append("Ticket ID: ");
        s.append(id_text(self.id).as_str());
        s.append(", Event: ");
        s.append(id_text(self.event_id).as_str());
        s.append(", Status: ");
        s.append(self.status.name());
        s.append(", Price: ");
        s.append(decimal_string(self.price_cents as i64).as_str());
        s.append(" ");
        s.append(self.currency.as_str());
        assert(s@ =~= self@.summary());
        s
    }
}

/// The tickets of `tickets` that are still available, in their order.
pub fn available_tickets(tickets: &[Ticket]) -> (r: Vec<Ticket>)
    ensures
        r@ == tickets@.filter(|t: Ticket| t@.status == TicketStatus::Available),
{
    let ghost pred = |t: Ticket| t@.status == TicketStatus::Available;
    let mut r: Vec<Ticket> = Vec::new();
    let mut i: usize = 0;
    proof {
        lemma_filter_prefix_empty(tickets@, pred);
    }
    while i < tickets.len()
        invariant
            i <= tickets.len(),
            pred == (|t: Ticket| t@.status == TicketStatus::Available),
            r@ == tickets@.subrange(0, i as int).filter(pred),
        decreases tickets.len() - i,
    {
        proof {
            lemma_filter_prefix_step(tickets@, i as int, pred);
        }
        if tickets[i].status == TicketStatus::Available {
            r.push(tickets[i].clone());
        }
        i += 1;
    }
    proof {
        lemma_prefix_full(tickets@);
    }
    r
}

/// The tickets of `tickets` that `user_id` holds, in their order.
pub fn user_tickets(tickets: &[Ticket], user_id: u128) -> (r: Vec<Ticket>)
    ensures
        r@ == tickets@.filter(|t: Ticket| t@.user_id == Some(user_id)),
{
    let ghost pred = |t: Ticket| t@.user_id == Some(user_id);
    let mut r: Vec<Ticket> = Vec::new();
    let mut i: usize = 0;
    proof {
        lemma_filter_prefix_empty(tickets@, pred);
    }
    while i < tickets.len()
        invariant
            i <= tickets.len(),
            pred == (|t: Ticket| t@.user_id == Some(user_id)),
            r@ == tickets@.subrange(0, i as int).filter(pred),
        decreases tickets.len() - i,
    {
        proof {
            lemma_filter_prefix_step(tickets@, i as int, pred);
        }
        let held = match tickets[i].user_id {
            Some(u) => u == user_id,
            None => false,
        };
        if held {
            r.push(tickets[i].clone());
        }
        i += 1;
    }
    proof {
        lemma_prefix_full(tickets@);
    }
    r
}

/// The tickets of `tickets` that admit to `event_id`, in their order.
pub fn tickets_for_event(tickets: &[Ticket], event_id: u128) -> (r: Vec<Ticket>)
    ensures
        r@ == tickets@.filter(|t: Ticket| t@.event_id == event_id),
{
    let ghost pred = |t: Ticket| t@.event_id == event_id;
    let mut r: Vec<Ticket> = Vec::new();
    let mut i: usize = 0;
    proof {
        lemma_filter_prefix_empty(tickets@, pred);
    }
    while i < tickets.len()
        invariant
            i <= tickets.len(),
            pred == (|t: Ticket| t@.event_id == event_id),
            r@ == tickets@.subrange(0, i as int).filter(pred),
        decreases tickets.len() - i,
    {
        proof {
            lemma_filter_prefix_step(tickets@, i as int, pred);
        }
        if tickets[i].event_id == event_id {
            r.push(tickets[i].clone());
        }
        i += 1;
    }
    proof {
        lemma_prefix_full(tickets@);
    }
    r
}

/// What [`validate_ticket`] answers for a ticket: the first rule that the
/// ticket breaks, as text.
pub open spec fn ticket_defect(t: TicketView) -> Option<Seq<char>> {
    if t.price_cents == 0 {
        Some("Ticket price must be greater than 0."@)
    } else if blank(t.currency) {
        Some("Currency cannot be empty."@)
    } else {
        None
    }
}

/// Checks that the ticket has a price above zero and names a currency.
pub fn validate_ticket(ticket: &Ticket) -> (r: Result<(), String>)
    ensures
        r is Ok <==> ticket_defect(ticket@) is None,
        r matches Err(m) ==> ticket_defect(ticket@) == Some(m@),
{
    if ticket.price_cents == 0 {
        return Err("Ticket price must be greater than 0.".to_string());
    }
    if is_blank(ticket.currency.as_str()) {
        return Err("Currency cannot be empty.".to_string());
    }
    Ok(())
}

} // verus!
