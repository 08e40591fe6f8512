//! The purchase coordinator: one request for tickets, from validation to
//! outcome.
//!
//! A purchase is all or nothing. The request is validated, the event must
//! exist and be published, the ledger must grant the whole quantity, and
//! exactly that many tickets are issued in state `Sold`. If any step fails,
//! the ledger is left as it was.

use crate::event::EventStatus;
use crate::ledger::{
    event_at, event_index, grant, issued, lemma_event_index_unique, lemma_issued_concat,
    lemma_issued_new_tickets, lookup, new_ticket_ids, new_tickets, EventPartial, Ledger,
    LedgerError, Reservation,
};
use crate::text::{decimal, decimal_string};
use vstd::arithmetic::power2::{lemma2_to64, pow2};
use vstd::prelude::*;

verus! {

/// A request by `user_id` for `quantity` tickets of event `event_id`.
#[derive(Debug, Clone, Copy, PartialEq, Eq, Structural)]
pub struct TicketPurchaseRequest {
    pub user_id: i32,
    pub event_id: i32,
    pub quantity: i64,
}

/// What the buyer is told of one ticket: its identifier and the event's name.
#[derive(Debug, Clone, PartialEq, Eq)]
pub struct TicketPurchaseResponse {
    pub ticket_id: i32,
    pub event_name: String,
}

/// Why a purchase failed.
#[derive(Debug, Clone, Copy, PartialEq, Eq, Structural)]
pub enum PurchaseError {
    /// The quantity is not positive. Decided before the store is touched.
    InvalidRequest,
    /// No event has the identifier.
    EventNotFound,
    /// The event is not published.
    EventNotActive { status: EventStatus },
    /// Fewer tickets are available than were asked for.
    InsufficientSupply { available: i64, requested: i64 },
    /// The store could not carry out the purchase; nothing was changed.
    StoreUnavailable,
}

/// How a purchase ended.
#[derive(Debug, Clone, PartialEq, Eq)]
pub enum PurchaseOutcome {
    /// The tickets with these identifiers were issued to the buyer.
    Success { ticket_ids: Vec<i32> },
    /// Nothing was issued.
    Failure(PurchaseError),
}

/// How often a purchase that met `StoreUnavailable` is tried in all.
pub const MAX_ATTEMPTS: u32 = 3;

/// The longest pause before the second attempt, in milliseconds.
pub const FIRST_BACKOFF_MILLIS: u64 = 50;

/// The longest pause before any attempt, in milliseconds.
pub const MAX_BACKOFF_MILLIS: u64 = 1000;

/// The ledger's refusal as the buyer is told of it, unchanged.
pub open spec fn spec_from_ledger(e: LedgerError) -> PurchaseError {
    match e {
        LedgerError::EventNotFound => PurchaseError::EventNotFound,
        LedgerError::InsufficientSupply { available, requested } =>
            PurchaseError::InsufficientSupply { available, requested },
        LedgerError::StoreUnavailable => PurchaseError::StoreUnavailable,
    }
}

/// What is decided of a request before anything is changed, given the
/// record of its event as the store holds it: the error that refuses the
/// request, or the units that stay available once it is served.
pub open spec fn verdict(request: TicketPurchaseRequest, event: Option<EventPartial>) -> Result<
    int,
    PurchaseError,
> {
    if request.quantity <= 0 {
        Err(PurchaseError::InvalidRequest)
    } else {
        match event {
            None => Err(PurchaseError::EventNotFound),
            Some(e) => if e.status != EventStatus::Published {
                Err(PurchaseError::EventNotActive { status: e.status })
            } else {
                match grant(e.remaining(), request.quantity as int) {
                    Some(rest) => Ok(rest),
                    None => Err(
                        PurchaseError::InsufficientSupply {
                            available: e.remaining() as i64,
                            requested: request.quantity,
                        },
                    ),
                }
            },
        }
    }
}

impl PurchaseError {
    /// The ledger's refusal as the buyer is told of it, unchanged.
    pub fn from_ledger(e: LedgerError) -> (r: PurchaseError)
        ensures
            r == spec_from_ledger(e),
    {
        match e {
            LedgerError::EventNotFound => PurchaseError::EventNotFound,
            LedgerError::InsufficientSupply { available, requested } =>
                PurchaseError::InsufficientSupply { available, requested },
            LedgerError::StoreUnavailable => PurchaseError::StoreUnavailable,
        }
    }

    /// The name of the kind of failure.
    pub open spec fn spec_kind(self) -> Seq<char> {
        match self {
            PurchaseError::InvalidRequest => "InvalidRequest"@,
            PurchaseError::EventNotFound => "EventNotFound"@,
            PurchaseError::EventNotActive { .. } => "EventNotActive"@,
            PurchaseError::InsufficientSupply { .. } => "InsufficientSupply"@,
            PurchaseError::StoreUnavailable => "StoreUnavailable"@,
        }
    }

    /// The name of the kind of failure.
    pub fn kind(&self) -> (s: &'static str)
        ensures
            s@ == self.spec_kind(),
    {
        match self {
            PurchaseError::InvalidRequest => "InvalidRequest",
            PurchaseError::EventNotFound => "EventNotFound",
            PurchaseError::EventNotActive { .. } => "EventNotActive",
            PurchaseError::InsufficientSupply { .. } => "InsufficientSupply",
            PurchaseError::StoreUnavailable => "StoreUnavailable",
        }
    }

    /// The reason of the failure, for people to read.
    pub open spec fn spec_message(self) -> Seq<char> {
        match self {
            PurchaseError::InvalidRequest => "Invalid request: quantity must be greater than 0"@,
            PurchaseError::EventNotFound => "Event not found"@,
            PurchaseError::EventNotActive { status } => "Event is not open for sale. Status: "@
                + status.spec_name(),
            PurchaseError::InsufficientSupply { available, requested } =>
                "Insufficient tickets supply. Available: "@ + decimal(available as int)
                    + ", Requested: "@ + decimal(requested as int),
            PurchaseError::StoreUnavailable => "Store unavailable, nothing was sold"@,
        }
    }

    /// The reason of the failure, for people to read.
    pub fn message(&self) -> (s: String)
        ensures
            s@ == self.spec_message(),
    {
        match self {
            PurchaseError::InvalidRequest => "Invalid request: quantity must be greater than 0"
                .to_string(),
            PurchaseError::EventNotFound => "Event not found".to_string(),
            PurchaseError::EventNotActive { status } => {
                let mut s = "Event is not open for sale. Status: ".to_string();
                s.append(status.name());
                s
            },
            PurchaseError::InsufficientSupply { available, requested } => {
                let mut s = "Insufficient tickets supply. Available: ".to_string();
                s.append(decimal_string(*available).as_str());
                s.append(", Requested: ");
                s.append(decimal_string(*requested).as_str());
                assert(s@ =~= self.spec_message());
                s
            },
            PurchaseError::StoreUnavailable => "Store unavailable, nothing was sold".to_string(),
        }
    }

    /// Only a failure of the store is worth another try.
    pub open spec fn spec_is_transient(&self) -> bool {
        *self == PurchaseError::StoreUnavailable
    }

    /// Whether the same request may succeed if it is made again.
    #[verifier::when_used_as_spec(spec_is_transient)]
    pub fn is_transient(&self) -> (b: bool)
        ensures
            b == self.spec_is_transient(),
    {
        match self {
            PurchaseError::StoreUnavailable => true,
            _ => false,
        }
    }
}

/// Whether a purchase that failed with `error` on its `attempts_made`-th
/// attempt is tried once more: only failures of the store are, and
/// [`MAX_ATTEMPTS`] attempts are made at most.
pub fn should_retry(error: &PurchaseError, attempts_made: u32) -> (b: bool)
    ensures
        b == (error.spec_is_transient() && attempts_made < MAX_ATTEMPTS),
{
    error.is_transient() && attempts_made < MAX_ATTEMPTS
}

/// The longest pause, in milliseconds, before a purchase is tried again
/// after `attempts_made` attempts: 50 after the first, twice as long after
/// each further one, and never more than a second. The caller waits for a
/// time drawn at random between nothing and this.
pub open spec fn spec_backoff_ceiling(attempts_made: u32) -> u64 {
    if attempts_made == 0 {
        0
    } else if attempts_made >= 6 {
        MAX_BACKOFF_MILLIS
    } else {
        (FIRST_BACKOFF_MILLIS * pow2((attempts_made - 1) as nat)) as u64
    }
}

/// The longest pause before the next attempt: see [`spec_backoff_ceiling`].
pub fn backoff_ceiling(attempts_made: u32) -> (millis: u64)
    ensures
        millis == spec_backoff_ceiling(attempts_made),
        millis <= MAX_BACKOFF_MILLIS,
{
    proof {
        lemma2_to64();
    }
    match attempts_made {
        0 => 0,
        1 => 50,
        2 => 100,
        3 => 200,
        4 => 400,
        5 => 800,
        _ => MAX_BACKOFF_MILLIS,
    }
}

/// The first step: a request must ask for at least one ticket.
pub fn check_request(request: &TicketPurchaseRequest) -> (r: Result<(), PurchaseError>)
    ensures
        r == if request.quantity > 0 {
            Ok::<(), PurchaseError>(())
        } else {
            Err(PurchaseError::InvalidRequest)
        },
{
    if request.quantity > 0 {
        Ok(())
    } else {
        Err(PurchaseError::InvalidRequest)
    }
}

/// Decides a request against the record of its event, without changing
/// anything: see [`verdict`]. On success the grant to take from the ledger
/// comes back, with the units that will stay available.
pub fn decide(request: &TicketPurchaseRequest, event: &Option<EventPartial>) -> (r: Result<
    (Reservation, i64),
    PurchaseError,
>)
    ensures
        match verdict(*request, *event) {
            Ok(rest) => r == Ok::<(Reservation, i64), PurchaseError>(
                (
                    Reservation { event_id: event->0.id, quantity: request.quantity },
                    rest as i64,
                ),
            ),
            Err(e) => r == Err::<(Reservation, i64), PurchaseError>(e),
        },
{
    match check_request(request) {
        Err(e) => {
            return Err(e);
        },
        Ok(_) => {},
    }
    match event {
        None => Err(PurchaseError::EventNotFound),
        Some(e) => {
            if !e.status.is_purchasable() {
                return Err(PurchaseError::EventNotActive { status: e.status });
            }
            let available = e.units_left();
            if available < request.quantity {
                Err(
                    PurchaseError::InsufficientSupply { available, requested: request.quantity },
                )
            } else {
                Ok(
                    (
                        Reservation { event_id: e.id, quantity: request.quantity },
                        available - request.quantity,
                    ),
                )
            }
        },
    }
}

/// Where a purchase stands between two answers of the store.
#[derive(Debug, Clone, PartialEq, Eq)]
pub enum Stage {
    /// Nothing has been asked of the store.
    Received,
    /// The store was asked for the record of the event.
    AwaitingEvent,
    /// The store was asked to take the grant and to issue its tickets.
    AwaitingTickets { reservation: Reservation },
    /// The store was asked to make the purchase durable.
    AwaitingCommit { ticket_ids: Vec<i32> },
    /// The purchase has ended.
    Finished,
}

/// What the store answered to the last command.
#[derive(Debug, Clone, PartialEq, Eq)]
pub enum StoreReply {
    /// Nothing was asked yet.
    Nothing,
    /// The record of the event, or `None` if there is no such event.
    Event(Option<EventPartial>),
    /// The identifiers of the tickets that were issued.
    Tickets(Vec<i32>),
    /// The purchase is durable.
    Committed,
    /// The store failed, or did not answer in time.
    Unavailable,
}

/// What the coordinator asks for next.
#[derive(Debug, Clone, PartialEq, Eq)]
pub enum Command {
    /// Open the atomic unit and read the record of the event, so that no
    /// other purchase for the event gets in between.
    LoadEvent { event_id: i32 },
    /// Write `available_after` as the units available for the event and
    /// issue `reservation.quantity` tickets in state `Sold` to `user_id`.
    IssueTickets { reservation: Reservation, user_id: i32, available_after: i64 },
    /// Make everything written durable.
    Commit,
    /// Undo everything written and tell the buyer of the failure.
    Abort { error: PurchaseError },
    /// Tell the buyer of the tickets.
    Finish { ticket_ids: Vec<i32> },
    /// The purchase has ended before; there is nothing to do.
    Nothing,
}

/// The coordinator's algorithm, one step at a time. From the stage and the
/// store's answer follow the next stage and the command:
/// - at the start, a request for no tickets is aborted as invalid before the
///   store is asked anything; any other request loads its event;
/// - with the event's record, the [`verdict`] either aborts or has the
///   tickets issued and the units left written;
/// - with as many tickets as were granted, the purchase is committed;
/// - once committed, the buyer is told of the tickets;
/// - any answer that does not fit the stage, a failure of the store among
///   them, aborts with `StoreUnavailable`.
pub open spec fn flow(
    request: TicketPurchaseRequest,
    stage: Stage,
    reply: StoreReply,
    next: Stage,
    command: Command,
) -> bool {
    let failed = next is Finished && command == (Command::Abort {
        error: PurchaseError::StoreUnavailable,
    });
    match stage {
        Stage::Received => if request.quantity > 0 {
            next is AwaitingEvent && command == (Command::LoadEvent { event_id: request.event_id })
        } else {
            next is Finished && command == (Command::Abort {
                error: PurchaseError::InvalidRequest,
            })
        },
        Stage::AwaitingEvent => match reply {
            StoreReply::Event(event) => match verdict(request, event) {
                Ok(rest) => {
                    let granted = Reservation {
                        event_id: event->0.id,
                        quantity: request.quantity,
                    };
                    &&& next == (Stage::AwaitingTickets { reservation: granted })
                    &&& command == (Command::IssueTickets {
                        reservation: granted,
                        user_id: request.user_id,
                        available_after: rest as i64,
                    })
                },
                Err(e) => next is Finished && command == (Command::Abort { error: e }),
            },
            _ => failed,
        },
        Stage::AwaitingTickets { reservation } => match reply {
            StoreReply::Tickets(ids) => if ids@.len() == reservation.quantity {
                &&& next matches Stage::AwaitingCommit { ticket_ids }
                &&& ticket_ids@ == ids@
                &&& command is Commit
            } else {
                failed
            },
            _ => failed,
        },
        Stage::AwaitingCommit { ticket_ids } => match reply {
            StoreReply::Committed => {
                &&& command matches Command::Finish { ticket_ids: sold }
                &&& sold@ == ticket_ids@
                &&& next is Finished
            },
            _ => failed,
        },
        Stage::Finished => next is Finished && command is Nothing,
    }
}

/// Takes the purchase one step further: see [`flow`].
pub fn advance(request: &TicketPurchaseRequest, stage: Stage, reply: StoreReply) -> (r: (
    Stage,
    Command,
))
    ensures
        flow(*request, stage, reply, r.0, r.1),
{
    let failed = (Stage::Finished, Command::Abort { error: PurchaseError::StoreUnavailable });
    match stage {
        Stage::Received => match check_request(request) {
            Ok(_) => (Stage::AwaitingEvent, Command::LoadEvent { event_id: request.event_id }),
            Err(error) => (Stage::Finished, Command::Abort { error }),
        },
        Stage::AwaitingEvent => match reply {
            StoreReply::Event(event) => match decide(request, &event) {
                Ok((reservation, available_after)) => (
                    Stage::AwaitingTickets { reservation },
                    Command::IssueTickets {
                        reservation,
                        user_id: request.user_id,
                        available_after,
                    },
                ),
                Err(error) => (Stage::Finished, Command::Abort { error }),
            },
            _ => failed,
        },
        Stage::AwaitingTickets { reservation } => match reply {
            StoreReply::Tickets(ids) => {
                let wanted = reservation.quantity;
                if wanted >= 0 && (ids.len() as u64) == (wanted as u64) {
                    (Stage::AwaitingCommit { ticket_ids: ids }, Command::Commit)
                } else {
                    failed
                }
            },
            _ => failed,
        },
        Stage::AwaitingCommit { ticket_ids } => match reply {
            StoreReply::Committed => (Stage::Finished, Command::Finish { ticket_ids }),
            _ => failed,
        },
        Stage::Finished => (Stage::Finished, Command::Nothing),
    }
}

/// What a purchase leaves of the ledger and what it answers, as one
/// statement. With `v` the [`verdict`] on the request:
/// - if `v` refuses, the outcome is that failure and the ledger is unchanged;
/// - if the ticket numbers would run out, the outcome is `StoreUnavailable`
///   and the ledger is unchanged;
/// - otherwise the outcome is a success: the event's available units are
///   `v`, exactly `quantity` tickets are appended, sold to the buyer, and
///   their identifiers are those of the outcome.
pub open spec fn purchase_result(
    before: Ledger,
    request: TicketPurchaseRequest,
    after: Ledger,
    outcome: PurchaseOutcome,
) -> bool {
    let event = lookup(before.events(), request.event_id);
    let first = before.tickets().len() as int;
    match verdict(request, event) {
        Err(e) => {
            &&& outcome matches PurchaseOutcome::Failure(f)
            &&& f == e
            &&& after.events() == before.events()
            &&& after.tickets() == before.tickets()
        },
        Ok(rest) => if first + request.quantity > i32::MAX {
            &&& outcome matches PurchaseOutcome::Failure(f)
            &&& f == PurchaseError::StoreUnavailable
            &&& after.events() == before.events()
            &&& after.tickets() == before.tickets()
        } else {
            &&& outcome matches PurchaseOutcome::Success { ticket_ids }
            &&& ticket_ids@ == new_ticket_ids(first, request.quantity as int)
            &&& after.events() == before.events().update(
                event_index(before.events(), request.event_id),
                EventPartial { available: Some(rest as i64), ..event->0 },
            )
            &&& after.tickets() == before.tickets() + new_tickets(
                first,
                Reservation { event_id: request.event_id, quantity: request.quantity },
                request.user_id,
            )
        },
    }
}

/// Serves one purchase request against the ledger, all or nothing: see
/// [`purchase_result`]. The ledger plays the store, and the steps are those of
/// [`advance`].
pub fn purchase_ticket(ledger: &mut Ledger, request: &TicketPurchaseRequest) -> (outcome:
    PurchaseOutcome)
    requires
        old(ledger).wf(),
    ensures
        final(ledger).wf(),
        purchase_result(*old(ledger), *request, *final(ledger), outcome),
{
    let ghost before = ledger.events();
    let ghost at = event_index(before, request.event_id);
    let (stage, command) = advance(request, Stage::Received, StoreReply::Nothing);
    let event = match command {
        Command::LoadEvent { event_id } => ledger.get_event(event_id),
        Command::Abort { error } => {
            return PurchaseOutcome::Failure(error);
        },
        _ => {
            return PurchaseOutcome::Failure(PurchaseError::StoreUnavailable);
        },
    };
    let (stage, command) = advance(request, stage, StoreReply::Event(event));
    let (reservation, user_id) = match command {
        Command::IssueTickets { reservation, user_id, .. } => (reservation, user_id),
        Command::Abort { error } => {
            return PurchaseOutcome::Failure(error);
        },
        _ => {
            return PurchaseOutcome::Failure(PurchaseError::StoreUnavailable);
        },
    };
    proof {
        assert(event_at(before, request.event_id, at));
    }
    let reply = match ledger.reserve_capacity(reservation.event_id, reservation.quantity) {
        Ok(granted) => {
            proof {
                assert(event_at(ledger.events(), request.event_id, at));
                lemma_event_index_unique(ledger.events(), request.event_id, at);
            }
            match ledger.create_tickets(granted, user_id) {
                Ok(ids) => StoreReply::Tickets(ids),
                Err(_) => {
                    ledger.release_capacity(granted);
                    proof {
                        assert(before[at].available == Some(before[at].remaining() as i64));
                        assert(ledger.events() =~= before);
                    }
                    StoreReply::Unavailable
                },
            }
        },
        Err(e) => {
            return PurchaseOutcome::Failure(PurchaseError::from_ledger(e));
        },
    };
    let (stage, command) = advance(request, stage, reply);
    match command {
        Command::Commit => {},
        Command::Abort { error } => {
            return PurchaseOutcome::Failure(error);
        },
        _ => {
            return PurchaseOutcome::Failure(PurchaseError::StoreUnavailable);
        },
    }
    let (_, command) = advance(request, stage, StoreReply::Committed);
    match command {
        Command::Finish { ticket_ids } => PurchaseOutcome::Success { ticket_ids },
        Command::Abort { error } => PurchaseOutcome::Failure(error),
        _ => PurchaseOutcome::Failure(PurchaseError::StoreUnavailable),
    }
}

/// A purchase moves units from the available ones to tickets and neither
/// makes nor loses any: for every event, the units available and the tickets
/// issued add up to the same before and after, the capacity stays, and a
/// success issues exactly the quantity asked for.
pub proof fn lemma_purchase_conserves_units(
    before: Ledger,
    request: TicketPurchaseRequest,
    after: Ledger,
    outcome: PurchaseOutcome,
    i: int,
)
    requires
        before.wf(),
        purchase_result(before, request, after, outcome),
        0 <= i < before.events().len(),
    ensures
        after.events().len() == before.events().len(),
        after.events()[i].id == before.events()[i].id,
        after.events()[i].capacity == before.events()[i].capacity,
        after.events()[i].status == before.events()[i].status,
        issued(after.tickets(), before.events()[i].id) + after.events()[i].remaining() == issued(
            before.tickets(),
            before.events()[i].id,
        ) + before.events()[i].remaining(),
        after.events()[i].remaining() <= before.events()[i].remaining(),
        outcome matches PurchaseOutcome::Success { ticket_ids } ==> ticket_ids@.len()
            == request.quantity && after.tickets().len() == before.tickets().len()
            + request.quantity,
        outcome is Failure ==> after.tickets() == before.tickets() && after.events()
            == before.events(),
{
    let event = lookup(before.events(), request.event_id);
    let first = before.tickets().len() as int;
    if verdict(request, event) is Ok && first + request.quantity <= i32::MAX {
        let at = event_index(before.events(), request.event_id);
        assert(event_at(before.events(), request.event_id, at));
        let reservation = Reservation { event_id: request.event_id, quantity: request.quantity };
        let id = before.events()[i].id;
        lemma_issued_concat(before.tickets(), new_tickets(first, reservation, request.user_id), id);
        lemma_issued_new_tickets(first, reservation, request.user_id, id);
        if i != at {
            if i < at {
                assert(before.events()[i].id != before.events()[at].id);
            } else {
                assert(before.events()[at].id != before.events()[i].id);
            }
        }
    }
}

/// No oversell between two purchases: if two requests for the same published
/// event are served one after the other, the first can be granted, and both
/// together ask for more than is available, then the first is served in full
/// and the second is refused with what the first one left, which stays
/// available.
pub proof fn lemma_second_purchase_refused(
    start: Ledger,
    first: TicketPurchaseRequest,
    between: Ledger,
    first_outcome: PurchaseOutcome,
    second: TicketPurchaseRequest,
    end: Ledger,
    second_outcome: PurchaseOutcome,
    i: int,
)
    requires
        start.wf(),
        between.wf(),
        0 <= i < start.events().len(),
        start.events()[i].id == first.event_id,
        start.events()[i].status == EventStatus::Published,
        second.event_id == first.event_id,
        0 < first.quantity <= start.events()[i].remaining(),
        0 < second.quantity,
        first.quantity + second.quantity > start.events()[i].remaining(),
        start.tickets().len() + first.quantity <= i32::MAX,
        purchase_result(start, first, between, first_outcome),
        purchase_result(between, second, end, second_outcome),
    ensures
        first_outcome matches PurchaseOutcome::Success { ticket_ids } && ticket_ids@.len()
            == first.quantity,
        second_outcome matches PurchaseOutcome::Failure(e) && e == (
        PurchaseError::InsufficientSupply {
            available: (start.events()[i].remaining() - first.quantity) as i64,
            requested: second.quantity,
        }),
        end.events() == between.events(),
        end.tickets() == between.tickets(),
        end.events()[i].remaining() == start.events()[i].remaining() - first.quantity,
        end.tickets().len() == start.tickets().len() + first.quantity,
{
    assert(event_at(start.events(), first.event_id, i));
    lemma_event_index_unique(start.events(), first.event_id, i);
    assert(event_at(between.events(), first.event_id, i));
    lemma_event_index_unique(between.events(), first.event_id, i);
}

/// What is recorded of a purchase once it has ended, for whoever keeps logs
/// or counts outcomes.
#[derive(Debug, Clone, Copy, PartialEq, Eq, Structural)]
pub struct OutcomeNotice {
    pub user_id: i32,
    pub event_id: i32,
    /// The tickets asked for.
    pub requested: i64,
    /// The tickets issued: all of them or none.
    pub issued: usize,
    /// Why none was issued, if none was.
    pub failure: Option<PurchaseError>,
}

/// The record of a purchase that ended with `outcome`.
pub fn notice(request: &TicketPurchaseRequest, outcome: &PurchaseOutcome) -> (n: OutcomeNotice)
    ensures
        n.user_id == request.user_id,
        n.event_id == request.event_id,
        n.requested == request.quantity,
        match *outcome {
            PurchaseOutcome::Success { ticket_ids } => n.issued == ticket_ids@.len() && n.failure
                is None,
            PurchaseOutcome::Failure(e) => n.issued == 0 && n.failure == Some(e),
        },
{
    let (issued, failure) = match outcome {
        PurchaseOutcome::Success { ticket_ids } => (ticket_ids.len(), None),
        PurchaseOutcome::Failure(e) => (0, Some(*e)),
    };
    OutcomeNotice {
        user_id: request.user_id,
        event_id: request.event_id,
        requested: request.quantity,
        issued,
        failure,
    }
}

/// What the buyer is told of each ticket of a successful purchase.
pub fn receipts(event_name: &str, ticket_ids: &Vec<i32>) -> (r: Vec<TicketPurchaseResponse>)
    ensures
        r@.len() == ticket_ids@.len(),
        forall|i: int|
            0 <= i < r@.len() ==> (#[trigger] r@[i]).ticket_id == ticket_ids@[i]
                && r@[i].event_name@ == event_name@,
{
    let mut r: Vec<TicketPurchaseResponse> = Vec::new();
    let mut i: usize = 0;
    while i < ticket_ids.len()
        invariant
            i <= ticket_ids.len(),
            r@.len() == i,
            forall|k: int|
                0 <= k < i ==> (#[trigger] r@[k]).ticket_id == ticket_ids@[k]
                    && r@[k].event_name@ == event_name@,
        decreases ticket_ids.len() - i,
    {
        r.push(
            TicketPurchaseResponse { ticket_id: ticket_ids[i], event_name: event_name.to_string() },
        );
        i += 1;
    }
    r
}

} // verus!
