//! The command gateway: what a client may send over its connection and what
//! it is told in return.
//!
//! A command is a JSON object `{"action": "buyTicket", "eventId": <integer>,
//! "qty": <integer>}`. Anything else is answered with
//! `invalid message format`, and the connection stays open. JSON itself is
//! read by `serde_json`; which members make a command is decided here.

use crate::ledger::{event_index, lookup, new_tickets, EventPartial, Ledger, Reservation};
use crate::purchase::{
    decide, purchase_ticket, verdict, PurchaseError, PurchaseOutcome, TicketPurchaseRequest,
};
use crate::text::{decimal, decimal_string};
use vstd::prelude::*;

verus! {

/// A command of a client.
#[derive(Debug, Clone, Copy, PartialEq, Eq, Structural)]
pub enum ClientMessage {
    BuyTicket { event_id: i32, qty: i64 },
}

/// An order for tickets as the gateway hands it to the coordinator.
#[derive(Debug, Clone, Copy, PartialEq, Eq, Structural)]
pub struct BuyTicket {
    pub event_id: i32,
    pub amount: i64,
}

/// Why a message of a client was not taken.
#[derive(Debug, Clone, Copy, PartialEq, Eq, Structural)]
pub enum GatewayError {
    /// The message is not JSON, or not a command that the gateway knows.
    ProtocolError,
}

/// The user on whose account the gateway buys.
pub const GATEWAY_USER_ID: i32 = 1;

/// What a JSON document holds under one key, as far as the gateway reads it.
#[derive(Debug, Clone, PartialEq, Eq)]
pub enum JsonMember {
    /// A string.
    Text(String),
    /// A number that is an integer within `i64`.
    Integer(i64),
    /// Any other value, no such member, or no JSON object at all.
    Missing,
}

/// A [`JsonMember`] as mathematical values.
pub enum JsonMemberView {
    Text(Seq<char>),
    Integer(i64),
    Missing,
}

impl View for JsonMember {
    type V = JsonMemberView;

    open spec fn view(&self) -> JsonMemberView {
        match self {
            JsonMember::Text(s) => JsonMemberView::Text(s@),
            JsonMember::Integer(n) => JsonMemberView::Integer(*n),
            JsonMember::Missing => JsonMemberView::Missing,
        }
    }
}

/// What `serde_json` finds under `key` in the text `document`: the member's
/// string or integer if `document` parses as a JSON object that has such a
/// member, and `Missing` in every other case.
pub uninterp spec fn json_member(document: Seq<char>, key: Seq<char>) -> JsonMemberView;

/// Parses `document` with `serde_json::from_str` into a `serde_json::Value`,
/// looks `key` up with `Value::get` and tells the variants of the member
/// apart (`Number::as_i64` for a number). Trusted: the result is, by
/// definition, [`json_member`] of the two texts.
#[verifier::external_body]
fn read_member(document: &str, key: &str) -> (r: JsonMember)
    ensures
        r@ == json_member(document@, key@),
{
    match serde_json::from_str::<serde_json::Value>(document) {
        Ok(value) => match value.get(key) {
            Some(serde_json::Value::String(s)) => JsonMember::Text(s.clone()),
            Some(serde_json::Value::Number(n)) => match n.as_i64() {
                Some(i) => JsonMember::Integer(i),
                None => JsonMember::Missing,
            },
            _ => JsonMember::Missing,
        },
        Err(_) => JsonMember::Missing,
    }
}

/// The command that the three members of a message make: the action must be
/// the string `buyTicket`, the event an integer within `i32`, the quantity an
/// integer. Everything else is a protocol error.
pub open spec fn command(
    action: JsonMemberView,
    event_id: JsonMemberView,
    qty: JsonMemberView,
) -> Result<ClientMessage, GatewayError> {
    match (action, event_id, qty) {
        (JsonMemberView::Text(a), JsonMemberView::Integer(e), JsonMemberView::Integer(q)) => if a
            == "buyTicket"@ && i32::MIN <= e <= i32::MAX {
            Ok(ClientMessage::BuyTicket { event_id: e as i32, qty: q })
        } else {
            Err(GatewayError::ProtocolError)
        },
        _ => Err(GatewayError::ProtocolError),
    }
}

/// The command that a message text makes.
pub open spec fn decoded(text: Seq<char>) -> Result<ClientMessage, GatewayError> {
    command(
        json_member(text, "action"@),
        json_member(text, "eventId"@),
        json_member(text, "qty"@),
    )
}

/// Executable form of [`command`].
pub fn interpret(action: &JsonMember, event_id: &JsonMember, qty: &JsonMember) -> (r: Result<
    ClientMessage,
    GatewayError,
>)
    ensures
        r == command(action@, event_id@, qty@),
{
    match (action, event_id, qty) {
        (JsonMember::Text(a), JsonMember::Integer(e), JsonMember::Integer(q)) => {
            let expected = "buyTicket".to_string();
            if *a == expected && -2147483648 <= *e && *e <= 2147483647 {
                Ok(ClientMessage::BuyTicket { event_id: *e as i32, qty: *q })
            } else {
                Err(GatewayError::ProtocolError)
            }
        },
        _ => Err(GatewayError::ProtocolError),
    }
}

/// Reads a message of a client.
pub fn decode(text: &str) -> (r: Result<ClientMessage, GatewayError>)
    ensures
        r == decoded(text@),
{
    let action = read_member(text, "action");
    let event_id = read_member(text, "eventId");
    let qty = read_member(text, "qty");
    interpret(&action, &event_id, &qty)
}

impl GatewayError {
    /// The text of the error.
    pub open spec fn spec_message(self) -> Seq<char> {
        "invalid message format"@
    }

    /// The text that the client is sent.
    pub fn message(&self) -> (s: String)
        ensures
            s@ == self.spec_message(),
    {
        "invalid message format".to_string()
    }
}

/// The greeting that a client is sent when its connection opens.
pub fn greeting() -> (s: String)
    ensures
        s@ == "Welcome to the WebSocket server!"@,
{
    "Welcome to the WebSocket server!".to_string()
}

impl ClientMessage {
    /// The order that the command places.
    pub open spec fn spec_order(self) -> BuyTicket {
        match self {
            ClientMessage::BuyTicket { event_id, qty } => BuyTicket { event_id, amount: qty },
        }
    }

    /// The order that the command places.
    pub fn order(&self) -> (o: BuyTicket)
        ensures
            o == self.spec_order(),
    {
        match self {
            ClientMessage::BuyTicket { event_id, qty } => BuyTicket {
                event_id: *event_id,
                amount: *qty,
            },
        }
    }
}

impl BuyTicket {
    /// The purchase request that the order stands for.
    pub open spec fn spec_request(self) -> TicketPurchaseRequest {
        TicketPurchaseRequest {
            user_id: GATEWAY_USER_ID,
            event_id: self.event_id,
            quantity: self.amount,
        }
    }

    /// The purchase request that the order stands for.
    pub fn request(&self) -> (r: TicketPurchaseRequest)
        ensures
            r == self.spec_request(),
    {
        TicketPurchaseRequest {
            user_id: GATEWAY_USER_ID,
            event_id: self.event_id,
            quantity: self.amount,
        }
    }

    /// What the client is told when the order was served.
    pub open spec fn success_text(self) -> Seq<char> {
        "Successfully purchased "@ + decimal(self.amount as int) + " ticket(s) for event "@
            + decimal(self.event_id as int)
    }
}

/// A frame that arrived on a client's connection.
#[derive(Debug, Clone, PartialEq, Eq)]
pub enum Frame {
    Text(String),
    Binary,
    Ping(Vec<u8>),
    Pong,
    Close,
    Other,
}

/// What the gateway does about a frame.
#[derive(Debug, Clone, PartialEq, Eq)]
pub enum Reaction {
    /// Hand the order to the coordinator and send the client its report.
    Buy(BuyTicket),
    /// Send the client this text.
    Reply(String),
    /// Answer a ping with its own payload.
    Pong(Vec<u8>),
    /// Do nothing.
    Nothing,
}

/// Decides what to do about a frame. A text frame is a command or a protocol
/// error; a ping is answered; every other frame is passed over. No frame
/// closes the connection.
pub fn react(frame: Frame) -> (r: Reaction)
    ensures
        match frame {
            Frame::Text(text) => match decoded(text@) {
                Ok(message) => r matches Reaction::Buy(order) && order == message.spec_order(),
                Err(e) => r matches Reaction::Reply(reply) && reply@ == e.spec_message(),
            },
            Frame::Ping(payload) => r matches Reaction::Pong(echo) && echo@ == payload@,
            _ => r is Nothing,
        },
{
    match frame {
        Frame::Text(text) => match decode(text.as_str()) {
            Ok(message) => Reaction::Buy(message.order()),
            Err(e) => Reaction::Reply(e.message()),
        },
        Frame::Ping(payload) => Reaction::Pong(payload),
        _ => Reaction::Nothing,
    }
}

/// Checks an order against a snapshot of its event before the purchase is
/// attempted: the request to make, or the reason why it would fail.
pub fn preflight(order: &BuyTicket, event: &Option<EventPartial>) -> (r: Result<
    TicketPurchaseRequest,
    String,
>)
    ensures
        match verdict(order.spec_request(), *event) {
            Ok(_) => r matches Ok(request) && request == order.spec_request(),
            Err(e) => r matches Err(reason) && reason@ == e.spec_message(),
        },
{
    let request = order.request();
    match decide(&request, event) {
        Ok(_) => Ok(request),
        Err(e) => Err(e.message()),
    }
}

/// What the client is told of the outcome of its order: on success how many
/// tickets it bought for which event, on failure the reason.
pub fn report(order: &BuyTicket, outcome: &PurchaseOutcome) -> (r: Result<String, String>)
    ensures
        match outcome {
            PurchaseOutcome::Success { .. } => r matches Ok(text) && text@
                == order.success_text(),
            PurchaseOutcome::Failure(e) => r matches Err(reason) && reason@ == e.spec_message(),
        },
{
    match outcome {
        PurchaseOutcome::Success { .. } => {
            let mut s = "Successfully purchased ".to_string();
            s.append(decimal_string(order.amount).as_str());
            s.append(" ticket(s) for event ");
            s.append(decimal_string(order.event_id as i64).as_str());
            assert(s@ =~= order.success_text());
            Ok(s)
        },
        PurchaseOutcome::Failure(e) => Err(e.message()),
    }
}

/// Why the order fails against the ledger `before`, if it does: the refusal
/// of the [`verdict`], or `StoreUnavailable` if the ticket numbers would run
/// out.
pub open spec fn order_failure(before: Ledger, order: BuyTicket) -> Option<PurchaseError> {
    let request = order.spec_request();
    match verdict(request, lookup(before.events(), request.event_id)) {
        Err(e) => Some(e),
        Ok(_) => if before.tickets().len() + request.quantity > i32::MAX {
            Some(PurchaseError::StoreUnavailable)
        } else {
            None
        },
    }
}

/// The one text that the client is sent about its order.
pub open spec fn order_answer(before: Ledger, order: BuyTicket) -> Seq<char> {
    match order_failure(before, order) {
        Some(e) => e.spec_message(),
        None => order.success_text(),
    }
}

/// What serving the order makes of the ledger: nothing if the order fails;
/// otherwise the event loses the units bought and as many tickets are
/// appended, sold to the gateway's user.
pub open spec fn order_effect(before: Ledger, order: BuyTicket, after: Ledger) -> bool {
    let request = order.spec_request();
    let event = lookup(before.events(), request.event_id);
    match order_failure(before, order) {
        Some(_) => after.events() == before.events() && after.tickets() == before.tickets(),
        None => {
            &&& after.events() == before.events().update(
                event_index(before.events(), request.event_id),
                EventPartial {
                    available: Some((event->0.remaining() - request.quantity) as i64),
                    ..event->0
                },
            )
            &&& after.tickets() == before.tickets() + new_tickets(
                before.tickets().len() as int,
                Reservation { event_id: request.event_id, quantity: request.quantity },
                request.user_id,
            )
        },
    }
}

/// Serves an order against the ledger: a preflight check on the event as it
/// stands, then the purchase, then the report. The answer is `Ok` exactly
/// when tickets were sold.
pub fn buy_ticket(ledger: &mut Ledger, order: BuyTicket) -> (r: Result<String, String>)
    requires
        old(ledger).wf(),
    ensures
        final(ledger).wf(),
        order_effect(*old(ledger), order, *final(ledger)),
        r is Ok <==> order_failure(*old(ledger), order) is None,
        match r {
            Ok(text) => text@ == order_answer(*old(ledger), order),
            Err(reason) => reason@ == order_answer(*old(ledger), order),
        },
{
    if order.amount > 0 {
        let snapshot = ledger.get_event(order.event_id);
        match preflight(&order, &snapshot) {
            Err(reason) => {
                return Err(reason);
            },
            Ok(_) => {},
        }
    }
    let request = order.request();
    let outcome = purchase_ticket(ledger, &request);
    report(&order, &outcome)
}

/// Serves one text message of a client against the ledger and returns the
/// one text that the client is sent in answer. A message that is no command
/// is answered with `invalid message format` and leaves the ledger as it is.
pub fn serve_text(ledger: &mut Ledger, text: &str) -> (reply: String)
    requires
        old(ledger).wf(),
    ensures
        final(ledger).wf(),
        match decoded(text@) {
            Err(e) => reply@ == e.spec_message() && final(ledger).events() == old(ledger).events()
                && final(ledger).tickets() == old(ledger).tickets(),
            Ok(message) => reply@ == order_answer(*old(ledger), message.spec_order())
                && order_effect(*old(ledger), message.spec_order(), *final(ledger)),
        },
{
    match decode(text) {
        Err(e) => e.message(),
        Ok(message) => match buy_ticket(ledger, message.order()) {
            Ok(text) => text,
            Err(reason) => reason,
        },
    }
}

} // verus!
