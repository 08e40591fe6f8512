use ticketing::ticket::{
    available_tickets, next_state, next_status, tickets_for_event, user_tickets, validate_ticket,
    Ticket, TicketError, TicketOp, TicketStatus,
};
use ticketing::ident::id_text;

const EVENT: u128 = 0x1111_2222_3333_4444_5555_6666_7777_8888;
const ALICE: u128 = 10;
const BOB: u128 = 20;

fn fresh() -> Ticket {
    Ticket::new(
        EVENT,
        2500,
        "EUR".to_string(),
        Some("VIP".to_string()),
        Some("A12".to_string()),
        None,
    )
}

fn in_state(status: TicketStatus) -> Ticket {
    let mut t = fresh();
    match status {
        TicketStatus::Available => {}
        TicketStatus::Reserved => t.reserve(ALICE).unwrap(),
        TicketStatus::Sold => t.sell(ALICE).unwrap(),
        TicketStatus::Cancelled => t.cancel().unwrap(),
        TicketStatus::CheckedIn => {
            t.sell(ALICE).unwrap();
            t.check_in().unwrap();
        }
    }
    assert_eq!(t.status(), status);
    t
}

const STATES: [TicketStatus; 5] = [
    TicketStatus::Available,
    TicketStatus::Reserved,
    TicketStatus::Sold,
    TicketStatus::Cancelled,
    TicketStatus::CheckedIn,
];

#[test]
fn new_ticket_is_available_and_unassigned() {
    let t = fresh();
    assert_eq!(t.status(), TicketStatus::Available);
    assert_eq!(t.user_id(), None);
    assert_eq!(t.event_id(), EVENT);
    assert_eq!(t.price_cents(), 2500);
    assert_eq!(t.currency(), "EUR");
    assert_eq!(t.tier(), &Some("VIP".to_string()));
    assert_eq!(t.seat_number(), &Some("A12".to_string()));
    assert_eq!(t.metadata(), &None);
    assert_eq!(t.issued_at(), t.updated_at());
    assert_eq!((t.id() >> 76) & 0xf, 4);
}

#[test]
fn new_tickets_have_distinct_ids() {
    assert_ne!(fresh().id(), fresh().id());
}

#[test]
fn transition_table_has_exactly_seven_rows() {
    let ops = [TicketOp::Reserve, TicketOp::Sell, TicketOp::CheckIn, TicketOp::Cancel];
    let mut rows = Vec::new();
    for from in STATES {
        for op in ops {
            if let Some(to) = next_status(from, op) {
                rows.push((from, op, to));
            }
        }
    }
    assert_eq!(
        rows,
        vec![
            (TicketStatus::Available, TicketOp::Reserve, TicketStatus::Reserved),
            (TicketStatus::Available, TicketOp::Sell, TicketStatus::Sold),
            (TicketStatus::Available, TicketOp::Cancel, TicketStatus::Cancelled),
            (TicketStatus::Reserved, TicketOp::Sell, TicketStatus::Sold),
            (TicketStatus::Reserved, TicketOp::Cancel, TicketStatus::Cancelled),
            (TicketStatus::Sold, TicketOp::CheckIn, TicketStatus::CheckedIn),
            (TicketStatus::Sold, TicketOp::Cancel, TicketStatus::Cancelled),
        ]
    );
}

#[test]
fn reserve_works_only_from_available() {
    for from in STATES {
        let mut t = in_state(from);
        let holder = t.user_id();
        let r = t.reserve(BOB);
        if from == TicketStatus::Available {
            assert_eq!(r, Ok(()));
            assert_eq!(t.status(), TicketStatus::Reserved);
            assert_eq!(t.user_id(), Some(BOB));
        } else {
            assert_eq!(
                r,
                Err(TicketError::InvalidTransition { from, attempted: TicketOp::Reserve })
            );
            assert_eq!(t.status(), from);
            assert_eq!(t.user_id(), holder);
        }
    }
}

#[test]
fn sell_works_from_available_and_for_the_holder_of_a_reservation() {
    for from in STATES {
        let mut t = in_state(from);
        let r = t.sell(ALICE);
        if from == TicketStatus::Available || from == TicketStatus::Reserved {
            assert_eq!(r, Ok(()));
            assert_eq!(t.status(), TicketStatus::Sold);
            assert_eq!(t.user_id(), Some(ALICE));
        } else {
            assert_eq!(r, Err(TicketError::InvalidTransition { from, attempted: TicketOp::Sell }));
            assert_eq!(t.status(), from);
        }
    }
}

#[test]
fn a_reserved_ticket_is_not_sold_to_another_user() {
    let mut t = in_state(TicketStatus::Reserved);
    let before = t.clone();
    assert_eq!(
        t.sell(BOB),
        Err(TicketError::InvalidTransition {
            from: TicketStatus::Reserved,
            attempted: TicketOp::Sell
        })
    );
    assert_eq!(t.status(), TicketStatus::Reserved);
    assert_eq!(t.user_id(), Some(ALICE));
    assert_eq!(t.updated_at(), before.updated_at());
}

#[test]
fn check_in_works_only_from_sold() {
    for from in STATES {
        let mut t = in_state(from);
        let holder = t.user_id();
        let r = t.check_in();
        if from == TicketStatus::Sold {
            assert_eq!(r, Ok(()));
            assert_eq!(t.status(), TicketStatus::CheckedIn);
        } else {
            assert_eq!(
                r,
                Err(TicketError::InvalidTransition { from, attempted: TicketOp::CheckIn })
            );
            assert_eq!(t.status(), from);
        }
        assert_eq!(t.user_id(), holder);
    }
}

#[test]
fn cancel_works_unless_checked_in_or_cancelled() {
    for from in STATES {
        let mut t = in_state(from);
        let r = t.cancel();
        if from == TicketStatus::CheckedIn || from == TicketStatus::Cancelled {
            assert_eq!(
                r,
                Err(TicketError::InvalidTransition { from, attempted: TicketOp::Cancel })
            );
            assert_eq!(t.status(), from);
        } else {
            assert_eq!(r, Ok(()));
            assert_eq!(t.status(), TicketStatus::Cancelled);
        }
    }
}

#[test]
fn apply_needs_a_user_to_reserve_or_sell() {
    let mut t = fresh();
    assert!(t.apply(TicketOp::Reserve, None).is_err());
    assert!(t.apply(TicketOp::Sell, None).is_err());
    assert_eq!(t.status(), TicketStatus::Available);
    assert_eq!(t.apply(TicketOp::Sell, Some(BOB)), Ok(()));
    assert_eq!(t.user_id(), Some(BOB));
    assert_eq!(t.apply(TicketOp::CheckIn, None), Ok(()));
    assert_eq!(t.user_id(), Some(BOB));
}

#[test]
fn a_refused_operation_changes_nothing() {
    let mut t = in_state(TicketStatus::CheckedIn);
    let id = t.id();
    let updated = t.updated_at();
    assert!(t.cancel().is_err());
    assert!(t.reserve(BOB).is_err());
    assert!(t.sell(BOB).is_err());
    assert!(t.check_in().is_err());
    assert_eq!(t.id(), id);
    assert_eq!(t.event_id(), EVENT);
    assert_eq!(t.status(), TicketStatus::CheckedIn);
    assert_eq!(t.user_id(), Some(ALICE));
    assert_eq!(t.updated_at(), updated);
}

#[test]
fn ticket_error_messages() {
    let e = |attempted| TicketError::InvalidTransition { from: TicketStatus::Sold, attempted };
    assert_eq!(e(TicketOp::Reserve).message(), "Ticket is not available for reservation.");
    assert_eq!(e(TicketOp::Sell).message(), "Ticket is not available for sale.");
    assert_eq!(e(TicketOp::CheckIn).message(), "Only sold tickets can be checked in.");
    assert_eq!(e(TicketOp::Cancel).message(), "Ticket can no longer be cancelled.");
    assert_eq!(TicketError::NotFound.message(), "Ticket not found.");
}

#[test]
fn status_names_and_places() {
    assert_eq!(TicketStatus::Available.name(), "Available");
    assert_eq!(TicketStatus::Reserved.name(), "Reserved");
    assert_eq!(TicketStatus::Sold.name(), "Sold");
    assert_eq!(TicketStatus::Cancelled.name(), "Cancelled");
    assert_eq!(TicketStatus::CheckedIn.name(), "CheckedIn");
    for s in STATES {
        assert_eq!(s.name(), format!("{:?}", s));
    }
    assert!(!TicketStatus::Available.holds_place());
    assert!(TicketStatus::Reserved.holds_place());
    assert!(TicketStatus::Sold.holds_place());
    assert!(TicketStatus::CheckedIn.holds_place());
    assert!(!TicketStatus::Cancelled.holds_place());
}

#[test]
fn seat_and_tier_can_be_changed() {
    let mut t = fresh();
    t.update_seat(Some("B7".to_string()));
    assert_eq!(t.seat_number(), &Some("B7".to_string()));
    assert_eq!(t.tier(), &Some("VIP".to_string()));
    t.update_tier(None);
    assert_eq!(t.tier(), &None);
    assert_eq!(t.seat_number(), &Some("B7".to_string()));
    assert_eq!(t.status(), TicketStatus::Available);
    assert_eq!(t.event_id(), EVENT);
}

#[test]
fn summary_names_ids_state_and_price() {
    let mut t = fresh();
    t.sell(ALICE).unwrap();
    let expected = format!(
        "Ticket ID: {}, Event: 11112222-3333-4444-5555-666677778888, Status: Sold, Price: 2500 EUR",
        id_text(t.id())
    );
    assert_eq!(t.summary(), expected);
}

#[test]
fn filters_keep_matching_tickets_in_order() {
    let mut a = fresh();
    let b = fresh();
    let mut c = Ticket::new(99, 100, "USD".to_string(), None, None, None);
    let d = Ticket::new(99, 100, "USD".to_string(), None, None, None);
    a.sell(ALICE).unwrap();
    c.reserve(ALICE).unwrap();
    let all = vec![a.clone(), b.clone(), c.clone(), d.clone()];

    let free: Vec<u128> = available_tickets(&all).iter().map(|t| t.id()).collect();
    assert_eq!(free, vec![b.id(), d.id()]);

    let mine: Vec<u128> = user_tickets(&all, ALICE).iter().map(|t| t.id()).collect();
    assert_eq!(mine, vec![a.id(), c.id()]);
    assert!(user_tickets(&all, BOB).is_empty());

    let of_event: Vec<u128> = tickets_for_event(&all, 99).iter().map(|t| t.id()).collect();
    assert_eq!(of_event, vec![c.id(), d.id()]);
    assert!(tickets_for_event(&[], 99).is_empty());
}

#[test]
fn validation_of_tickets() {
    assert_eq!(validate_ticket(&fresh()), Ok(()));
    let free = Ticket::new(EVENT, 0, "EUR".to_string(), None, None, None);
    assert_eq!(validate_ticket(&free), Err("Ticket price must be greater than 0.".to_string()));
    let no_currency = Ticket::new(EVENT, 5, "  ".to_string(), None, None, None);
    assert_eq!(validate_ticket(&no_currency), Err("Currency cannot be empty.".to_string()));
    let neither = Ticket::new(EVENT, 0, "".to_string(), None, None, None);
    assert_eq!(validate_ticket(&neither), Err("Ticket price must be greater than 0.".to_string()));
}

#[test]
fn next_state_applies_table_and_guards() {
    let refused = |from, attempted| Err(TicketError::InvalidTransition { from, attempted });
    assert_eq!(
        next_state(TicketStatus::Available, None, TicketOp::Reserve, Some(7u8), false),
        Ok((TicketStatus::Reserved, Some(7u8)))
    );
    assert_eq!(
        next_state(TicketStatus::Available, Some(7u8), TicketOp::Reserve, Some(7u8), true),
        refused(TicketStatus::Available, TicketOp::Reserve)
    );
    assert_eq!(
        next_state(TicketStatus::Reserved, Some(7u8), TicketOp::Sell, Some(7u8), true),
        Ok((TicketStatus::Sold, Some(7u8)))
    );
    assert_eq!(
        next_state(TicketStatus::Reserved, Some(7u8), TicketOp::Sell, Some(8u8), false),
        refused(TicketStatus::Reserved, TicketOp::Sell)
    );
    assert_eq!(
        next_state(TicketStatus::Sold, Some(7u8), TicketOp::CheckIn, None, false),
        Ok((TicketStatus::CheckedIn, Some(7u8)))
    );
    assert_eq!(
        next_state(TicketStatus::Sold, Some(7u8), TicketOp::Cancel, None, false),
        Ok((TicketStatus::Cancelled, Some(7u8)))
    );
    assert_eq!(
        next_state(TicketStatus::CheckedIn, Some(7u8), TicketOp::Cancel, None, false),
        refused(TicketStatus::CheckedIn, TicketOp::Cancel)
    );
}

#[test]
fn ticket_states_are_found_by_their_names() {
    for s in STATES {
        assert_eq!(TicketStatus::parse(s.name()), Some(s));
    }
    assert_eq!(TicketStatus::parse("sold"), None);
    assert_eq!(TicketStatus::parse(""), None);
}
