use ticketing::event::{EventError, EventOp, EventStatus};
use ticketing::ledger::{EventPartial, Ledger, LedgerError, Reservation, TicketRecord};
use ticketing::ticket::{TicketError, TicketOp, TicketStatus};

fn record(id: i32, capacity: i64, available: Option<i64>) -> EventPartial {
    EventPartial {
        id,
        name: format!("Event {}", id),
        capacity,
        available,
        status: EventStatus::Published,
    }
}

fn ledger_of(events: Vec<EventPartial>) -> Ledger {
    let mut ledger = Ledger::new();
    for e in events {
        assert!(ledger.add_event(e));
    }
    ledger
}

fn placed(ledger: &Ledger, event_id: i32) -> i64 {
    ledger.placed_count(event_id) as i64
}

fn assert_rule(ledger: &Ledger, event_id: i32) {
    let e = ledger.get_event(event_id).unwrap();
    let left = e.units_left();
    assert!(0 <= left && left <= e.capacity);
    assert!(placed(ledger, event_id) <= e.capacity - left);
    assert!(ledger.placed_count(event_id) <= ledger.issued_count(event_id));
    assert!(ledger.issued_count(event_id) as i64 + left <= e.capacity);
}

#[test]
fn reserve_takes_units_or_changes_nothing() {
    let mut e = record(1, 10, Some(10));
    assert_eq!(e.reserve(6), Ok(Reservation { event_id: 1, quantity: 6 }));
    assert_eq!(e.available, Some(4));
    assert_eq!(
        e.reserve(6),
        Err(LedgerError::InsufficientSupply { available: 4, requested: 6 })
    );
    assert_eq!(e.available, Some(4));
    assert_eq!(e.reserve(4), Ok(Reservation { event_id: 1, quantity: 4 }));
    assert_eq!(e.available, Some(0));
    assert_eq!(
        e.reserve(1),
        Err(LedgerError::InsufficientSupply { available: 0, requested: 1 })
    );
    assert_eq!(e.capacity, 10);
    assert_eq!(e.name, "Event 1");
}

#[test]
fn an_absent_count_is_zero() {
    let mut e = record(1, 10, None);
    assert_eq!(e.units_left(), 0);
    assert!(e.is_well_formed());
    assert_eq!(
        e.reserve(1),
        Err(LedgerError::InsufficientSupply { available: 0, requested: 1 })
    );
    assert_eq!(e.available, None);
}

#[test]
fn release_gives_units_back() {
    let mut e = record(1, 10, Some(10));
    let grant = e.reserve(3).unwrap();
    e.release(grant);
    assert_eq!(e, record(1, 10, Some(10)));
}

#[test]
fn well_formed_records() {
    assert!(record(1, 10, Some(0)).is_well_formed());
    assert!(record(1, 10, Some(10)).is_well_formed());
    assert!(record(1, 0, Some(0)).is_well_formed());
    assert!(!record(1, 10, Some(11)).is_well_formed());
    assert!(!record(1, 10, Some(-1)).is_well_formed());
    assert!(!record(1, -1, None).is_well_formed());
}

#[test]
fn events_are_added_once_and_only_if_well_formed() {
    let mut ledger = Ledger::new();
    assert_eq!(ledger.event_count(), 0);
    assert!(ledger.add_event(record(1, 10, Some(10))));
    assert!(!ledger.add_event(record(1, 20, Some(20))));
    assert!(!ledger.add_event(record(2, 10, Some(11))));
    assert!(!ledger.add_event(record(3, 10, Some(-1))));
    assert!(ledger.add_event(record(2, 5, None)));
    assert_eq!(ledger.event_count(), 2);
    assert_eq!(ledger.get_event(1), Some(record(1, 10, Some(10))));
    assert_eq!(ledger.get_event(2), Some(record(2, 5, None)));
    assert_eq!(ledger.get_event(3), None);
}

#[test]
fn reading_twice_gives_the_same() {
    let mut ledger = ledger_of(vec![record(1, 10, Some(10)), record(2, 3, Some(3))]);
    let grant = ledger.reserve_capacity(1, 2).unwrap();
    ledger.create_tickets(grant, 5).unwrap();
    assert_eq!(ledger.get_event(1), ledger.get_event(1));
    assert_eq!(ledger.get_event(1), Some(record(1, 10, Some(8))));
    assert_eq!(ledger.get_ticket(2), ledger.get_ticket(2));
    assert_eq!(ledger.get_event(9), None);
    assert_eq!(ledger.get_ticket(0), None);
    assert_eq!(ledger.get_ticket(3), None);
    assert_eq!(ledger.get_ticket(-1), None);
    assert_eq!(ledger.event_count(), 2);
    assert_eq!(ledger.ticket_count(), 2);
}

#[test]
fn reserve_capacity_on_the_ledger() {
    let mut ledger = ledger_of(vec![record(1, 10, Some(10)), record(2, 3, Some(3))]);
    assert_eq!(ledger.reserve_capacity(9, 1), Err(LedgerError::EventNotFound));
    assert_eq!(ledger.reserve_capacity(2, 3), Ok(Reservation { event_id: 2, quantity: 3 }));
    assert_eq!(
        ledger.reserve_capacity(2, 1),
        Err(LedgerError::InsufficientSupply { available: 0, requested: 1 })
    );
    assert_eq!(ledger.get_event(2).unwrap().available, Some(0));
    assert_eq!(ledger.get_event(1).unwrap().available, Some(10));
    assert_eq!(ledger.ticket_count(), 0);
}

#[test]
fn tickets_are_numbered_in_the_order_of_issue() {
    let mut ledger = ledger_of(vec![record(1, 10, Some(10)), record(2, 3, Some(3))]);
    let first = ledger.reserve_capacity(1, 2).unwrap();
    assert_eq!(ledger.create_tickets(first, 5), Ok(vec![1, 2]));
    let second = ledger.reserve_capacity(2, 1).unwrap();
    assert_eq!(ledger.create_tickets(second, 6), Ok(vec![3]));
    assert_eq!(
        ledger.get_ticket(1),
        Some(TicketRecord { id: 1, event_id: 1, user_id: Some(5), status: TicketStatus::Sold })
    );
    assert_eq!(
        ledger.get_ticket(3),
        Some(TicketRecord { id: 3, event_id: 2, user_id: Some(6), status: TicketStatus::Sold })
    );
    assert_rule(&ledger, 1);
    assert_rule(&ledger, 2);
}

#[test]
fn released_capacity_returns_to_the_event() {
    let mut ledger = ledger_of(vec![record(1, 10, Some(10))]);
    let grant = ledger.reserve_capacity(1, 4).unwrap();
    assert_eq!(ledger.get_event(1).unwrap().available, Some(6));
    ledger.release_capacity(grant);
    assert_eq!(ledger.get_event(1), Some(record(1, 10, Some(10))));
    assert_eq!(ledger.ticket_count(), 0);
}

#[test]
fn tickets_in_the_ledger_follow_the_state_machine() {
    let mut ledger = ledger_of(vec![record(1, 10, Some(10))]);
    let grant = ledger.reserve_capacity(1, 3).unwrap();
    ledger.create_tickets(grant, 5).unwrap();

    assert_eq!(ledger.transition_ticket(9, TicketOp::Cancel, None), Err(TicketError::NotFound));
    assert_eq!(ledger.transition_ticket(0, TicketOp::Cancel, None), Err(TicketError::NotFound));

    let checked = ledger.transition_ticket(1, TicketOp::CheckIn, None).unwrap();
    assert_eq!(checked.status, TicketStatus::CheckedIn);
    assert_eq!(checked.user_id, Some(5));
    assert_eq!(ledger.get_ticket(1), Some(checked));

    assert_eq!(
        ledger.transition_ticket(1, TicketOp::Cancel, None),
        Err(TicketError::InvalidTransition {
            from: TicketStatus::CheckedIn,
            attempted: TicketOp::Cancel
        })
    );
    assert_eq!(ledger.get_ticket(1), Some(checked));

    let cancelled = ledger.transition_ticket(2, TicketOp::Cancel, None).unwrap();
    assert_eq!(cancelled.status, TicketStatus::Cancelled);
    for op in [TicketOp::Reserve, TicketOp::Sell, TicketOp::CheckIn, TicketOp::Cancel] {
        assert_eq!(
            ledger.transition_ticket(2, op, Some(5)),
            Err(TicketError::InvalidTransition { from: TicketStatus::Cancelled, attempted: op })
        );
    }
    assert_eq!(
        ledger.transition_ticket(3, TicketOp::Sell, Some(5)),
        Err(TicketError::InvalidTransition {
            from: TicketStatus::Sold,
            attempted: TicketOp::Sell
        })
    );
    assert_eq!(ledger.get_event(1).unwrap().available, Some(7));
    assert_eq!(placed(&ledger, 1), 2);
    assert_rule(&ledger, 1);
}

#[test]
fn cancelling_a_ticket_does_not_return_its_unit() {
    let mut ledger = ledger_of(vec![record(1, 2, Some(2))]);
    let grant = ledger.reserve_capacity(1, 2).unwrap();
    ledger.create_tickets(grant, 5).unwrap();
    ledger.transition_ticket(1, TicketOp::Cancel, None).unwrap();
    assert_eq!(ledger.get_event(1).unwrap().available, Some(0));
    assert_eq!(
        ledger.reserve_capacity(1, 1),
        Err(LedgerError::InsufficientSupply { available: 0, requested: 1 })
    );
}

#[test]
fn events_in_the_ledger_follow_the_life_cycle() {
    let mut ledger = Ledger::new();
    let mut draft = record(1, 10, Some(10));
    draft.status = EventStatus::Draft;
    assert!(ledger.add_event(draft));
    assert_eq!(ledger.advance_event(2, EventOp::Publish), Err(EventError::NotFound));
    assert_eq!(
        ledger.advance_event(1, EventOp::Cancel),
        Err(EventError::InvalidTransition { from: EventStatus::Draft, attempted: EventOp::Cancel })
    );
    assert_eq!(ledger.get_event(1).unwrap().status, EventStatus::Draft);
    assert_eq!(ledger.advance_event(1, EventOp::Publish), Ok(EventStatus::Published));
    assert_eq!(ledger.get_event(1).unwrap().status, EventStatus::Published);
    assert_eq!(ledger.advance_event(1, EventOp::Complete), Ok(EventStatus::Completed));
    assert_eq!(
        ledger.advance_event(1, EventOp::Publish),
        Err(EventError::InvalidTransition {
            from: EventStatus::Completed,
            attempted: EventOp::Publish
        })
    );
    let e = ledger.get_event(1).unwrap();
    assert_eq!(e.status, EventStatus::Completed);
    assert_eq!(e.available, Some(10));
    assert_eq!(e.capacity, 10);
}

#[test]
fn the_rule_holds_after_every_step_of_a_long_run() {
    let mut ledger = ledger_of(vec![record(1, 7, Some(7)), record(2, 4, Some(2))]);
    let quantities = [3, 1, 5, 2, 2, 1, 1, 4];
    let mut step = 0;
    for q in quantities {
        let event_id = 1 + (step % 2);
        if let Ok(grant) = ledger.reserve_capacity(event_id, q) {
            ledger.create_tickets(grant, 100 + step).unwrap();
        }
        let count = ledger.ticket_count() as i32;
        if count > 0 {
            let op = if step % 3 == 0 { TicketOp::Cancel } else { TicketOp::CheckIn };
            let _ = ledger.transition_ticket(1 + (step % count), op, None);
        }
        assert_rule(&ledger, 1);
        assert_rule(&ledger, 2);
        step += 1;
    }
    assert_eq!(ledger.get_event(1).unwrap().capacity, 7);
    assert_eq!(ledger.get_event(2).unwrap().capacity, 4);
}

#[test]
fn a_record_goes_through_the_state_machine_by_itself() {
    let sold = TicketRecord { id: 4, event_id: 1, user_id: Some(5), status: TicketStatus::Sold };
    assert_eq!(
        sold.apply(TicketOp::CheckIn, None),
        Ok(TicketRecord { status: TicketStatus::CheckedIn, ..sold })
    );
    assert_eq!(
        sold.apply(TicketOp::Reserve, Some(6)),
        Err(TicketError::InvalidTransition {
            from: TicketStatus::Sold,
            attempted: TicketOp::Reserve
        })
    );
    let free = TicketRecord { id: 5, event_id: 1, user_id: None, status: TicketStatus::Available };
    let reserved = free.apply(TicketOp::Reserve, Some(6)).unwrap();
    assert_eq!(reserved, TicketRecord { status: TicketStatus::Reserved, user_id: Some(6), ..free });
    assert!(free.apply(TicketOp::Reserve, None).is_err());
    assert!(reserved.apply(TicketOp::Sell, Some(7)).is_err());
    assert!(reserved.apply(TicketOp::Sell, None).is_err());
    assert_eq!(
        reserved.apply(TicketOp::Sell, Some(6)),
        Ok(TicketRecord { status: TicketStatus::Sold, ..reserved })
    );
    assert_eq!(
        free.apply(TicketOp::Sell, Some(9)),
        Ok(TicketRecord { status: TicketStatus::Sold, user_id: Some(9), ..free })
    );
}

#[test]
fn an_event_record_goes_through_the_life_cycle_by_itself() {
    let mut e = record(1, 10, Some(3));
    e.status = EventStatus::Draft;
    assert_eq!(
        e.advance(EventOp::Complete),
        Err(EventError::InvalidTransition {
            from: EventStatus::Draft,
            attempted: EventOp::Complete
        })
    );
    assert_eq!(e.status, EventStatus::Draft);
    assert_eq!(e.advance(EventOp::Publish), Ok(EventStatus::Published));
    assert_eq!(e, record(1, 10, Some(3)));
}

#[test]
fn tickets_are_counted_by_event_and_by_state() {
    let mut ledger = ledger_of(vec![record(1, 10, Some(10)), record(2, 3, Some(3))]);
    assert_eq!(ledger.issued_count(1), 0);
    assert_eq!(ledger.placed_count(1), 0);
    let a = ledger.reserve_capacity(1, 3).unwrap();
    ledger.create_tickets(a, 5).unwrap();
    let b = ledger.reserve_capacity(2, 1).unwrap();
    ledger.create_tickets(b, 6).unwrap();
    ledger.transition_ticket(1, TicketOp::Cancel, None).unwrap();
    ledger.transition_ticket(2, TicketOp::CheckIn, None).unwrap();
    assert_eq!(ledger.issued_count(1), 3);
    assert_eq!(ledger.placed_count(1), 2);
    assert_eq!(ledger.issued_count(2), 1);
    assert_eq!(ledger.placed_count(2), 1);
    assert_eq!(ledger.issued_count(3), 0);
    assert_eq!(ledger.placed_count(3), 0);
}
