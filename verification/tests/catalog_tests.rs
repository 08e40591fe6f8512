use ticketing::catalog::{EventCategory, TicketType};
use ticketing::users::{User, UserId};

#[test]
fn categories_have_names_and_are_found_by_them() {
    let all = [
        (EventCategory::Festival, "Festival"),
        (EventCategory::Concert, "Concert"),
        (EventCategory::Club, "Club"),
        (EventCategory::Birthday, "Birthday"),
        (EventCategory::Dinner, "Dinner"),
    ];
    for (category, name) in all {
        assert_eq!(category.name(), name);
        assert_eq!(EventCategory::parse(name), Some(category));
        assert_eq!(format!("{:?}", category), name);
    }
    assert_eq!(EventCategory::parse("festival"), None);
    assert_eq!(EventCategory::parse(""), None);
    assert_eq!(EventCategory::parse("Opera"), None);
}

#[test]
fn ticket_types_have_names_and_are_found_by_them() {
    assert_eq!(TicketType::GA.name(), "GA");
    assert_eq!(TicketType::VIP.name(), "VIP");
    assert_eq!(TicketType::parse("GA"), Some(TicketType::GA));
    assert_eq!(TicketType::parse("VIP"), Some(TicketType::VIP));
    assert_eq!(TicketType::parse("vip"), None);
    assert_eq!(TicketType::parse("G"), None);
}

#[test]
fn users_are_plain_data() {
    let u = User {
        id: UserId(9),
        name: "Ada".to_string(),
        email: "ada@example.org".to_string(),
        created_at: "2024-01-01".to_string(),
    };
    assert_eq!(u.id, UserId(9));
    assert_eq!(u.id.0, 9);
    assert_eq!(u.clone(), u);
}
