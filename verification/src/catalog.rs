//! The kinds of events and of tickets that the catalogue lists, with the
//! names under which the store and the clients know them.

use vstd::prelude::*;

verus! {

/// The kind of an event.
#[derive(Debug, Clone, Copy, PartialEq, Eq, Structural)]
pub enum EventCategory {
    Festival,
    Concert,
    Club,
    Birthday,
    Dinner,
}

/// The kind of a ticket: general admission or VIP.
#[derive(Debug, Clone, Copy, PartialEq, Eq, Structural)]
pub enum TicketType {
    GA,
    VIP,
}

impl EventCategory {
    /// The name of the category.
    pub open spec fn spec_name(self) -> Seq<char> {
        match self {
            EventCategory::Festival => "Festival"@,
            EventCategory::Concert => "Concert"@,
            EventCategory::Club => "Club"@,
            EventCategory::Birthday => "Birthday"@,
            EventCategory::Dinner => "Dinner"@,
        }
    }

    /// The name of the category.
    pub fn name(&self) -> (s: &'static str)
        ensures
            s@ == self.spec_name(),
    {
        match self {
            EventCategory::Festival => "Festival",
            EventCategory::Concert => "Concert",
            EventCategory::Club => "Club",
            EventCategory::Birthday => "Birthday",
            EventCategory::Dinner => "Dinner",
        }
    }

    /// The category with the given name, if there is one.
    pub open spec fn spec_parse(name: Seq<char>) -> Option<EventCategory> {
        if name == "Festival"@ {
            Some(EventCategory::Festival)
        } else if name == "Concert"@ {
            Some(EventCategory::Concert)
        } else if name == "Club"@ {
            Some(EventCategory::Club)
        } else if name == "Birthday"@ {
            Some(EventCategory::Birthday)
        } else if name == "Dinner"@ {
            Some(EventCategory::Dinner)
        } else {
            None
        }
    }

    /// The category with the given name, if there is one.
    pub fn parse(name: &str) -> (r: Option<EventCategory>)
        ensures
            r == Self::spec_parse(name@),
    {
        let name = name.to_string();
        if name == "Festival".to_string() {
            Some(EventCategory::Festival)
        } else if name == "Concert".to_string() {
            Some(EventCategory::Concert)
        } else if name == "Club".to_string() {
            Some(EventCategory::Club)
        } else if name == "Birthday".to_string() {
            Some(EventCategory::Birthday)
        } else if name == "Dinner".to_string() {
            Some(EventCategory::Dinner)
        } else {
            None
        }
    }
}

/// Every category is found again under its own name.
pub proof fn lemma_category_round_trip(category: EventCategory)
    ensures
        EventCategory::spec_parse(category.spec_name()) == Some(category),
{
    reveal_strlit("Festival");
    reveal_strlit("Concert");
    reveal_strlit("Club");
    reveal_strlit("Birthday");
    reveal_strlit("Dinner");
    assert("Festival"@.len() == 8);
    assert("Concert"@.len() == 7);
    assert("Club"@.len() == 4);
    assert("Birthday"@[0] == 'B');
    assert("Festival"@[0] == 'F');
    assert("Dinner"@.len() == 6);
}

impl TicketType {
    /// The name of the ticket type.
    pub open spec fn spec_name(self) -> Seq<char> {
        match self {
            TicketType::GA => "GA"@,
            TicketType::VIP => "VIP"@,
        }
    }

    /// The name of the ticket type.
    pub fn name(&self) -> (s: &'static str)
        ensures
            s@ == self.spec_name(),
    {
        match self {
            TicketType::GA => "GA",
            TicketType::VIP => "VIP",
        }
    }

    /// The ticket type with the given name, if there is one.
    pub open spec fn spec_parse(name: Seq<char>) -> Option<TicketType> {
        if name == "GA"@ {
            Some(TicketType::GA)
        } else if name == "VIP"@ {
            Some(TicketType::VIP)
        } else {
            None
        }
    }

    /// The ticket type with the given name, if there is one.
    pub fn parse(name: &str) -> (r: Option<TicketType>)
        ensures
            r == Self::spec_parse(name@),
    {
        let name = name.to_string();
        if name == "GA".to_string() {
            Some(TicketType::GA)
        } else if name == "VIP".to_string() {
            Some(TicketType::VIP)
        } else {
            None
        }
    }
}

/// Every ticket type is found again under its own name.
pub proof fn lemma_ticket_type_round_trip(ticket_type: TicketType)
    ensures
        TicketType::spec_parse(ticket_type.spec_name()) == Some(ticket_type),
{
    reveal_strlit("GA");
    reveal_strlit("VIP");
    assert("GA"@.len() == 2);
    assert("VIP"@.len() == 3);
}

} // verus!
