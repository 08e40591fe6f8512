//! Events and their life cycle.
//!
//! An event starts as a draft, is published, and ends either cancelled or
//! completed: `Draft -> Published -> {Cancelled, Completed}`. Tickets are sold
//! only while the event is published.

use crate::clock::{TimeSpan, Timestamp};
use crate::ident::{fresh_id, is_random_id};
use crate::sequences::{lemma_filter_prefix_empty, lemma_filter_prefix_step, lemma_prefix_full};
use crate::text::{
    any_contains_ignoring_case, blank, clone_list, clone_optional, contains_ignoring_case,
    contains_ignoring_letter_case, is_blank, list_any_contains_ignoring_case, list_contains,
    list_without,
};
use vstd::prelude::*;

verus! {

/// Where an event stands in its life.
#[derive(Debug, Clone, Copy, PartialEq, Eq, Structural)]
pub enum EventStatus {
    Draft,
    Published,
    Cancelled,
    Completed,
}

/// A step of the life cycle.
#[derive(Debug, Clone, Copy, PartialEq, Eq, Structural)]
pub enum EventOp {
    Publish,
    Cancel,
    Complete,
}

/// Why a change to an event was refused.
#[derive(Debug, Clone, Copy, PartialEq, Eq, Structural)]
pub enum EventError {
    /// The step is not open to an event in state `from`.
    InvalidTransition { from: EventStatus, attempted: EventOp },
    /// No event has the identifier.
    NotFound,
}

/// The life cycle: the state that `op` leads to from `from`, or `None` where
/// the step is not allowed.
pub open spec fn lifecycle(from: EventStatus, op: EventOp) -> Option<EventStatus> {
    match (from, op) {
        (EventStatus::Draft, EventOp::Publish) => Some(EventStatus::Published),
        (EventStatus::Published, EventOp::Cancel) => Some(EventStatus::Cancelled),
        (EventStatus::Published, EventOp::Complete) => Some(EventStatus::Completed),
        _ => None,
    }
}

/// Executable form of [`lifecycle`].
pub fn next_status(from: EventStatus, op: EventOp) -> (r: Result<EventStatus, EventError>)
    ensures
        r == match lifecycle(from, op) {
            Some(to) => Ok::<EventStatus, EventError>(to),
            None => Err(EventError::InvalidTransition { from, attempted: op }),
        },
{
    match (from, op) {
        (EventStatus::Draft, EventOp::Publish) => Ok(EventStatus::Published),
        (EventStatus::Published, EventOp::Cancel) => Ok(EventStatus::Cancelled),
        (EventStatus::Published, EventOp::Complete) => Ok(EventStatus::Completed),
        _ => Err(EventError::InvalidTransition { from, attempted: op }),
    }
}

/// Cancelled and completed events stay as they are, and an event is
/// purchasable only between its publication and its end.
pub proof fn lemma_lifecycle_shape(from: EventStatus, op: EventOp)
    ensures
        from == EventStatus::Cancelled || from == EventStatus::Completed ==> lifecycle(from, op)
            is None,
        lifecycle(from, op) == Some(EventStatus::Published) ==> from == EventStatus::Draft,
        from.spec_is_purchasable() && lifecycle(from, op) is Some ==> !lifecycle(
            from,
            op,
        )->0.spec_is_purchasable(),
{
}

/// Every state of an event is found again under its own name.
pub proof fn lemma_event_status_round_trip(status: EventStatus)
    ensures
        EventStatus::spec_parse(status.spec_name()) == Some(status),
{
    reveal_strlit("Draft");
    reveal_strlit("Published");
    reveal_strlit("Cancelled");
    reveal_strlit("Completed");
    assert("Draft"@.len() == 5);
    assert("Published"@[0] == 'P');
    assert("Cancelled"@[1] == 'a');
    assert("Completed"@[1] == 'o');
}

impl EventStatus {
    /// The name of the state, as `Debug` prints it.
    pub open spec fn spec_name(self) -> Seq<char> {
        match self {
            EventStatus::Draft => "Draft"@,
            EventStatus::Published => "Published"@,
            EventStatus::Cancelled => "Cancelled"@,
            EventStatus::Completed => "Completed"@,
        }
    }

    /// The name of the state.
    pub fn name(&self) -> (s: &'static str)
        ensures
            s@ == self.spec_name(),
    {
        match self {
            EventStatus::Draft => "Draft",
            EventStatus::Published => "Published",
            EventStatus::Cancelled => "Cancelled",
            EventStatus::Completed => "Completed",
        }
    }

    /// The state with the given name, if there is one.
    pub open spec fn spec_parse(name: Seq<char>) -> Option<EventStatus> {
        if name == "Draft"@ {
            Some(EventStatus::Draft)
        } else if name == "Published"@ {
            Some(EventStatus::Published)
        } else if name == "Cancelled"@ {
            Some(EventStatus::Cancelled)
        } else if name == "Completed"@ {
            Some(EventStatus::Completed)
        } else {
            None
        }
    }

    /// The state with the given name, if there is one.
    pub fn parse(name: &str) -> (r: Option<EventStatus>)
        ensures
            r == Self::spec_parse(name@),
    {
        let name = name.to_string();
        if name == "Draft".to_string() {
            Some(EventStatus::Draft)
        } else if name == "Published".to_string() {
            Some(EventStatus::Published)
        } else if name == "Cancelled".to_string() {
            Some(EventStatus::Cancelled)
        } else if name == "Completed".to_string() {
            Some(EventStatus::Completed)
        } else {
            None
        }
    }

    /// Tickets are sold only for published events.
    pub open spec fn spec_is_purchasable(&self) -> bool {
        *self == EventStatus::Published
    }

    /// Whether tickets may be sold for an event in this state.
    #[verifier::when_used_as_spec(spec_is_purchasable)]
    pub fn is_purchasable(&self) -> (b: bool)
        ensures
            b == self.spec_is_purchasable(),
    {
        match self {
            EventStatus::Published => true,
            _ => false,
        }
    }
}

impl EventError {
    /// The text of the error.
    pub open spec fn spec_message(self) -> Seq<char> {
        match self {
            EventError::InvalidTransition { attempted: EventOp::Publish, .. } =>
                "Only draft events can be published."@,
            EventError::InvalidTransition { attempted: EventOp::Cancel, .. } =>
                "Only published events can be cancelled."@,
            EventError::InvalidTransition { attempted: EventOp::Complete, .. } =>
                "Only published events can be completed."@,
            EventError::NotFound => "Event not found."@,
        }
    }

    /// The text of the error, for people to read.
    pub fn message(&self) -> (s: String)
        ensures
            s@ == self.spec_message(),
    {
        match self {
            EventError::InvalidTransition { attempted: EventOp::Publish, .. } =>
                "Only draft events can be published.".to_string(),
            EventError::InvalidTransition { attempted: EventOp::Cancel, .. } =>
                "Only published events can be cancelled.".to_string(),
            EventError::InvalidTransition { attempted: EventOp::Complete, .. } =>
                "Only published events can be completed.".to_string(),
            EventError::NotFound => "Event not found.".to_string(),
        }
    }
}

/// The description of an event.
#[derive(Debug)]
pub struct Event {
    id: u128,
    title: String,
    description: Option<String>,
    location: String,
    start_time: Timestamp,
    end_time: Timestamp,
    capacity: Option<u32>,
    is_private: bool,
    creator_id: u128,
    created_at: Timestamp,
    updated_at: Timestamp,
    status: EventStatus,
    categories: Vec<String>,
    tags: Vec<String>,
    image_url: Option<String>,
}

/// What an [`Event`] holds, as mathematical values.
pub struct EventView {
    pub id: u128,
    pub title: Seq<char>,
    pub description: Option<Seq<char>>,
    pub location: Seq<char>,
    pub start_time: Timestamp,
    pub end_time: Timestamp,
    pub capacity: Option<u32>,
    pub is_private: bool,
    pub creator_id: u128,
    pub created_at: Timestamp,
    pub updated_at: Timestamp,
    pub status: EventStatus,
    pub categories: Seq<Seq<char>>,
    pub tags: Seq<Seq<char>>,
    pub image_url: Option<Seq<char>>,
}

impl View for Event {
    type V = EventView;

    closed spec fn view(&self) -> EventView {
        EventView {
            id: self.id,
            title: self.title@,
            description: self.description.deep_view(),
            location: self.location@,
            start_time: self.start_time,
            end_time: self.end_time,
            capacity: self.capacity,
            is_private: self.is_private,
            creator_id: self.creator_id,
            created_at: self.created_at,
            updated_at: self.updated_at,
            status: self.status,
            categories: self.categories.deep_view(),
            tags: self.tags.deep_view(),
            image_url: self.image_url.deep_view(),
        }
    }
}

impl DeepView for Event {
    type V = EventView;

    open spec fn deep_view(&self) -> EventView {
        self@
    }
}

impl EventView {
    /// Whether the event starts after `now`.
    pub open spec fn upcoming_at(self, now: Timestamp) -> bool {
        self.start_time.instant() > now.instant()
    }

    /// Whether `now` lies between the start and the end, both included.
    pub open spec fn ongoing_at(self, now: Timestamp) -> bool {
        self.start_time.instant() <= now.instant() <= self.end_time.instant()
    }

    /// Whether the event ended before `now`.
    pub open spec fn past_at(self, now: Timestamp) -> bool {
        self.end_time.instant() < now.instant()
    }

    /// The one-line description of the event.
    pub open spec fn summary(self) -> Seq<char> {
        self.title + " - "@ + self.start_time.text() + " at "@ + self.location + " (Status: "@
            + self.status.spec_name() + ")"@
    }

    /// Whether the title, the description, the location or a tag contains
    /// `query`, letter case disregarded.
    pub open spec fn matches(self, query: Seq<char>) -> bool {
        ||| contains_ignoring_case(self.title, query)
        ||| (self.description matches Some(d) && contains_ignoring_case(d, query))
        ||| contains_ignoring_case(self.location, query)
        ||| any_contains_ignoring_case(self.tags, query)
    }
}

impl Clone for Event {
    fn clone(&self) -> (r: Self)
        ensures
            r@ == self@,
    {
        let categories = clone_list(&self.categories);
        let tags = clone_list(&self.tags);
        assert(categories.deep_view() =~= self.categories.deep_view());
        assert(tags.deep_view() =~= self.tags.deep_view());
        Event {
            id: self.id,
            title: self.title.clone(),
            description: clone_optional(&self.description),
            location: self.location.clone(),
            start_time: self.start_time,
            end_time: self.end_time,
            capacity: self.capacity,
            is_private: self.is_private,
            creator_id: self.creator_id,
            created_at: self.created_at,
            updated_at: self.updated_at,
            status: self.status,
            categories,
            tags,
            image_url: clone_optional(&self.image_url),
        }
    }
}

impl Event {
    /// A new event in state `Draft`, with a fresh random identifier and the
    /// current time as its time of creation.
    pub fn new(
        title: String,
        description: Option<String>,
        location: String,
        start_time: Timestamp,
        end_time: Timestamp,
        capacity: Option<u32>,
        is_private: bool,
        creator_id: u128,
        categories: Vec<String>,
        tags: Vec<String>,
        image_url: Option<String>,
    ) -> (e: Event)
        ensures
            is_random_id(e@.id),
            e@.created_at.wf(),
            e@ == (EventView {
                id: e@.id,
                title: title@,
                description: description.deep_view(),
                location: location@,
                start_time,
                end_time,
                capacity,
                is_private,
                creator_id,
                created_at: e@.created_at,
                updated_at: e@.created_at,
                status: EventStatus::Draft,
                categories: categories.deep_view(),
                tags: tags.deep_view(),
                image_url: image_url.deep_view(),
            }),
    {
        let now = Timestamp::now();
        Event {
            id: fresh_id(),
            title,
            description,
            location,
            start_time,
            end_time,
            capacity,
            is_private,
            creator_id,
            created_at: now,
            updated_at: now,
            status: EventStatus::Draft,
            categories,
            tags,
            image_url,
        }
    }

    /// Takes the step `op` of the life cycle. On success only the state and
    /// the time of the last update change; on refusal nothing changes.
    pub fn advance(&mut self, op: EventOp) -> (r: Result<(), EventError>)
        ensures
            r is Ok <==> lifecycle(old(self)@.status, op) is Some,
            r is Ok ==> final(self)@ == (EventView {
                status: lifecycle(old(self)@.status, op)->0,
                updated_at: final(self)@.updated_at,
                ..old(self)@
            }),
            r matches Err(e) ==> *final(self) == *old(self) && e == (
            EventError::InvalidTransition { from: old(self)@.status, attempted: op }),
    {
        match next_status(self.status, op) {
            Ok(status) => {
                self.status = status;
                self.updated_at = Timestamp::now();
                Ok(())
            },
            Err(e) => Err(e),
        }
    }

    /// Publishes a draft, which opens the sale of tickets.
    pub fn publish(&mut self) -> (r: Result<(), EventError>)
        ensures
            r is Ok <==> old(self)@.status == EventStatus::Draft,
            r is Ok ==> final(self)@ == (EventView {
                status: EventStatus::Published,
                updated_at: final(self)@.updated_at,
                ..old(self)@
            }),
            r matches Err(e) ==> *final(self) == *old(self) && e == (
            EventError::InvalidTransition {
                from: old(self)@.status,
                attempted: EventOp::Publish,
            }),
    {
        self.advance(EventOp::Publish)
    }

    /// Cancels a published event, which closes the sale of tickets.
    pub fn cancel(&mut self) -> (r: Result<(), EventError>)
        ensures
            r is Ok <==> old(self)@.status == EventStatus::Published,
            r is Ok ==> final(self)@ == (EventView {
                status: EventStatus::Cancelled,
                updated_at: final(self)@.updated_at,
                ..old(self)@
            }),
            r matches Err(e) ==> *final(self) == *old(self) && e == (
            EventError::InvalidTransition {
                from: old(self)@.status,
                attempted: EventOp::Cancel,
            }),
    {
        self.advance(EventOp::Cancel)
    }

    /// Marks a published event as completed.
    pub fn complete(&mut self) -> (r: Result<(), EventError>)
        ensures
            r is Ok <==> old(self)@.status == EventStatus::Published,
            r is Ok ==> final(self)@ == (EventView {
                status: EventStatus::Completed,
                updated_at: final(self)@.updated_at,
                ..old(self)@
            }),
            r matches Err(e) ==> *final(self) == *old(self) && e == (
            EventError::InvalidTransition {
                from: old(self)@.status,
                attempted: EventOp::Complete,
            }),
    {
        self.advance(EventOp::Complete)
    }

    /// Replaces the title and records the time of the change.
    pub fn update_title(&mut self, new_title: String)
        ensures
            final(self)@ == (EventView {
                title: new_title@,
                updated_at: final(self)@.updated_at,
                ..old(self)@
            }),
    {
        self.title = new_title;
        self.updated_at = Timestamp::now();
    }

    /// Replaces the description and records the time of the change.
    pub fn update_description(&mut self, new_desc: Option<String>)
        ensures
            final(self)@ == (EventView {
                description: new_desc.deep_view(),
                updated_at: final(self)@.updated_at,
                ..old(self)@
            }),
    {
        self.description = new_desc;
        self.updated_at = Timestamp::now();
    }

    /// Replaces the start and the end and records the time of the change.
    pub fn update_time(&mut self, start: Timestamp, end: Timestamp)
        ensures
            final(self)@ == (EventView {
                start_time: start,
                end_time: end,
                updated_at: final(self)@.updated_at,
                ..old(self)@
            }),
    {
        self.start_time = start;
        self.end_time = end;
        self.updated_at = Timestamp::now();
    }

    /// Replaces the location and records the time of the change.
    pub fn update_location(&mut self, location: String)
        ensures
            final(self)@ == (EventView {
                location: location@,
                updated_at: final(self)@.updated_at,
                ..old(self)@
            }),
    {
        self.location = location;
        self.updated_at = Timestamp::now();
    }

    /// Sets the capacity of an event that has none yet and records the time
    /// of the change. A capacity, once set, stays: the call then changes
    /// nothing and returns `false`.
    pub fn update_capacity(&mut self, capacity: Option<u32>) -> (changed: bool)
        ensures
            changed == (old(self)@.capacity is None),
            changed ==> final(self)@ == (EventView {
                capacity,
                updated_at: final(self)@.updated_at,
                ..old(self)@
            }),
            !changed ==> *final(self) == *old(self),
    {
        if self.capacity.is_none() {
            self.capacity = capacity;
            self.updated_at = Timestamp::now();
            true
        } else {
            false
        }
    }

    /// Adds a category unless the event has it already.
    pub fn add_category(&mut self, category: String)
        ensures
            old(self)@.categories.contains(category@) ==> *final(self) == *old(self),
            !old(self)@.categories.contains(category@) ==> final(self)@ == (EventView {
                categories: old(self)@.categories.push(category@),
                updated_at: final(self)@.updated_at,
                ..old(self)@
            }),
    {
        if !list_contains(&self.categories, category.as_str()) {
            let ghost before = self.categories.deep_view();
            self.categories.push(category);
            assert(self.categories.deep_view() =~= before.push(category@));
            self.updated_at = Timestamp::now();
        }
    }

    /// Removes every occurrence of a category.
    pub fn remove_category(&mut self, category: &str)
        ensures
            final(self)@ == (EventView {
                categories: old(self)@.categories.filter(|c: Seq<char>| c != category@),
                updated_at: final(self)@.updated_at,
                ..old(self)@
            }),
    {
        self.categories = list_without(&self.categories, category);
        self.updated_at = Timestamp::now();
    }

    /// Adds a tag unless the event has it already.
    pub fn add_tag(&mut self, tag: String)
        ensures
            old(self)@.tags.contains(tag@) ==> *final(self) == *old(self),
            !old(self)@.tags.contains(tag@) ==> final(self)@ == (EventView {
                tags: old(self)@.tags.push(tag@),
                updated_at: final(self)@.updated_at,
                ..old(self)@
            }),
    {
        if !list_contains(&self.tags, tag.as_str()) {
            let ghost before = self.tags.deep_view();
            self.tags.push(tag);
            assert(self.tags.deep_view() =~= before.push(tag@));
            self.updated_at = Timestamp::now();
        }
    }

    /// Removes every occurrence of a tag.
    pub fn remove_tag(&mut self, tag: &str)
        ensures
            final(self)@ == (EventView {
                tags: old(self)@.tags.filter(|t: Seq<char>| t != tag@),
                updated_at: final(self)@.updated_at,
                ..old(self)@
            }),
    {
        self.tags = list_without(&self.tags, tag);
        self.updated_at = Timestamp::now();
    }

    /// Whether the event starts after `now`.
    pub fn is_upcoming_at(&self, now: &Timestamp) -> (b: bool)
        ensures
            b == self@.upcoming_at(*now),
    {
        self.start_time.is_after(now)
    }

    /// Whether `now` lies between the start and the end, both included.
    pub fn is_ongoing_at(&self, now: &Timestamp) -> (b: bool)
        ensures
            b == self@.ongoing_at(*now),
    {
        !self.start_time.is_after(now) && !self.end_time.is_before(now)
    }

    /// Whether the event ended before `now`.
    pub fn is_past_at(&self, now: &Timestamp) -> (b: bool)
        ensures
            b == self@.past_at(*now),
    {
        self.end_time.is_before(now)
    }

    /// Whether the event starts after the current time.
    pub fn is_upcoming(&self) -> (b: bool)
        ensures
            exists|now: Timestamp| now.wf() && b == self@.upcoming_at(now),
    {
        let now = Timestamp::now();
        self.is_upcoming_at(&now)
    }

    /// Whether the event is under way at the current time.
    pub fn is_ongoing(&self) -> (b: bool)
        ensures
            exists|now: Timestamp| now.wf() && b == self@.ongoing_at(now),
    {
        let now = Timestamp::now();
        self.is_ongoing_at(&now)
    }

    /// Whether the event ended before the current time.
    pub fn is_past(&self) -> (b: bool)
        ensures
            exists|now: Timestamp| now.wf() && b == self@.past_at(now),
    {
        let now = Timestamp::now();
        self.is_past_at(&now)
    }

    /// The time from `now` until the start; negative once it has started.
    pub fn time_until_start_from(&self, now: &Timestamp) -> (d: TimeSpan)
        ensures
            d.nanos == self@.start_time.instant() - now.instant(),
    {
        now.until(&self.start_time)
    }

    /// The time from `now` until the end; negative once it has ended.
    pub fn time_until_end_from(&self, now: &Timestamp) -> (d: TimeSpan)
        ensures
            d.nanos == self@.end_time.instant() - now.instant(),
    {
        now.until(&self.end_time)
    }

    /// The time from the current time until the start.
    pub fn time_until_start(&self) -> (d: TimeSpan)
        ensures
            exists|now: Timestamp|
                now.wf() && d.nanos == self@.start_time.instant() - now.instant(),
    {
        let now = Timestamp::now();
        self.time_until_start_from(&now)
    }

    /// The time from the current time until the end.
    pub fn time_until_end(&self) -> (d: TimeSpan)
        ensures
            exists|now: Timestamp| now.wf() && d.nanos == self@.end_time.instant() - now.instant(),
    {
        let now = Timestamp::now();
        self.time_until_end_from(&now)
    }

    /// The event's identifier.
    pub fn id(&self) -> (r: u128)
        ensures
            r == self@.id,
    {
        self.id
    }

    /// The title.
    pub fn title(&self) -> (r: &str)
        ensures
            r@ == self@.title,
    {
        self.title.as_str()
    }

    /// The description, if there is one.
    pub fn description(&self) -> (r: &Option<String>)
        ensures
            r.deep_view() == self@.description,
    {
        &self.description
    }

    /// Where the event takes place.
    pub fn location(&self) -> (r: &str)
        ensures
            r@ == self@.location,
    {
        self.location.as_str()
    }

    /// When the event starts.
    pub fn start_time(&self) -> (r: Timestamp)
        ensures
            r == self@.start_time,
    {
        self.start_time
    }

    /// When the event ends.
    pub fn end_time(&self) -> (r: Timestamp)
        ensures
            r == self@.end_time,
    {
        self.end_time
    }

    /// How many people the event admits, once that is set.
    pub fn capacity(&self) -> (r: Option<u32>)
        ensures
            r == self@.capacity,
    {
        self.capacity
    }

    /// Whether the event is private.
    pub fn is_private(&self) -> (r: bool)
        ensures
            r == self@.is_private,
    {
        self.is_private
    }

    /// The user who created the event.
    pub fn creator_id(&self) -> (r: u128)
        ensures
            r == self@.creator_id,
    {
        self.creator_id
    }

    /// When the event was created.
    pub fn created_at(&self) -> (r: Timestamp)
        ensures
            r == self@.created_at,
    {
        self.created_at
    }

    /// When the event was last changed.
    pub fn updated_at(&self) -> (r: Timestamp)
        ensures
            r == self@.updated_at,
    {
        self.updated_at
    }

    /// The state of the event.
    pub fn status(&self) -> (r: EventStatus)
        ensures
            r == self@.status,
    {
        self.status
    }

    /// The categories, in the order in which they were added.
    pub fn categories(&self) -> (r: &Vec<String>)
        ensures
            r.deep_view() == self@.categories,
    {
        &self.categories
    }

    /// The tags, in the order in which they were added.
    pub fn tags(&self) -> (r: &Vec<String>)
        ensures
            r.deep_view() == self@.tags,
    {
        &self.tags
    }

    /// The address of the event's picture, if it has one.
    pub fn image_url(&self) -> (r: &Option<String>)
        ensures
            r.deep_view() == self@.image_url,
    {
        &self.image_url
    }

    /// A one-line description: title, start, location and state.
    pub fn to_summary(&self) -> (s: String)
        ensures
            s@ == self@.summary(),
    {
        let mut s = self.title.clone();
        s.append(" - ");
        s.append(self.start_time.to_text().as_str());
        s.append(" at ");
        s.append(self.location.as_str());
        s.append(" (Status: ");
        s.append(self.status.name());
        s.append(")");
        assert(s@ =~= self@.summary());
        s
    }
}

/// What [`validate_event`] answers for an event: the first rule that the
/// event breaks, as text.
pub open spec fn event_defect(e: EventView) -> Option<Seq<char>> {
    if blank(e.title) {
        Some("Event title cannot be empty"@)
    } else if e.start_time.instant() >= e.end_time.instant() {
        Some("Start time must be before end time"@)
    } else {
        None
    }
}

/// Checks that the event has a title and starts before it ends.
pub fn validate_event(event: &Event) -> (r: Result<(), String>)
    ensures
        r is Ok <==> event_defect(event@) is None,
        r matches Err(m) ==> event_defect(event@) == Some(m@),
{
    if is_blank(event.title.as_str()) {
        return Err("Event title cannot be empty".to_string());
    }
    if !event.start_time.is_before(&event.end_time) {
        return Err("Start time must be before end time".to_string());
    }
    Ok(())
}

/// Whether the title, the description, the location or a tag of the event
/// contains `query`, letter case disregarded.
pub fn matches_query(event: &Event, query: &str) -> (b: bool)
    ensures
        b == event@.matches(query@),
{
    if contains_ignoring_letter_case(event.title.as_str(), query) {
        return true;
    }
    let in_description = match &event.description {
        Some(d) => contains_ignoring_letter_case(d.as_str(), query),
        None => false,
    };
    if in_description {
        return true;
    }
    if contains_ignoring_letter_case(event.location.as_str(), query) {
        return true;
    }
    list_any_contains_ignoring_case(&event.tags, query)
}

/// The events of `events` that start after `now`, in their order.
pub fn filter_upcoming_at(events: &[Event], now: &Timestamp) -> (r: Vec<Event>)
    ensures
        r.deep_view() == events.deep_view().filter(|e: EventView| e.upcoming_at(*now)),
{
    let ghost pred = |e: EventView| e.upcoming_at(*now);
    let mut r: Vec<Event> = Vec::new();
    let mut i: usize = 0;
    proof {
        lemma_filter_prefix_empty(events.deep_view(), pred);
        assert(r.deep_view() =~= Seq::<EventView>::empty());
    }
    while i < events.len()
        invariant
            i <= events.len(),
            pred == (|e: EventView| e.upcoming_at(*now)),
            r.deep_view() == events.deep_view().subrange(0, i as int).filter(pred),
        decreases events.len() - i,
    {
        proof {
            lemma_filter_prefix_step(events.deep_view(), i as int, pred);
        }
        if events[i].is_upcoming_at(now) {
            let ghost before = r.deep_view();
            r.push(events[i].clone());
            assert(r.deep_view() =~= before.push(events.deep_view()[i as int]));
        }
        i += 1;
    }
    proof {
        lemma_prefix_full(events.deep_view());
    }
    r
}

/// The events of `events` that start after the current time, in their order.
pub fn filter_upcoming(events: &[Event]) -> (r: Vec<Event>)
    ensures
        exists|now: Timestamp|
            now.wf() && r.deep_view() == events.deep_view().filter(
                |e: EventView| e.upcoming_at(now),
            ),
{
    let now = Timestamp::now();
    filter_upcoming_at(events, &now)
}

} // verus!
