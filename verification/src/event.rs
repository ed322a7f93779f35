//! What an operation tells the front end while it runs.

use vstd::prelude::*;

verus! {

/// How urgent a notification is.
#[derive(Debug, Clone, Copy, PartialEq, Eq, Structural)]
pub enum NotificationLevel {
    Info,
    Warning,
    Error,
}

/// One entry of the ordered stream that an operation emits.
#[derive(Debug, Clone, PartialEq, Eq)]
pub enum Event {
    /// A message for the operator.
    Notification { level: NotificationLevel, message: String },
    /// A long step begins; the text says which.
    StartProgress { message: String },
    /// The long step has ended.
    EndProgress,
    /// The inventory should be read again.
    Refresh,
}

/// The mathematical content of an [`Event`].
pub enum EventView {
    Notification { level: NotificationLevel, message: Seq<char> },
    StartProgress { message: Seq<char> },
    EndProgress,
    Refresh,
}

impl View for Event {
    type V = EventView;

    open spec fn view(&self) -> EventView {
        match self {
            Event::Notification { level, message } => EventView::Notification {
                level: *level,
                message: message@,
            },
            Event::StartProgress { message } => EventView::StartProgress { message: message@ },
            Event::EndProgress => EventView::EndProgress,
            Event::Refresh => EventView::Refresh,
        }
    }
}

/// The views of a sequence of events.
pub open spec fn event_views(v: Seq<Event>) -> Seq<EventView> {
    Seq::new(v.len(), |i: int| v[i]@)
}

/// An informational notification.
pub open spec fn info(message: Seq<char>) -> EventView {
    EventView::Notification { level: NotificationLevel::Info, message }
}

/// A warning.
pub open spec fn warning(message: Seq<char>) -> EventView {
    EventView::Notification { level: NotificationLevel::Warning, message }
}

/// An error notification.
pub open spec fn error(message: Seq<char>) -> EventView {
    EventView::Notification { level: NotificationLevel::Error, message }
}

/// The start of a long step.
pub open spec fn started(message: Seq<char>) -> EventView {
    EventView::StartProgress { message }
}

/// The end of a long step.
pub open spec fn ended() -> EventView {
    EventView::EndProgress
}

/// Whether an event is an error notification.
pub open spec fn is_error(e: EventView) -> bool {
    e matches EventView::Notification { level, .. } && level == NotificationLevel::Error
}

/// No event of `s` is an error notification.
pub open spec fn no_errors(s: Seq<EventView>) -> bool {
    forall|i: int| 0 <= i < s.len() ==> !is_error(#[trigger] s[i])
}

impl Event {
    pub fn info(message: String) -> (e: Event)
        ensures
            e@ == info(message@),
    {
        Event::Notification { level: NotificationLevel::Info, message }
    }

    pub fn warning(message: String) -> (e: Event)
        ensures
            e@ == warning(message@),
    {
        Event::Notification { level: NotificationLevel::Warning, message }
    }

    pub fn error(message: String) -> (e: Event)
        ensures
            e@ == error(message@),
    {
        Event::Notification { level: NotificationLevel::Error, message }
    }

    pub fn started(message: String) -> (e: Event)
        ensures
            e@ == started(message@),
    {
        Event::StartProgress { message }
    }

    pub fn ended() -> (e: Event)
        ensures
            e@ == ended(),
    {
        Event::EndProgress
    }
}

/// No events.
pub fn ev0() -> (v: Vec<Event>)
    ensures
        event_views(v@) == Seq::<EventView>::empty(),
{
    let v: Vec<Event> = Vec::new();
    assert(event_views(v@) =~= Seq::<EventView>::empty());
    v
}

/// One event.
pub fn ev1(a: Event) -> (v: Vec<Event>)
    ensures
        event_views(v@) == seq![a@],
{
    let mut v: Vec<Event> = Vec::new();
    v.push(a);
    assert(event_views(v@) =~= seq![a@]);
    v
}

/// Two events.
pub fn ev2(a: Event, b: Event) -> (v: Vec<Event>)
    ensures
        event_views(v@) == seq![a@, b@],
{
    let mut v: Vec<Event> = Vec::new();
    v.push(a);
    v.push(b);
    assert(event_views(v@) =~= seq![a@, b@]);
    v
}

/// Three events.
pub fn ev3(a: Event, b: Event, c: Event) -> (v: Vec<Event>)
    ensures
        event_views(v@) == seq![a@, b@, c@],
{
    let mut v: Vec<Event> = Vec::new();
    v.push(a);
    v.push(b);
    v.push(c);
    assert(event_views(v@) =~= seq![a@, b@, c@]);
    v
}

/// The events of `a` followed by those of `b`.
pub fn chain(a: Vec<Event>, b: Vec<Event>) -> (v: Vec<Event>)
    ensures
        event_views(v@) == event_views(a@) + event_views(b@),
{
    let mut v = a;
    let mut tail = b;
    let ghost first = v@;
    let ghost second = tail@;
    v.append(&mut tail);
    assert(event_views(v@) =~= event_views(first) + event_views(second));
    v
}

} // verus!
