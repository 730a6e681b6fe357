//! The events that reach the dashboard controller.

use vstd::prelude::*;

verus! {

/// A key, as far as the dashboard tells keys apart.
#[derive(Clone, Copy, Debug, PartialEq, Eq, Structural)]
pub enum KeyCode {
    /// A character key.
    Char(char),
    Enter,
    Esc,
    Left,
    Right,
    Up,
    Down,
    /// Any key the dashboard has no binding for.
    Other,
}

/// Whether a key went down, is held, or came up.
#[derive(Clone, Copy, Debug, PartialEq, Eq, Structural)]
pub enum KeyEventKind {
    Press,
    Repeat,
    Release,
}

/// One keyboard event.
#[derive(Clone, Copy, Debug, PartialEq, Eq, Structural)]
pub struct KeyEvent {
    pub code: KeyCode,
    pub kind: KeyEventKind,
}

impl KeyEvent {
    /// The event of pressing `code` once.
    pub open spec fn pressed(code: KeyCode) -> KeyEvent {
        KeyEvent { code, kind: KeyEventKind::Press }
    }

    /// The event of pressing `code` once.
    pub fn press(code: KeyCode) -> (event: KeyEvent)
        ensures
            event == KeyEvent::pressed(code),
    {
        KeyEvent { code, kind: KeyEventKind::Press }
    }
}

/// What the graph watcher reports.
#[derive(Debug)]
pub enum ROSEvent {
    /// A payload received on the subscribed topic.
    SubscriptionMessage(String),
    /// A node seen for the first time, by name.
    NewNode(String),
    /// A topic seen for the first time, by name and message type.
    NewTopic(String, String),
}

/// The mathematical content of a [`ROSEvent`].
pub enum ROSEventView {
    SubscriptionMessage(Seq<char>),
    NewNode(Seq<char>),
    NewTopic(Seq<char>, Seq<char>),
}

impl View for ROSEvent {
    type V = ROSEventView;

    open spec fn view(&self) -> ROSEventView {
        match self {
            ROSEvent::SubscriptionMessage(text) => ROSEventView::SubscriptionMessage(text@),
            ROSEvent::NewNode(name) => ROSEventView::NewNode(name@),
            ROSEvent::NewTopic(name, msg_type) => ROSEventView::NewTopic(name@, msg_type@),
        }
    }
}

/// Everything the controller consumes, from whichever producer it came.
#[derive(Debug)]
pub enum Event {
    /// A keyboard event.
    Input(KeyEvent),
    /// The terminal was resized to the given width and height.
    Resize(u16, u16),
    /// A report from the graph watcher.
    ROSEvent { event: ROSEvent },
}

/// The mathematical content of an [`Event`].
pub enum EventView {
    Input(KeyEvent),
    Resize(u16, u16),
    ROSEvent { event: ROSEventView },
}

impl View for Event {
    type V = EventView;

    open spec fn view(&self) -> EventView {
        match self {
            Event::Input(key) => EventView::Input(*key),
            Event::Resize(width, height) => EventView::Resize(*width, *height),
            Event::ROSEvent { event } => EventView::ROSEvent { event: event@ },
        }
    }
}

/// The mathematical content of a batch of events.
pub open spec fn event_views(events: Seq<Event>) -> Seq<EventView> {
    events.map_values(|event: Event| event@)
}

} // verus!
