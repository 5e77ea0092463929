//! Log events: one of three levels, each carrying a fully formatted message.

use vstd::prelude::*;

verus! {

/// A log event, consumed exactly once by whatever sink the host wires up.
/// The payload is the complete message text; no further structure exists.
pub enum EventType {
    Info(String),
    Warning(String),
    Error(String),
}

/// Mathematical model of an event: the level together with the message text.
pub enum EventV {
    Info { text: Seq<char> },
    Warning { text: Seq<char> },
    Error { text: Seq<char> },
}

impl View for EventType {
    type V = EventV;

    open spec fn view(&self) -> EventV {
        match self {
            EventType::Info(s) => EventV::Info { text: s@ },
            EventType::Warning(s) => EventV::Warning { text: s@ },
            EventType::Error(s) => EventV::Error { text: s@ },
        }
    }
}

impl DeepView for EventType {
    type V = EventV;

    open spec fn deep_view(&self) -> EventV {
        self.view()
    }
}

impl EventV {
    /// The message text, whatever the level.
    pub open spec fn text(self) -> Seq<char> {
        match self {
            EventV::Info { text } => text,
            EventV::Warning { text } => text,
            EventV::Error { text } => text,
        }
    }
}

} // verus!
