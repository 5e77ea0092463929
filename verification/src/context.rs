//! The shared context: owner of the last-error register and of the event
//! emission entry point.
//!
//! In the intended usage pattern only the error-level emission path writes
//! the register, so it holds the text of the most recently emitted
//! error-level event; info- and warning-level emission leave it untouched.

use vstd::prelude::*;
use vstd::string::StringExecFns;

use crate::event::EventType;
use crate::event::EventV;
use crate::render::located_message;
use crate::render::render_located;

verus! {

/// Mathematical model of a [`Context`]: the register's text and the
/// sequence of events emitted so far, in emission order.
pub struct ContextV {
    pub last_error: Seq<char>,
    pub events: Seq<EventV>,
}

/// The host object that log calls run against. It owns the single-slot
/// last-error register and collects every emitted event, in order, for
/// whatever sink the surrounding application drains them into.
pub struct Context {
    last_error: String,
    events: Vec<EventType>,
}

impl View for Context {
    type V = ContextV;

    closed spec fn view(&self) -> ContextV {
        ContextV { last_error: self.last_error@, events: self.events.deep_view() }
    }
}

/// One info-level emission: the located message is appended to the event
/// stream and the register is untouched.
pub open spec fn info_step(
    pre: ContextV,
    post: ContextV,
    file: Seq<char>,
    line: u64,
    msg: Seq<char>,
) -> bool {
    &&& post.last_error == pre.last_error
    &&& post.events == pre.events.push(EventV::Info { text: located_message(file, line, msg) })
}

/// One warning-level emission: the located message is appended to the event
/// stream and the register is untouched.
pub open spec fn warn_step(
    pre: ContextV,
    post: ContextV,
    file: Seq<char>,
    line: u64,
    msg: Seq<char>,
) -> bool {
    &&& post.last_error == pre.last_error
    &&& post.events == pre.events.push(EventV::Warning { text: located_message(file, line, msg) })
}

/// One error-level emission: the message overwrites the register and an
/// error event carrying the same message is appended to the event stream.
/// The message is emitted as-is, with no call-site prefix.
pub open spec fn error_step(pre: ContextV, post: ContextV, msg: Seq<char>) -> bool {
    &&& post.last_error == msg
    &&& post.events == pre.events.push(EventV::Error { text: msg })
}

impl Context {
    /// A fresh context: empty register, no events emitted yet.
    pub fn new() -> (r: Context)
        ensures
            r@ == (ContextV { last_error: Seq::<char>::empty(), events: Seq::<EventV>::empty() }),
    {
        let r = Context { last_error: String::new(), events: Vec::new() };
        proof {
            assert(r.events.deep_view() =~= Seq::<EventV>::empty());
        }
        r
    }

    /// Set the last-error register. Used internally by the error-level
    /// emission path; any caller may invoke it, but in the intended usage
    /// pattern only [`Context::log_error`] does.
    pub fn set_last_error(&mut self, error: &str)
        ensures
            final(self)@.last_error == error@,
            final(self)@.events == old(self)@.events,
    {
        self.last_error = error.to_owned();
    }

    /// A copy of the last-error register: the text of the most recently
    /// emitted error-level event, or the empty string if none was.
    pub fn get_last_error(&self) -> (r: String)
        ensures
            r@ == self@.last_error,
    {
        self.last_error.clone()
    }

    /// Hand one event to the sink. The event stream grows by exactly this
    /// event; the register is untouched.
    pub fn emit_event(&mut self, event: EventType)
        ensures
            final(self)@.last_error == old(self)@.last_error,
            final(self)@.events == old(self)@.events.push(event@),
    {
        let ghost pre = self.events.deep_view();
        let ghost ev = event@;
        self.events.push(event);
        proof {
            assert(self.events.deep_view() =~= pre.push(ev));
        }
    }

    /// Emit an info event located at `file`:`line` carrying `msg`.
    pub fn log_info(&mut self, file: &str, line: u64, msg: &str)
        ensures
            info_step(old(self)@, final(self)@, file@, line, msg@),
    {
        let full = render_located(file, line, msg);
        self.emit_event(EventType::Info(full));
    }

    /// Emit a warning event located at `file`:`line` carrying `msg`.
    pub fn log_warn(&mut self, file: &str, line: u64, msg: &str)
        ensures
            warn_step(old(self)@, final(self)@, file@, line, msg@),
    {
        let full = render_located(file, line, msg);
        self.emit_event(EventType::Warning(full));
    }

    /// Emit an error event carrying `msg`, first writing `msg` into the
    /// last-error register. The message gets no call-site prefix.
    pub fn log_error(&mut self, msg: &str)
        ensures
            error_step(old(self)@, final(self)@, msg@),
    {
        self.set_last_error(msg);
        self.emit_event(EventType::Error(String::from_str(msg)));
    }

    /// The events emitted so far, in emission order.
    pub fn events(&self) -> (r: &Vec<EventType>)
        ensures
            r.deep_view() == self@.events,
    {
        &self.events
    }
}

/// The text of the most recent error-level event in `events`, or `dflt` if
/// no error-level event occurs in it.
pub open spec fn last_error_event_text(events: Seq<EventV>, dflt: Seq<char>) -> Seq<char>
    decreases events.len(),
{
    if events.len() == 0 {
        dflt
    } else if events.last() is Error {
        events.last().text()
    } else {
        last_error_event_text(events.drop_last(), dflt)
    }
}

/// The register invariant of the intended usage pattern, in which only the
/// emission paths write the register: its value equals the text of the most
/// recently emitted error-level event, and is empty while none was emitted.
pub open spec fn register_consistent(c: ContextV) -> bool {
    c.last_error == last_error_event_text(c.events, Seq::<char>::empty())
}

/// Law: a fresh context satisfies the register invariant.
pub proof fn lemma_fresh_register_consistent()
    ensures
        register_consistent(
            ContextV { last_error: Seq::<char>::empty(), events: Seq::<EventV>::empty() },
        ),
{
}

/// Law: an error-level emission establishes the register invariant outright:
/// afterwards the register holds the text of the event just emitted, which is
/// the most recent error-level event.
pub proof fn lemma_error_step_consistent(pre: ContextV, post: ContextV, msg: Seq<char>)
    requires
        error_step(pre, post, msg),
    ensures
        register_consistent(post),
{
}

/// Law: warning- and info-level emission preserve the register invariant:
/// neither touches the register nor adds an error-level event. The
/// extension operation's failure branch is a warning-level emission, so it
/// is covered too.
pub proof fn lemma_nonerror_step_consistent(
    pre: ContextV,
    post: ContextV,
    file: Seq<char>,
    line: u64,
    msg: Seq<char>,
)
    requires
        register_consistent(pre),
        warn_step(pre, post, file, line, msg) || info_step(pre, post, file, line, msg),
    ensures
        register_consistent(post),
{
    assert(post.events.drop_last() =~= pre.events);
}

/// Law: the register holds the most recent error. After two error-level
/// emissions in sequence the register holds the second message, and the
/// event stream ends with the two error events in order.
pub proof fn lemma_last_write_wins(
    a: ContextV,
    b: ContextV,
    c: ContextV,
    m1: Seq<char>,
    m2: Seq<char>,
)
    requires
        error_step(a, b, m1),
        error_step(b, c, m2),
    ensures
        c.last_error == m2,
        c.events == a.events.push(EventV::Error { text: m1 }).push(EventV::Error { text: m2 }),
{
}

/// Law: warning- and info-level emission never touch the register. After an
/// error-level emission of `m`, a warning and then an info emission leave
/// the register still holding `m`.
pub proof fn lemma_register_survives_warn_info(
    a: ContextV,
    b: ContextV,
    c: ContextV,
    d: ContextV,
    m: Seq<char>,
    wfile: Seq<char>,
    wline: u64,
    wmsg: Seq<char>,
    ifile: Seq<char>,
    iline: u64,
    imsg: Seq<char>,
)
    requires
        error_step(a, b, m),
        warn_step(b, c, wfile, wline, wmsg),
        info_step(c, d, ifile, iline, imsg),
    ensures
        d.last_error == m,
{
}

} // verus!
