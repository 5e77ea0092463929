//! The result-inspecting extension operation: on a failing outcome, emit a
//! warning locating the caller and rendering the failure, never touching the
//! last-error register, then hand the outcome back (or downgrade it to an
//! `Option`).
//!
//! The call site cannot be captured automatically here, so every surface
//! takes an explicit `file`/`line` pair; the surrounding application supplies
//! the caller's location at each public entry point.

use vstd::prelude::*;
use vstd::string::StringExecFns;

use crate::context::Context;
use crate::context::warn_step;
use crate::event::EventType;
use crate::render::render_located;

verus! {

/// A failure value with a human-readable rendering. Error types the
/// extension operation inspects implement this in place of a formatting
/// trait: `display_text` returns the full display form, context chain
/// included.
pub trait ErrorDisplay {
    /// The display form of the failure, as a character sequence.
    spec fn display_spec(&self) -> Seq<char>;

    /// Render the failure for a log message.
    fn display_text(&self) -> (r: String)
        ensures
            r@ == self.display_spec(),
    ;
}

/// A plain failure value: its display form is exactly the text it holds.
#[derive(Debug)]
pub struct TextError {
    text: String,
}

impl TextError {
    /// A failure displaying as `text`.
    pub fn new(text: &str) -> (r: TextError)
        ensures
            r.display_spec() == text@,
    {
        TextError { text: text.to_owned() }
    }
}

impl ErrorDisplay for TextError {
    closed spec fn display_spec(&self) -> Seq<char> {
        self.text@
    }

    fn display_text(&self) -> (r: String) {
        self.text.clone()
    }
}

/// The body of the warning the extension operation emits: the optional
/// caller-supplied prefix, a `": "` separator when the prefix is present,
/// then the failure's display form.
pub open spec fn warn_body(prefix: Option<Seq<char>>, err: Seq<char>) -> Seq<char> {
    match prefix {
        None => err,
        Some(p) => p + seq![':', ' '] + err,
    }
}

/// One run of the extension operation's failure branch: a warning located at
/// `file`:`line` whose body is [`warn_body`] is emitted, and the last-error
/// register is untouched.
pub open spec fn ext_warn_step(
    pre: crate::context::ContextV,
    post: crate::context::ContextV,
    file: Seq<char>,
    line: u64,
    prefix: Option<Seq<char>>,
    err: Seq<char>,
) -> bool {
    warn_step(pre, post, file, line, warn_body(prefix, err))
}

/// The views of an optional prefix message.
pub open spec fn prefix_view(msg: Option<&str>) -> Option<Seq<char>> {
    match msg {
        None => None,
        Some(m) => Some(m@),
    }
}

/// Extension operations on any binary success/failure outcome whose failure
/// variant is displayable. On failure each surface emits one warning and
/// never touches the last-error register; on success each is a no-op apart
/// from the type conversion its return type implies.
pub trait LogExt<T, E: ErrorDisplay>: Sized {
    /// Whether the outcome is the success variant.
    spec fn is_ok_v(self) -> bool;

    /// The success payload (meaningful only when `is_ok_v` holds).
    spec fn ok_v(self) -> T;

    /// The failure payload (meaningful only when `is_ok_v` does not hold).
    spec fn err_v(self) -> E;

    /// Shared implementation: on failure, emit a warning located at
    /// `file`:`line` combining the optional prefix with the failure's
    /// display form; return the outcome unchanged either way.
    fn log_err_inner(self, context: &mut Context, file: &str, line: u64, msg: Option<&str>) -> (r:
        Self)
        ensures
            r == self,
            self.is_ok_v() ==> final(context)@ == old(context)@,
            !self.is_ok_v() ==> ext_warn_step(
                old(context)@,
                final(context)@,
                file@,
                line,
                prefix_view(msg),
                self.err_v().display_spec(),
            ),
    ;

    /// Emits a warning if the receiver is a failure, always with `msg` as
    /// prefix; returns the receiver unchanged.
    fn log_err(self, context: &mut Context, file: &str, line: u64, msg: &str) -> (r: Self)
        ensures
            r == self,
            self.is_ok_v() ==> final(context)@ == old(context)@,
            !self.is_ok_v() ==> ext_warn_step(
                old(context)@,
                final(context)@,
                file@,
                line,
                Some(msg@),
                self.err_v().display_spec(),
            ),
    ;

    /// Emits a prefix-less warning if the receiver is a failure; converts
    /// the receiver to an `Option`, discarding the failure payload.
    fn ok_or_log(self, context: &mut Context, file: &str, line: u64) -> (r: Option<T>)
        ensures
            r == (if self.is_ok_v() {
                Some(self.ok_v())
            } else {
                None::<T>
            }),
            self.is_ok_v() ==> final(context)@ == old(context)@,
            !self.is_ok_v() ==> ext_warn_step(
                old(context)@,
                final(context)@,
                file@,
                line,
                None,
                self.err_v().display_spec(),
            ),
    ;

    /// Like `ok_or_log`, but with `msg` prepended in the log.
    fn ok_or_log_msg(self, context: &mut Context, file: &str, line: u64, msg: &'static str) -> (r:
        Option<T>)
        ensures
            r == (if self.is_ok_v() {
                Some(self.ok_v())
            } else {
                None::<T>
            }),
            self.is_ok_v() ==> final(context)@ == old(context)@,
            !self.is_ok_v() ==> ext_warn_step(
                old(context)@,
                final(context)@,
                file@,
                line,
                Some(msg@),
                self.err_v().display_spec(),
            ),
    ;
}

impl<T, E: ErrorDisplay> LogExt<T, E> for Result<T, E> {
    open spec fn is_ok_v(self) -> bool {
        self is Ok
    }

    open spec fn ok_v(self) -> T {
        self->Ok_0
    }

    open spec fn err_v(self) -> E {
        self->Err_0
    }

    fn log_err_inner(self, context: &mut Context, file: &str, line: u64, msg: Option<&str>) -> (r:
        Self) {
        if let Err(e) = &self {
            let err_text = e.display_text();
            let body = match msg {
                None => err_text,
                Some(m) => {
                    let mut s = m.to_owned();
                    s.append(": ");
                    proof {
                        reveal_strlit(": ");
                        assert(s@ =~= m@ + seq![':', ' ']);
                    }
                    s.concat(err_text.as_str())
                },
            };
            let full = render_located(file, line, body.as_str());
            context.emit_event(EventType::Warning(full));
        }
        self
    }

    fn log_err(self, context: &mut Context, file: &str, line: u64, msg: &str) -> (r: Self) {
        self.log_err_inner(context, file, line, Some(msg))
    }

    fn ok_or_log(self, context: &mut Context, file: &str, line: u64) -> (r: Option<T>) {
        match self.log_err_inner(context, file, line, None) {
            Ok(v) => Some(v),
            Err(_) => None,
        }
    }

    fn ok_or_log_msg(self, context: &mut Context, file: &str, line: u64, msg: &'static str) -> (r:
        Option<T>) {
        match self.log_err_inner(context, file, line, Some(msg)) {
            Ok(v) => Some(v),
            Err(_) => None,
        }
    }
}

} // verus!
