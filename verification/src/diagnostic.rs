//! The bridge from the foreign library's diagnostic callback to a log that
//! each context owns and its holder drains.

use vstd::prelude::*;
use vstd::std_specs::convert::FromSpecImpl;

use crate::context::Context;
use crate::utils::Message;
use crate::Disposal;

verus! {

/// How grave the foreign library holds a diagnostic to be.
#[derive(Debug, Clone, Copy, PartialEq, Eq, Structural)]
pub enum Severity {
    Error,
    Warning,
    Remark,
    Note,
}

/// A diagnostic as the callback receives it. The handle is the foreign
/// library's and may be invalid once the callback has returned.
#[derive(Debug)]
pub struct RawDiagnostic {
    pub ptr: usize,
}

impl From<usize> for RawDiagnostic {
    fn from(ptr: usize) -> (r: Self) {
        RawDiagnostic { ptr: ptr }
    }
}

impl FromSpecImpl<usize> for RawDiagnostic {
    open spec fn obeys_from_spec() -> bool {
        true
    }

    open spec fn from_spec(ptr: usize) -> Self {
        RawDiagnostic { ptr: ptr }
    }
}

impl From<RawDiagnostic> for usize {
    fn from(wrap: RawDiagnostic) -> (r: usize) {
        wrap.ptr
    }
}

impl FromSpecImpl<RawDiagnostic> for usize {
    open spec fn obeys_from_spec() -> bool {
        true
    }

    open spec fn from_spec(wrap: RawDiagnostic) -> usize {
        wrap.ptr
    }
}

impl RawDiagnostic {
    /// The diagnostic that is kept, from the description and the severity
    /// that the foreign library gave for this raw diagnostic.
    pub fn as_diagnostic(&self, description: usize, severity: Severity) -> (d: Diagnostic)
        ensures
            d == (Diagnostic { msg: Message { ptr: description }, severity: severity }),
    {
        let msg = Message::from(description);
        Diagnostic { msg: msg, severity: severity }
    }
}

/// An extracted diagnostic: its severity and its text, which it owns.
#[derive(Debug)]
pub struct Diagnostic {
    pub msg: Message,
    pub severity: Severity,
}

impl Diagnostic {
    /// Gives the diagnostic up: what is left of it is the one call that
    /// releases its message.
    pub fn release(self) -> (d: Disposal)
        ensures
            d == Disposal::Message(self.msg.ptr),
    {
        self.msg.release()
    }
}

/// The calls that release the messages of the diagnostics, in their order.
pub open spec fn message_disposals(log: Seq<Diagnostic>) -> Seq<Disposal> {
    log.map_values(|d: Diagnostic| Disposal::Message(d.msg.ptr))
}

/// Whether the foreign library's callback slot has been bound to a log.
#[derive(Debug, Clone, Copy, PartialEq, Eq, Structural)]
pub enum BridgeState {
    Unregistered,
    Registered,
}

/// The log of one context: what the callback has reported since the last drain.
#[derive(Debug)]
pub struct DiagnosticHandlerCtx {
    values: Vec<Diagnostic>,
    state: BridgeState,
}

impl DiagnosticHandlerCtx {
    /// The diagnostics that wait in the log, oldest first.
    pub closed spec fn log(&self) -> Seq<Diagnostic> {
        self.values@
    }

    /// Whether the log has been bound to its context's callback slot.
    pub closed spec fn state(&self) -> BridgeState {
        self.state
    }

    /// An empty log that is bound to nothing yet.
    pub fn new() -> (r: Self)
        ensures
            r.log() == Seq::<Diagnostic>::empty(),
            r.state() == BridgeState::Unregistered,
    {
        DiagnosticHandlerCtx { values: Vec::new(), state: BridgeState::Unregistered }
    }

    /// Whether the log has been bound to its context's callback slot.
    pub fn is_registered(&self) -> (r: bool)
        ensures
            r == (self.state() == BridgeState::Registered),
    {
        self.state == BridgeState::Registered
    }

    /// How many diagnostics wait in the log.
    pub fn pending(&self) -> (n: usize)
        ensures
            n == self.log().len(),
    {
        self.values.len()
    }

    /// Gives the log up: what is left of it are the calls that release the
    /// messages of the diagnostics that nobody drained, in their order.
    pub fn release(self) -> (calls: Vec<Disposal>)
        ensures
            calls@ == message_disposals(self.log()),
    {
        let mut calls: Vec<Disposal> = Vec::new();
        let mut i: usize = 0;
        while i < self.values.len()
            invariant
                i <= self.values@.len(),
                calls@ == message_disposals(self.values@.take(i as int)),
            decreases self.values@.len() - i,
        {
            calls.push(Disposal::Message(self.values[i].msg.ptr));
            assert(message_disposals(self.values@.take(i + 1)) =~= message_disposals(
                self.values@.take(i as int),
            ).push(Disposal::Message(self.values@[i as int].msg.ptr)));
            i += 1;
        }
        assert(self.values@.take(i as int) =~= self.values@);
        calls
    }

    /// Drain the collected diagnostics: all of them, oldest first. The log is
    /// empty afterwards and stays bound as it was.
    pub fn drain(&mut self) -> (out: Vec<Diagnostic>)
        ensures
            out@ == drained(old(self).log()).0,
            final(self).log() == drained(old(self).log()).1,
            final(self).state() == old(self).state(),
    {
        let mut out: Vec<Diagnostic> = Vec::new();
        core::mem::swap(&mut self.values, &mut out);
        out
    }
}

/// Binds the log of `ctx` to the callback slot of its context handle. What is
/// in the log stays; a log that was bound stays bound.
pub fn register(ctx: &mut Context)
    ensures
        final(ctx).ptr == old(ctx).ptr,
        final(ctx).ctx.log() == old(ctx).ctx.log(),
        final(ctx).ctx.state() == BridgeState::Registered,
{
    ctx.ctx.state = BridgeState::Registered;
}

/// What the callback does with one report: the diagnostic, with the severity
/// and the text taken at once, goes to the end of the log.
pub fn diagnostic_handler(
    raw: RawDiagnostic,
    description: usize,
    severity: Severity,
    ctx: &mut DiagnosticHandlerCtx,
)
    ensures
        final(ctx).log() == log_after(
            old(ctx).log(),
            seq![Diagnostic { msg: Message { ptr: description }, severity: severity }],
        ),
        final(ctx).state() == old(ctx).state(),
{
    let d = raw.as_diagnostic(description, severity);
    ctx.values.push(d);
    assert(ctx.values@ =~= old(ctx).values@ + seq![d]);
}

/// The log after the callback has reported each of `reports` in turn.
pub open spec fn log_after(log: Seq<Diagnostic>, reports: Seq<Diagnostic>) -> Seq<Diagnostic> {
    log + reports
}

/// A drain, on the log as a sequence: what is handed out, and what is left.
pub open spec fn drained(log: Seq<Diagnostic>) -> (Seq<Diagnostic>, Seq<Diagnostic>) {
    (log, Seq::<Diagnostic>::empty())
}

/// Reports that come one after the other add up: the log after `first` and
/// then `second` is the log after the two in a row.
pub proof fn lemma_log_after_concat(
    log: Seq<Diagnostic>,
    first: Seq<Diagnostic>,
    second: Seq<Diagnostic>,
)
    ensures
        log_after(log_after(log, first), second) == log_after(log, first + second),
{
    assert((log + first) + second =~= log + (first + second));
}

/// Draining is destructive and ordered: after any number of reports, a drain
/// hands out what waited before them and then exactly those reports, in the
/// order in which they came, and a second drain right after it hands out
/// nothing. On a log that was empty before the reports, the first drain
/// hands out the reports and nothing else, as many as there were.
pub proof fn lemma_drain_ordered_and_destructive(log: Seq<Diagnostic>, reports: Seq<Diagnostic>)
    ensures
        drained(log_after(log, reports)).0 == log + reports,
        drained(log_after(log, reports)).0.len() == log.len() + reports.len(),
        drained(drained(log_after(log, reports)).1).0 == Seq::<Diagnostic>::empty(),
        log == Seq::<Diagnostic>::empty() ==> drained(log_after(log, reports)).0 == reports,
{
    assert(Seq::<Diagnostic>::empty() + reports =~= reports);
}

} // verus!
