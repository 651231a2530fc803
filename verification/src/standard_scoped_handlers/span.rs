//! The standard Span handler.

use vstd::prelude::*;
use crate::program::{handle, handled_run, run, then_run, FoHandlers, Prog, Val};
use crate::span::{span_action, Span};
use crate::scoped::{span_program, span_then};

verus! {

/// Handler for the standard `Span` scoped effect.
///
/// Consumes the by-value tag and resumes the stored action program
/// unchanged.
#[derive(Clone, Copy, Debug, Default)]
pub struct SpanHandler;

/// Constructs a [`SpanHandler`].
pub fn span_handler() -> (d: SpanHandler)
    ensures
        d == SpanHandler,
{
    SpanHandler
}

impl SpanHandler {
    /// Interprets a scoped Span layer as its action, unchanged.
    pub fn dispatch_scoped_head(&self, layer: Span) -> (out: Prog)
        ensures
            forall|env: Val, input: Val| #[trigger] run(out, env, input)
                == run(span_action(layer), env, Val::Unit),
            forall|h: FoHandlers, input: Val| #[trigger] handled_run(h, out, input)
                == handle(h, run(span_action(layer), h.reader, Val::Unit)),
    {
        span_program(match layer { Span::Span { action, .. } => action })
    }

    /// Raw scoped dispatch for the single-owner (`Box`) runner: the Span layer,
    /// continued by the pending continuations.
    pub fn dispatch_run_raw_scoped_head(&self, layer: Span, continuations: Prog) -> (out: Prog)
        ensures
            forall|env: Val, input: Val| #[trigger] run(out, env, input)
                == then_run(run(span_action(layer), env, Val::Unit), continuations, env),
            forall|h: FoHandlers, input: Val| #[trigger] handled_run(h, out, input)
                == handle(h, then_run(run(span_action(layer), h.reader, Val::Unit), continuations, h.reader)),
    {
        span_then(match layer { Span::Span { action, .. } => action }, continuations)
    }

    /// Raw scoped dispatch for the shared (`Rc`) runner: the Span layer,
    /// continued by the pending continuations. A program is a plain value that
    /// a multi-shot handler may resume any number of times, each resumption
    /// rerunning the whole layer, so the three runner flavours build the same
    /// program.
    pub fn dispatch_rc_run_raw_scoped_head(&self, layer: Span, continuations: Prog) -> (out: Prog)
        ensures
            forall|env: Val, input: Val| #[trigger] run(out, env, input)
                == then_run(run(span_action(layer), env, Val::Unit), continuations, env),
            forall|h: FoHandlers, input: Val| #[trigger] handled_run(h, out, input)
                == handle(h, then_run(run(span_action(layer), h.reader, Val::Unit), continuations, h.reader)),
    {
        span_then(match layer { Span::Span { action, .. } => action }, continuations)
    }

    /// Raw scoped dispatch for the thread-safe shared (`Arc`) runner: the Span
    /// layer, continued by the pending continuations. A program is a plain
    /// value that a multi-shot handler may resume any number of times, each
    /// resumption rerunning the whole layer, so the three runner flavours build
    /// the same program.
    pub fn dispatch_arc_run_raw_scoped_head(&self, layer: Span, continuations: Prog) -> (out: Prog)
        ensures
            forall|env: Val, input: Val| #[trigger] run(out, env, input)
                == then_run(run(span_action(layer), env, Val::Unit), continuations, env),
            forall|h: FoHandlers, input: Val| #[trigger] handled_run(h, out, input)
                == handle(h, then_run(run(span_action(layer), h.reader, Val::Unit), continuations, h.reader)),
    {
        span_then(match layer { Span::Span { action, .. } => action }, continuations)
    }
}

} // verus!
