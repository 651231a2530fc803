//! The Span dispatcher.

use vstd::prelude::*;
use crate::program::{handle, handled_run, run, then_run, FoHandlers, Prog, Val};
use crate::span::{span_action, span_tag, Span};
use crate::scoped::{
    post_action_outcome, span_boundary_with_post_action, span_of, span_post_then, span_program,
    span_then, Boundary, SpanCarrier, SuppliedContinuation,
};

verus! {

/// Dispatcher for the standard `Span` scoped effect.
///
/// Consumes the by-value tag and resumes the stored action program
/// unchanged.
#[derive(Clone, Copy, Debug, Default)]
pub struct SpanDispatcher;

/// Constructs a [`SpanDispatcher`].
pub fn span_dispatcher() -> (d: SpanDispatcher)
    ensures
        d == SpanDispatcher,
{
    SpanDispatcher
}

impl SpanDispatcher {
    /// Carrier-aware dispatch: resumes the Span action unchanged, then the
    /// outer continuation.
    pub fn dispatch_scoped_carrier_head(&self, layer: Span, continuation: SuppliedContinuation) -> (out: Prog)
        ensures
            forall|env: Val, input: Val| #[trigger] run(out, env, input)
                == then_run(run(span_action(layer), env, Val::Unit), continuation.outer, env),
            forall|h: FoHandlers, input: Val| #[trigger] handled_run(h, out, input)
                == handle(h, then_run(run(span_action(layer), h.reader, Val::Unit), continuation.outer, h.reader)),
    {
        span_then(match layer { Span::Span { action, .. } => action }, continuation.outer)
    }

    /// Dispatches a Span boundary for the single-owner (`Box`) explicit runner,
    /// running the post action on the pair of the tag and the action value
    /// before the outer continuation.
    pub fn dispatch_run_explicit_span_boundary_with_post_action(&self, boundary: Boundary, post_action: Prog) -> (out: Prog)
        requires
            boundary.layer is Span,
        ensures
            forall|env: Val, input: Val| #[trigger] run(out, env, input)
                == then_run(post_action_outcome(span_tag(span_of(boundary)), span_action(span_of(boundary)), post_action, env), boundary.outer, env),
            forall|h: FoHandlers, input: Val| #[trigger] handled_run(h, out, input)
                == handle(h, then_run(post_action_outcome(span_tag(span_of(boundary)), span_action(span_of(boundary)), post_action, h.reader), boundary.outer, h.reader)),
    {
        span_boundary_with_post_action(boundary, post_action)
    }

    /// Dispatches a Span boundary for the shared (`Rc`) explicit runner,
    /// running the post action on the pair of the tag and the action value
    /// before the outer continuation. A program is a plain value that a multi-
    /// shot handler may resume any number of times, each resumption rerunning
    /// the whole layer, so the three runner flavours build the same program.
    pub fn dispatch_rc_run_explicit_span_boundary_with_post_action(&self, boundary: Boundary, post_action: Prog) -> (out: Prog)
        requires
            boundary.layer is Span,
        ensures
            forall|env: Val, input: Val| #[trigger] run(out, env, input)
                == then_run(post_action_outcome(span_tag(span_of(boundary)), span_action(span_of(boundary)), post_action, env), boundary.outer, env),
            forall|h: FoHandlers, input: Val| #[trigger] handled_run(h, out, input)
                == handle(h, then_run(post_action_outcome(span_tag(span_of(boundary)), span_action(span_of(boundary)), post_action, h.reader), boundary.outer, h.reader)),
    {
        span_boundary_with_post_action(boundary, post_action)
    }

    /// Dispatches a Span boundary for the thread-safe shared (`Arc`) explicit
    /// runner, running the post action on the pair of the tag and the action
    /// value before the outer continuation. A program is a plain value that a
    /// multi-shot handler may resume any number of times, each resumption
    /// rerunning the whole layer, so the three runner flavours build the same
    /// program.
    pub fn dispatch_arc_run_explicit_span_boundary_with_post_action(&self, boundary: Boundary, post_action: Prog) -> (out: Prog)
        requires
            boundary.layer is Span,
        ensures
            forall|env: Val, input: Val| #[trigger] run(out, env, input)
                == then_run(post_action_outcome(span_tag(span_of(boundary)), span_action(span_of(boundary)), post_action, env), boundary.outer, env),
            forall|h: FoHandlers, input: Val| #[trigger] handled_run(h, out, input)
                == handle(h, then_run(post_action_outcome(span_tag(span_of(boundary)), span_action(span_of(boundary)), post_action, h.reader), boundary.outer, h.reader)),
    {
        span_boundary_with_post_action(boundary, post_action)
    }

    /// Dispatches a Span carrier cell for the single-owner (`Box`) explicit
    /// runner.
    pub fn dispatch_run_explicit_span_carrier_with_post_action(&self, layer: SpanCarrier, post_action: Prog) -> (out: Prog)
        ensures
            forall|env: Val, input: Val| #[trigger] run(out, env, input)
                == then_run(post_action_outcome(layer.tag, layer.continuation.action, post_action, env), layer.continuation.outer, env),
            forall|h: FoHandlers, input: Val| #[trigger] handled_run(h, out, input)
                == handle(h, then_run(post_action_outcome(layer.tag, layer.continuation.action, post_action, h.reader), layer.continuation.outer, h.reader)),
    {
        span_post_then(layer.tag, layer.continuation.action, post_action, layer.continuation.outer)
    }

    /// Dispatches a Span carrier cell for the shared (`Rc`) explicit runner. A
    /// program is a plain value that a multi-shot handler may resume any number
    /// of times, each resumption rerunning the whole layer, so the three runner
    /// flavours build the same program.
    pub fn dispatch_rc_run_explicit_span_carrier_with_post_action(&self, layer: SpanCarrier, post_action: Prog) -> (out: Prog)
        ensures
            forall|env: Val, input: Val| #[trigger] run(out, env, input)
                == then_run(post_action_outcome(layer.tag, layer.continuation.action, post_action, env), layer.continuation.outer, env),
            forall|h: FoHandlers, input: Val| #[trigger] handled_run(h, out, input)
                == handle(h, then_run(post_action_outcome(layer.tag, layer.continuation.action, post_action, h.reader), layer.continuation.outer, h.reader)),
    {
        span_post_then(layer.tag, layer.continuation.action, post_action, layer.continuation.outer)
    }

    /// Dispatches a Span carrier cell for the thread-safe shared (`Arc`)
    /// explicit runner. A program is a plain value that a multi-shot handler
    /// may resume any number of times, each resumption rerunning the whole
    /// layer, so the three runner flavours build the same program.
    pub fn dispatch_arc_run_explicit_span_carrier_with_post_action(&self, layer: SpanCarrier, post_action: Prog) -> (out: Prog)
        ensures
            forall|env: Val, input: Val| #[trigger] run(out, env, input)
                == then_run(post_action_outcome(layer.tag, layer.continuation.action, post_action, env), layer.continuation.outer, env),
            forall|h: FoHandlers, input: Val| #[trigger] handled_run(h, out, input)
                == handle(h, then_run(post_action_outcome(layer.tag, layer.continuation.action, post_action, h.reader), layer.continuation.outer, h.reader)),
    {
        span_post_then(layer.tag, layer.continuation.action, post_action, layer.continuation.outer)
    }

    /// Interprets a scoped Span layer as its action, unchanged.
    pub fn dispatch_scoped_head(&self, layer: Span) -> (out: Prog)
        ensures
            forall|env: Val, input: Val| #[trigger] run(out, env, input)
                == run(span_action(layer), env, Val::Unit),
            forall|h: FoHandlers, input: Val| #[trigger] handled_run(h, out, input)
                == handle(h, run(span_action(layer), h.reader, Val::Unit)),
    {
        span_program(match layer { Span::Span { action, .. } => action })
    }

    /// Raw scoped dispatch for the single-owner (`Box`) runner: the Span layer,
    /// continued by the pending continuations.
    pub fn dispatch_run_raw_scoped_head(&self, layer: Span, continuations: Prog) -> (out: Prog)
        ensures
            forall|env: Val, input: Val| #[trigger] run(out, env, input)
                == then_run(run(span_action(layer), env, Val::Unit), continuations, env),
            forall|h: FoHandlers, input: Val| #[trigger] handled_run(h, out, input)
                == handle(h, then_run(run(span_action(layer), h.reader, Val::Unit), continuations, h.reader)),
    {
        span_then(match layer { Span::Span { action, .. } => action }, continuations)
    }

    /// Raw scoped dispatch for the shared (`Rc`) runner: the Span layer,
    /// continued by the pending continuations. A program is a plain value that
    /// a multi-shot handler may resume any number of times, each resumption
    /// rerunning the whole layer, so the three runner flavours build the same
    /// program.
    pub fn dispatch_rc_run_raw_scoped_head(&self, layer: Span, continuations: Prog) -> (out: Prog)
        ensures
            forall|env: Val, input: Val| #[trigger] run(out, env, input)
                == then_run(run(span_action(layer), env, Val::Unit), continuations, env),
            forall|h: FoHandlers, input: Val| #[trigger] handled_run(h, out, input)
                == handle(h, then_run(run(span_action(layer), h.reader, Val::Unit), continuations, h.reader)),
    {
        span_then(match layer { Span::Span { action, .. } => action }, continuations)
    }

    /// Raw scoped dispatch for the thread-safe shared (`Arc`) runner: the Span
    /// layer, continued by the pending continuations. A program is a plain
    /// value that a multi-shot handler may resume any number of times, each
    /// resumption rerunning the whole layer, so the three runner flavours build
    /// the same program.
    pub fn dispatch_arc_run_raw_scoped_head(&self, layer: Span, continuations: Prog) -> (out: Prog)
        ensures
            forall|env: Val, input: Val| #[trigger] run(out, env, input)
                == then_run(run(span_action(layer), env, Val::Unit), continuations, env),
            forall|h: FoHandlers, input: Val| #[trigger] handled_run(h, out, input)
                == handle(h, then_run(run(span_action(layer), h.reader, Val::Unit), continuations, h.reader)),
    {
        span_then(match layer { Span::Span { action, .. } => action }, continuations)
    }
}

} // verus!
