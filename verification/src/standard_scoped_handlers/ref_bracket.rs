//! The standard RefBracket handler.

use vstd::prelude::*;
use crate::program::{handle, handled_run, run, then_run, FoHandlers, Prog, Val};
use crate::scoped::{
    ref_bracket_boundary, ref_bracket_of, ref_bracket_outcome, ref_bracket_program, ref_bracket_then, Boundary,
    RefBracket, RefBracketCarrier, SuppliedContinuation,
};

verus! {

/// Handler for the standard `RefBracket` scoped effect.
///
/// Runs acquire, hands the resource to the body and then the same resource
/// to release on the normal path, and returns the body result after
/// release completes. When acquire or the body fails, release does not run.
#[derive(Clone, Copy, Debug, Default)]
pub struct RefBracketHandler;

/// Constructs a [`RefBracketHandler`].
pub fn ref_bracket_handler() -> (d: RefBracketHandler)
    ensures
        d == RefBracketHandler,
{
    RefBracketHandler
}

impl RefBracketHandler {
    /// Dispatches a RefBracket boundary for the shared (`Rc`) explicit runner.
    /// A program is a plain value that a multi-shot handler may resume any
    /// number of times, each resumption rerunning the whole layer, so the three
    /// runner flavours build the same program.
    pub fn dispatch_rc_run_explicit_ref_bracket_boundary(&self, boundary: Boundary) -> (out: Prog)
        requires
            boundary.layer is RefBracket,
        ensures
            forall|env: Val, input: Val| #[trigger] run(out, env, input)
                == then_run(ref_bracket_outcome(ref_bracket_of(boundary), env), boundary.outer, env),
            forall|h: FoHandlers, input: Val| #[trigger] handled_run(h, out, input)
                == handle(h, then_run(ref_bracket_outcome(ref_bracket_of(boundary), h.reader), boundary.outer, h.reader)),
    {
        ref_bracket_boundary(boundary)
    }

    /// Dispatches a RefBracket boundary for the thread-safe shared (`Arc`)
    /// explicit runner. A program is a plain value that a multi-shot handler
    /// may resume any number of times, each resumption rerunning the whole
    /// layer, so the three runner flavours build the same program.
    pub fn dispatch_arc_run_explicit_ref_bracket_boundary(&self, boundary: Boundary) -> (out: Prog)
        requires
            boundary.layer is RefBracket,
        ensures
            forall|env: Val, input: Val| #[trigger] run(out, env, input)
                == then_run(ref_bracket_outcome(ref_bracket_of(boundary), env), boundary.outer, env),
            forall|h: FoHandlers, input: Val| #[trigger] handled_run(h, out, input)
                == handle(h, then_run(ref_bracket_outcome(ref_bracket_of(boundary), h.reader), boundary.outer, h.reader)),
    {
        ref_bracket_boundary(boundary)
    }

    /// Dispatches a RefBracket carrier cell for the single-owner (`Box`)
    /// explicit runner.
    pub fn dispatch_run_explicit_ref_bracket_carrier(&self, layer: RefBracketCarrier) -> (out: Prog)
        ensures
            forall|env: Val, input: Val| #[trigger] run(out, env, input)
                == then_run(ref_bracket_outcome(layer.bracket, env), layer.continuation.outer, env),
            forall|h: FoHandlers, input: Val| #[trigger] handled_run(h, out, input)
                == handle(h, then_run(ref_bracket_outcome(layer.bracket, h.reader), layer.continuation.outer, h.reader)),
    {
        ref_bracket_then(layer.bracket, layer.continuation.outer)
    }

    /// Dispatches a RefBracket carrier cell for the shared (`Rc`) explicit
    /// runner. A program is a plain value that a multi-shot handler may resume
    /// any number of times, each resumption rerunning the whole layer, so the
    /// three runner flavours build the same program.
    pub fn dispatch_rc_run_explicit_ref_bracket_carrier(&self, layer: RefBracketCarrier) -> (out: Prog)
        ensures
            forall|env: Val, input: Val| #[trigger] run(out, env, input)
                == then_run(ref_bracket_outcome(layer.bracket, env), layer.continuation.outer, env),
            forall|h: FoHandlers, input: Val| #[trigger] handled_run(h, out, input)
                == handle(h, then_run(ref_bracket_outcome(layer.bracket, h.reader), layer.continuation.outer, h.reader)),
    {
        ref_bracket_then(layer.bracket, layer.continuation.outer)
    }

    /// Dispatches a RefBracket carrier cell for the thread-safe shared (`Arc`)
    /// explicit runner. A program is a plain value that a multi-shot handler
    /// may resume any number of times, each resumption rerunning the whole
    /// layer, so the three runner flavours build the same program.
    pub fn dispatch_arc_run_explicit_ref_bracket_carrier(&self, layer: RefBracketCarrier) -> (out: Prog)
        ensures
            forall|env: Val, input: Val| #[trigger] run(out, env, input)
                == then_run(ref_bracket_outcome(layer.bracket, env), layer.continuation.outer, env),
            forall|h: FoHandlers, input: Val| #[trigger] handled_run(h, out, input)
                == handle(h, then_run(ref_bracket_outcome(layer.bracket, h.reader), layer.continuation.outer, h.reader)),
    {
        ref_bracket_then(layer.bracket, layer.continuation.outer)
    }

    /// Carrier-aware dispatch: runs the RefBracket lifecycle, then the outer
    /// continuation on the body result.
    pub fn dispatch_scoped_carrier_head(&self, layer: RefBracket, continuation: SuppliedContinuation) -> (out: Prog)
        ensures
            forall|env: Val, input: Val| #[trigger] run(out, env, input)
                == then_run(ref_bracket_outcome(layer, env), continuation.outer, env),
            forall|h: FoHandlers, input: Val| #[trigger] handled_run(h, out, input)
                == handle(h, then_run(ref_bracket_outcome(layer, h.reader), continuation.outer, h.reader)),
    {
        ref_bracket_then(layer, continuation.outer)
    }

    /// Interprets a scoped RefBracket layer as the program of its lifecycle.
    pub fn dispatch_scoped_head(&self, layer: RefBracket) -> (out: Prog)
        ensures
            forall|env: Val, input: Val| #[trigger] run(out, env, input)
                == ref_bracket_outcome(layer, env),
            forall|h: FoHandlers, input: Val| #[trigger] handled_run(h, out, input)
                == handle(h, ref_bracket_outcome(layer, h.reader)),
    {
        ref_bracket_program(layer)
    }

    /// Raw scoped dispatch for the shared (`Rc`) runner: the RefBracket layer,
    /// continued by the pending continuations. A program is a plain value that
    /// a multi-shot handler may resume any number of times, each resumption
    /// rerunning the whole layer, so the three runner flavours build the same
    /// program.
    pub fn dispatch_rc_run_raw_scoped_head(&self, layer: RefBracket, continuations: Prog) -> (out: Prog)
        ensures
            forall|env: Val, input: Val| #[trigger] run(out, env, input)
                == then_run(ref_bracket_outcome(layer, env), continuations, env),
            forall|h: FoHandlers, input: Val| #[trigger] handled_run(h, out, input)
                == handle(h, then_run(ref_bracket_outcome(layer, h.reader), continuations, h.reader)),
    {
        ref_bracket_then(layer, continuations)
    }

    /// Raw scoped dispatch for the thread-safe shared (`Arc`) runner: the
    /// RefBracket layer, continued by the pending continuations. A program is a
    /// plain value that a multi-shot handler may resume any number of times,
    /// each resumption rerunning the whole layer, so the three runner flavours
    /// build the same program.
    pub fn dispatch_arc_run_raw_scoped_head(&self, layer: RefBracket, continuations: Prog) -> (out: Prog)
        ensures
            forall|env: Val, input: Val| #[trigger] run(out, env, input)
                == then_run(ref_bracket_outcome(layer, env), continuations, env),
            forall|h: FoHandlers, input: Val| #[trigger] handled_run(h, out, input)
                == handle(h, then_run(ref_bracket_outcome(layer, h.reader), continuations, h.reader)),
    {
        ref_bracket_then(layer, continuations)
    }
}

} // verus!
