//! The standard Bracket handler.

use vstd::prelude::*;
use crate::program::{handle, handled_run, run, then_run, FoHandlers, Prog, Val};
use crate::scoped::{
    bracket_boundary, bracket_of, bracket_outcome, bracket_program, bracket_then, Boundary, Bracket,
    BracketCarrier, SuppliedContinuation,
};

verus! {

/// Handler for the standard `Bracket` scoped effect.
///
/// Runs acquire, passes the acquired resource to the body, runs the
/// effectful release program on the normal path, and returns the body
/// result after release completes. When acquire or the body fails, release
/// does not run.
#[derive(Clone, Copy, Debug, Default)]
pub struct BracketHandler;

/// Constructs a [`BracketHandler`].
pub fn bracket_handler() -> (d: BracketHandler)
    ensures
        d == BracketHandler,
{
    BracketHandler
}

impl BracketHandler {
    /// Dispatches a Bracket boundary for the single-owner (`Box`) explicit
    /// runner.
    pub fn dispatch_run_explicit_bracket_boundary(&self, boundary: Boundary) -> (out: Prog)
        requires
            boundary.layer is Bracket,
        ensures
            forall|env: Val, input: Val| #[trigger] run(out, env, input)
                == then_run(bracket_outcome(bracket_of(boundary), env), boundary.outer, env),
            forall|h: FoHandlers, input: Val| #[trigger] handled_run(h, out, input)
                == handle(h, then_run(bracket_outcome(bracket_of(boundary), h.reader), boundary.outer, h.reader)),
    {
        bracket_boundary(boundary)
    }

    /// Dispatches a Bracket boundary for the shared (`Rc`) explicit runner. A
    /// program is a plain value that a multi-shot handler may resume any number
    /// of times, each resumption rerunning the whole layer, so the three runner
    /// flavours build the same program.
    pub fn dispatch_rc_run_explicit_bracket_boundary(&self, boundary: Boundary) -> (out: Prog)
        requires
            boundary.layer is Bracket,
        ensures
            forall|env: Val, input: Val| #[trigger] run(out, env, input)
                == then_run(bracket_outcome(bracket_of(boundary), env), boundary.outer, env),
            forall|h: FoHandlers, input: Val| #[trigger] handled_run(h, out, input)
                == handle(h, then_run(bracket_outcome(bracket_of(boundary), h.reader), boundary.outer, h.reader)),
    {
        bracket_boundary(boundary)
    }

    /// Dispatches a Bracket boundary for the thread-safe shared (`Arc`)
    /// explicit runner. A program is a plain value that a multi-shot handler
    /// may resume any number of times, each resumption rerunning the whole
    /// layer, so the three runner flavours build the same program.
    pub fn dispatch_arc_run_explicit_bracket_boundary(&self, boundary: Boundary) -> (out: Prog)
        requires
            boundary.layer is Bracket,
        ensures
            forall|env: Val, input: Val| #[trigger] run(out, env, input)
                == then_run(bracket_outcome(bracket_of(boundary), env), boundary.outer, env),
            forall|h: FoHandlers, input: Val| #[trigger] handled_run(h, out, input)
                == handle(h, then_run(bracket_outcome(bracket_of(boundary), h.reader), boundary.outer, h.reader)),
    {
        bracket_boundary(boundary)
    }

    /// Dispatches a Bracket carrier cell for the single-owner (`Box`) explicit
    /// runner.
    pub fn dispatch_run_explicit_bracket_carrier(&self, layer: BracketCarrier) -> (out: Prog)
        ensures
            forall|env: Val, input: Val| #[trigger] run(out, env, input)
                == then_run(bracket_outcome(layer.bracket, env), layer.continuation.outer, env),
            forall|h: FoHandlers, input: Val| #[trigger] handled_run(h, out, input)
                == handle(h, then_run(bracket_outcome(layer.bracket, h.reader), layer.continuation.outer, h.reader)),
    {
        bracket_then(layer.bracket, layer.continuation.outer)
    }

    /// Dispatches a Bracket carrier cell for the shared (`Rc`) explicit runner.
    /// A program is a plain value that a multi-shot handler may resume any
    /// number of times, each resumption rerunning the whole layer, so the three
    /// runner flavours build the same program.
    pub fn dispatch_rc_run_explicit_bracket_carrier(&self, layer: BracketCarrier) -> (out: Prog)
        ensures
            forall|env: Val, input: Val| #[trigger] run(out, env, input)
                == then_run(bracket_outcome(layer.bracket, env), layer.continuation.outer, env),
            forall|h: FoHandlers, input: Val| #[trigger] handled_run(h, out, input)
                == handle(h, then_run(bracket_outcome(layer.bracket, h.reader), layer.continuation.outer, h.reader)),
    {
        bracket_then(layer.bracket, layer.continuation.outer)
    }

    /// Dispatches a Bracket carrier cell for the thread-safe shared (`Arc`)
    /// explicit runner. A program is a plain value that a multi-shot handler
    /// may resume any number of times, each resumption rerunning the whole
    /// layer, so the three runner flavours build the same program.
    pub fn dispatch_arc_run_explicit_bracket_carrier(&self, layer: BracketCarrier) -> (out: Prog)
        ensures
            forall|env: Val, input: Val| #[trigger] run(out, env, input)
                == then_run(bracket_outcome(layer.bracket, env), layer.continuation.outer, env),
            forall|h: FoHandlers, input: Val| #[trigger] handled_run(h, out, input)
                == handle(h, then_run(bracket_outcome(layer.bracket, h.reader), layer.continuation.outer, h.reader)),
    {
        bracket_then(layer.bracket, layer.continuation.outer)
    }

    /// Carrier-aware dispatch: runs acquire, body and release, then the outer
    /// continuation on the body result.
    pub fn dispatch_scoped_carrier_head(&self, layer: Bracket, continuation: SuppliedContinuation) -> (out: Prog)
        ensures
            forall|env: Val, input: Val| #[trigger] run(out, env, input)
                == then_run(bracket_outcome(layer, env), continuation.outer, env),
            forall|h: FoHandlers, input: Val| #[trigger] handled_run(h, out, input)
                == handle(h, then_run(bracket_outcome(layer, h.reader), continuation.outer, h.reader)),
    {
        bracket_then(layer, continuation.outer)
    }

    /// Interprets a scoped Bracket layer as the program of its lifecycle.
    pub fn dispatch_scoped_head(&self, layer: Bracket) -> (out: Prog)
        ensures
            forall|env: Val, input: Val| #[trigger] run(out, env, input)
                == bracket_outcome(layer, env),
            forall|h: FoHandlers, input: Val| #[trigger] handled_run(h, out, input)
                == handle(h, bracket_outcome(layer, h.reader)),
    {
        bracket_program(layer)
    }

    /// Raw scoped dispatch for the single-owner (`Box`) runner: the Bracket
    /// layer, continued by the pending continuations.
    pub fn dispatch_run_raw_scoped_head(&self, layer: Bracket, continuations: Prog) -> (out: Prog)
        ensures
            forall|env: Val, input: Val| #[trigger] run(out, env, input)
                == then_run(bracket_outcome(layer, env), continuations, env),
            forall|h: FoHandlers, input: Val| #[trigger] handled_run(h, out, input)
                == handle(h, then_run(bracket_outcome(layer, h.reader), continuations, h.reader)),
    {
        bracket_then(layer, continuations)
    }

    /// Raw scoped dispatch for the shared (`Rc`) runner: the Bracket layer,
    /// continued by the pending continuations. A program is a plain value that
    /// a multi-shot handler may resume any number of times, each resumption
    /// rerunning the whole layer, so the three runner flavours build the same
    /// program.
    pub fn dispatch_rc_run_raw_scoped_head(&self, layer: Bracket, continuations: Prog) -> (out: Prog)
        ensures
            forall|env: Val, input: Val| #[trigger] run(out, env, input)
                == then_run(bracket_outcome(layer, env), continuations, env),
            forall|h: FoHandlers, input: Val| #[trigger] handled_run(h, out, input)
                == handle(h, then_run(bracket_outcome(layer, h.reader), continuations, h.reader)),
    {
        bracket_then(layer, continuations)
    }

    /// Raw scoped dispatch for the thread-safe shared (`Arc`) runner: the
    /// Bracket layer, continued by the pending continuations. A program is a
    /// plain value that a multi-shot handler may resume any number of times,
    /// each resumption rerunning the whole layer, so the three runner flavours
    /// build the same program.
    pub fn dispatch_arc_run_raw_scoped_head(&self, layer: Bracket, continuations: Prog) -> (out: Prog)
        ensures
            forall|env: Val, input: Val| #[trigger] run(out, env, input)
                == then_run(bracket_outcome(layer, env), continuations, env),
            forall|h: FoHandlers, input: Val| #[trigger] handled_run(h, out, input)
                == handle(h, then_run(bracket_outcome(layer, h.reader), continuations, h.reader)),
    {
        bracket_then(layer, continuations)
    }
}

} // verus!
