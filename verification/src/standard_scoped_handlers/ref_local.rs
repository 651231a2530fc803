//! The standard RefLocal handler.

use vstd::prelude::*;
use crate::program::{handle, handled_run, run, then_run, FoHandlers, Prog, Val};
use crate::scoped::{
    local_outcome, local_program, local_then, ref_local_boundary, ref_local_of, Boundary, LocalCarrier,
    RefLocal, SuppliedContinuation,
};

verus! {

/// Handler for the standard `RefLocal` scoped effect.
///
/// Asks the inherited Reader environment once, applies the stored
/// by-reference environment transform, then answers Reader asks inside the
/// action with the modified environment. The outer continuation runs under
/// the inherited environment.
#[derive(Clone, Copy, Debug, Default)]
pub struct RefLocalHandler;

/// Constructs a [`RefLocalHandler`].
pub fn ref_local_handler() -> (d: RefLocalHandler)
    ensures
        d == RefLocalHandler,
{
    RefLocalHandler
}

impl RefLocalHandler {
    /// Dispatches a RefLocal boundary for the single-owner (`Box`) explicit
    /// runner.
    pub fn dispatch_run_explicit_ref_local_boundary(&self, boundary: Boundary) -> (out: Prog)
        requires
            boundary.layer is RefLocal,
        ensures
            forall|env: Val, input: Val| #[trigger] run(out, env, input)
                == then_run(local_outcome(ref_local_of(boundary).modify, ref_local_of(boundary).action, env), boundary.outer, env),
            forall|h: FoHandlers, input: Val| #[trigger] handled_run(h, out, input)
                == handle(h, then_run(local_outcome(ref_local_of(boundary).modify, ref_local_of(boundary).action, h.reader), boundary.outer, h.reader)),
    {
        ref_local_boundary(boundary)
    }

    /// Dispatches a RefLocal boundary for the shared (`Rc`) explicit runner. A
    /// program is a plain value that a multi-shot handler may resume any number
    /// of times, each resumption rerunning the whole layer, so the three runner
    /// flavours build the same program.
    pub fn dispatch_rc_run_explicit_ref_local_boundary(&self, boundary: Boundary) -> (out: Prog)
        requires
            boundary.layer is RefLocal,
        ensures
            forall|env: Val, input: Val| #[trigger] run(out, env, input)
                == then_run(local_outcome(ref_local_of(boundary).modify, ref_local_of(boundary).action, env), boundary.outer, env),
            forall|h: FoHandlers, input: Val| #[trigger] handled_run(h, out, input)
                == handle(h, then_run(local_outcome(ref_local_of(boundary).modify, ref_local_of(boundary).action, h.reader), boundary.outer, h.reader)),
    {
        ref_local_boundary(boundary)
    }

    /// Dispatches a RefLocal boundary for the thread-safe shared (`Arc`)
    /// explicit runner. A program is a plain value that a multi-shot handler
    /// may resume any number of times, each resumption rerunning the whole
    /// layer, so the three runner flavours build the same program.
    pub fn dispatch_arc_run_explicit_ref_local_boundary(&self, boundary: Boundary) -> (out: Prog)
        requires
            boundary.layer is RefLocal,
        ensures
            forall|env: Val, input: Val| #[trigger] run(out, env, input)
                == then_run(local_outcome(ref_local_of(boundary).modify, ref_local_of(boundary).action, env), boundary.outer, env),
            forall|h: FoHandlers, input: Val| #[trigger] handled_run(h, out, input)
                == handle(h, then_run(local_outcome(ref_local_of(boundary).modify, ref_local_of(boundary).action, h.reader), boundary.outer, h.reader)),
    {
        ref_local_boundary(boundary)
    }

    /// Dispatches a RefLocal carrier cell for the single-owner (`Box`) explicit
    /// runner.
    pub fn dispatch_run_explicit_ref_local_carrier(&self, layer: LocalCarrier) -> (out: Prog)
        ensures
            forall|env: Val, input: Val| #[trigger] run(out, env, input)
                == then_run(local_outcome(layer.modify, layer.continuation.action, env), layer.continuation.outer, env),
            forall|h: FoHandlers, input: Val| #[trigger] handled_run(h, out, input)
                == handle(h, then_run(local_outcome(layer.modify, layer.continuation.action, h.reader), layer.continuation.outer, h.reader)),
    {
        local_then(layer.modify, layer.continuation.action, layer.continuation.outer)
    }

    /// Dispatches a RefLocal carrier cell for the shared (`Rc`) explicit
    /// runner. A program is a plain value that a multi-shot handler may resume
    /// any number of times, each resumption rerunning the whole layer, so the
    /// three runner flavours build the same program.
    pub fn dispatch_rc_run_explicit_ref_local_carrier(&self, layer: LocalCarrier) -> (out: Prog)
        ensures
            forall|env: Val, input: Val| #[trigger] run(out, env, input)
                == then_run(local_outcome(layer.modify, layer.continuation.action, env), layer.continuation.outer, env),
            forall|h: FoHandlers, input: Val| #[trigger] handled_run(h, out, input)
                == handle(h, then_run(local_outcome(layer.modify, layer.continuation.action, h.reader), layer.continuation.outer, h.reader)),
    {
        local_then(layer.modify, layer.continuation.action, layer.continuation.outer)
    }

    /// Dispatches a RefLocal carrier cell for the thread-safe shared (`Arc`)
    /// explicit runner. A program is a plain value that a multi-shot handler
    /// may resume any number of times, each resumption rerunning the whole
    /// layer, so the three runner flavours build the same program.
    pub fn dispatch_arc_run_explicit_ref_local_carrier(&self, layer: LocalCarrier) -> (out: Prog)
        ensures
            forall|env: Val, input: Val| #[trigger] run(out, env, input)
                == then_run(local_outcome(layer.modify, layer.continuation.action, env), layer.continuation.outer, env),
            forall|h: FoHandlers, input: Val| #[trigger] handled_run(h, out, input)
                == handle(h, then_run(local_outcome(layer.modify, layer.continuation.action, h.reader), layer.continuation.outer, h.reader)),
    {
        local_then(layer.modify, layer.continuation.action, layer.continuation.outer)
    }

    /// Carrier-aware dispatch: runs the action under the transformed
    /// environment, then the outer continuation under the inherited one.
    pub fn dispatch_scoped_carrier_head(&self, layer: RefLocal, continuation: SuppliedContinuation) -> (out: Prog)
        ensures
            forall|env: Val, input: Val| #[trigger] run(out, env, input)
                == then_run(local_outcome(layer.modify, layer.action, env), continuation.outer, env),
            forall|h: FoHandlers, input: Val| #[trigger] handled_run(h, out, input)
                == handle(h, then_run(local_outcome(layer.modify, layer.action, h.reader), continuation.outer, h.reader)),
    {
        local_then(layer.modify, layer.action, continuation.outer)
    }

    /// Interprets a scoped RefLocal layer: asks the inherited environment,
    /// transforms it, and answers every ask of the action with the transformed
    /// value.
    pub fn dispatch_scoped_head(&self, layer: RefLocal) -> (out: Prog)
        ensures
            forall|env: Val, input: Val| #[trigger] run(out, env, input)
                == local_outcome(layer.modify, layer.action, env),
            forall|h: FoHandlers, input: Val| #[trigger] handled_run(h, out, input)
                == handle(h, local_outcome(layer.modify, layer.action, h.reader)),
    {
        local_program(layer.modify, layer.action)
    }

    /// Raw scoped dispatch for the single-owner (`Box`) runner: the RefLocal
    /// layer, continued by the pending continuations.
    pub fn dispatch_run_raw_scoped_head(&self, layer: RefLocal, continuations: Prog) -> (out: Prog)
        ensures
            forall|env: Val, input: Val| #[trigger] run(out, env, input)
                == then_run(local_outcome(layer.modify, layer.action, env), continuations, env),
            forall|h: FoHandlers, input: Val| #[trigger] handled_run(h, out, input)
                == handle(h, then_run(local_outcome(layer.modify, layer.action, h.reader), continuations, h.reader)),
    {
        local_then(layer.modify, layer.action, continuations)
    }

    /// Raw scoped dispatch for the shared (`Rc`) runner: the RefLocal layer,
    /// continued by the pending continuations. A program is a plain value that
    /// a multi-shot handler may resume any number of times, each resumption
    /// rerunning the whole layer, so the three runner flavours build the same
    /// program.
    pub fn dispatch_rc_run_raw_scoped_head(&self, layer: RefLocal, continuations: Prog) -> (out: Prog)
        ensures
            forall|env: Val, input: Val| #[trigger] run(out, env, input)
                == then_run(local_outcome(layer.modify, layer.action, env), continuations, env),
            forall|h: FoHandlers, input: Val| #[trigger] handled_run(h, out, input)
                == handle(h, then_run(local_outcome(layer.modify, layer.action, h.reader), continuations, h.reader)),
    {
        local_then(layer.modify, layer.action, continuations)
    }

    /// Raw scoped dispatch for the thread-safe shared (`Arc`) runner: the
    /// RefLocal layer, continued by the pending continuations. A program is a
    /// plain value that a multi-shot handler may resume any number of times,
    /// each resumption rerunning the whole layer, so the three runner flavours
    /// build the same program.
    pub fn dispatch_arc_run_raw_scoped_head(&self, layer: RefLocal, continuations: Prog) -> (out: Prog)
        ensures
            forall|env: Val, input: Val| #[trigger] run(out, env, input)
                == then_run(local_outcome(layer.modify, layer.action, env), continuations, env),
            forall|h: FoHandlers, input: Val| #[trigger] handled_run(h, out, input)
                == handle(h, then_run(local_outcome(layer.modify, layer.action, h.reader), continuations, h.reader)),
    {
        local_then(layer.modify, layer.action, continuations)
    }
}

} // verus!
