//! The standard Catch handler.

use vstd::prelude::*;
use crate::program::{handle, handled_run, run, then_run, FoHandlers, Prog, Val};
use crate::scoped::{
    catch_boundary, catch_of, catch_outcome, catch_program, catch_then, Boundary, Catch, CatchCarrier,
    SuppliedContinuation,
};

verus! {

/// Handler for the standard `Catch` scoped effect.
///
/// Runs the protected action; an error it throws is handed to the stored
/// recovery handler, whose own errors propagate. The outer continuation
/// resumes only if the action or the recovery produces a value.
#[derive(Clone, Copy, Debug, Default)]
pub struct CatchHandler;

/// Constructs a [`CatchHandler`].
pub fn catch_handler() -> (d: CatchHandler)
    ensures
        d == CatchHandler,
{
    CatchHandler
}

impl CatchHandler {
    /// Dispatches a Catch boundary for the single-owner (`Box`) explicit
    /// runner.
    pub fn dispatch_run_explicit_catch_boundary(&self, boundary: Boundary) -> (out: Prog)
        requires
            boundary.layer is Catch,
        ensures
            forall|env: Val, input: Val| #[trigger] run(out, env, input)
                == then_run(catch_outcome(catch_of(boundary).action, catch_of(boundary).handler, env), boundary.outer, env),
            forall|h: FoHandlers, input: Val| #[trigger] handled_run(h, out, input)
                == handle(h, then_run(catch_outcome(catch_of(boundary).action, catch_of(boundary).handler, h.reader), boundary.outer, h.reader)),
    {
        catch_boundary(boundary)
    }

    /// Dispatches a Catch boundary for the shared (`Rc`) explicit runner. A
    /// program is a plain value that a multi-shot handler may resume any number
    /// of times, each resumption rerunning the whole layer, so the three runner
    /// flavours build the same program.
    pub fn dispatch_rc_run_explicit_catch_boundary(&self, boundary: Boundary) -> (out: Prog)
        requires
            boundary.layer is Catch,
        ensures
            forall|env: Val, input: Val| #[trigger] run(out, env, input)
                == then_run(catch_outcome(catch_of(boundary).action, catch_of(boundary).handler, env), boundary.outer, env),
            forall|h: FoHandlers, input: Val| #[trigger] handled_run(h, out, input)
                == handle(h, then_run(catch_outcome(catch_of(boundary).action, catch_of(boundary).handler, h.reader), boundary.outer, h.reader)),
    {
        catch_boundary(boundary)
    }

    /// Dispatches a Catch boundary for the thread-safe shared (`Arc`) explicit
    /// runner. A program is a plain value that a multi-shot handler may resume
    /// any number of times, each resumption rerunning the whole layer, so the
    /// three runner flavours build the same program.
    pub fn dispatch_arc_run_explicit_catch_boundary(&self, boundary: Boundary) -> (out: Prog)
        requires
            boundary.layer is Catch,
        ensures
            forall|env: Val, input: Val| #[trigger] run(out, env, input)
                == then_run(catch_outcome(catch_of(boundary).action, catch_of(boundary).handler, env), boundary.outer, env),
            forall|h: FoHandlers, input: Val| #[trigger] handled_run(h, out, input)
                == handle(h, then_run(catch_outcome(catch_of(boundary).action, catch_of(boundary).handler, h.reader), boundary.outer, h.reader)),
    {
        catch_boundary(boundary)
    }

    /// Dispatches a Catch carrier cell for the single-owner (`Box`) explicit
    /// runner.
    pub fn dispatch_run_explicit_catch_carrier(&self, layer: CatchCarrier) -> (out: Prog)
        ensures
            forall|env: Val, input: Val| #[trigger] run(out, env, input)
                == then_run(catch_outcome(layer.continuation.action, layer.handler, env), layer.continuation.outer, env),
            forall|h: FoHandlers, input: Val| #[trigger] handled_run(h, out, input)
                == handle(h, then_run(catch_outcome(layer.continuation.action, layer.handler, h.reader), layer.continuation.outer, h.reader)),
    {
        catch_then(layer.continuation.action, layer.handler, layer.continuation.outer)
    }

    /// Dispatches a Catch carrier cell for the shared (`Rc`) explicit runner. A
    /// program is a plain value that a multi-shot handler may resume any number
    /// of times, each resumption rerunning the whole layer, so the three runner
    /// flavours build the same program.
    pub fn dispatch_rc_run_explicit_catch_carrier(&self, layer: CatchCarrier) -> (out: Prog)
        ensures
            forall|env: Val, input: Val| #[trigger] run(out, env, input)
                == then_run(catch_outcome(layer.continuation.action, layer.handler, env), layer.continuation.outer, env),
            forall|h: FoHandlers, input: Val| #[trigger] handled_run(h, out, input)
                == handle(h, then_run(catch_outcome(layer.continuation.action, layer.handler, h.reader), layer.continuation.outer, h.reader)),
    {
        catch_then(layer.continuation.action, layer.handler, layer.continuation.outer)
    }

    /// Dispatches a Catch carrier cell for the thread-safe shared (`Arc`)
    /// explicit runner. A program is a plain value that a multi-shot handler
    /// may resume any number of times, each resumption rerunning the whole
    /// layer, so the three runner flavours build the same program.
    pub fn dispatch_arc_run_explicit_catch_carrier(&self, layer: CatchCarrier) -> (out: Prog)
        ensures
            forall|env: Val, input: Val| #[trigger] run(out, env, input)
                == then_run(catch_outcome(layer.continuation.action, layer.handler, env), layer.continuation.outer, env),
            forall|h: FoHandlers, input: Val| #[trigger] handled_run(h, out, input)
                == handle(h, then_run(catch_outcome(layer.continuation.action, layer.handler, h.reader), layer.continuation.outer, h.reader)),
    {
        catch_then(layer.continuation.action, layer.handler, layer.continuation.outer)
    }

    /// Carrier-aware dispatch: runs the protected action with recovery, then
    /// the outer continuation.
    pub fn dispatch_scoped_carrier_head(&self, layer: Catch, continuation: SuppliedContinuation) -> (out: Prog)
        ensures
            forall|env: Val, input: Val| #[trigger] run(out, env, input)
                == then_run(catch_outcome(layer.action, layer.handler, env), continuation.outer, env),
            forall|h: FoHandlers, input: Val| #[trigger] handled_run(h, out, input)
                == handle(h, then_run(catch_outcome(layer.action, layer.handler, h.reader), continuation.outer, h.reader)),
    {
        catch_then(layer.action, layer.handler, continuation.outer)
    }

    /// Interprets a scoped Catch layer: the action, with a thrown error handed
    /// to the recovery handler.
    pub fn dispatch_scoped_head(&self, layer: Catch) -> (out: Prog)
        ensures
            forall|env: Val, input: Val| #[trigger] run(out, env, input)
                == catch_outcome(layer.action, layer.handler, env),
            forall|h: FoHandlers, input: Val| #[trigger] handled_run(h, out, input)
                == handle(h, catch_outcome(layer.action, layer.handler, h.reader)),
    {
        catch_program(layer.action, layer.handler)
    }

    /// Raw scoped dispatch for the single-owner (`Box`) runner: the Catch
    /// layer, continued by the pending continuations.
    pub fn dispatch_run_raw_scoped_head(&self, layer: Catch, continuations: Prog) -> (out: Prog)
        ensures
            forall|env: Val, input: Val| #[trigger] run(out, env, input)
                == then_run(catch_outcome(layer.action, layer.handler, env), continuations, env),
            forall|h: FoHandlers, input: Val| #[trigger] handled_run(h, out, input)
                == handle(h, then_run(catch_outcome(layer.action, layer.handler, h.reader), continuations, h.reader)),
    {
        catch_then(layer.action, layer.handler, continuations)
    }

    /// Raw scoped dispatch for the shared (`Rc`) runner: the Catch layer,
    /// continued by the pending continuations. A program is a plain value that
    /// a multi-shot handler may resume any number of times, each resumption
    /// rerunning the whole layer, so the three runner flavours build the same
    /// program.
    pub fn dispatch_rc_run_raw_scoped_head(&self, layer: Catch, continuations: Prog) -> (out: Prog)
        ensures
            forall|env: Val, input: Val| #[trigger] run(out, env, input)
                == then_run(catch_outcome(layer.action, layer.handler, env), continuations, env),
            forall|h: FoHandlers, input: Val| #[trigger] handled_run(h, out, input)
                == handle(h, then_run(catch_outcome(layer.action, layer.handler, h.reader), continuations, h.reader)),
    {
        catch_then(layer.action, layer.handler, continuations)
    }

    /// Raw scoped dispatch for the thread-safe shared (`Arc`) runner: the Catch
    /// layer, continued by the pending continuations. A program is a plain
    /// value that a multi-shot handler may resume any number of times, each
    /// resumption rerunning the whole layer, so the three runner flavours build
    /// the same program.
    pub fn dispatch_arc_run_raw_scoped_head(&self, layer: Catch, continuations: Prog) -> (out: Prog)
        ensures
            forall|env: Val, input: Val| #[trigger] run(out, env, input)
                == then_run(catch_outcome(layer.action, layer.handler, env), continuations, env),
            forall|h: FoHandlers, input: Val| #[trigger] handled_run(h, out, input)
                == handle(h, then_run(catch_outcome(layer.action, layer.handler, h.reader), continuations, h.reader)),
    {
        catch_then(layer.action, layer.handler, continuations)
    }
}

} // verus!
