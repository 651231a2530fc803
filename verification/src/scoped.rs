//! The standard scoped layers, the boundary and carrier shapes the
//! dispatchers consume, and what each layer means when run.

use vstd::prelude::*;
use crate::span::{span_action, span_tag, Span};
use crate::program::{after, apply, done, lemma_empty_prefix, fst_of, pair_of, run, seq_of, snd_of, then_run, Fun, Prog, RunResult, Val};

verus! {

/// The by-value Bracket lifecycle.
#[derive(Debug, PartialEq, Eq)]
pub struct Bracket {
    /// Produces the resource; runs on unit.
    pub acquire: Prog,
    /// Receives the resource and returns the pair of the resource handed
    /// back and the body result.
    pub body: Prog,
    /// Receives the handed-back resource; its result is discarded.
    pub release: Prog,
}

/// The by-reference Bracket lifecycle: body and release both observe the
/// acquired resource.
#[derive(Debug, PartialEq, Eq)]
pub struct RefBracket {
    /// Produces the resource; runs on unit.
    pub acquire: Prog,
    /// Receives the resource and returns the body result.
    pub body: Prog,
    /// Receives the same resource; its result is discarded.
    pub release: Prog,
}

/// The Catch layer: a protected action and its recovery handler.
#[derive(Debug, PartialEq, Eq)]
pub struct Catch {
    /// The protected action; runs on unit.
    pub action: Prog,
    /// Receives the thrown error.
    pub handler: Prog,
}

/// The Local layer: a by-value environment transform and the action that
/// runs under the transformed environment.
#[derive(Debug, PartialEq, Eq)]
pub struct Local {
    /// The environment transform.
    pub modify: Fun,
    /// The action; runs on unit.
    pub action: Prog,
}

/// The RefLocal layer: a by-reference environment transform and its action.
#[derive(Debug, PartialEq, Eq)]
pub struct RefLocal {
    /// The environment transform, applied to the borrowed environment.
    pub modify: Fun,
    /// The action; runs on unit.
    pub action: Prog,
}

/// One layer of the scoped row.
#[derive(Debug, PartialEq, Eq)]
pub enum ScopedLayer {
    /// A Bracket layer.
    Bracket(Bracket),
    /// A RefBracket layer.
    RefBracket(RefBracket),
    /// A Catch layer.
    Catch(Catch),
    /// A Local layer.
    Local(Local),
    /// A RefLocal layer.
    RefLocal(RefLocal),
    /// A Span layer.
    Span(Span),
}

/// A scoped boundary: the selected scoped layer and the outer continuation
/// that receives the layer's result.
#[derive(Debug, PartialEq, Eq)]
pub struct Boundary {
    /// The scoped layer the boundary was built around.
    pub layer: ScopedLayer,
    /// The outer continuation.
    pub outer: Prog,
}

/// A continuation whose action the dispatcher supplies.
#[derive(Debug, PartialEq, Eq)]
pub struct SuppliedContinuation {
    /// The outer continuation.
    pub outer: Prog,
}

/// A continuation that owns the selected action and the outer continuation.
#[derive(Debug, PartialEq, Eq)]
pub struct ScopedContinuation {
    /// The selected action; runs on unit.
    pub action: Prog,
    /// The outer continuation.
    pub outer: Prog,
}

/// The Bracket carrier cell: the lifecycle and its continuation.
#[derive(Debug, PartialEq, Eq)]
pub struct BracketCarrier {
    /// The lifecycle.
    pub bracket: Bracket,
    /// The continuation that receives the body result.
    pub continuation: SuppliedContinuation,
}

/// The RefBracket carrier cell.
#[derive(Debug, PartialEq, Eq)]
pub struct RefBracketCarrier {
    /// The lifecycle.
    pub bracket: RefBracket,
    /// The continuation that receives the body result.
    pub continuation: SuppliedContinuation,
}

/// The Local carrier cell: the transform and the continuation holding the action.
#[derive(Debug, PartialEq, Eq)]
pub struct LocalCarrier {
    /// The environment transform.
    pub modify: Fun,
    /// The continuation holding the selected action.
    pub continuation: ScopedContinuation,
}

/// The Catch carrier cell: the recovery handler and the continuation
/// holding the protected action.
#[derive(Debug, PartialEq, Eq)]
pub struct CatchCarrier {
    /// Receives the thrown error.
    pub handler: Prog,
    /// The continuation holding the protected action.
    pub continuation: ScopedContinuation,
}

/// The Span carrier cell: the tag and the continuation holding the action.
#[derive(Debug, PartialEq, Eq)]
pub struct SpanCarrier {
    /// The instrumentation tag.
    pub tag: Val,
    /// The continuation holding the selected action.
    pub continuation: ScopedContinuation,
}

/// The Bracket layer a boundary was built around.
pub open spec fn bracket_of(boundary: Boundary) -> Bracket {
    boundary.layer->Bracket_0
}

/// The RefBracket layer a boundary was built around.
pub open spec fn ref_bracket_of(boundary: Boundary) -> RefBracket {
    boundary.layer->RefBracket_0
}

/// The Catch layer a boundary was built around.
pub open spec fn catch_of(boundary: Boundary) -> Catch {
    boundary.layer->Catch_0
}

/// The Local layer a boundary was built around.
pub open spec fn local_of(boundary: Boundary) -> Local {
    boundary.layer->Local_0
}

/// The RefLocal layer a boundary was built around.
pub open spec fn ref_local_of(boundary: Boundary) -> RefLocal {
    boundary.layer->RefLocal_0
}

/// The Span layer a boundary was built around.
pub open spec fn span_of(boundary: Boundary) -> Span {
    boundary.layer->Span_0
}

// ----- What each layer means -----

/// The outcome of a Bracket lifecycle: acquire on unit, the body on the
/// resource, then release on the resource the body handed back; the value
/// is the body result. Release runs only when acquire and the body
/// succeeded; an error of release is the outcome's error.
pub open spec fn bracket_outcome(b: Bracket, env: Val) -> RunResult {
    let a = run(b.acquire, env, Val::Unit);
    match a.0 {
        Err(_) => a,
        Ok(resource) => {
            let o = run(b.body, env, resource);
            match o.0 {
                Err(_) => after(a.1, o),
                Ok(p) => {
                    let r = run(b.release, env, fst_of(p));
                    match r.0 {
                        Err(_) => after(a.1 + o.1, r),
                        Ok(_) => (Ok(snd_of(p)), a.1 + o.1 + r.1),
                    }
                },
            }
        },
    }
}

/// The outcome of a RefBracket lifecycle: acquire on unit, the body on
/// the resource, then release on the same resource; the value is the body
/// result.
pub open spec fn ref_bracket_outcome(b: RefBracket, env: Val) -> RunResult {
    let a = run(b.acquire, env, Val::Unit);
    match a.0 {
        Err(_) => a,
        Ok(resource) => {
            let o = run(b.body, env, resource);
            match o.0 {
                Err(_) => after(a.1, o),
                Ok(v) => {
                    let r = run(b.release, env, resource);
                    match r.0 {
                        Err(_) => after(a.1 + o.1, r),
                        Ok(_) => (Ok(v), a.1 + o.1 + r.1),
                    }
                },
            }
        },
    }
}

/// The outcome of a protected action: its own outcome when it finishes;
/// when it throws, the handler runs on the error after the action's log.
pub open spec fn catch_outcome(action: Prog, handler: Prog, env: Val) -> RunResult {
    let a = run(action, env, Val::Unit);
    match a.0 {
        Ok(_) => a,
        Err(e) => after(a.1, run(handler, env, e)),
    }
}

/// The outcome of an action run under the environment transformed by `modify`.
pub open spec fn local_outcome(modify: Fun, action: Prog, env: Val) -> RunResult {
    run(action, apply(modify, env), Val::Unit)
}

/// The outcome of a tagged action followed by its post action: the action
/// runs on unit; when it finishes with `v`, the post action runs on the
/// pair of the tag and `v`, after the action's log. An error of the action
/// skips the post action.
pub open spec fn post_action_outcome(tag: Val, action: Prog, post_action: Prog, env: Val) -> RunResult {
    let a = run(action, env, Val::Unit);
    match a.0 {
        Err(_) => a,
        Ok(v) => after(a.1, run(post_action, env, pair_of(tag, v))),
    }
}

/// The step that hands the pair of the tag and its input to the post action.
pub open spec fn post_action_step(tag: Val, post_action: Prog) -> Prog {
    seq_of(Prog::Pure(Fun::Both(Box::new(Fun::Const(tag)), Box::new(Fun::Id))), post_action)
}

// ----- Elaborations -----

/// Runs `p` on unit, whatever the input.
pub open spec fn thunk(p: Prog) -> Prog {
    seq_of(Prog::Pure(Fun::Const(Val::Unit)), p)
}

/// Runs `release` on the first component of a pair and then returns the
/// pair's second component.
pub open spec fn release_then_second(release: Prog) -> Prog {
    seq_of(
        Prog::Fork(Box::new(seq_of(Prog::Pure(Fun::Fst), release))),
        Prog::Pure(Fun::Then(Box::new(Fun::Fst), Box::new(Fun::Snd))),
    )
}

/// The Bracket lifecycle as one program.
pub open spec fn bracket_prog(b: Bracket) -> Prog {
    seq_of(thunk(b.acquire), seq_of(b.body, release_then_second(b.release)))
}

/// The RefBracket lifecycle as one program.
pub open spec fn ref_bracket_prog(b: RefBracket) -> Prog {
    seq_of(thunk(b.acquire), seq_of(Prog::Fork(Box::new(b.body)), release_then_second(b.release)))
}

proof fn lemma_thunk(p: Prog, env: Val, input: Val)
    ensures
        run(thunk(p), env, input) == run(p, env, Val::Unit),
{
    assert(run(Prog::Pure(Fun::Const(Val::Unit)), env, input) == done(Val::Unit));
    lemma_empty_prefix(run(p, env, Val::Unit));
}

proof fn lemma_release_then_second(release: Prog, env: Val, pv: Val)
    ensures
        ({
            let r = run(release, env, fst_of(pv));
            run(release_then_second(release), env, pv) == match r.0 {
                Err(_) => r,
                Ok(_) => (Ok(snd_of(pv)), r.1),
            }
        }),
{
    let x = seq_of(Prog::Pure(Fun::Fst), release);
    let r = run(release, env, fst_of(pv));
    lemma_empty_prefix(r);
    assert(apply(Fun::Fst, pv) == fst_of(pv));
    assert(run(Prog::Pure(Fun::Fst), env, pv) == done(fst_of(pv)));
    assert(run(x, env, pv) == r);
    let fk = run(Prog::Fork(Box::new(x)), env, pv);
    if let Ok(vr) = r.0 {
        let q = pair_of(pv, vr);
        assert(fk == (Ok::<Val, Val>(q), r.1));
        assert(apply(Fun::Fst, q) == pv);
        assert(apply(Fun::Snd, pv) == snd_of(pv));
        assert(apply(Fun::Then(Box::new(Fun::Fst), Box::new(Fun::Snd)), q) == snd_of(pv));
        assert(run(Prog::Pure(Fun::Then(Box::new(Fun::Fst), Box::new(Fun::Snd))), env, q) == done(snd_of(pv)));
        assert(r.1 + Seq::<Val>::empty() =~= r.1);
    } else {
        assert(fk == r);
    }
}

proof fn lemma_bracket_prog(b: Bracket, env: Val, input: Val)
    ensures
        run(bracket_prog(b), env, input) == bracket_outcome(b, env),
{
    let a = run(b.acquire, env, Val::Unit);
    lemma_thunk(b.acquire, env, input);
    if let Ok(resource) = a.0 {
        let o = run(b.body, env, resource);
        let t = release_then_second(b.release);
        let bt = run(seq_of(b.body, t), env, resource);
        if let Ok(pv) = o.0 {
            lemma_release_then_second(b.release, env, pv);
            let r = run(b.release, env, fst_of(pv));
            assert(bt == after(o.1, run(t, env, pv)));
            assert(a.1 + (o.1 + r.1) =~= a.1 + o.1 + r.1);
        } else {
            assert(bt == o);
        }
    }
}

proof fn lemma_ref_bracket_prog(b: RefBracket, env: Val, input: Val)
    ensures
        run(ref_bracket_prog(b), env, input) == ref_bracket_outcome(b, env),
{
    let a = run(b.acquire, env, Val::Unit);
    lemma_thunk(b.acquire, env, input);
    if let Ok(resource) = a.0 {
        let o = run(b.body, env, resource);
        let t = release_then_second(b.release);
        let fb = Prog::Fork(Box::new(b.body));
        let bt = run(seq_of(fb, t), env, resource);
        if let Ok(v) = o.0 {
            let pv = pair_of(resource, v);
            assert(run(fb, env, resource) == (Ok::<Val, Val>(pv), o.1));
            lemma_release_then_second(b.release, env, pv);
            let r = run(b.release, env, resource);
            assert(bt == after(o.1, run(t, env, pv)));
            assert(a.1 + (o.1 + r.1) =~= a.1 + o.1 + r.1);
        } else {
            assert(run(fb, env, resource) == o);
            assert(bt == o);
        }
    }
}

/// The program of a Bracket lifecycle, without continuation.
pub(crate) fn bracket_program(b: Bracket) -> (p: Prog)
    ensures
        p == bracket_prog(b),
        forall|env: Val, input: Val| #[trigger] run(p, env, input) == bracket_outcome(b, env),
{
    let ghost g = b;
    let Bracket { acquire, body, release } = b;
    let p = Prog::Bind(
        Box::new(Prog::Bind(Box::new(Prog::Pure(Fun::Const(Val::Unit))), Box::new(acquire))),
        Box::new(Prog::Bind(Box::new(body), Box::new(release_then_second_program(release)))),
    );
    assert forall|env: Val, input: Val| #[trigger] run(p, env, input) == bracket_outcome(g, env) by {
        lemma_bracket_prog(g, env, input);
    }
    p
}

/// The program of a RefBracket lifecycle, without continuation.
pub(crate) fn ref_bracket_program(b: RefBracket) -> (p: Prog)
    ensures
        p == ref_bracket_prog(b),
        forall|env: Val, input: Val| #[trigger] run(p, env, input) == ref_bracket_outcome(b, env),
{
    let ghost g = b;
    let RefBracket { acquire, body, release } = b;
    let p = Prog::Bind(
        Box::new(Prog::Bind(Box::new(Prog::Pure(Fun::Const(Val::Unit))), Box::new(acquire))),
        Box::new(Prog::Bind(Box::new(Prog::Fork(Box::new(body))), Box::new(release_then_second_program(release)))),
    );
    assert forall|env: Val, input: Val| #[trigger] run(p, env, input) == ref_bracket_outcome(g, env) by {
        lemma_ref_bracket_prog(g, env, input);
    }
    p
}

fn release_then_second_program(release: Prog) -> (p: Prog)
    ensures
        p == release_then_second(release),
{
    Prog::Bind(
        Box::new(Prog::Fork(Box::new(Prog::Bind(Box::new(Prog::Pure(Fun::Fst)), Box::new(release))))),
        Box::new(Prog::Pure(Fun::Then(Box::new(Fun::Fst), Box::new(Fun::Snd)))),
    )
}

/// The Local elaboration: asks the inherited environment, transforms it
/// and runs the action with every ask answered by the transformed value.
pub open spec fn local_prog(modify: Fun, action: Prog) -> Prog {
    seq_of(Prog::Ask, seq_of(Prog::Pure(modify), Prog::WithEnv(Box::new(action))))
}

/// The Catch elaboration: the action run on unit, recovered by the handler.
pub open spec fn catch_prog(action: Prog, handler: Prog) -> Prog {
    Prog::Recover(Box::new(thunk(action)), Box::new(handler))
}

/// The Span elaboration with a post action.
pub open spec fn span_post_prog(tag: Val, action: Prog, post_action: Prog) -> Prog {
    seq_of(thunk(action), post_action_step(tag, post_action))
}

/// The program of a Local layer, without continuation.
pub(crate) fn local_program(modify: Fun, action: Prog) -> (p: Prog)
    ensures
        p == local_prog(modify, action),
        forall|env: Val, input: Val| #[trigger] run(p, env, input) == local_outcome(modify, action, env),
{
    let ghost (m, a) = (modify, action);
    let p = Prog::Bind(
        Box::new(Prog::Ask),
        Box::new(Prog::Bind(Box::new(Prog::Pure(modify)), Box::new(Prog::WithEnv(Box::new(action))))),
    );
    assert forall|env: Val, input: Val| #[trigger] run(p, env, input) == local_outcome(m, a, env) by {
        let inner = seq_of(Prog::Pure(m), Prog::WithEnv(Box::new(a)));
        let o = run(a, apply(m, env), Val::Unit);
        assert(run(Prog::Ask, env, input) == done(env));
        assert(run(Prog::Pure(m), env, env) == done(apply(m, env)));
        assert(run(Prog::WithEnv(Box::new(a)), env, apply(m, env)) == o);
        lemma_empty_prefix(o);
        assert(run(inner, env, env) == o);
    }
    p
}

/// The program of a Catch layer, without continuation.
pub(crate) fn catch_program(action: Prog, handler: Prog) -> (p: Prog)
    ensures
        p == catch_prog(action, handler),
        forall|env: Val, input: Val| #[trigger] run(p, env, input) == catch_outcome(action, handler, env),
{
    let ghost (a, h) = (action, handler);
    let p = Prog::Recover(
        Box::new(Prog::Bind(Box::new(Prog::Pure(Fun::Const(Val::Unit))), Box::new(action))),
        Box::new(handler),
    );
    assert forall|env: Val, input: Val| #[trigger] run(p, env, input) == catch_outcome(a, h, env) by {
        lemma_thunk(a, env, input);
    }
    p
}

/// The program of a Span layer: its action run on unit.
pub(crate) fn span_program(action: Prog) -> (p: Prog)
    ensures
        p == thunk(action),
        forall|env: Val, input: Val| #[trigger] run(p, env, input) == run(action, env, Val::Unit),
{
    let ghost a = action;
    let p = Prog::Bind(Box::new(Prog::Pure(Fun::Const(Val::Unit))), Box::new(action));
    assert forall|env: Val, input: Val| #[trigger] run(p, env, input) == run(a, env, Val::Unit) by {
        lemma_thunk(a, env, input);
    }
    p
}

/// The program of a Span layer followed by its post action.
pub(crate) fn span_post_program(tag: Val, action: Prog, post_action: Prog) -> (p: Prog)
    ensures
        p == span_post_prog(tag, action, post_action),
        forall|env: Val, input: Val| #[trigger] run(p, env, input) == post_action_outcome(tag, action, post_action, env),
{
    let ghost (t, a, q) = (tag, action, post_action);
    let step = Prog::Bind(
        Box::new(Prog::Pure(Fun::Both(Box::new(Fun::Const(tag)), Box::new(Fun::Id)))),
        Box::new(post_action),
    );
    let p = Prog::Bind(
        Box::new(Prog::Bind(Box::new(Prog::Pure(Fun::Const(Val::Unit))), Box::new(action))),
        Box::new(step),
    );
    assert forall|env: Val, input: Val| #[trigger] run(p, env, input) == post_action_outcome(t, a, q, env) by {
        lemma_thunk(a, env, input);
        let o = run(a, env, Val::Unit);
        if let Ok(v) = o.0 {
            let both = Fun::Both(Box::new(Fun::Const(t)), Box::new(Fun::Id));
            assert(apply(Fun::Const(t), v) == t);
            assert(apply(Fun::Id, v) == v);
            assert(apply(both, v) == pair_of(t, v));
            assert(run(Prog::Pure(both), env, v) == done(pair_of(t, v)));
            let r = run(q, env, pair_of(t, v));
            lemma_empty_prefix(r);
            let step = post_action_step(t, q);
            assert(run(step, env, v) == r);
            assert(run(thunk(a), env, input) == o);
            assert(run(p, env, input) == after(o.1, run(step, env, v)));
        }
    }
    p
}

/// Runs `p` and then the continuation `outer` on its value.
pub(crate) fn continue_with(p: Prog, outer: Prog) -> (q: Prog)
    ensures
        q == seq_of(p, outer),
        forall|env: Val, input: Val| #[trigger] run(q, env, input) == then_run(run(p, env, input), outer, env),
{
    Prog::Bind(Box::new(p), Box::new(outer))
}

/// Runs a Bracket lifecycle and then `outer` on the body result.
pub(crate) fn bracket_then(b: Bracket, outer: Prog) -> (out: Prog)
    ensures
        forall|env: Val, input: Val| #[trigger] run(out, env, input)
            == then_run(bracket_outcome(b, env), outer, env),
{
    let p = bracket_program(b);
    continue_with(p, outer)
}

/// Runs a RefBracket lifecycle and then `outer` on the body result.
pub(crate) fn ref_bracket_then(b: RefBracket, outer: Prog) -> (out: Prog)
    ensures
        forall|env: Val, input: Val| #[trigger] run(out, env, input)
            == then_run(ref_bracket_outcome(b, env), outer, env),
{
    let p = ref_bracket_program(b);
    continue_with(p, outer)
}

/// Runs an action under a transformed environment and then `outer`,
/// which runs under the inherited environment.
pub(crate) fn local_then(modify: Fun, action: Prog, outer: Prog) -> (out: Prog)
    ensures
        forall|env: Val, input: Val| #[trigger] run(out, env, input)
            == then_run(local_outcome(modify, action, env), outer, env),
{
    let p = local_program(modify, action);
    continue_with(p, outer)
}

/// Runs a protected action with recovery and then `outer`.
pub(crate) fn catch_then(action: Prog, handler: Prog, outer: Prog) -> (out: Prog)
    ensures
        forall|env: Val, input: Val| #[trigger] run(out, env, input)
            == then_run(catch_outcome(action, handler, env), outer, env),
{
    let p = catch_program(action, handler);
    continue_with(p, outer)
}

/// Runs a tagged action unchanged and then `outer`.
pub(crate) fn span_then(action: Prog, outer: Prog) -> (out: Prog)
    ensures
        forall|env: Val, input: Val| #[trigger] run(out, env, input)
            == then_run(run(action, env, Val::Unit), outer, env),
{
    let p = span_program(action);
    continue_with(p, outer)
}

/// Runs a tagged action, its post action, and then `outer`.
pub(crate) fn span_post_then(tag: Val, action: Prog, post_action: Prog, outer: Prog) -> (out: Prog)
    ensures
        forall|env: Val, input: Val| #[trigger] run(out, env, input)
            == then_run(post_action_outcome(tag, action, post_action, env), outer, env),
{
    let p = span_post_program(tag, action, post_action);
    continue_with(p, outer)
}

/// Projects the Bracket layer out of a boundary and runs it before the
/// boundary's outer continuation.
pub(crate) fn bracket_boundary(boundary: Boundary) -> (out: Prog)
    requires
        boundary.layer is Bracket,
    ensures
        forall|env: Val, input: Val| #[trigger] run(out, env, input)
            == then_run(bracket_outcome(bracket_of(boundary), env), boundary.outer, env),
{
    let Boundary { layer, outer } = boundary;
    match layer {
        ScopedLayer::Bracket(b) => bracket_then(b, outer),
        _ => {
            proof {
                assert(false);
            }
            outer
        },
    }
}

/// Projects the RefBracket layer out of a boundary and runs it before the
/// boundary's outer continuation.
pub(crate) fn ref_bracket_boundary(boundary: Boundary) -> (out: Prog)
    requires
        boundary.layer is RefBracket,
    ensures
        forall|env: Val, input: Val| #[trigger] run(out, env, input)
            == then_run(ref_bracket_outcome(ref_bracket_of(boundary), env), boundary.outer, env),
{
    let Boundary { layer, outer } = boundary;
    match layer {
        ScopedLayer::RefBracket(b) => ref_bracket_then(b, outer),
        _ => {
            proof {
                assert(false);
            }
            outer
        },
    }
}

/// Projects the Catch layer out of a boundary and runs it before the
/// boundary's outer continuation.
pub(crate) fn catch_boundary(boundary: Boundary) -> (out: Prog)
    requires
        boundary.layer is Catch,
    ensures
        forall|env: Val, input: Val| #[trigger] run(out, env, input)
            == then_run(catch_outcome(catch_of(boundary).action, catch_of(boundary).handler, env), boundary.outer, env),
{
    let Boundary { layer, outer } = boundary;
    match layer {
        ScopedLayer::Catch(c) => catch_then(c.action, c.handler, outer),
        _ => {
            proof {
                assert(false);
            }
            outer
        },
    }
}

/// Projects the Local layer out of a boundary and runs it before the
/// boundary's outer continuation.
pub(crate) fn local_boundary(boundary: Boundary) -> (out: Prog)
    requires
        boundary.layer is Local,
    ensures
        forall|env: Val, input: Val| #[trigger] run(out, env, input)
            == then_run(local_outcome(local_of(boundary).modify, local_of(boundary).action, env), boundary.outer, env),
{
    let Boundary { layer, outer } = boundary;
    match layer {
        ScopedLayer::Local(l) => local_then(l.modify, l.action, outer),
        _ => {
            proof {
                assert(false);
            }
            outer
        },
    }
}

/// Projects the RefLocal layer out of a boundary and runs it before the
/// boundary's outer continuation.
pub(crate) fn ref_local_boundary(boundary: Boundary) -> (out: Prog)
    requires
        boundary.layer is RefLocal,
    ensures
        forall|env: Val, input: Val| #[trigger] run(out, env, input)
            == then_run(local_outcome(ref_local_of(boundary).modify, ref_local_of(boundary).action, env), boundary.outer, env),
{
    let Boundary { layer, outer } = boundary;
    match layer {
        ScopedLayer::RefLocal(l) => local_then(l.modify, l.action, outer),
        _ => {
            proof {
                assert(false);
            }
            outer
        },
    }
}

/// Projects the Span layer out of a boundary and runs its action and the
/// post action before the boundary's outer continuation.
pub(crate) fn span_boundary_with_post_action(boundary: Boundary, post_action: Prog) -> (out: Prog)
    requires
        boundary.layer is Span,
    ensures
        forall|env: Val, input: Val| #[trigger] run(out, env, input)
            == then_run(
                post_action_outcome(span_tag(span_of(boundary)), span_action(span_of(boundary)), post_action, env),
                boundary.outer,
                env,
            ),
{
    let Boundary { layer, outer } = boundary;
    match layer {
        ScopedLayer::Span(Span::Span { tag, action }) => span_post_then(tag, action, post_action, outer),
        _ => {
            proof {
                assert(false);
            }
            outer
        },
    }
}

} // verus!
