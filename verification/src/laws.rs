//! Laws of the scoped effects, stated over the outcomes that the
//! dispatchers' and handlers' contracts use.

use vstd::prelude::*;
use crate::program::{
    after, apply, done, fst_of, handle, handled_log, handled_run, mapped, pair_of, run, seq_of, snd_of, then_run,
    FoHandlers, Fun, Prog, RunResult, Val,
};
use crate::scoped::{
    bracket_outcome, catch_outcome, local_outcome, local_prog, post_action_outcome, ref_bracket_outcome,
    Bracket, RefBracket,
};
use crate::span::{span_action, span_mapped, span_tag, Span};
use crate::shift::{prompt_outcome, resumed_with, ShiftBody, ShiftF, Step};

verus! {

/// Resuming a continuation and then another is resuming their composition:
/// `(o >>= b) >>= c` and `o >>= (b >>= c)` give the same outcome.
pub proof fn law_continuations_compose(o: RunResult, b: Prog, c: Prog, env: Val)
    ensures
        then_run(then_run(o, b, env), c, env) == then_run(o, seq_of(b, c), env),
{
    if let Ok(v) = o.0 {
        let ob = run(b, env, v);
        if let Ok(w) = ob.0 {
            let oc = run(c, env, w);
            assert(o.1 + ob.1 + oc.1 =~= o.1 + (ob.1 + oc.1));
        }
    }
}

/// Bracket returns the body result after release completes: when acquire,
/// the body and release all succeed, the value is the body result and the
/// log is acquire's, then the body's, then release's.
pub proof fn law_bracket_result_after_release(b: Bracket, env: Val)
    requires
        run(b.acquire, env, Val::Unit).0 is Ok,
        run(b.body, env, run(b.acquire, env, Val::Unit).0->Ok_0).0 is Ok,
        run(b.release, env, fst_of(run(b.body, env, run(b.acquire, env, Val::Unit).0->Ok_0).0->Ok_0)).0 is Ok,
    ensures
        ({
            let a = run(b.acquire, env, Val::Unit);
            let o = run(b.body, env, a.0->Ok_0);
            let r = run(b.release, env, fst_of(o.0->Ok_0));
            bracket_outcome(b, env) == (Ok::<Val, Val>(snd_of(o.0->Ok_0)), a.1 + o.1 + r.1)
        }),
{
}

/// Release runs only on the normal path: when the body fails, the outcome
/// is the body's error after acquire's log, and release leaves no trace.
pub proof fn law_bracket_body_failure_skips_release(b: Bracket, env: Val)
    requires
        run(b.acquire, env, Val::Unit).0 is Ok,
        run(b.body, env, run(b.acquire, env, Val::Unit).0->Ok_0).0 is Err,
    ensures
        ({
            let a = run(b.acquire, env, Val::Unit);
            let o = run(b.body, env, a.0->Ok_0);
            bracket_outcome(b, env) == after(a.1, o)
        }),
{
}

/// When acquire fails, neither the body nor release runs.
pub proof fn law_bracket_acquire_failure(b: Bracket, env: Val)
    requires
        run(b.acquire, env, Val::Unit).0 is Err,
    ensures
        bracket_outcome(b, env) == run(b.acquire, env, Val::Unit),
{
}

/// A RefBracket is the Bracket whose body hands back the very resource it
/// observed: both give the same outcome.
pub proof fn law_ref_bracket_is_bracket_with_shared_resource(rb: RefBracket, env: Val)
    ensures
        ref_bracket_outcome(rb, env) == bracket_outcome(
            Bracket { acquire: rb.acquire, body: Prog::Fork(Box::new(rb.body)), release: rb.release },
            env,
        ),
{
    let a = run(rb.acquire, env, Val::Unit);
    if let Ok(resource) = a.0 {
        let o = run(rb.body, env, resource);
        if let Ok(v) = o.0 {
            let p = pair_of(resource, v);
            assert(run(Prog::Fork(Box::new(rb.body)), env, resource) == (Ok::<Val, Val>(p), o.1));
            assert(fst_of(p) == resource);
            assert(snd_of(p) == v);
        }
    }
}

/// Asks inside a Local action see the transformed environment.
pub proof fn law_local_ask_sees_transformed_env(modify: Fun, env: Val)
    ensures
        local_outcome(modify, Prog::Ask, env) == done(apply(modify, env)),
{
}

/// The outer continuation of a Local layer runs under the inherited
/// environment: an ask right after the action answers `env`.
pub proof fn law_local_restores_env(modify: Fun, action: Prog, env: Val)
    requires
        local_outcome(modify, action, env).0 is Ok,
    ensures
        then_run(local_outcome(modify, action, env), Prog::Ask, env)
            == (Ok::<Val, Val>(env), local_outcome(modify, action, env).1),
{
    let o = local_outcome(modify, action, env);
    assert(o.1 + Seq::<Val>::empty() =~= o.1);
}

/// A Local layer with the identity transform is its action.
pub proof fn law_local_identity(action: Prog, env: Val)
    ensures
        local_outcome(Fun::Id, action, env) == run(action, env, Val::Unit),
{
}

/// Nested Local layers compose their transforms: the inner transform
/// applies to the environment the outer one produced.
pub proof fn law_local_nesting(outer_modify: Fun, inner_modify: Fun, action: Prog, env: Val)
    ensures
        local_outcome(outer_modify, local_prog(inner_modify, action), env)
            == local_outcome(Fun::Then(Box::new(outer_modify), Box::new(inner_modify)), action, env),
{
    let e1 = apply(outer_modify, env);
    let e2 = apply(inner_modify, e1);
    let o = run(action, e2, Val::Unit);
    assert(run(Prog::Ask, e1, Val::Unit) == done(e1));
    assert(run(Prog::Pure(inner_modify), e1, e1) == done(e2));
    assert(run(Prog::WithEnv(Box::new(action)), e1, e2) == o);
    assert(Seq::<Val>::empty() + o.1 =~= o.1);
    assert(run(seq_of(Prog::Pure(inner_modify), Prog::WithEnv(Box::new(action))), e1, e1) == o);
    assert(apply(Fun::Then(Box::new(outer_modify), Box::new(inner_modify)), env) == e2);
    assert(Seq::<Val>::empty() + (Seq::<Val>::empty() + o.1) =~= o.1);
}

/// A protected action that finishes is unchanged by Catch.
pub proof fn law_catch_success_transparent(action: Prog, handler: Prog, env: Val)
    requires
        run(action, env, Val::Unit).0 is Ok,
    ensures
        catch_outcome(action, handler, env) == run(action, env, Val::Unit),
{
}

/// Catching a throw runs the handler on the thrown error.
pub proof fn law_catch_throw(error: Val, handler: Prog, env: Val)
    ensures
        catch_outcome(Prog::Throw(Fun::Const(error)), handler, env) == run(handler, env, error),
{
    let o = run(handler, env, error);
    assert(Seq::<Val>::empty() + o.1 =~= o.1);
}

/// A handler that rethrows what it catches leaves the action unchanged.
pub proof fn law_catch_rethrow(action: Prog, env: Val)
    ensures
        catch_outcome(action, Prog::Throw(Fun::Id), env) == run(action, env, Val::Unit),
{
    let a = run(action, env, Val::Unit);
    assert(a.1 + Seq::<Val>::empty() =~= a.1);
}

/// An error the handler throws is not caught again: it is the outcome's error.
pub proof fn law_catch_handler_error_propagates(action: Prog, handler: Prog, env: Val)
    requires
        run(action, env, Val::Unit).0 is Err,
        run(handler, env, run(action, env, Val::Unit).0->Err_0).0 is Err,
    ensures
        catch_outcome(action, handler, env).0 == run(handler, env, run(action, env, Val::Unit).0->Err_0).0,
{
}

/// A result-preserving post action, one that returns the action value it
/// receives, leaves a Span's outcome unchanged.
pub proof fn law_span_post_action_preserves_result(tag: Val, action: Prog, env: Val)
    ensures
        post_action_outcome(tag, action, Prog::Pure(Fun::Snd), env) == run(action, env, Val::Unit),
{
    let a = run(action, env, Val::Unit);
    if let Ok(v) = a.0 {
        let both = Fun::Both(Box::new(Fun::Const(tag)), Box::new(Fun::Id));
        assert(apply(Fun::Const(tag), v) == tag);
        assert(apply(Fun::Id, v) == v);
        assert(apply(both, v) == pair_of(tag, v));
        assert(run(Prog::Pure(both), env, v) == done(pair_of(tag, v)));
        assert(run(Prog::Pure(Fun::Snd), env, pair_of(tag, v)) == done(v));
        assert(a.1 + (Seq::<Val>::empty() + Seq::<Val>::empty()) =~= a.1);
    }
}

/// Mapping the identity over a Span keeps its tag and its behaviour.
pub proof fn law_span_map_identity(s: Span, env: Val, input: Val)
    ensures
        span_tag(span_mapped(Fun::Id, s)) == span_tag(s),
        run(span_action(span_mapped(Fun::Id, s)), env, input) == run(span_action(s), env, input),
{
    let o = run(span_action(s), env, input);
    if let Ok(v) = o.0 {
        assert(run(Prog::Pure(Fun::Id), env, v) == done(v));
        assert(o.1 + Seq::<Val>::empty() =~= o.1);
    }
}

/// Mapping `f` and then `g` over a Span behaves as mapping their composition.
pub proof fn law_span_map_composition(f: Fun, g: Fun, s: Span, env: Val, input: Val)
    ensures
        run(span_action(span_mapped(g, span_mapped(f, s))), env, input)
            == run(span_action(span_mapped(Fun::Then(Box::new(f), Box::new(g)), s)), env, input),
{
    let o = run(span_action(s), env, input);
    let fg = Fun::Then(Box::new(f), Box::new(g));
    let inner = Prog::Bind(Box::new(span_action(s)), Box::new(Prog::Pure(f)));
    let lhs = Prog::Bind(Box::new(inner), Box::new(Prog::Pure(g)));
    let rhs = Prog::Bind(Box::new(span_action(s)), Box::new(Prog::Pure(fg)));
    assert(span_action(span_mapped(g, span_mapped(f, s))) == lhs);
    assert(span_action(span_mapped(fg, s)) == rhs);
    if let Ok(v) = o.0 {
        assert(run(Prog::Pure(f), env, v) == done(apply(f, v)));
        assert(run(Prog::Pure(g), env, apply(f, v)) == done(apply(g, apply(f, v))));
        assert(run(Prog::Pure(fg), env, v) == done(apply(g, apply(f, v))));
        assert(run(inner, env, input) == (Ok::<Val, Val>(apply(f, v)), o.1 + Seq::<Val>::empty()));
        assert(o.1 + Seq::<Val>::empty() + Seq::<Val>::empty() =~= o.1 + Seq::<Val>::empty());
        assert(run(lhs, env, input) == run(rhs, env, input));
    } else {
        assert(run(inner, env, input) == o);
        assert(run(lhs, env, input) == o);
        assert(run(rhs, env, input) == o);
    }
}

/// Resuming the captured continuation at once with `v`, and answering with
/// what it completes with, is the same as continuing the tail with `v`.
pub proof fn law_shift_resume_identity(v: Val, rest: Seq<Step>, on_pure: Prog, env: Val, start: Val)
    ensures
        prompt_outcome(
            seq![Step::Shift(ShiftF::Shift(ShiftBody { prefix: Prog::Pure(Fun::Const(Val::Right(Box::new(v)))), suffix: Prog::Pure(Fun::Id) }, Fun::Id))] + rest,
            on_pure,
            env,
            start,
        ) == prompt_outcome(rest, on_pure, env, v),
{
    let body = ShiftBody { prefix: Prog::Pure(Fun::Const(Val::Right(Box::new(v)))), suffix: Prog::Pure(Fun::Id) };
    let steps = seq![Step::Shift(ShiftF::Shift(body, Fun::Id))] + rest;
    assert(steps.drop_first() =~= rest);
    assert(steps[0] == Step::Shift(ShiftF::Shift(body, Fun::Id)));
    let ans = prompt_outcome(rest, on_pure, env, v);
    if let Ok(a) = ans.0 {
        assert(run(Prog::Pure(Fun::Id), env, a) == done(a));
        assert(Seq::<Val>::empty() + ans.1 + Seq::<Val>::empty() =~= ans.1);
    } else {
        assert(Seq::<Val>::empty() + ans.1 =~= ans.1);
    }
}

/// A capture whose body, while it runs, decides to drop the continuation
/// (its prefix yields `Left(a)`) aborts the unresumed tail: the answer is
/// `a` after the body's log, whatever follows and whatever `on_pure` is.
pub proof fn law_shift_abort(body: ShiftBody, a: Val, k: Fun, rest: Seq<Step>, on_pure: Prog, env: Val, start: Val)
    requires
        run(body.prefix, env, Val::Unit).0 == Ok::<Val, Val>(Val::Left(Box::new(a))),
    ensures
        prompt_outcome(seq![Step::Shift(ShiftF::Shift(body, k))] + rest, on_pure, env, start)
            == (Ok::<Val, Val>(a), run(body.prefix, env, Val::Unit).1),
{
    let steps = seq![Step::Shift(ShiftF::Shift(body, k))] + rest;
    assert(steps[0] == Step::Shift(ShiftF::Shift(body, k)));
}

/// Composing `f` into a capture's continuation is the same as running `f`
/// right after the capture resumes.
pub proof fn law_shift_map_fuses(body: ShiftBody, k: Fun, f: Fun, rest: Seq<Step>, on_pure: Prog, env: Val, start: Val)
    ensures
        prompt_outcome(seq![Step::Shift(ShiftF::Shift(body, Fun::Then(Box::new(k), Box::new(f))))] + rest, on_pure, env, start)
            == prompt_outcome(seq![Step::Shift(ShiftF::Shift(body, k)), Step::Compute(f)] + rest, on_pure, env, start),
{
    let s1 = seq![Step::Shift(ShiftF::Shift(body, Fun::Then(Box::new(k), Box::new(f))))] + rest;
    let s2 = seq![Step::Shift(ShiftF::Shift(body, k)), Step::Compute(f)] + rest;
    assert(s1.drop_first() =~= rest);
    assert(s2.drop_first() =~= seq![Step::Compute(f)] + rest);
    assert((seq![Step::Compute(f)] + rest).drop_first() =~= rest);
    assert(s1[0] == Step::Shift(ShiftF::Shift(body, Fun::Then(Box::new(k), Box::new(f)))));
    assert(s2[0] == Step::Shift(ShiftF::Shift(body, k)));
    assert((seq![Step::Compute(f)] + rest)[0] == Step::Compute(f));
    let pre = run(body.prefix, env, Val::Unit);
    if let Ok(d) = pre.0 {
        let x = resumed_with(d);
        assert(prompt_outcome(seq![Step::Compute(f)] + rest, on_pure, env, apply(k, x))
            == prompt_outcome(rest, on_pure, env, apply(f, apply(k, x))));
    }
}


/// A shared Local program that a multi-shot choice resumes twice, once per
/// alternative, recomputes the transform from the environment on each
/// resumption: each one has the layer's outcome under `modify(env)`
/// followed by `k`, whatever alternative resumed it. The answer is the
/// pair of both answers and the log holds both resumptions' entries.
pub proof fn law_local_multi_shot(p: Prog, modify: Fun, action: Prog, k: Prog, env: Val, x: Val, y: Val)
    requires
        forall|e: Val, i: Val| #[trigger] run(p, e, i) == then_run(local_outcome(modify, action, e), k, e),
    ensures
        ({
            let o = then_run(local_outcome(modify, action, env), k, env);
            run(Prog::Branch(Box::new(p)), env, pair_of(x, y)) == match o.0 {
                Ok(v) => (Ok(pair_of(v, v)), o.1 + o.1),
                Err(_) => o,
            }
        }),
{
    let o = then_run(local_outcome(modify, action, env), k, env);
    assert(fst_of(pair_of(x, y)) == x);
    assert(snd_of(pair_of(x, y)) == y);
    assert(run(p, env, x) == o);
    assert(run(p, env, y) == o);
}

/// A shared Bracket program that a multi-shot choice resumes twice reruns
/// the whole lifecycle on each resumption: acquire, body and release run
/// again, then `k`. The answer is the pair of both answers and the log
/// holds both resumptions' entries.
pub proof fn law_bracket_multi_shot(p: Prog, b: Bracket, k: Prog, env: Val, x: Val, y: Val)
    requires
        forall|e: Val, i: Val| #[trigger] run(p, e, i) == then_run(bracket_outcome(b, e), k, e),
    ensures
        ({
            let o = then_run(bracket_outcome(b, env), k, env);
            run(Prog::Branch(Box::new(p)), env, pair_of(x, y)) == match o.0 {
                Ok(v) => (Ok(pair_of(v, v)), o.1 + o.1),
                Err(_) => o,
            }
        }),
{
    let o = then_run(bracket_outcome(b, env), k, env);
    assert(fst_of(pair_of(x, y)) == x);
    assert(snd_of(pair_of(x, y)) == y);
    assert(run(p, env, x) == o);
    assert(run(p, env, y) == o);
}

/// Under any first-order handlers, an ask inside a Local action is
/// answered with the transform of the Reader handler's answer.
pub proof fn law_local_ask_under_handlers(modify: Fun, h: FoHandlers, input: Val)
    ensures
        handled_run(h, local_prog(modify, Prog::Ask), input)
            == (Ok::<Val, Val>(apply(modify, h.reader)), Seq::<Val>::empty()),
{
    let e1 = apply(modify, h.reader);
    assert(run(Prog::Ask, h.reader, input) == done(h.reader));
    assert(run(Prog::Pure(modify), h.reader, h.reader) == done(e1));
    assert(run(Prog::Ask, e1, Val::Unit) == done(e1));
    assert(run(Prog::WithEnv(Box::new(Prog::Ask)), h.reader, e1) == done(e1));
    assert(Seq::<Val>::empty() + Seq::<Val>::empty() =~= Seq::<Val>::empty());
    let inner = seq_of(Prog::Pure(modify), Prog::WithEnv(Box::new(Prog::Ask)));
    assert(run(inner, h.reader, h.reader) == done(e1));
    assert(run(local_prog(modify, Prog::Ask), h.reader, input) == done(e1));
    assert(handled_log(h.on_tell, Seq::<Val>::empty()) =~= Seq::<Val>::empty());
}

/// An error that a Catch layer recovers never reaches the Except handler:
/// under any first-order handlers, the outcome's result is the recovery's.
pub proof fn law_catch_recovery_hides_error_from_handlers(action: Prog, handler: Prog, h: FoHandlers)
    requires
        run(action, h.reader, Val::Unit).0 is Err,
        run(handler, h.reader, run(action, h.reader, Val::Unit).0->Err_0).0 is Ok,
    ensures
        handle(h, catch_outcome(action, handler, h.reader)).0
            == run(handler, h.reader, run(action, h.reader, Val::Unit).0->Err_0).0,
{
}

/// An error of a Bracket body skips release and goes to the Except handler,
/// after the Writer handler's entries for acquire and the body.
pub proof fn law_bracket_body_error_reaches_handlers(b: Bracket, h: FoHandlers)
    requires
        run(b.acquire, h.reader, Val::Unit).0 is Ok,
        run(b.body, h.reader, run(b.acquire, h.reader, Val::Unit).0->Ok_0).0 is Err,
    ensures
        ({
            let a = run(b.acquire, h.reader, Val::Unit);
            let o = run(b.body, h.reader, a.0->Ok_0);
            handle(h, bracket_outcome(b, h.reader))
                == after(handled_log(h.on_tell, a.1 + o.1), run(h.on_throw, h.reader, o.0->Err_0))
        }),
{
}


/// Sequencing: when the first program fails, the second never runs and
/// the outcome is the first one's; when it finishes with `v`, the result
/// is the second program's on `v` and the log is the first's followed by
/// the second's.
pub proof fn law_bind_sequences(a: Prog, b: Prog, env: Val, input: Val)
    ensures
        ({
            let oa = run(a, env, input);
            let out = run(Prog::Bind(Box::new(a), Box::new(b)), env, input);
            &&& oa.0 is Err ==> out == oa
            &&& oa.0 is Ok ==> {
                let ob = run(b, env, oa.0->Ok_0);
                &&& out.0 == ob.0
                &&& out.1 == oa.1 + ob.1
            }
        }),
{
}

/// Telling logs exactly the told value and returns the input: two tells in
/// sequence log their values in the order they were told.
pub proof fn law_tells_in_order(f: Fun, g: Fun, env: Val, input: Val)
    ensures
        run(Prog::Bind(Box::new(Prog::Tell(f)), Box::new(Prog::Tell(g))), env, input)
            == (Ok::<Val, Val>(input), seq![apply(f, input), apply(g, input)]),
{
    assert(run(Prog::Tell(f), env, input) == (Ok::<Val, Val>(input), seq![apply(f, input)]));
    assert(run(Prog::Tell(g), env, input) == (Ok::<Val, Val>(input), seq![apply(g, input)]));
    assert(seq![apply(f, input)] + seq![apply(g, input)] =~= seq![apply(f, input), apply(g, input)]);
}

/// Recovery: an action that finishes is unchanged; an error it throws is
/// handed to the handler, whose result is the outcome's, after the action's
/// log.
pub proof fn law_recover_outcome(a: Prog, h: Prog, env: Val, input: Val)
    ensures
        ({
            let oa = run(a, env, input);
            let out = run(Prog::Recover(Box::new(a), Box::new(h)), env, input);
            &&& oa.0 is Ok ==> out == oa
            &&& oa.0 is Err ==> {
                let oh = run(h, env, oa.0->Err_0);
                &&& out.0 == oh.0
                &&& out.1 == oa.1 + oh.1
            }
        }),
{
}

/// Case analysis runs the left program on a `Left` payload and the right
/// program on a `Right` payload.
pub proof fn law_case_outcome(l: Prog, r: Prog, env: Val, x: Val)
    ensures
        run(Prog::Case(Box::new(l), Box::new(r)), env, Val::Left(Box::new(x))) == run(l, env, x),
        run(Prog::Case(Box::new(l), Box::new(r)), env, Val::Right(Box::new(x))) == run(r, env, x),
{
}

/// The multi-shot choice resumes the continuation on both alternatives:
/// an error of either resumption is the choice's error (the second
/// resumption does not run after an error of the first), and when both
/// finish the answer is the pair of their answers; the log is the first
/// resumption's followed by the second's.
pub proof fn law_branch_outcome(k: Prog, env: Val, x: Val, y: Val)
    ensures
        ({
            let o1 = run(k, env, x);
            let o2 = run(k, env, y);
            let out = run(Prog::Branch(Box::new(k)), env, pair_of(x, y));
            &&& o1.0 is Err ==> out == o1
            &&& (o1.0 is Ok && o2.0 is Err) ==> out.0 == o2.0 && out.1 == o1.1 + o2.1
            &&& (o1.0 is Ok && o2.0 is Ok) ==> out.0 == Ok::<Val, Val>(pair_of(o1.0->Ok_0, o2.0->Ok_0))
                && out.1 == o1.1 + o2.1
        }),
{
    assert(fst_of(pair_of(x, y)) == x);
    assert(snd_of(pair_of(x, y)) == y);
}

/// Under first-order handlers, the log is the raw log with each told value
/// passed through the Writer handler, entry by entry and in order; a run
/// that finishes keeps its result and adds nothing to the log, and an
/// escaping error makes the Except handler's outcome the result, its log
/// following the handled entries.
pub proof fn law_handled_log_in_order(h: FoHandlers, p: Prog, input: Val)
    ensures
        ({
            let raw = run(p, h.reader, input);
            let out = handled_run(h, p, input);
            &&& out.1.len() >= raw.1.len()
            &&& forall|i: int| 0 <= i < raw.1.len() ==> #[trigger] out.1[i] == apply(h.on_tell, raw.1[i])
            &&& raw.0 is Ok ==> out.0 == raw.0 && out.1.len() == raw.1.len()
            &&& raw.0 is Err ==> {
                let oh = run(h.on_throw, h.reader, raw.0->Err_0);
                &&& out.0 == oh.0
                &&& out.1.len() == raw.1.len() + oh.1.len()
                &&& forall|j: int| 0 <= j < oh.1.len() ==> #[trigger] out.1[raw.1.len() + j] == oh.1[j]
            }
        }),
{
}

/// Delimiting re-emits an effect of the row: when it throws, the tail
/// steps and the return clause never run and the error is the outcome;
/// when it finishes with `w`, the rest is delimited from `w`, after the
/// effect's log.
pub proof fn law_shift_effect_reemitted(p: Prog, rest: Seq<Step>, on_pure: Prog, env: Val, v: Val)
    ensures
        ({
            let o = run(p, env, v);
            let out = prompt_outcome(seq![Step::Effect(p)] + rest, on_pure, env, v);
            &&& o.0 is Err ==> out == o
            &&& o.0 is Ok ==> {
                let tail = prompt_outcome(rest, on_pure, env, o.0->Ok_0);
                &&& out.0 == tail.0
                &&& out.1 == o.1 + tail.1
            }
        }),
{
    let steps = seq![Step::Effect(p)] + rest;
    assert(steps.drop_first() =~= rest);
    assert(steps[0] == Step::Effect(p));
}


/// The basic operations: a pure step returns the function's value, an ask
/// answers the environment, a throw fails with the function's value, and
/// none of them logs.
pub proof fn law_basic_operations(f: Fun, env: Val, input: Val)
    ensures
        run(Prog::Pure(f), env, input) == (Ok::<Val, Val>(apply(f, input)), Seq::<Val>::empty()),
        run(Prog::Ask, env, input) == (Ok::<Val, Val>(env), Seq::<Val>::empty()),
        run(Prog::Throw(f), env, input) == (Err::<Val, Val>(apply(f, input)), Seq::<Val>::empty()),
{
}

/// Forking keeps the input beside the program's answer; an error passes
/// through unchanged.
pub proof fn law_fork_keeps_input(a: Prog, env: Val, input: Val)
    ensures
        ({
            let oa = run(a, env, input);
            let out = run(Prog::Fork(Box::new(a)), env, input);
            &&& oa.0 is Err ==> out == oa
            &&& oa.0 is Ok ==> out == (Ok::<Val, Val>(pair_of(input, oa.0->Ok_0)), oa.1)
        }),
{
}

/// Reader interposition answers every ask inside it with the input, and
/// the environment outside it is untouched.
pub proof fn law_with_env_answers_input(env: Val, x: Val)
    ensures
        run(Prog::WithEnv(Box::new(Prog::Ask)), env, x) == (Ok::<Val, Val>(x), Seq::<Val>::empty()),
        run(Prog::Bind(Box::new(Prog::WithEnv(Box::new(Prog::Ask))), Box::new(Prog::Ask)), env, x)
            == (Ok::<Val, Val>(env), Seq::<Val>::empty()),
{
    assert(run(Prog::Ask, x, Val::Unit) == (Ok::<Val, Val>(x), Seq::<Val>::empty()));
    assert(run(Prog::WithEnv(Box::new(Prog::Ask)), env, x) == (Ok::<Val, Val>(x), Seq::<Val>::empty()));
    assert(run(Prog::Ask, env, x) == (Ok::<Val, Val>(env), Seq::<Val>::empty()));
    assert(Seq::<Val>::empty() + Seq::<Val>::empty() =~= Seq::<Val>::empty());
}

/// Delimiting an empty step list runs the return clause on the current
/// value, and a pure step hands its value to the rest.
pub proof fn law_shift_pure_steps(f: Fun, rest: Seq<Step>, on_pure: Prog, env: Val, v: Val)
    ensures
        prompt_outcome(Seq::<Step>::empty(), on_pure, env, v) == run(on_pure, env, v),
        prompt_outcome(seq![Step::Compute(f)] + rest, on_pure, env, v)
            == prompt_outcome(rest, on_pure, env, apply(f, v)),
{
    let steps = seq![Step::Compute(f)] + rest;
    assert(steps.drop_first() =~= rest);
    assert(steps[0] == Step::Compute(f));
}

} // verus!
