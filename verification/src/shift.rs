//! One-shot delimited continuations: the `Shift` effect and its
//! `run_shift` delimiter.
//!
//! A prompt program is a sequence of steps over a row that holds the
//! `Shift` cell. A capture's body runs over the residual row: it computes
//! a value, and on that value decides, while it runs, either to resume the
//! captured continuation at most once and post-process the completed
//! answer, or to drop the continuation, which aborts the unresumed tail.

use vstd::prelude::*;
use crate::program::{after, apply, lemma_empty_prefix, run, Fun, Prog, RunResult, Val};

verus! {

/// A capture body over the residual row.
#[derive(Debug, PartialEq, Eq)]
pub struct ShiftBody {
    /// Runs on unit first; its value is the body's decision. `Left(a)`
    /// drops the continuation and answers `a`; `Right(x)` resumes the
    /// continuation with `x`; any other value `x` resumes it with `x`.
    pub prefix: Prog,
    /// Receives the completed answer of the resumed continuation.
    pub suffix: Prog,
}

/// The value a body's decision resumes the continuation with.
pub open spec fn resumed_with(decision: Val) -> Val {
    match decision {
        Val::Right(x) => *x,
        _ => decision,
    }
}

/// The operations of the `Shift` effect: one variant, the capture, with
/// the continuation hole applied to the resumed value.
#[derive(Debug, PartialEq, Eq)]
pub enum ShiftF {
    /// Capture: the body and the continuation hole.
    Shift(ShiftBody, Fun),
}

/// One step of a prompt program.
#[derive(Debug, PartialEq, Eq)]
pub enum Step {
    /// A pure computation on the current value.
    Compute(Fun),
    /// An operation of another effect of the row, re-emitted into the
    /// residual row; receives the current value.
    Effect(Prog),
    /// A capture at the prompt.
    Shift(ShiftF),
}

/// A program over a row that holds the `Shift` cell: its steps, run from unit.
#[derive(Debug, PartialEq, Eq)]
pub struct PromptProgram {
    /// The steps, in order.
    pub steps: Vec<Step>,
}

/// Brand for the one-shot `Shift` effect.
#[derive(Clone, Copy, Debug, Default)]
pub struct ShiftBrand;

/// What delimiting the steps `steps`, from the current value `v`, gives:
/// a normal completion runs `on_pure`; a capture hands its body the
/// continuation over the remaining steps.
pub open spec fn prompt_outcome(steps: Seq<Step>, on_pure: Prog, env: Val, v: Val) -> RunResult
    decreases steps.len(),
{
    if steps.len() == 0 {
        run(on_pure, env, v)
    } else {
        let rest = steps.drop_first();
        match steps[0] {
            Step::Compute(f) => prompt_outcome(rest, on_pure, env, apply(f, v)),
            Step::Effect(p) => {
                let o = run(p, env, v);
                match o.0 {
                    Ok(w) => after(o.1, prompt_outcome(rest, on_pure, env, w)),
                    Err(_) => o,
                }
            },
            Step::Shift(ShiftF::Shift(body, k)) => {
                let pre = run(body.prefix, env, Val::Unit);
                match pre.0 {
                    Err(_) => pre,
                    Ok(Val::Left(a)) => (Ok(*a), pre.1),
                    Ok(d) => {
                        let ans = prompt_outcome(rest, on_pure, env, apply(k, resumed_with(d)));
                        match ans.0 {
                            Err(_) => after(pre.1, ans),
                            Ok(a) => after(pre.1 + ans.1, run(body.suffix, env, a)),
                        }
                    },
                }
            },
        }
    }
}

impl ShiftBrand {
    /// Composes `f` into the capture's continuation; the body is untouched.
    pub fn map(f: Fun, fa: ShiftF) -> (out: ShiftF)
        ensures
            match (fa, out) {
                (ShiftF::Shift(b0, k0), ShiftF::Shift(b1, k1)) => b1 == b0 && k1 == Fun::Then(Box::new(k0), Box::new(f)),
            },
    {
        match fa {
            ShiftF::Shift(body, k) => ShiftF::Shift(body, Fun::Then(Box::new(k), Box::new(f))),
        }
    }
}

/// Captures the continuation from here to the enclosing [`run_shift`]:
/// the one-step program suspending at the capture, whose continuation hole
/// is the identity.
pub fn shift(body: ShiftBody) -> (out: PromptProgram)
    ensures
        out.steps@ == seq![Step::Shift(ShiftF::Shift(body, Fun::Id))],
{
    let mut steps = Vec::new();
    steps.push(Step::Shift(ShiftF::Shift(body, Fun::Id)));
    PromptProgram { steps }
}

impl PromptProgram {
    /// Appends a step to the program.
    pub fn then_step(self, step: Step) -> (out: PromptProgram)
        ensures
            out.steps@ == self.steps@.push(step),
    {
        let mut steps = self.steps;
        steps.push(step);
        PromptProgram { steps }
    }
}

/// The program that delimits `steps` from the current value.
fn delimit(steps: Vec<Step>, on_pure: Prog) -> (out: Prog)
    ensures
        forall|env: Val, v: Val| #[trigger] run(out, env, v) == prompt_outcome(steps@, on_pure, env, v),
    decreases steps.len(),
{
    let ghost gsteps = steps@;
    let ghost gpure = on_pure;
    if steps.len() == 0 {
        return on_pure;
    }
    let mut steps = steps;
    let first = steps.remove(0);
    assert(steps@ =~= gsteps.drop_first());
    let rest = delimit(steps, on_pure);
    let ghost grest = rest;
    match first {
        Step::Compute(f) => {
            let out = Prog::Bind(Box::new(Prog::Pure(f)), Box::new(rest));
            assert forall|env: Val, v: Val| #[trigger] run(out, env, v) == prompt_outcome(gsteps, gpure, env, v) by {
                let o = run(grest, env, apply(f, v));
                assert(run(Prog::Pure(f), env, v) == (Ok::<Val, Val>(apply(f, v)), Seq::<Val>::empty()));
                lemma_empty_prefix(o);
            }
            out
        },
        Step::Effect(p) => {
            let ghost gp = p;
            let out = Prog::Bind(Box::new(p), Box::new(rest));
            assert forall|env: Val, v: Val| #[trigger] run(out, env, v) == prompt_outcome(gsteps, gpure, env, v) by {
                let o = run(gp, env, v);
                if let Ok(w) = o.0 {
                    assert(run(grest, env, w) == prompt_outcome(gsteps.drop_first(), gpure, env, w));
                }
            }
            out
        },
        Step::Shift(ShiftF::Shift(body, k)) => {
            let ghost gbody = body;
            let ghost gk = k;
            let ShiftBody { prefix, suffix } = body;
            let tail = Prog::Bind(Box::new(Prog::Pure(k)), Box::new(Prog::Bind(Box::new(rest), Box::new(suffix))));
            let ghost gtail = tail;
            let decide = Prog::Case(Box::new(Prog::Pure(Fun::Id)), Box::new(tail));
            let ghost gdecide = decide;
            let out = Prog::Bind(
                Box::new(Prog::Pure(Fun::Const(Val::Unit))),
                Box::new(Prog::Bind(Box::new(prefix), Box::new(decide))),
            );
            assert forall|env: Val, v: Val| #[trigger] run(out, env, v) == prompt_outcome(gsteps, gpure, env, v) by {
                let pre = run(gbody.prefix, env, Val::Unit);
                assert(run(Prog::Pure(Fun::Const(Val::Unit)), env, v) == (Ok::<Val, Val>(Val::Unit), Seq::<Val>::empty()));
                let body_run = run(Prog::Bind(Box::new(gbody.prefix), Box::new(gdecide)), env, Val::Unit);
                lemma_empty_prefix(body_run);
                if let Ok(d) = pre.0 {
                    if let Val::Left(a) = d {
                        assert(run(Prog::Pure(Fun::Id), env, *a) == (Ok::<Val, Val>(*a), Seq::<Val>::empty()));
                        assert(run(gdecide, env, d) == (Ok::<Val, Val>(*a), Seq::<Val>::empty()));
                        assert(pre.1 + Seq::<Val>::empty() =~= pre.1);
                    } else {
                        let x = resumed_with(d);
                        assert(run(gdecide, env, d) == run(gtail, env, x));
                        let kx = apply(gk, x);
                        assert(run(Prog::Pure(gk), env, x) == (Ok::<Val, Val>(kx), Seq::<Val>::empty()));
                        let ans = run(grest, env, kx);
                        let rs = run(Prog::Bind(Box::new(grest), Box::new(gbody.suffix)), env, kx);
                        lemma_empty_prefix(rs);
                        assert(run(gtail, env, x) == rs);
                        assert(body_run == after(pre.1, rs));
                        assert(ans == prompt_outcome(gsteps.drop_first(), gpure, env, kx));
                        if let Ok(a) = ans.0 {
                            let suf = run(gbody.suffix, env, a);
                            assert(pre.1 + (ans.1 + suf.1) =~= pre.1 + ans.1 + suf.1);
                        }
                    }
                }
            }
            out
        },
    }
}

/// The delimiter: hands each capture its delimited one-shot continuation,
/// re-emits every other operation into the residual row, and maps a
/// normal completion through the return clause `on_pure`.
pub fn run_shift(program: PromptProgram, on_pure: Prog) -> (out: Prog)
    ensures
        forall|env: Val, input: Val| #[trigger] run(out, env, input)
            == prompt_outcome(program.steps@, on_pure, env, Val::Unit),
{
    let ghost g = program.steps@;
    let ghost gp = on_pure;
    let inner = delimit(program.steps, on_pure);
    let ghost gi = inner;
    let out = Prog::Bind(Box::new(Prog::Pure(Fun::Const(Val::Unit))), Box::new(inner));
    assert forall|env: Val, input: Val| #[trigger] run(out, env, input) == prompt_outcome(g, gp, env, Val::Unit) by {
        assert(run(Prog::Pure(Fun::Const(Val::Unit)), env, input) == (Ok::<Val, Val>(Val::Unit), Seq::<Val>::empty()));
        lemma_empty_prefix(run(gi, env, Val::Unit));
    }
    out
}

} // verus!
