//! Raw replacement adapters: what a raw scoped dispatch puts in place of
//! one first-order operation of the protected action.

use vstd::prelude::*;
use crate::program::{done, lemma_empty_prefix, run, Fun, Prog, Val};

verus! {

/// Raw Catch replacement adapter for the single-owner (`Box`) runner:
/// holds the single-shot recovery handler until a `Throw` is replaced.
#[derive(Debug)]
pub struct BoxCatchRawRunReplacer {
    /// The recovery handler; taken by the first replacement.
    pub handler: Option<Prog>,
}

impl BoxCatchRawRunReplacer {
    /// Replaces a raw `Throw` of `error` with the stored recovery branch,
    /// which receives the error. The handler is taken: the protected
    /// action can throw at most once.
    pub fn replace(&mut self, error: Val) -> (out: Prog)
        requires
            old(self).handler is Some,
        ensures
            final(self).handler is None,
            forall|env: Val, input: Val| #[trigger] run(out, env, input)
                == run(old(self).handler->Some_0, env, error),
    {
        let handler = self.handler.take();
        match handler {
            Some(h) => resume_on(error, h),
            None => {
                proof {
                    assert(false);
                }
                Prog::Pure(Fun::Id)
            },
        }
    }
}

/// Resumes `k` on the value `v`, whatever the input.
fn resume_on(v: Val, k: Prog) -> (out: Prog)
    ensures
        forall|env: Val, input: Val| #[trigger] run(out, env, input) == run(k, env, v),
{
    let ghost (gv, gk) = (v, k);
    let out = Prog::Bind(Box::new(Prog::Pure(Fun::Const(v))), Box::new(k));
    assert forall|env: Val, input: Val| #[trigger] run(out, env, input) == run(gk, env, gv) by {
        assert(run(Prog::Pure(Fun::Const(gv)), env, input) == done(gv));
        lemma_empty_prefix(run(gk, env, gv));
    }
    out
}

/// Raw Local replacement adapter for the single-owner (`Box`) runner.
#[derive(Debug)]
pub struct BoxLocalRawRunReplacer {
    /// The local environment value that answers asks.
    pub local_env: Val,
}

impl BoxLocalRawRunReplacer {
    /// Answers a raw Reader ask with the local environment value: the
    /// ask's continuation `k` resumes on it.
    pub fn replace(&self, k: Prog) -> (out: Prog)
        ensures
            forall|env: Val, input: Val| #[trigger] run(out, env, input) == run(k, env, self.local_env),
    {
        resume_on(self.local_env.duplicate(), k)
    }
}

/// Raw Local replacement adapter for the shared (`Rc`) runner.
#[derive(Debug)]
pub struct RcLocalRawRunReplacer {
    /// The local environment value that answers asks.
    pub local_env: Val,
}

impl RcLocalRawRunReplacer {
    /// Answers a raw Reader ask with the local environment value: the
    /// ask's continuation `k` resumes on it.
    pub fn replace(&self, k: Prog) -> (out: Prog)
        ensures
            forall|env: Val, input: Val| #[trigger] run(out, env, input) == run(k, env, self.local_env),
    {
        resume_on(self.local_env.duplicate(), k)
    }
}

/// Raw Local replacement adapter for the thread-safe shared (`Arc`) runner.
#[derive(Debug)]
pub struct ArcLocalRawRunReplacer {
    /// The local environment value that answers asks.
    pub local_env: Val,
}

impl ArcLocalRawRunReplacer {
    /// Answers a raw Reader ask with the local environment value: the
    /// ask's continuation `k` resumes on it.
    pub fn replace(&self, k: Prog) -> (out: Prog)
        ensures
            forall|env: Val, input: Val| #[trigger] run(out, env, input) == run(k, env, self.local_env),
    {
        resume_on(self.local_env.duplicate(), k)
    }
}

/// Raw RefLocal replacement adapter for the single-owner (`Box`) runner.
#[derive(Debug)]
pub struct BoxRefLocalRawRunReplacer {
    /// The local environment value that answers asks.
    pub local_env: Val,
}

impl BoxRefLocalRawRunReplacer {
    /// Answers a raw Reader ask with the local environment value: the
    /// ask's continuation `k` resumes on it.
    pub fn replace(&self, k: Prog) -> (out: Prog)
        ensures
            forall|env: Val, input: Val| #[trigger] run(out, env, input) == run(k, env, self.local_env),
    {
        resume_on(self.local_env.duplicate(), k)
    }
}

/// Raw RefLocal replacement adapter for the shared (`Rc`) runner.
#[derive(Debug)]
pub struct RcRefLocalRawRunReplacer {
    /// The local environment value that answers asks.
    pub local_env: Val,
}

impl RcRefLocalRawRunReplacer {
    /// Answers a raw Reader ask with the local environment value: the
    /// ask's continuation `k` resumes on it.
    pub fn replace(&self, k: Prog) -> (out: Prog)
        ensures
            forall|env: Val, input: Val| #[trigger] run(out, env, input) == run(k, env, self.local_env),
    {
        resume_on(self.local_env.duplicate(), k)
    }
}

/// Raw RefLocal replacement adapter for the thread-safe shared (`Arc`) runner.
#[derive(Debug)]
pub struct ArcRefLocalRawRunReplacer {
    /// The local environment value that answers asks.
    pub local_env: Val,
}

impl ArcRefLocalRawRunReplacer {
    /// Answers a raw Reader ask with the local environment value: the
    /// ask's continuation `k` resumes on it.
    pub fn replace(&self, k: Prog) -> (out: Prog)
        ensures
            forall|env: Val, input: Val| #[trigger] run(out, env, input) == run(k, env, self.local_env),
    {
        resume_on(self.local_env.duplicate(), k)
    }
}

} // verus!
