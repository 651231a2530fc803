//! The program language the scoped effects elaborate into.

use vstd::prelude::*;

verus! {

/// A runtime value carried by programs.
#[derive(Debug, PartialEq, Eq)]
pub enum Val {
    /// The unit value.
    Unit,
    /// A signed integer.
    Int(i64),
    /// An ordered pair of values.
    Pair(Box<Val>, Box<Val>),
    /// The left alternative of a choice between two values.
    Left(Box<Val>),
    /// The right alternative of a choice between two values.
    Right(Box<Val>),
}

impl Val {
    /// A structural copy of the value.
    pub fn duplicate(&self) -> (out: Val)
        ensures
            out == *self,
        decreases self,
    {
        match self {
            Val::Unit => Val::Unit,
            Val::Int(n) => Val::Int(*n),
            Val::Pair(a, b) => Val::Pair(Box::new((**a).duplicate()), Box::new((**b).duplicate())),
            Val::Left(a) => Val::Left(Box::new((**a).duplicate())),
            Val::Right(b) => Val::Right(Box::new((**b).duplicate())),
        }
    }
}

/// A pure function on values, in first-order form.
#[derive(Debug, PartialEq, Eq)]
pub enum Fun {
    /// The identity.
    Id,
    /// The constant function.
    Const(Val),
    /// Wrapping addition of a constant to an integer; other values pass unchanged.
    AddInt(i64),
    /// Wrapping multiplication of an integer by a constant; other values pass unchanged.
    MulInt(i64),
    /// The first component of a pair; `Unit` for any other value.
    Fst,
    /// The second component of a pair; `Unit` for any other value.
    Snd,
    /// The pair of both results.
    Both(Box<Fun>, Box<Fun>),
    /// The first function, then the second.
    Then(Box<Fun>, Box<Fun>),
}

impl Fun {
    /// A structural copy of the function.
    pub fn duplicate(&self) -> (out: Fun)
        ensures
            out == *self,
        decreases self,
    {
        match self {
            Fun::Id => Fun::Id,
            Fun::Const(v) => Fun::Const(v.duplicate()),
            Fun::AddInt(k) => Fun::AddInt(*k),
            Fun::MulInt(k) => Fun::MulInt(*k),
            Fun::Fst => Fun::Fst,
            Fun::Snd => Fun::Snd,
            Fun::Both(f, g) => Fun::Both(Box::new((**f).duplicate()), Box::new((**g).duplicate())),
            Fun::Then(f, g) => Fun::Then(Box::new((**f).duplicate()), Box::new((**g).duplicate())),
        }
    }
}

/// The first component of a pair value.
pub open spec fn fst_of(v: Val) -> Val {
    match v {
        Val::Pair(a, _) => *a,
        _ => Val::Unit,
    }
}

/// The second component of a pair value.
pub open spec fn snd_of(v: Val) -> Val {
    match v {
        Val::Pair(_, b) => *b,
        _ => Val::Unit,
    }
}

/// The pair of two values.
pub open spec fn pair_of(a: Val, b: Val) -> Val {
    Val::Pair(Box::new(a), Box::new(b))
}

/// What a function gives on a value.
pub open spec fn apply(f: Fun, x: Val) -> Val
    decreases f,
{
    match f {
        Fun::Id => x,
        Fun::Const(v) => v,
        Fun::AddInt(k) => match x {
            Val::Int(n) => Val::Int(n.wrapping_add(k)),
            _ => x,
        },
        Fun::MulInt(k) => match x {
            Val::Int(n) => Val::Int(n.wrapping_mul(k)),
            _ => x,
        },
        Fun::Fst => fst_of(x),
        Fun::Snd => snd_of(x),
        Fun::Both(f, g) => pair_of(apply(*f, x), apply(*g, x)),
        Fun::Then(f, g) => apply(*g, apply(*f, x)),
    }
}

impl Fun {
    /// Applies the function to a value.
    pub fn call(&self, x: Val) -> (out: Val)
        ensures
            out == apply(*self, x),
        decreases self,
    {
        match self {
            Fun::Id => x,
            Fun::Const(v) => v.duplicate(),
            Fun::AddInt(k) => match x {
                Val::Int(n) => Val::Int(n.wrapping_add(*k)),
                other => other,
            },
            Fun::MulInt(k) => match x {
                Val::Int(n) => Val::Int(n.wrapping_mul(*k)),
                other => other,
            },
            Fun::Fst => match x {
                Val::Pair(a, _) => *a,
                _ => Val::Unit,
            },
            Fun::Snd => match x {
                Val::Pair(_, b) => *b,
                _ => Val::Unit,
            },
            Fun::Both(f, g) => {
                let left = (**f).call(x.duplicate());
                let right = (**g).call(x);
                Val::Pair(Box::new(left), Box::new(right))
            },
            Fun::Then(f, g) => {
                let mid = (**f).call(x);
                (**g).call(mid)
            },
        }
    }
}


/// A program over the first-order row: Reader (`Ask`), Except (`Throw`),
/// Writer (`Tell`) and a two-way choice with a multi-shot handler
/// (`Branch`). A program receives an input value, the result of whatever
/// ran before it, and yields a result or an error.
#[derive(Debug, PartialEq, Eq)]
pub enum Prog {
    /// Returns the function applied to the input.
    Pure(Fun),
    /// Reader: returns the current environment.
    Ask,
    /// Except: throws the function applied to the input.
    Throw(Fun),
    /// Writer: appends the function applied to the input to the log and
    /// returns the input unchanged.
    Tell(Fun),
    /// Runs the first program, then the second on its result.
    Bind(Box<Prog>, Box<Prog>),
    /// Runs the program on the input and returns the pair of the input
    /// and the program's result.
    Fork(Box<Prog>),
    /// Runs the program on unit with every `Ask` inside it answered by
    /// the input value (Reader interposition).
    WithEnv(Box<Prog>),
    /// Runs the first program; an error it throws is handed to the second
    /// program, which runs outside the interposition (Except interposition).
    Recover(Box<Prog>, Box<Prog>),
    /// Case analysis on the input: the first program runs on the payload
    /// of a `Left`, the second on the payload of a `Right`, and the second
    /// on any other value itself.
    Case(Box<Prog>, Box<Prog>),
    /// A two-way choice handled by a multi-shot handler: the continuation
    /// runs once on the first and once on the second component of the
    /// input, and the answer is the pair of both answers, with both logs
    /// in order. An error of the first resumption skips the second.
    Branch(Box<Prog>),
}

/// The outcome of running a program: its result or error, and its log.
pub type RunResult = (Result<Val, Val>, Seq<Val>);

/// The outcome of a program that finished with `v` and logged nothing.
pub open spec fn done(v: Val) -> RunResult {
    (Ok(v), Seq::empty())
}

/// Prefixes a log to an outcome.
pub open spec fn after(log: Seq<Val>, o: RunResult) -> RunResult {
    (o.0, log + o.1)
}

/// What running `p` under environment `env` on input `input` gives.
pub open spec fn run(p: Prog, env: Val, input: Val) -> RunResult
    decreases p,
{
    match p {
        Prog::Pure(f) => done(apply(f, input)),
        Prog::Ask => done(env),
        Prog::Throw(f) => (Err(apply(f, input)), Seq::empty()),
        Prog::Tell(f) => (Ok(input), seq![apply(f, input)]),
        Prog::Bind(a, b) => {
            let oa = run(*a, env, input);
            match oa.0 {
                Ok(v) => after(oa.1, run(*b, env, v)),
                Err(_) => oa,
            }
        },
        Prog::Fork(a) => {
            let oa = run(*a, env, input);
            match oa.0 {
                Ok(v) => (Ok(pair_of(input, v)), oa.1),
                Err(_) => oa,
            }
        },
        Prog::WithEnv(a) => run(*a, input, Val::Unit),
        Prog::Recover(a, h) => {
            let oa = run(*a, env, input);
            match oa.0 {
                Ok(_) => oa,
                Err(e) => after(oa.1, run(*h, env, e)),
            }
        },
        Prog::Case(l, r) => match input {
            Val::Left(a) => run(*l, env, *a),
            Val::Right(b) => run(*r, env, *b),
            _ => run(*r, env, input),
        },
        Prog::Branch(k) => {
            let o1 = run(*k, env, fst_of(input));
            match o1.0 {
                Err(_) => o1,
                Ok(v1) => {
                    let o2 = run(*k, env, snd_of(input));
                    match o2.0 {
                        Err(_) => after(o1.1, o2),
                        Ok(v2) => (Ok(pair_of(v1, v2)), o1.1 + o2.1),
                    }
                },
            }
        },
    }
}

/// Sequencing: `a`, then `b` on its result.
pub open spec fn seq_of(a: Prog, b: Prog) -> Prog {
    Prog::Bind(Box::new(a), Box::new(b))
}

/// The outcome of running `k` on the value an outcome finished with;
/// an error passes through unchanged.
pub open spec fn then_run(o: RunResult, k: Prog, env: Val) -> RunResult {
    match o.0 {
        Ok(v) => after(o.1, run(k, env, v)),
        Err(_) => o,
    }
}

/// An outcome whose value is mapped through `f`; an error passes through.
pub open spec fn mapped(o: RunResult, f: Fun) -> RunResult {
    match o.0 {
        Ok(v) => (Ok(apply(f, v)), o.1),
        Err(_) => o,
    }
}

/// An outcome with an empty log prefixed is the outcome itself.
pub proof fn lemma_empty_prefix(o: RunResult)
    ensures
        after(Seq::empty(), o) == o,
{
    assert(Seq::<Val>::empty() + o.1 =~= o.1);
}

/// An executed program's outcome.
#[derive(Debug, PartialEq, Eq)]
pub struct Outcome {
    /// The value the program returned, or the error it threw.
    pub result: Result<Val, Val>,
    /// The values the program told, in order.
    pub log: Vec<Val>,
}

impl View for Outcome {
    type V = RunResult;

    open spec fn view(&self) -> RunResult {
        (self.result, self.log@)
    }
}

impl Prog {
    /// A structural copy of the program.
    pub fn duplicate(&self) -> (out: Prog)
        ensures
            out == *self,
        decreases self,
    {
        match self {
            Prog::Pure(f) => Prog::Pure(f.duplicate()),
            Prog::Ask => Prog::Ask,
            Prog::Throw(f) => Prog::Throw(f.duplicate()),
            Prog::Tell(f) => Prog::Tell(f.duplicate()),
            Prog::Bind(a, b) => Prog::Bind(Box::new((**a).duplicate()), Box::new((**b).duplicate())),
            Prog::Fork(a) => Prog::Fork(Box::new((**a).duplicate())),
            Prog::WithEnv(a) => Prog::WithEnv(Box::new((**a).duplicate())),
            Prog::Recover(a, h) => Prog::Recover(Box::new((**a).duplicate()), Box::new((**h).duplicate())),
            Prog::Case(l, r) => Prog::Case(Box::new((**l).duplicate()), Box::new((**r).duplicate())),
            Prog::Branch(k) => Prog::Branch(Box::new((**k).duplicate())),
        }
    }

    /// Runs the program under `env` on `input`.
    pub fn interpret(&self, env: &Val, input: Val) -> (out: Outcome)
        ensures
            out@ == run(*self, *env, input),
        decreases self,
    {
        match self {
            Prog::Pure(f) => Outcome { result: Ok(f.call(input)), log: Vec::new() },
            Prog::Ask => Outcome { result: Ok(env.duplicate()), log: Vec::new() },
            Prog::Throw(f) => Outcome { result: Err(f.call(input)), log: Vec::new() },
            Prog::Tell(f) => {
                let told = f.call(input.duplicate());
                let mut log = Vec::new();
                log.push(told);
                proof {
                    assert(log@ =~= seq![apply(*f, input)]);
                }
                Outcome { result: Ok(input), log }
            },
            Prog::Bind(a, b) => {
                let oa = (**a).interpret(env, input);
                match oa.result {
                    Ok(v) => {
                        let mut log = oa.log;
                        let mut ob = (**b).interpret(env, v);
                        log.append(&mut ob.log);
                        Outcome { result: ob.result, log }
                    },
                    Err(e) => Outcome { result: Err(e), log: oa.log },
                }
            },
            Prog::Fork(a) => {
                let kept = input.duplicate();
                let oa = (**a).interpret(env, input);
                match oa.result {
                    Ok(v) => Outcome { result: Ok(Val::Pair(Box::new(kept), Box::new(v))), log: oa.log },
                    Err(e) => Outcome { result: Err(e), log: oa.log },
                }
            },
            Prog::WithEnv(a) => (**a).interpret(&input, Val::Unit),
            Prog::Recover(a, h) => {
                let oa = (**a).interpret(env, input);
                match oa.result {
                    Ok(v) => Outcome { result: Ok(v), log: oa.log },
                    Err(e) => {
                        let mut log = oa.log;
                        let mut oh = (**h).interpret(env, e);
                        log.append(&mut oh.log);
                        Outcome { result: oh.result, log }
                    },
                }
            },
            Prog::Case(l, r) => match input {
                Val::Left(a) => (**l).interpret(env, *a),
                Val::Right(b) => (**r).interpret(env, *b),
                other => (**r).interpret(env, other),
            },
            Prog::Branch(k) => {
                let (x, y) = match input {
                    Val::Pair(a, b) => (*a, *b),
                    _ => (Val::Unit, Val::Unit),
                };
                let o1 = (**k).interpret(env, x);
                match o1.result {
                    Err(e) => Outcome { result: Err(e), log: o1.log },
                    Ok(v1) => {
                        let mut log = o1.log;
                        let mut o2 = (**k).interpret(env, y);
                        log.append(&mut o2.log);
                        match o2.result {
                            Err(e) => Outcome { result: Err(e), log },
                            Ok(v2) => Outcome { result: Ok(Val::Pair(Box::new(v1), Box::new(v2))), log },
                        }
                    },
                }
            },
        }
    }
}

/// The first-order handlers a program runs under: the Reader answer, the
/// Except handler that receives an error escaping every scoped recovery,
/// and the Writer handler that turns each told value into a log entry.
#[derive(Debug, PartialEq, Eq)]
pub struct FoHandlers {
    /// The value every ask outside a Local interposition is answered with.
    pub reader: Val,
    /// Runs on an error that escapes the program; its outcome is the
    /// program's final outcome.
    pub on_throw: Prog,
    /// Maps each told value to the entry the Writer handler logs.
    pub on_tell: Fun,
}

/// The log the Writer handler keeps of the told values `log`.
pub open spec fn handled_log(on_tell: Fun, log: Seq<Val>) -> Seq<Val> {
    log.map_values(|x: Val| apply(on_tell, x))
}

/// An outcome as the first-order handlers `h` finish it: told values are
/// logged through the Writer handler, and an error that escaped is handed
/// to the Except handler, whose outcome follows the log.
pub open spec fn handle(h: FoHandlers, o: RunResult) -> RunResult {
    let log = handled_log(h.on_tell, o.1);
    match o.0 {
        Ok(v) => (Ok(v), log),
        Err(e) => after(log, run(h.on_throw, h.reader, e)),
    }
}

/// What running `p` on `input` under the first-order handlers `h` gives.
pub open spec fn handled_run(h: FoHandlers, p: Prog, input: Val) -> RunResult {
    handle(h, run(p, h.reader, input))
}

/// The log the Writer handler keeps of `log`.
fn handle_log(on_tell: &Fun, log: &Vec<Val>) -> (out: Vec<Val>)
    ensures
        out@ == handled_log(*on_tell, log@),
{
    let mut out: Vec<Val> = Vec::new();
    let mut i: usize = 0;
    while i < log.len()
        invariant
            i <= log.len(),
            out@.len() == i,
            forall|j: int| 0 <= j < i ==> #[trigger] out@[j] == apply(*on_tell, log@[j]),
        decreases log.len() - i,
    {
        let entry = on_tell.call(log[i].duplicate());
        out.push(entry);
        i = i + 1;
    }
    assert(out@ =~= handled_log(*on_tell, log@));
    out
}

impl Prog {
    /// Runs the program on `input` under the first-order handlers `h`.
    pub fn interpret_with(&self, h: &FoHandlers, input: Val) -> (out: Outcome)
        ensures
            out@ == handled_run(*h, *self, input),
    {
        let Outcome { result, log: raw_log } = self.interpret(&h.reader, input);
        let mut log = handle_log(&h.on_tell, &raw_log);
        match result {
            Ok(v) => Outcome { result: Ok(v), log },
            Err(e) => {
                let mut oh = h.on_throw.interpret(&h.reader, e);
                log.append(&mut oh.log);
                Outcome { result: oh.result, log }
            },
        }
    }
}

} // verus!
