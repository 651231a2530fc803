use lib::program::{Fun, Outcome, Prog, Val};
use lib::scoped::{Bracket, Catch, Local, RefBracket};
use lib::shift::{run_shift, PromptProgram, ShiftBody, ShiftF, Step};
use lib::span::{Span, SpanBrand};
use lib::scoped_dispatchers::bracket::bracket_dispatcher;
use lib::scoped_dispatchers::local::local_dispatcher;
use lib::scoped_dispatchers::span::span_dispatcher;
use lib::scoped::{Boundary, ScopedLayer};
use lib::standard_scoped_handlers::catch::catch_handler;
use lib::standard_scoped_handlers::ref_bracket::ref_bracket_handler;

fn num(n: i64) -> Val {
    Val::Int(n)
}

fn seq(a: Prog, b: Prog) -> Prog {
    Prog::Bind(Box::new(a), Box::new(b))
}

fn closed(p: &Prog, env: i64) -> Outcome {
    p.interpret(&num(env), Val::Unit)
}

#[test]
fn continuations_compose_scenario() {
    let layer = || Local { modify: Fun::AddInt(1), action: Prog::Ask };
    let k1 = || seq(Prog::Tell(Fun::Id), Prog::Pure(Fun::MulInt(2)));
    let k2 = || Prog::Pure(Fun::AddInt(3));
    let d = local_dispatcher();
    let left = seq(d.dispatch_run_raw_scoped_head(layer(), k1()), k2());
    let right = d.dispatch_run_raw_scoped_head(layer(), seq(k1(), k2()));
    assert_eq!(closed(&left, 4), closed(&right, 4));
    assert_eq!(closed(&left, 4), Outcome { result: Ok(num(13)), log: vec![num(5)] });
}

#[test]
fn ref_bracket_equals_bracket_with_forked_body() {
    let body = || seq(Prog::Tell(Fun::Id), Prog::Pure(Fun::MulInt(6)));
    let rb = RefBracket { acquire: Prog::Pure(Fun::Const(num(7))), body: body(), release: Prog::Tell(Fun::AddInt(1)) };
    let b = Bracket { acquire: Prog::Pure(Fun::Const(num(7))), body: Prog::Fork(Box::new(body())), release: Prog::Tell(Fun::AddInt(1)) };
    let from_ref = ref_bracket_handler().dispatch_scoped_head(rb);
    let from_bracket = bracket_dispatcher().dispatch_scoped_head(b);
    assert_eq!(closed(&from_ref, 0), closed(&from_bracket, 0));
    assert_eq!(closed(&from_ref, 0), Outcome { result: Ok(num(42)), log: vec![num(7), num(8)] });
}

#[test]
fn local_ask_sees_transformed_env_scenario() {
    let p = local_dispatcher().dispatch_scoped_head(Local { modify: Fun::MulInt(4), action: Prog::Ask });
    assert_eq!(closed(&p, 5), Outcome { result: Ok(num(20)), log: vec![] });
}

#[test]
fn local_identity_scenario() {
    let action = || seq(Prog::Ask, Prog::Tell(Fun::AddInt(1)));
    let p = local_dispatcher().dispatch_scoped_head(Local { modify: Fun::Id, action: action() });
    assert_eq!(closed(&p, 5), closed(&action(), 5));
}

#[test]
fn catch_throw_scenario() {
    let p = catch_handler().dispatch_scoped_head(Catch {
        action: Prog::Throw(Fun::Const(num(13))),
        handler: seq(Prog::Tell(Fun::Id), Prog::Pure(Fun::AddInt(1))),
    });
    assert_eq!(closed(&p, 0), Outcome { result: Ok(num(14)), log: vec![num(13)] });
}

#[test]
fn catch_rethrow_scenario() {
    let action = || seq(Prog::Tell(Fun::Const(num(1))), Prog::Throw(Fun::Const(num(2))));
    let p = catch_handler().dispatch_scoped_head(Catch { action: action(), handler: Prog::Throw(Fun::Id) });
    assert_eq!(closed(&p, 0), closed(&action(), 0));
    assert_eq!(closed(&p, 0), Outcome { result: Err(num(2)), log: vec![num(1)] });
}

#[test]
fn span_result_preserving_post_action_scenario() {
    let action = || seq(Prog::Tell(Fun::Const(num(3))), Prog::Pure(Fun::Const(num(41))));
    let boundary = Boundary { layer: ScopedLayer::Span(Span::Span { tag: num(9), action: action() }), outer: Prog::Pure(Fun::Id) };
    let p = span_dispatcher().dispatch_run_explicit_span_boundary_with_post_action(boundary, Prog::Pure(Fun::Snd));
    assert_eq!(closed(&p, 0), closed(&action(), 0));
}

#[test]
fn span_functor_laws_scenario() {
    let span = || Span::Span { tag: num(9), action: Prog::Pure(Fun::Const(num(10))) };
    let id_mapped = SpanBrand::extract(SpanBrand::map(Fun::Id, span()));
    assert_eq!(closed(&id_mapped, 0), closed(&SpanBrand::extract(span()), 0));
    let twice = SpanBrand::map(Fun::MulInt(3), SpanBrand::map(Fun::AddInt(1), span()));
    let fused = SpanBrand::map(Fun::Then(Box::new(Fun::AddInt(1)), Box::new(Fun::MulInt(3))), span());
    assert_eq!(closed(&SpanBrand::extract(twice), 0), closed(&SpanBrand::extract(fused), 0));
}

#[test]
fn shift_resume_identity_scenario() {
    let rest = || vec![Step::Compute(Fun::AddInt(2)), Step::Effect(Prog::Tell(Fun::Id))];
    let mut steps = vec![Step::Shift(ShiftF::Shift(
        ShiftBody { prefix: Prog::Pure(Fun::Const(num(5))), suffix: Prog::Pure(Fun::Id) },
        Fun::Id,
    ))];
    steps.extend(rest());
    let with_capture = run_shift(PromptProgram { steps }, Prog::Pure(Fun::Id));
    let mut plain = vec![Step::Compute(Fun::Const(num(5)))];
    plain.extend(rest());
    let without = run_shift(PromptProgram { steps: plain }, Prog::Pure(Fun::Id));
    assert_eq!(closed(&with_capture, 0), closed(&without, 0));
    assert_eq!(closed(&with_capture, 0), Outcome { result: Ok(num(7)), log: vec![num(7)] });
}

#[test]
fn shift_map_fuses_scenario() {
    let body = || ShiftBody { prefix: Prog::Pure(Fun::Const(num(5))), suffix: Prog::Pure(Fun::MulInt(2)) };
    let fused = PromptProgram {
        steps: vec![Step::Shift(ShiftF::Shift(body(), Fun::Then(Box::new(Fun::Id), Box::new(Fun::AddInt(1)))))],
    };
    let separate = PromptProgram {
        steps: vec![Step::Shift(ShiftF::Shift(body(), Fun::Id)), Step::Compute(Fun::AddInt(1))],
    };
    let a = run_shift(fused, Prog::Pure(Fun::Id));
    let b = run_shift(separate, Prog::Pure(Fun::Id));
    assert_eq!(closed(&a, 0), closed(&b, 0));
    assert_eq!(closed(&a, 0), Outcome { result: Ok(num(12)), log: vec![] });
}
