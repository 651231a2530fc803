use lib::program::{Fun, Outcome, Prog, Val};
use lib::scoped::{
    Boundary, Bracket, BracketCarrier, Catch, CatchCarrier, Local, LocalCarrier, RefBracket, RefBracketCarrier,
    RefLocal, ScopedContinuation, ScopedLayer, SpanCarrier, SuppliedContinuation,
};
use lib::scoped_dispatchers::bracket::bracket_dispatcher;
use lib::scoped_dispatchers::local::local_dispatcher;
use lib::scoped_dispatchers::span::span_dispatcher;
use lib::span::Span;
use lib::standard_scoped_handlers::bracket::bracket_handler;
use lib::standard_scoped_handlers::catch::catch_handler;
use lib::standard_scoped_handlers::ref_bracket::ref_bracket_handler;
use lib::standard_scoped_handlers::ref_local::ref_local_handler;
use lib::standard_scoped_handlers::span::span_handler;

fn num(n: i64) -> Val {
    Val::Int(n)
}

fn konst(n: i64) -> Prog {
    Prog::Pure(Fun::Const(num(n)))
}

fn seq(a: Prog, b: Prog) -> Prog {
    Prog::Bind(Box::new(a), Box::new(b))
}

fn identity() -> Prog {
    Prog::Pure(Fun::Id)
}

fn run_closed(p: &Prog, env: i64) -> Outcome {
    p.interpret(&num(env), Val::Unit)
}

fn ok(v: Val, log: Vec<Val>) -> Outcome {
    Outcome { result: Ok(v), log }
}

/// acquire 7, body returns (resource, resource + 35), release tells the resource.
fn lifecycle() -> Bracket {
    Bracket {
        acquire: konst(7),
        body: Prog::Pure(Fun::Both(Box::new(Fun::Id), Box::new(Fun::AddInt(35)))),
        release: Prog::Tell(Fun::Id),
    }
}

#[test]
fn bracket_dispatcher_runs_release_and_returns_body_result() {
    let d = bracket_dispatcher();
    let boundary = Boundary { layer: ScopedLayer::Bracket(lifecycle()), outer: identity() };
    let p = d.dispatch_run_explicit_bracket_boundary(boundary);
    assert_eq!(run_closed(&p, 0), ok(num(42), vec![num(7)]));
}

#[test]
fn bracket_boundary_outer_continuation_gets_body_result() {
    let d = bracket_dispatcher();
    for f in 0..3 {
        let boundary = Boundary { layer: ScopedLayer::Bracket(lifecycle()), outer: Prog::Pure(Fun::AddInt(1)) };
        let p = match f {
            0 => d.dispatch_run_explicit_bracket_boundary(boundary),
            1 => d.dispatch_rc_run_explicit_bracket_boundary(boundary),
            _ => d.dispatch_arc_run_explicit_bracket_boundary(boundary),
        };
        assert_eq!(run_closed(&p, 0), ok(num(43), vec![num(7)]));
    }
}

#[test]
fn bracket_carriers_and_heads_agree() {
    let d = bracket_dispatcher();
    let h = bracket_handler();
    let expected = ok(num(43), vec![num(7)]);
    let outer = || Prog::Pure(Fun::AddInt(1));
    let carrier = || BracketCarrier { bracket: lifecycle(), continuation: SuppliedContinuation { outer: outer() } };
    assert_eq!(run_closed(&d.dispatch_run_explicit_bracket_carrier(carrier()), 0), expected);
    assert_eq!(run_closed(&d.dispatch_rc_run_explicit_bracket_carrier(carrier()), 0), expected);
    assert_eq!(run_closed(&d.dispatch_arc_run_explicit_bracket_carrier(carrier()), 0), expected);
    assert_eq!(run_closed(&h.dispatch_run_explicit_bracket_carrier(carrier()), 0), expected);
    assert_eq!(run_closed(&h.dispatch_rc_run_explicit_bracket_carrier(carrier()), 0), expected);
    assert_eq!(run_closed(&h.dispatch_arc_run_explicit_bracket_carrier(carrier()), 0), expected);
    let cont = || SuppliedContinuation { outer: outer() };
    assert_eq!(run_closed(&d.dispatch_scoped_carrier_head(lifecycle(), cont()), 0), expected);
    assert_eq!(run_closed(&h.dispatch_scoped_carrier_head(lifecycle(), cont()), 0), expected);
    assert_eq!(run_closed(&d.dispatch_run_raw_scoped_head(lifecycle(), outer()), 0), expected);
    assert_eq!(run_closed(&d.dispatch_rc_run_raw_scoped_head(lifecycle(), outer()), 0), expected);
    assert_eq!(run_closed(&d.dispatch_arc_run_raw_scoped_head(lifecycle(), outer()), 0), expected);
    assert_eq!(run_closed(&h.dispatch_run_raw_scoped_head(lifecycle(), outer()), 0), expected);
    assert_eq!(run_closed(&h.dispatch_rc_run_raw_scoped_head(lifecycle(), outer()), 0), expected);
    assert_eq!(run_closed(&h.dispatch_arc_run_raw_scoped_head(lifecycle(), outer()), 0), expected);
    assert_eq!(run_closed(&d.dispatch_scoped_head(lifecycle()), 0), ok(num(42), vec![num(7)]));
    assert_eq!(run_closed(&h.dispatch_scoped_head(lifecycle()), 0), ok(num(42), vec![num(7)]));
}

#[test]
fn bracket_handler_boundaries() {
    let h = bracket_handler();
    for f in 0..3 {
        let boundary = Boundary { layer: ScopedLayer::Bracket(lifecycle()), outer: identity() };
        let p = match f {
            0 => h.dispatch_run_explicit_bracket_boundary(boundary),
            1 => h.dispatch_rc_run_explicit_bracket_boundary(boundary),
            _ => h.dispatch_arc_run_explicit_bracket_boundary(boundary),
        };
        assert_eq!(run_closed(&p, 0), ok(num(42), vec![num(7)]));
    }
}

#[test]
fn bracket_body_failure_skips_release_and_outer() {
    let b = Bracket {
        acquire: seq(konst(7), Prog::Tell(Fun::AddInt(100))),
        body: Prog::Throw(Fun::Const(num(-1))),
        release: Prog::Tell(Fun::Id),
    };
    let p = bracket_dispatcher().dispatch_scoped_carrier_head(b, SuppliedContinuation { outer: Prog::Tell(Fun::Id) });
    assert_eq!(run_closed(&p, 0), Outcome { result: Err(num(-1)), log: vec![num(107)] });
}

#[test]
fn bracket_acquire_failure_skips_everything() {
    let b = Bracket {
        acquire: Prog::Throw(Fun::Const(num(9))),
        body: Prog::Tell(Fun::Const(num(1))),
        release: Prog::Tell(Fun::Const(num(2))),
    };
    let p = bracket_handler().dispatch_scoped_head(b);
    assert_eq!(run_closed(&p, 0), Outcome { result: Err(num(9)), log: vec![] });
}

#[test]
fn bracket_release_failure_is_the_error() {
    let b = Bracket { acquire: konst(7), body: Prog::Pure(Fun::Both(Box::new(Fun::Id), Box::new(Fun::Id))), release: Prog::Throw(Fun::Id) };
    let p = bracket_dispatcher().dispatch_scoped_head(b);
    assert_eq!(run_closed(&p, 0), Outcome { result: Err(num(7)), log: vec![] });
}

#[test]
fn bracket_release_sees_handed_back_resource() {
    // the body hands back resource * 2 and returns resource + 1
    let b = Bracket {
        acquire: konst(5),
        body: Prog::Pure(Fun::Both(Box::new(Fun::MulInt(2)), Box::new(Fun::AddInt(1)))),
        release: Prog::Tell(Fun::Id),
    };
    let p = bracket_dispatcher().dispatch_scoped_head(b);
    assert_eq!(run_closed(&p, 0), ok(num(6), vec![num(10)]));
}

fn local_action() -> Prog {
    // ask, then double
    seq(Prog::Ask, Prog::Pure(Fun::MulInt(2)))
}

#[test]
fn local_dispatcher_transforms_environment() {
    let d = local_dispatcher();
    let layer = Local { modify: Fun::AddInt(1), action: local_action() };
    let p = d.dispatch_scoped_head(layer);
    assert_eq!(run_closed(&p, 10), ok(num(22), vec![]));
}

#[test]
fn local_rc_example() {
    let d = local_dispatcher();
    let layer = Local { modify: Fun::AddInt(1), action: seq(Prog::Ask, Prog::Pure(Fun::AddInt(1))) };
    let p = d.dispatch_rc_run_raw_scoped_head(layer, identity());
    assert_eq!(run_closed(&p, 40), ok(num(42), vec![]));
}

#[test]
fn local_boundaries_restore_environment_for_outer() {
    let d = local_dispatcher();
    // the outer continuation tells its input and then asks: it sees the inherited env
    let outer = || seq(Prog::Tell(Fun::Id), Prog::Ask);
    for f in 0..3 {
        let boundary = Boundary { layer: ScopedLayer::Local(Local { modify: Fun::AddInt(1), action: local_action() }), outer: outer() };
        let p = match f {
            0 => d.dispatch_run_explicit_local_boundary(boundary),
            1 => d.dispatch_rc_run_explicit_local_boundary(boundary),
            _ => d.dispatch_arc_run_explicit_local_boundary(boundary),
        };
        assert_eq!(run_closed(&p, 10), ok(num(10), vec![num(22)]));
    }
}

#[test]
fn local_carriers_and_heads() {
    let d = local_dispatcher();
    let carrier = || LocalCarrier {
        modify: Fun::AddInt(1),
        continuation: ScopedContinuation { action: local_action(), outer: Prog::Pure(Fun::AddInt(1)) },
    };
    let expected = ok(num(23), vec![]);
    assert_eq!(run_closed(&d.dispatch_run_explicit_local_carrier(carrier()), 10), expected);
    assert_eq!(run_closed(&d.dispatch_rc_run_explicit_local_carrier(carrier()), 10), expected);
    assert_eq!(run_closed(&d.dispatch_arc_run_explicit_local_carrier(carrier()), 10), expected);
    let layer = || Local { modify: Fun::AddInt(1), action: local_action() };
    let k = || Prog::Pure(Fun::AddInt(1));
    assert_eq!(run_closed(&d.dispatch_scoped_carrier_head(layer(), SuppliedContinuation { outer: k() }), 10), expected);
    assert_eq!(run_closed(&d.dispatch_run_raw_scoped_head(layer(), k()), 10), expected);
    assert_eq!(run_closed(&d.dispatch_arc_run_raw_scoped_head(layer(), k()), 10), expected);
    // the carrier action runs on later inherited environments too
    assert_eq!(run_closed(&d.dispatch_rc_run_explicit_local_carrier(carrier()), 20), ok(num(43), vec![]));
}

#[test]
fn ref_local_handler_all_paths() {
    let h = ref_local_handler();
    let layer = || RefLocal { modify: Fun::AddInt(1), action: local_action() };
    assert_eq!(run_closed(&h.dispatch_scoped_head(layer()), 10), ok(num(22), vec![]));
    let k = || Prog::Pure(Fun::AddInt(1));
    let expected = ok(num(23), vec![]);
    assert_eq!(run_closed(&h.dispatch_scoped_carrier_head(layer(), SuppliedContinuation { outer: k() }), 10), expected);
    assert_eq!(run_closed(&h.dispatch_run_raw_scoped_head(layer(), k()), 10), expected);
    assert_eq!(run_closed(&h.dispatch_rc_run_raw_scoped_head(layer(), k()), 10), expected);
    assert_eq!(run_closed(&h.dispatch_arc_run_raw_scoped_head(layer(), k()), 10), expected);
    for f in 0..3 {
        let boundary = Boundary { layer: ScopedLayer::RefLocal(layer()), outer: k() };
        let p = match f {
            0 => h.dispatch_run_explicit_ref_local_boundary(boundary),
            1 => h.dispatch_rc_run_explicit_ref_local_boundary(boundary),
            _ => h.dispatch_arc_run_explicit_ref_local_boundary(boundary),
        };
        assert_eq!(run_closed(&p, 10), expected);
    }
    let carrier = || LocalCarrier { modify: Fun::AddInt(1), continuation: ScopedContinuation { action: local_action(), outer: k() } };
    assert_eq!(run_closed(&h.dispatch_run_explicit_ref_local_carrier(carrier()), 10), expected);
    assert_eq!(run_closed(&h.dispatch_rc_run_explicit_ref_local_carrier(carrier()), 10), expected);
    assert_eq!(run_closed(&h.dispatch_arc_run_explicit_ref_local_carrier(carrier()), 10), expected);
}

#[test]
fn nested_local_composes_transforms() {
    let d = local_dispatcher();
    let inner = d.dispatch_scoped_head(Local { modify: Fun::MulInt(3), action: Prog::Ask });
    let outer = d.dispatch_scoped_head(Local { modify: Fun::AddInt(1), action: inner });
    // (10 + 1) * 3
    assert_eq!(run_closed(&outer, 10), ok(num(33), vec![]));
}

fn throwing_action() -> Prog {
    seq(Prog::Tell(Fun::Const(num(1))), seq(Prog::Throw(Fun::Const(num(5))), Prog::Tell(Fun::Const(num(2)))))
}

#[test]
fn catch_recovers_from_throw() {
    let h = catch_handler();
    let layer = Catch { action: throwing_action(), handler: Prog::Pure(Fun::MulInt(10)) };
    let p = h.dispatch_scoped_head(layer);
    assert_eq!(run_closed(&p, 0), ok(num(50), vec![num(1)]));
}

#[test]
fn catch_passes_success_through() {
    let h = catch_handler();
    let layer = Catch { action: konst(3), handler: Prog::Tell(Fun::Const(num(99))) };
    let p = h.dispatch_run_raw_scoped_head(layer, Prog::Pure(Fun::AddInt(1)));
    assert_eq!(run_closed(&p, 0), ok(num(4), vec![]));
}

#[test]
fn catch_handler_error_propagates_and_skips_outer() {
    let h = catch_handler();
    let layer = Catch { action: throwing_action(), handler: Prog::Throw(Fun::AddInt(1)) };
    let p = h.dispatch_scoped_carrier_head(layer, SuppliedContinuation { outer: Prog::Tell(Fun::Id) });
    assert_eq!(run_closed(&p, 0), Outcome { result: Err(num(6)), log: vec![num(1)] });
}

#[test]
fn catch_boundaries_and_carriers() {
    let h = catch_handler();
    let layer = || Catch { action: throwing_action(), handler: Prog::Pure(Fun::MulInt(10)) };
    let expected = ok(num(51), vec![num(1)]);
    let k = || Prog::Pure(Fun::AddInt(1));
    for f in 0..3 {
        let boundary = Boundary { layer: ScopedLayer::Catch(layer()), outer: k() };
        let p = match f {
            0 => h.dispatch_run_explicit_catch_boundary(boundary),
            1 => h.dispatch_rc_run_explicit_catch_boundary(boundary),
            _ => h.dispatch_arc_run_explicit_catch_boundary(boundary),
        };
        assert_eq!(run_closed(&p, 0), expected);
    }
    let carrier = || CatchCarrier {
        handler: Prog::Pure(Fun::MulInt(10)),
        continuation: ScopedContinuation { action: throwing_action(), outer: k() },
    };
    assert_eq!(run_closed(&h.dispatch_run_explicit_catch_carrier(carrier()), 0), expected);
    assert_eq!(run_closed(&h.dispatch_rc_run_explicit_catch_carrier(carrier()), 0), expected);
    assert_eq!(run_closed(&h.dispatch_arc_run_explicit_catch_carrier(carrier()), 0), expected);
    assert_eq!(run_closed(&h.dispatch_rc_run_raw_scoped_head(layer(), k()), 0), expected);
    assert_eq!(run_closed(&h.dispatch_arc_run_raw_scoped_head(layer(), k()), 0), expected);
}

fn ref_lifecycle() -> RefBracket {
    RefBracket { acquire: konst(7), body: Prog::Pure(Fun::AddInt(35)), release: Prog::Tell(Fun::Id) }
}

#[test]
fn ref_bracket_handler_shares_resource() {
    let h = ref_bracket_handler();
    assert_eq!(run_closed(&h.dispatch_scoped_head(ref_lifecycle()), 0), ok(num(42), vec![num(7)]));
    let expected = ok(num(43), vec![num(7)]);
    let k = || Prog::Pure(Fun::AddInt(1));
    for f in 0..2 {
        let boundary = Boundary { layer: ScopedLayer::RefBracket(ref_lifecycle()), outer: k() };
        let p = match f {
            0 => h.dispatch_rc_run_explicit_ref_bracket_boundary(boundary),
            _ => h.dispatch_arc_run_explicit_ref_bracket_boundary(boundary),
        };
        assert_eq!(run_closed(&p, 0), expected);
    }
    let carrier = || RefBracketCarrier { bracket: ref_lifecycle(), continuation: SuppliedContinuation { outer: k() } };
    assert_eq!(run_closed(&h.dispatch_run_explicit_ref_bracket_carrier(carrier()), 0), expected);
    assert_eq!(run_closed(&h.dispatch_rc_run_explicit_ref_bracket_carrier(carrier()), 0), expected);
    assert_eq!(run_closed(&h.dispatch_arc_run_explicit_ref_bracket_carrier(carrier()), 0), expected);
    assert_eq!(run_closed(&h.dispatch_scoped_carrier_head(ref_lifecycle(), SuppliedContinuation { outer: k() }), 0), expected);
    assert_eq!(run_closed(&h.dispatch_rc_run_raw_scoped_head(ref_lifecycle(), k()), 0), expected);
    assert_eq!(run_closed(&h.dispatch_arc_run_raw_scoped_head(ref_lifecycle(), k()), 0), expected);
}

#[test]
fn ref_bracket_body_failure_skips_release() {
    let b = RefBracket { acquire: konst(7), body: Prog::Throw(Fun::Id), release: Prog::Tell(Fun::Id) };
    let p = ref_bracket_handler().dispatch_scoped_head(b);
    assert_eq!(run_closed(&p, 0), Outcome { result: Err(num(7)), log: vec![] });
}

fn tagged() -> Span {
    Span::Span { tag: num(100), action: seq(Prog::Tell(Fun::Const(num(3))), konst(41)) }
}

#[test]
fn span_resumes_action_unchanged() {
    let d = span_dispatcher();
    let h = span_handler();
    assert_eq!(run_closed(&d.dispatch_scoped_head(tagged()), 0), ok(num(41), vec![num(3)]));
    assert_eq!(run_closed(&h.dispatch_scoped_head(tagged()), 0), ok(num(41), vec![num(3)]));
    let k = || Prog::Pure(Fun::AddInt(1));
    let expected = ok(num(42), vec![num(3)]);
    assert_eq!(run_closed(&d.dispatch_scoped_carrier_head(tagged(), SuppliedContinuation { outer: k() }), 0), expected);
    assert_eq!(run_closed(&d.dispatch_run_raw_scoped_head(tagged(), k()), 0), expected);
    assert_eq!(run_closed(&d.dispatch_rc_run_raw_scoped_head(tagged(), k()), 0), expected);
    assert_eq!(run_closed(&d.dispatch_arc_run_raw_scoped_head(tagged(), k()), 0), expected);
    assert_eq!(run_closed(&h.dispatch_run_raw_scoped_head(tagged(), k()), 0), expected);
    assert_eq!(run_closed(&h.dispatch_rc_run_raw_scoped_head(tagged(), k()), 0), expected);
    assert_eq!(run_closed(&h.dispatch_arc_run_raw_scoped_head(tagged(), k()), 0), expected);
}

#[test]
fn span_post_action_receives_tag_and_value() {
    let d = span_dispatcher();
    // the post action tells the tag and returns the action value
    let post = || seq(Prog::Tell(Fun::Fst), Prog::Pure(Fun::Snd));
    let expected = ok(num(41), vec![num(3), num(100)]);
    for f in 0..3 {
        let boundary = Boundary { layer: ScopedLayer::Span(tagged()), outer: identity() };
        let p = match f {
            0 => d.dispatch_run_explicit_span_boundary_with_post_action(boundary, post()),
            1 => d.dispatch_rc_run_explicit_span_boundary_with_post_action(boundary, post()),
            _ => d.dispatch_arc_run_explicit_span_boundary_with_post_action(boundary, post()),
        };
        assert_eq!(run_closed(&p, 0), expected);
    }
    let carrier = || SpanCarrier {
        tag: num(100),
        continuation: ScopedContinuation { action: seq(Prog::Tell(Fun::Const(num(3))), konst(41)), outer: identity() },
    };
    assert_eq!(run_closed(&d.dispatch_run_explicit_span_carrier_with_post_action(carrier(), post()), 0), expected);
    assert_eq!(run_closed(&d.dispatch_rc_run_explicit_span_carrier_with_post_action(carrier(), post()), 0), expected);
    assert_eq!(run_closed(&d.dispatch_arc_run_explicit_span_carrier_with_post_action(carrier(), post()), 0), expected);
}

#[test]
fn scoped_layers_nest() {
    // a Bracket whose body is a Catch-protected action
    let protected = catch_handler().dispatch_scoped_head(Catch {
        action: Prog::Throw(Fun::Const(num(8))),
        handler: Prog::Pure(Fun::AddInt(1)),
    });
    let b = Bracket {
        acquire: konst(2),
        body: Prog::Fork(Box::new(protected)),
        release: Prog::Tell(Fun::Id),
    };
    let p = bracket_dispatcher().dispatch_scoped_head(b);
    assert_eq!(run_closed(&p, 0), ok(num(9), vec![num(2)]));
}
