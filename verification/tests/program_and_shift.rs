use lib::program::{Fun, Outcome, Prog, Val};
use lib::shift::{run_shift, shift, ShiftBody, ShiftBrand, ShiftF, Step};
use lib::span::{box_span_tag_ref, span_action_thunk_ref, span_tag_ref, BoxSpanBrand, SendSpanBrand, Span, SpanBrand};
use lib::standard_scoped_handlers::raw_replacers::{
    ArcLocalRawRunReplacer, ArcRefLocalRawRunReplacer, BoxCatchRawRunReplacer, BoxLocalRawRunReplacer,
    BoxRefLocalRawRunReplacer, RcLocalRawRunReplacer, RcRefLocalRawRunReplacer,
};

fn num(n: i64) -> Val {
    Val::Int(n)
}

fn seq(a: Prog, b: Prog) -> Prog {
    Prog::Bind(Box::new(a), Box::new(b))
}

fn ok(v: Val, log: Vec<Val>) -> Outcome {
    Outcome { result: Ok(v), log }
}

fn pair(a: Val, b: Val) -> Val {
    Val::Pair(Box::new(a), Box::new(b))
}

#[test]
fn fun_call_values() {
    assert_eq!(Fun::Id.call(num(3)), num(3));
    assert_eq!(Fun::Const(num(9)).call(Val::Unit), num(9));
    assert_eq!(Fun::AddInt(5).call(num(3)), num(8));
    assert_eq!(Fun::AddInt(1).call(num(i64::MAX)), num(i64::MIN));
    assert_eq!(Fun::MulInt(-2).call(num(21)), num(-42));
    assert_eq!(Fun::AddInt(5).call(Val::Unit), Val::Unit);
    assert_eq!(Fun::Fst.call(pair(num(1), num(2))), num(1));
    assert_eq!(Fun::Snd.call(pair(num(1), num(2))), num(2));
    assert_eq!(Fun::Fst.call(num(1)), Val::Unit);
    assert_eq!(Fun::Both(Box::new(Fun::Id), Box::new(Fun::AddInt(35))).call(num(7)), pair(num(7), num(42)));
    assert_eq!(Fun::Then(Box::new(Fun::AddInt(1)), Box::new(Fun::MulInt(3))).call(num(10)), num(33));
}

#[test]
fn interpret_each_node() {
    let env = num(10);
    assert_eq!(Prog::Ask.interpret(&env, Val::Unit), ok(num(10), vec![]));
    assert_eq!(Prog::Pure(Fun::AddInt(1)).interpret(&env, num(4)), ok(num(5), vec![]));
    assert_eq!(Prog::Throw(Fun::Id).interpret(&env, num(4)), Outcome { result: Err(num(4)), log: vec![] });
    assert_eq!(Prog::Tell(Fun::MulInt(2)).interpret(&env, num(4)), ok(num(4), vec![num(8)]));
    let p = seq(Prog::Tell(Fun::Id), seq(Prog::Ask, Prog::Tell(Fun::Id)));
    assert_eq!(p.interpret(&env, num(1)), ok(num(10), vec![num(1), num(10)]));
    let stop = seq(Prog::Throw(Fun::Const(num(0))), Prog::Tell(Fun::Id));
    assert_eq!(stop.interpret(&env, num(1)), Outcome { result: Err(num(0)), log: vec![] });
    assert_eq!(Prog::Fork(Box::new(Prog::Pure(Fun::AddInt(1)))).interpret(&env, num(1)), ok(pair(num(1), num(2)), vec![]));
    assert_eq!(Prog::WithEnv(Box::new(Prog::Ask)).interpret(&env, num(3)), ok(num(3), vec![]));
    let recovered = Prog::Recover(Box::new(seq(Prog::Tell(Fun::Id), Prog::Throw(Fun::AddInt(1)))), Box::new(Prog::Pure(Fun::MulInt(5))));
    assert_eq!(recovered.interpret(&env, num(2)), ok(num(15), vec![num(2)]));
}

#[test]
fn duplicates_are_equal() {
    let p = Prog::Recover(Box::new(Prog::Tell(Fun::Both(Box::new(Fun::Const(num(1))), Box::new(Fun::Id)))), Box::new(Prog::WithEnv(Box::new(Prog::Ask))));
    assert_eq!(p.duplicate(), p);
    let v = pair(num(1), pair(Val::Unit, num(2)));
    assert_eq!(v.duplicate(), v);
}

#[test]
fn shift_resumes_and_tail_adds_one() {
    // shift(|exit| exit(5)).bind(|v| pure(v + 1)), delimited with pure
    let body = ShiftBody { prefix: Prog::Pure(Fun::Const(num(5))), suffix: Prog::Pure(Fun::Id) };
    let program = shift(body).then_step(Step::Compute(Fun::AddInt(1)));
    let narrowed = run_shift(program, Prog::Pure(Fun::Id));
    assert_eq!(narrowed.interpret(&Val::Unit, Val::Unit), ok(num(6), vec![]));
}

#[test]
fn shift_body_post_processes_answer() {
    // shift(|exit| exit(5).bind(|ans| pure(ans * 2))).bind(|v| pure(v + 1))
    let body = ShiftBody { prefix: Prog::Pure(Fun::Const(num(5))), suffix: Prog::Pure(Fun::MulInt(2)) };
    let program = shift(body).then_step(Step::Compute(Fun::AddInt(1)));
    let narrowed = run_shift(program, Prog::Pure(Fun::Id));
    assert_eq!(narrowed.interpret(&Val::Unit, Val::Unit), ok(num(12), vec![]));
}

#[test]
fn shift_abort_drops_tail() {
    let body = ShiftBody { prefix: Prog::Pure(Fun::Const(Val::Left(Box::new(num(0))))), suffix: Prog::Tell(Fun::Id) };
    let program = shift(body).then_step(Step::Effect(Prog::Tell(Fun::Id))).then_step(Step::Compute(Fun::AddInt(1)));
    let narrowed = run_shift(program, Prog::Tell(Fun::Id));
    assert_eq!(narrowed.interpret(&Val::Unit, Val::Unit), ok(num(0), vec![]));
}

#[test]
fn shift_reemits_other_effects_and_return_clause() {
    let body = ShiftBody { prefix: Prog::Pure(Fun::Const(num(5))), suffix: Prog::Tell(Fun::Const(num(-1))) };
    let program = shift(body)
        .then_step(Step::Effect(Prog::Tell(Fun::Id)))
        .then_step(Step::Compute(Fun::AddInt(1)));
    let narrowed = run_shift(program, Prog::Pure(Fun::MulInt(10)));
    assert_eq!(narrowed.interpret(&Val::Unit, Val::Unit), ok(num(60), vec![num(5), num(-1)]));
}

#[test]
fn shift_without_capture_applies_return_clause() {
    let program = lib::shift::PromptProgram { steps: vec![Step::Compute(Fun::Const(num(4)))] };
    let narrowed = run_shift(program, Prog::Pure(Fun::AddInt(1)));
    assert_eq!(narrowed.interpret(&Val::Unit, Val::Unit), ok(num(5), vec![]));
}

#[test]
fn shift_brand_map_composes_continuation() {
    let body = ShiftBody { prefix: Prog::Pure(Fun::Const(num(5))), suffix: Prog::Pure(Fun::Id) };
    let mapped = ShiftBrand::map(Fun::AddInt(1), ShiftF::Shift(body, Fun::Id));
    let ShiftF::Shift(_body, k) = mapped;
    assert_eq!(k.call(num(5)), num(6));
}

fn request_span() -> Span {
    Span::Span { tag: num(7), action: Prog::Pure(Fun::Const(num(41))) }
}

#[test]
fn span_map_preserves_tag() {
    for f in 0..5 {
        let mapped = match f {
            0 => BoxSpanBrand::map(Fun::AddInt(1), request_span()),
            1 => BoxSpanBrand::send_map(Fun::AddInt(1), request_span()),
            2 => SpanBrand::map(Fun::AddInt(1), request_span()),
            3 => SpanBrand::send_map(Fun::AddInt(1), request_span()),
            _ => SendSpanBrand::send_map(Fun::AddInt(1), request_span()),
        };
        assert_eq!(span_tag_ref(&mapped), &num(7));
        assert_eq!(span_action_thunk_ref(&mapped).interpret(&Val::Unit, Val::Unit), ok(num(42), vec![]));
    }
    let span = request_span();
    let mapped = SpanBrand::ref_map(Fun::AddInt(1), &span);
    assert_eq!(box_span_tag_ref(&mapped), &num(7));
    assert_eq!(SpanBrand::extract(mapped).interpret(&Val::Unit, Val::Unit), ok(num(42), vec![]));
    assert_eq!(span.duplicate(), request_span());
}

#[test]
fn span_drop_and_extract_give_action() {
    assert_eq!(BoxSpanBrand::drop(request_span()), Some(Prog::Pure(Fun::Const(num(41)))));
    assert_eq!(SpanBrand::drop(request_span()), Some(Prog::Pure(Fun::Const(num(41)))));
    assert_eq!(SendSpanBrand::drop(request_span()), Some(Prog::Pure(Fun::Const(num(41)))));
    assert_eq!(BoxSpanBrand::extract(request_span()), Prog::Pure(Fun::Const(num(41))));
    assert_eq!(SendSpanBrand::extract(request_span()), Prog::Pure(Fun::Const(num(41))));
}

#[test]
fn catch_replacer_runs_handler_once() {
    let mut replacer = BoxCatchRawRunReplacer { handler: Some(Prog::Pure(Fun::MulInt(3))) };
    let p = replacer.replace(num(4));
    assert!(replacer.handler.is_none());
    assert_eq!(p.interpret(&Val::Unit, Val::Unit), ok(num(12), vec![]));
}

#[test]
fn local_replacers_answer_with_local_env() {
    let k = || Prog::Pure(Fun::AddInt(1));
    let expected = ok(num(11), vec![]);
    assert_eq!(BoxLocalRawRunReplacer { local_env: num(10) }.replace(k()).interpret(&num(0), Val::Unit), expected);
    assert_eq!(RcLocalRawRunReplacer { local_env: num(10) }.replace(k()).interpret(&num(0), Val::Unit), expected);
    assert_eq!(ArcLocalRawRunReplacer { local_env: num(10) }.replace(k()).interpret(&num(0), Val::Unit), expected);
    assert_eq!(BoxRefLocalRawRunReplacer { local_env: num(10) }.replace(k()).interpret(&num(0), Val::Unit), expected);
    assert_eq!(RcRefLocalRawRunReplacer { local_env: num(10) }.replace(k()).interpret(&num(0), Val::Unit), expected);
    assert_eq!(ArcRefLocalRawRunReplacer { local_env: num(10) }.replace(k()).interpret(&num(0), Val::Unit), expected);
}

#[test]
fn shift_body_decides_at_run_time_from_environment() {
    // The same body reads its decision from the environment: `Left(3)`
    // drops the continuation and answers 3, `Right(5)` resumes with 5.
    let program = || {
        shift(ShiftBody { prefix: Prog::Ask, suffix: Prog::Pure(Fun::Id) }).then_step(Step::Compute(Fun::AddInt(1)))
    };
    let resumed = run_shift(program(), Prog::Pure(Fun::Id));
    assert_eq!(resumed.interpret(&Val::Right(Box::new(num(5))), Val::Unit), ok(num(6), vec![]));
    let aborted = run_shift(program(), Prog::Pure(Fun::Id));
    assert_eq!(aborted.interpret(&Val::Left(Box::new(num(3))), Val::Unit), ok(num(3), vec![]));
}

#[test]
fn case_runs_the_matching_alternative() {
    let p = Prog::Case(Box::new(Prog::Pure(Fun::AddInt(1))), Box::new(Prog::Pure(Fun::MulInt(2))));
    assert_eq!(p.interpret(&Val::Unit, Val::Left(Box::new(num(4)))), ok(num(5), vec![]));
    assert_eq!(p.interpret(&Val::Unit, Val::Right(Box::new(num(4)))), ok(num(8), vec![]));
    assert_eq!(p.interpret(&Val::Unit, num(4)), ok(num(8), vec![]));
}

#[test]
fn branch_resumes_continuation_on_both_alternatives() {
    let k = Prog::Bind(Box::new(Prog::Tell(Fun::Id)), Box::new(Prog::Pure(Fun::AddInt(10))));
    let p = Prog::Branch(Box::new(k));
    let input = Val::Pair(Box::new(num(1)), Box::new(num(2)));
    assert_eq!(
        p.interpret(&Val::Unit, input),
        ok(Val::Pair(Box::new(num(11)), Box::new(num(12))), vec![num(1), num(2)])
    );
}

#[test]
fn branch_first_error_skips_second_resumption() {
    let k = Prog::Bind(Box::new(Prog::Tell(Fun::Id)), Box::new(Prog::Throw(Fun::Id)));
    let p = Prog::Branch(Box::new(k));
    let input = Val::Pair(Box::new(num(1)), Box::new(num(2)));
    assert_eq!(p.interpret(&Val::Unit, input), Outcome { result: Err(num(1)), log: vec![num(1)] });
}
