//! The scoped instrumentation effect `Span`: a tag attached to the
//! execution of an action program. The tag is stored by value and the
//! action is a program run on unit.

use vstd::prelude::*;
use crate::program::{apply, mapped, run, Fun, Prog, Val};

verus! {

/// The Span layer: an instrumentation tag attached to an action.
#[derive(Debug, PartialEq, Eq)]
pub enum Span {
    /// The tagged action.
    Span {
        /// The instrumentation tag, stored by value.
        tag: Val,
        /// The action; runs on unit.
        action: Prog,
    },
}

/// The single-shot Span flavour; its layer has the same shape as [`Span`].
pub type BoxSpan = Span;

/// The thread-safe Span flavour; its layer has the same shape as [`Span`].
pub type SendSpan = Span;

/// The tag of a Span layer.
pub open spec fn span_tag(s: Span) -> Val {
    match s {
        Span::Span { tag, .. } => tag,
    }
}

/// The action of a Span layer.
pub open spec fn span_action(s: Span) -> Prog {
    match s {
        Span::Span { action, .. } => action,
    }
}

/// The Span layer whose action is `s`'s action followed by `f`.
pub open spec fn span_mapped(f: Fun, s: Span) -> Span {
    Span::Span {
        tag: span_tag(s),
        action: Prog::Bind(Box::new(span_action(s)), Box::new(Prog::Pure(f))),
    }
}

/// Projects the tag reference out of a [`BoxSpan`].
pub fn box_span_tag_ref(fa: &BoxSpan) -> (tag: &Val)
    ensures
        *tag == span_tag(*fa),
{
    match fa {
        Span::Span { tag, .. } => tag,
    }
}

/// Projects the tag reference out of a [`Span`].
pub fn span_tag_ref(fa: &Span) -> (tag: &Val)
    ensures
        *tag == span_tag(*fa),
{
    match fa {
        Span::Span { tag, .. } => tag,
    }
}

/// Projects the action reference out of a [`Span`].
pub fn span_action_thunk_ref(fa: &Span) -> (action: &Prog)
    ensures
        *action == span_action(*fa),
{
    match fa {
        Span::Span { action, .. } => action,
    }
}

impl Span {
    /// Copies the span: the tag and the action.
    pub fn duplicate(&self) -> (out: Span)
        ensures
            out == *self,
    {
        match self {
            Span::Span { tag, action } => Span::Span { tag: tag.duplicate(), action: action.duplicate() },
        }
    }
}

/// Composes `f` over the action result while preserving the tag.
fn map_span(f: Fun, fa: Span) -> (out: Span)
    ensures
        out == span_mapped(f, fa),
        span_tag(out) == span_tag(fa),
        forall|env: Val, input: Val| #[trigger] run(span_action(out), env, input)
            == mapped(run(span_action(fa), env, input), f),
{
    let ghost g = fa;
    let out = match fa {
        Span::Span { tag, action } => Span::Span {
            tag,
            action: Prog::Bind(Box::new(action), Box::new(Prog::Pure(f))),
        },
    };
    assert forall|env: Val, input: Val| #[trigger] run(span_action(out), env, input)
        == mapped(run(span_action(g), env, input), f) by {
        let o = run(span_action(g), env, input);
        if let Ok(v) = o.0 {
            assert(run(Prog::Pure(f), env, v).1 =~= Seq::<Val>::empty());
            assert(o.1 + Seq::<Val>::empty() =~= o.1);
        }
    }
    out
}

/// The brand of the single-shot Span flavour.
#[derive(Clone, Copy, Debug, Default)]
pub struct BoxSpanBrand;

/// The brand of the shared Span flavour.
#[derive(Clone, Copy, Debug, Default)]
pub struct SpanBrand;

/// The brand of the thread-safe Span flavour.
#[derive(Clone, Copy, Debug, Default)]
pub struct SendSpanBrand;

impl BoxSpanBrand {
    /// Maps `f` over the action result while preserving the tag.
    pub fn map(f: Fun, fa: BoxSpan) -> (out: BoxSpan)
        ensures
            out == span_mapped(f, fa),
    {
        map_span(f, fa)
    }

    /// Thread-safe map; the same as [`BoxSpanBrand::map`].
    pub fn send_map(f: Fun, fa: BoxSpan) -> (out: BoxSpan)
        ensures
            out == span_mapped(f, fa),
    {
        map_span(f, fa)
    }

    /// Decomposes a span by returning its action.
    pub fn drop(fa: BoxSpan) -> (out: Option<Prog>)
        ensures
            out == Some(span_action(fa)),
    {
        match fa {
            Span::Span { action, .. } => Some(action),
        }
    }

    /// Extracts the span action.
    pub fn extract(fa: BoxSpan) -> (out: Prog)
        ensures
            out == span_action(fa),
    {
        match fa {
            Span::Span { action, .. } => action,
        }
    }
}

impl SpanBrand {
    /// Maps `f` over the action result while preserving the tag.
    pub fn map(f: Fun, fa: Span) -> (out: Span)
        ensures
            out == span_mapped(f, fa),
    {
        map_span(f, fa)
    }

    /// Thread-safe map; the same as [`SpanBrand::map`].
    pub fn send_map(f: Fun, fa: Span) -> (out: Span)
        ensures
            out == span_mapped(f, fa),
    {
        map_span(f, fa)
    }

    /// Maps `f` over the result of a borrowed span, copying the tag and
    /// the action.
    pub fn ref_map(f: Fun, fa: &Span) -> (out: Span)
        ensures
            out == span_mapped(f, *fa),
    {
        map_span(f, fa.duplicate())
    }

    /// Decomposes a span by returning its action.
    pub fn drop(fa: Span) -> (out: Option<Prog>)
        ensures
            out == Some(span_action(fa)),
    {
        match fa {
            Span::Span { action, .. } => Some(action),
        }
    }

    /// Extracts the span action.
    pub fn extract(fa: Span) -> (out: Prog)
        ensures
            out == span_action(fa),
    {
        match fa {
            Span::Span { action, .. } => action,
        }
    }
}

impl SendSpanBrand {
    /// Thread-safe map over the action result while preserving the tag.
    pub fn send_map(f: Fun, fa: SendSpan) -> (out: SendSpan)
        ensures
            out == span_mapped(f, fa),
    {
        map_span(f, fa)
    }

    /// Decomposes a span by returning its action.
    pub fn drop(fa: SendSpan) -> (out: Option<Prog>)
        ensures
            out == Some(span_action(fa)),
    {
        match fa {
            Span::Span { action, .. } => Some(action),
        }
    }

    /// Extracts the span action.
    pub fn extract(fa: SendSpan) -> (out: Prog)
        ensures
            out == span_action(fa),
    {
        match fa {
            Span::Span { action, .. } => action,
        }
    }
}

} // verus!
