//! Well-formedness of whole trees, and the proof that an item's span
//! covers the span of every node inside it.
//!
//! A parser is expected to hand every node a non-empty span drawn from
//! one source per parse, to place each child's span inside its parent's,
//! and to give every function definition and every inline function
//! literal the identity the tree demands. The predicates here write that
//! contract down; the lemmas derive the covering guarantee from it.

use vstd::prelude::*;

use crate::ast::{applies_to, Block, Const, Expr, Func, FunctionDef, Item, Let, Pattern};
use crate::ident::FunctionId;
use crate::span::{Span, Spanned};

verus! {

/// A well-formed expression node: its own span is non-empty and its
/// contents sit inside it.
pub open spec fn sp_expr_wf(se: Spanned<Expr>) -> bool
    decreases se,
{
    se.span.wf() && expr_wf_within(se.value, se.span)
}

/// The contents of an expression written at span `s` are well formed:
/// every direct child's span is non-empty and inside `s`, and the child
/// is well formed in turn. An inline function literal's identity is the
/// span of the literal itself.
pub open spec fn expr_wf_within(e: Expr, s: Span) -> bool
    decreases e,
{
    match e {
        Expr::Unit => true,
        Expr::If(b) => {
            &&& s.covers(b.cond.span) && sp_expr_wf(b.cond)
            &&& block_wf_within(b.if_true, s)
            &&& block_wf_within(b.if_false, s)
        },
        Expr::Call(b) => {
            &&& s.covers(b.func.span) && sp_expr_wf(b.func)
            &&& s.covers(b.arg.span) && sp_expr_wf(b.arg)
        },
        Expr::Bin(b) => {
            &&& s.covers(b.left.span) && sp_expr_wf(b.left)
            &&& s.covers(b.op.span) && b.op.span.wf()
            &&& s.covers(b.right.span) && sp_expr_wf(b.right)
        },
        Expr::Pipe(b) => {
            &&& s.covers(b.left.span) && sp_expr_wf(b.left)
            &&& s.covers(b.op.span) && b.op.span.wf()
            &&& s.covers(b.right.span) && sp_expr_wf(b.right)
        },
        Expr::Real(_) => true,
        Expr::Char(_) => true,
        Expr::String(_) => true,
        Expr::FormatString(_) => true,
        Expr::Ident(id) => id.wf(),
        Expr::Placeholder => true,
        Expr::List(es) => forall|i: int|
            0 <= i < es@.len() ==> s.covers((#[trigger] es@[i]).span) && sp_expr_wf(es@[i]),
        Expr::Array(es) => forall|i: int|
            0 <= i < es@.len() ==> s.covers((#[trigger] es@[i]).span) && sp_expr_wf(es@[i]),
        Expr::Parened(b) => s.covers(b.span) && sp_expr_wf(*b),
        Expr::Func(b) => b.id == FunctionId::Anonymous(s) && func_wf_within(*b, s),
    }
}

/// A block has no span of its own; its items and its tail sit inside the
/// span `s` of whatever construct wrote it.
pub open spec fn block_wf_within(b: Block, s: Span) -> bool
    decreases b,
{
    &&& forall|i: int|
        0 <= i < b.items@.len() ==> item_wf(#[trigger] b.items@[i]) && s.covers(
            b.items@[i].spec_span(),
        )
    &&& s.covers(b.expr.span) && sp_expr_wf(b.expr)
}

/// A function's identity, parameters and body are well formed within the
/// span `s` of the construct that declared it; an anonymous identity
/// points inside `s`.
pub open spec fn func_wf_within(f: Func, s: Span) -> bool
    decreases f,
{
    &&& f.id.wf()
    &&& (f.id matches FunctionId::Anonymous(sp) ==> s.covers(sp))
    &&& forall|i: int|
        0 <= i < f.params@.len() ==> s.covers((#[trigger] f.params@[i]).span)
            && f.params@[i].span.wf() && f.params@[i].value.wf()
    &&& block_wf_within(f.body, s)
}

/// A well-formed pattern node: its own span is non-empty and its
/// contents sit inside it.
pub open spec fn sp_pattern_wf(sp: Spanned<Pattern>) -> bool
    decreases sp,
{
    sp.span.wf() && pattern_wf_within(sp.value, sp.span)
}

/// The contents of a pattern written at span `s` are well formed.
pub open spec fn pattern_wf_within(p: Pattern, s: Span) -> bool
    decreases p,
{
    match p {
        Pattern::Ident(id) => id.wf(),
        Pattern::List(ps) => forall|i: int|
            0 <= i < ps@.len() ==> s.covers((#[trigger] ps@[i]).span) && sp_pattern_wf(ps@[i]),
        Pattern::Discard => true,
    }
}

/// The names a pattern binds, in source order, one entry per occurrence.
pub open spec fn pattern_idents(p: Pattern) -> Seq<Seq<char>>
    decreases p,
{
    match p {
        Pattern::Ident(id) => seq![id.name@],
        Pattern::List(ps) => patterns_idents(ps@),
        Pattern::Discard => Seq::empty(),
    }
}

/// The names bound by a row of patterns, in order.
pub open spec fn patterns_idents(ps: Seq<Spanned<Pattern>>) -> Seq<Seq<char>>
    decreases ps,
{
    if ps.len() == 0 {
        Seq::empty()
    } else {
        pattern_idents(ps[0].value) + patterns_idents(ps.drop_first())
    }
}

/// A well-formed binding: both sides are well formed and drawn from one
/// source, and no identifier appears twice in the pattern.
pub open spec fn let_wf(l: Let) -> bool
    decreases l,
{
    &&& sp_pattern_wf(l.pattern)
    &&& sp_expr_wf(l.expr)
    &&& l.pattern.span.src == l.expr.span.src
    &&& pattern_idents(l.pattern.value).no_duplicates()
}

/// A well-formed constant declaration: a non-empty name and a well-formed
/// right-hand side, drawn from one source.
pub open spec fn const_wf(c: Const) -> bool
    decreases c,
{
    &&& c.name.span.wf() && c.name.value.wf()
    &&& sp_expr_wf(c.expr)
    &&& c.name.span.src == c.expr.span.src
}

/// A well-formed function definition. Its inner function's identity is
/// the definition's own name, and everything the definition holds sits
/// between the name and the body's tail — the range its item span merges.
pub open spec fn fdef_wf(f: FunctionDef) -> bool
    decreases f,
{
    &&& f.name.span.wf() && f.name.value.wf()
    &&& (f.doc matches Some(d) ==> d.span.wf() && d.span.src == f.name.span.src)
    &&& f.func.id == FunctionId::Named(f.name.value)
    &&& f.name.span.src == f.func.body.expr.span.src
    &&& func_wf_within(f.func, f.name.span.spec_merge(f.func.body.expr.span))
}

/// A well-formed item.
pub open spec fn item_wf(i: Item) -> bool
    decreases i,
{
    match i {
        Item::FunctionDef(f) => fdef_wf(f),
        Item::Expr(e) => sp_expr_wf(e),
        Item::Let(l) => let_wf(l),
        Item::Const(c) => const_wf(c),
    }
}

/// In a well-formed tree, every function definition's identity is the
/// definition's own name.
pub proof fn lemma_fdef_id_is_name(f: FunctionDef)
    requires
        fdef_wf(f),
    ensures
        f.func.id == FunctionId::Named(f.name.value),
{
}

/// A well-formed item merges spans of one source, so `Item::span` accepts
/// it.
pub proof fn lemma_item_wf_spans_one_source(i: Item)
    requires
        item_wf(i),
    ensures
        i.spans_one_source(),
{
}

/// Every span stored in the expression — its own included — is covered
/// by `t`.
pub open spec fn sp_expr_spans_within(se: Spanned<Expr>, t: Span) -> bool
    decreases se,
{
    t.covers(se.span) && expr_spans_within(se.value, t)
}

/// Every span stored in the contents of the expression is covered by `t`.
pub open spec fn expr_spans_within(e: Expr, t: Span) -> bool
    decreases e,
{
    match e {
        Expr::Unit => true,
        Expr::If(b) => {
            &&& sp_expr_spans_within(b.cond, t)
            &&& block_spans_within(b.if_true, t)
            &&& block_spans_within(b.if_false, t)
        },
        Expr::Call(b) => sp_expr_spans_within(b.func, t) && sp_expr_spans_within(b.arg, t),
        Expr::Bin(b) => {
            &&& sp_expr_spans_within(b.left, t)
            &&& t.covers(b.op.span)
            &&& sp_expr_spans_within(b.right, t)
        },
        Expr::Pipe(b) => {
            &&& sp_expr_spans_within(b.left, t)
            &&& t.covers(b.op.span)
            &&& sp_expr_spans_within(b.right, t)
        },
        Expr::Real(_) => true,
        Expr::Char(_) => true,
        Expr::String(_) => true,
        Expr::FormatString(_) => true,
        Expr::Ident(_) => true,
        Expr::Placeholder => true,
        Expr::List(es) => forall|i: int|
            0 <= i < es@.len() ==> sp_expr_spans_within(#[trigger] es@[i], t),
        Expr::Array(es) => forall|i: int|
            0 <= i < es@.len() ==> sp_expr_spans_within(#[trigger] es@[i], t),
        Expr::Parened(b) => sp_expr_spans_within(*b, t),
        Expr::Func(b) => func_spans_within(*b, t),
    }
}

/// Every span stored in the block is covered by `t`.
pub open spec fn block_spans_within(b: Block, t: Span) -> bool
    decreases b,
{
    &&& forall|i: int|
        0 <= i < b.items@.len() ==> item_spans_within(#[trigger] b.items@[i], t)
    &&& sp_expr_spans_within(b.expr, t)
}

/// Every span stored in the function — an anonymous identity's span
/// included — is covered by `t`.
pub open spec fn func_spans_within(f: Func, t: Span) -> bool
    decreases f,
{
    &&& (f.id matches FunctionId::Anonymous(sp) ==> t.covers(sp))
    &&& forall|i: int| 0 <= i < f.params@.len() ==> t.covers((#[trigger] f.params@[i]).span)
    &&& block_spans_within(f.body, t)
}

/// Every span stored in the pattern — its own included — is covered by
/// `t`.
pub open spec fn sp_pattern_spans_within(sp: Spanned<Pattern>, t: Span) -> bool
    decreases sp,
{
    t.covers(sp.span) && pattern_spans_within(sp.value, t)
}

/// Every span stored in the contents of the pattern is covered by `t`.
pub open spec fn pattern_spans_within(p: Pattern, t: Span) -> bool
    decreases p,
{
    match p {
        Pattern::Ident(_) => true,
        Pattern::List(ps) => forall|i: int|
            0 <= i < ps@.len() ==> sp_pattern_spans_within(#[trigger] ps@[i], t),
        Pattern::Discard => true,
    }
}

/// Every span stored in the item — its derived span included — is
/// covered by `t`. The doc comment of a function definition precedes the
/// name and is metadata outside the item's span; it is not counted here.
pub open spec fn item_spans_within(i: Item, t: Span) -> bool
    decreases i,
{
    &&& t.covers(i.spec_span())
    &&& match i {
        Item::FunctionDef(f) => t.covers(f.name.span) && func_spans_within(f.func, t),
        Item::Expr(e) => sp_expr_spans_within(e, t),
        Item::Let(l) => sp_pattern_spans_within(l.pattern, t) && sp_expr_spans_within(l.expr, t),
        Item::Const(c) => t.covers(c.name.span) && sp_expr_spans_within(c.expr, t),
    }
}

proof fn lemma_sp_expr_within(se: Spanned<Expr>, t: Span)
    requires
        sp_expr_wf(se),
        t.covers(se.span),
    ensures
        sp_expr_spans_within(se, t),
    decreases se,
{
    lemma_expr_within(se.value, se.span, t);
}

proof fn lemma_expr_within(e: Expr, s: Span, t: Span)
    requires
        expr_wf_within(e, s),
        t.covers(s),
    ensures
        expr_spans_within(e, t),
    decreases e,
{
    match e {
        Expr::Unit => {},
        Expr::If(b) => {
            lemma_sp_expr_within(b.cond, t);
            lemma_block_within(b.if_true, s, t);
            lemma_block_within(b.if_false, s, t);
        },
        Expr::Call(b) => {
            lemma_sp_expr_within(b.func, t);
            lemma_sp_expr_within(b.arg, t);
        },
        Expr::Bin(b) => {
            lemma_sp_expr_within(b.left, t);
            lemma_sp_expr_within(b.right, t);
        },
        Expr::Pipe(b) => {
            lemma_sp_expr_within(b.left, t);
            lemma_sp_expr_within(b.right, t);
        },
        Expr::Real(_) => {},
        Expr::Char(_) => {},
        Expr::String(_) => {},
        Expr::FormatString(_) => {},
        Expr::Ident(_) => {},
        Expr::Placeholder => {},
        Expr::List(es) => {
            assert forall|i: int| 0 <= i < es@.len() implies sp_expr_spans_within(
                #[trigger] es@[i],
                t,
            ) by {
                lemma_sp_expr_within(es@[i], t);
            }
        },
        Expr::Array(es) => {
            assert forall|i: int| 0 <= i < es@.len() implies sp_expr_spans_within(
                #[trigger] es@[i],
                t,
            ) by {
                lemma_sp_expr_within(es@[i], t);
            }
        },
        Expr::Parened(b) => {
            lemma_sp_expr_within(*b, t);
        },
        Expr::Func(b) => {
            lemma_func_within(*b, s, t);
        },
    }
}

proof fn lemma_block_within(b: Block, s: Span, t: Span)
    requires
        block_wf_within(b, s),
        t.covers(s),
    ensures
        block_spans_within(b, t),
    decreases b,
{
    assert forall|i: int| 0 <= i < b.items@.len() implies item_spans_within(
        #[trigger] b.items@[i],
        t,
    ) by {
        lemma_item_within(b.items@[i], t);
    }
    lemma_sp_expr_within(b.expr, t);
}

proof fn lemma_func_within(f: Func, s: Span, t: Span)
    requires
        func_wf_within(f, s),
        t.covers(s),
    ensures
        func_spans_within(f, t),
    decreases f,
{
    lemma_block_within(f.body, s, t);
}

proof fn lemma_sp_pattern_within(sp: Spanned<Pattern>, t: Span)
    requires
        sp_pattern_wf(sp),
        t.covers(sp.span),
    ensures
        sp_pattern_spans_within(sp, t),
    decreases sp,
{
    lemma_pattern_within(sp.value, sp.span, t);
}

proof fn lemma_pattern_within(p: Pattern, s: Span, t: Span)
    requires
        pattern_wf_within(p, s),
        t.covers(s),
    ensures
        pattern_spans_within(p, t),
    decreases p,
{
    match p {
        Pattern::Ident(_) => {},
        Pattern::List(ps) => {
            assert forall|i: int| 0 <= i < ps@.len() implies sp_pattern_spans_within(
                #[trigger] ps@[i],
                t,
            ) by {
                lemma_sp_pattern_within(ps@[i], t);
            }
        },
        Pattern::Discard => {},
    }
}

proof fn lemma_item_within(i: Item, t: Span)
    requires
        item_wf(i),
        t.covers(i.spec_span()),
    ensures
        item_spans_within(i, t),
    decreases i,
{
    match i {
        Item::FunctionDef(f) => {
            let m = f.name.span.spec_merge(f.func.body.expr.span);
            lemma_func_within(f.func, m, t);
        },
        Item::Expr(e) => {
            lemma_sp_expr_within(e, t);
        },
        Item::Let(l) => {
            lemma_sp_pattern_within(l.pattern, t);
            lemma_sp_expr_within(l.expr, t);
        },
        Item::Const(c) => {
            lemma_sp_expr_within(c.expr, t);
        },
    }
}

/// The span a well-formed item derives from its contents covers the span
/// of every node the item holds: whatever a descendant stores as its
/// location lies inside the item's own range.
pub proof fn lemma_item_span_covers(i: Item)
    requires
        item_wf(i),
    ensures
        item_spans_within(i, i.spec_span()),
{
    lemma_item_within(i, i.spec_span());
}

/// A function with no parameters is a legal, well-formed function: a
/// valid identity pointing inside `s` and a well-formed body are all it
/// takes.
pub proof fn lemma_nullary_func_wf(f: Func, s: Span)
    requires
        f.id.wf(),
        f.id matches FunctionId::Anonymous(sp) ==> s.covers(sp),
        f.params@.len() == 0,
        block_wf_within(f.body, s),
    ensures
        func_wf_within(f, s),
{
}

/// Lowering a multi-argument call of well-formed pieces, all from one
/// source, yields a well-formed expression in that source.
pub proof fn lemma_applies_to_wf(r: Spanned<Expr>, f: Spanned<Expr>, args: Seq<Spanned<Expr>>)
    requires
        applies_to(r, f, args),
        sp_expr_wf(f),
        forall|i: int|
            0 <= i < args.len() ==> sp_expr_wf(#[trigger] args[i]) && args[i].span.src
                == f.span.src,
    ensures
        sp_expr_wf(r),
        r.span.src == f.span.src,
    decreases args.len(),
{
    if args.len() > 0 {
        let c = r.value->Call_0;
        lemma_applies_to_wf(c.func, f, args.drop_last());
        assert(sp_expr_wf(args.last()));
    }
}

/// A block holding nothing but a tail expression — the shape the
/// conversion from a bare expression builds — is well formed within any
/// span covering that expression.
pub proof fn lemma_tail_only_block_wf(b: Block, s: Span)
    requires
        b.items@.len() == 0,
        sp_expr_wf(b.expr),
        s.covers(b.expr.span),
    ensures
        block_wf_within(b, s),
{
}

/// An empty list or array literal written at any non-empty span `s` — the
/// span of its delimiters — is a legal, well-formed expression.
pub proof fn lemma_empty_sequence_wf(s: Span, es: Vec<Spanned<Expr>>)
    requires
        s.wf(),
        es@.len() == 0,
    ensures
        sp_expr_wf(Spanned { span: s, value: Expr::List(es) }),
        sp_expr_wf(Spanned { span: s, value: Expr::Array(es) }),
{
}

} // verus!
