//! The nodes of the tree: items, blocks, functions, expressions, patterns
//! and the closed operator enumerations.

use vstd::prelude::*;

use crate::ident::{FunctionId, Ident};
use crate::span::{Span, Spanned};

verus! {

/// A top-level declaration or statement.
#[derive(Debug)]
pub enum Item {
    FunctionDef(FunctionDef),
    Expr(Spanned<Expr>),
    Let(Let),
    Const(Const),
}

impl Item {
    /// The span an item derives from its contents: its own span for an
    /// expression, and the merge of the two outermost child spans for the
    /// declaration forms.
    pub open spec fn spec_span(self) -> Span {
        match self {
            Item::FunctionDef(f) => f.name.span.spec_merge(f.func.body.expr.span),
            Item::Expr(e) => e.span,
            Item::Let(l) => l.pattern.span.spec_merge(l.expr.span),
            Item::Const(c) => c.name.span.spec_merge(c.expr.span),
        }
    }

    /// The spans that `span` merges lie in one source. Merging spans of
    /// different sources is a programming error, so `span` rules it out.
    pub open spec fn spans_one_source(self) -> bool {
        match self {
            Item::FunctionDef(f) => f.name.span.src == f.func.body.expr.span.src,
            Item::Expr(_) => true,
            Item::Let(l) => l.pattern.span.src == l.expr.span.src,
            Item::Const(c) => c.name.span.src == c.expr.span.src,
        }
    }

    /// The span of the whole item.
    pub fn span(&self) -> (r: Span)
        requires
            self.spans_one_source(),
        ensures
            r == self.spec_span(),
    {
        match self {
            Item::FunctionDef(f) => f.name.span.merge(f.func.body.expr.span),
            Item::Expr(e) => e.span,
            Item::Let(l) => l.pattern.span.merge(l.expr.span),
            Item::Const(c) => c.name.span.merge(c.expr.span),
        }
    }
}

/// A binding of a pattern to the value of an expression.
#[derive(Debug)]
pub struct Let {
    pub pattern: Spanned<Pattern>,
    pub expr: Spanned<Expr>,
}

/// A binding of a single name to a compile-time-constant expression.
/// The constness of the right-hand side is enforced by a later pass; the
/// tree only records the declaration form.
#[derive(Debug)]
pub struct Const {
    pub name: Spanned<Ident>,
    pub expr: Spanned<Expr>,
}

/// A top-level function definition: an optional doc comment kept
/// verbatim, the declared name, and the function itself, whose identity
/// must be the declared name.
#[derive(Debug)]
pub struct FunctionDef {
    pub doc: Option<Spanned<String>>,
    pub name: Spanned<Ident>,
    pub func: Func,
}

impl FunctionDef {
    /// Builds a definition whose inner function carries the definition's
    /// own name as its identity, as every well-formed definition must.
    pub fn new(
        doc: Option<Spanned<String>>,
        name: Spanned<Ident>,
        params: Vec<Spanned<Ident>>,
        body: Block,
    ) -> (r: FunctionDef)
        ensures
            r.doc == doc,
            r.name == name,
            r.func.id == FunctionId::Named(r.name.value),
            r.func.params == params,
            r.func.body == body,
    {
        let id = FunctionId::Named(name.value.clone());
        FunctionDef { doc, name, func: Func { id, params, body } }
    }
}

/// A callable: its identity, its parameters (possibly none), and its
/// body. No currying happens at this level: a function of N parameters is
/// one node.
#[derive(Debug)]
pub struct Func {
    pub id: FunctionId,
    pub params: Vec<Spanned<Ident>>,
    pub body: Block,
}

/// Zero or more inner items followed by a mandatory tail expression, the
/// value of the block. A source block without a trailing expression gets
/// a synthetic `Unit` tail from the parser; the field is always present.
#[derive(Debug)]
pub struct Block {
    pub items: Vec<Item>,
    pub expr: Spanned<Expr>,
}

impl Block {
    /// The conventional conversion of a bare expression into a block:
    /// no inner items, the expression as the tail.
    pub fn from_expr(expr: Spanned<Expr>) -> (r: Block)
        ensures
            r.items@ =~= Seq::<Item>::empty(),
            r.expr == expr,
    {
        Block { items: Vec::new(), expr }
    }

    /// The tail expression, the value of the block.
    pub fn tail(&self) -> (r: &Spanned<Expr>)
        ensures
            *r == self.expr,
    {
        &self.expr
    }
}

/// An expression. Numeric literals keep their original textual form;
/// parsing them into numbers is a later phase. A format string is an
/// alternating sequence of fragments: even positions hold literal text,
/// odd positions hold the textual form of an interpolated expression.
#[derive(Debug)]
pub enum Expr {
    Unit,
    If(Box<IfExpr>),
    Call(Box<CallExpr>),
    Bin(Box<BinExpr>),
    Pipe(Box<PipeExpr>),
    Real(String),
    Char(char),
    String(String),
    FormatString(Vec<String>),
    Ident(Ident),
    Placeholder,
    List(Vec<Spanned<Expr>>),
    Array(Vec<Spanned<Expr>>),
    Parened(Box<Spanned<Expr>>),
    Func(Box<Func>),
}

impl Default for Expr {
    /// The designated default expression, cheap enough for parsers to
    /// plant during error recovery and overwrite later.
    fn default() -> (r: Expr)
        ensures
            r == Expr::Unit,
    {
        Expr::Unit
    }
}

impl Expr {
    /// The sub-expression under one explicit parenthesisation, if this is
    /// a parenthesised expression.
    pub open spec fn spec_strip_parens(self) -> Option<Spanned<Expr>> {
        match self {
            Expr::Parened(inner) => Some(*inner),
            _ => None,
        }
    }

    /// Wraps an expression as an explicitly parenthesised expression, the
    /// form a pretty-printer uses to restore the author's grouping.
    pub fn parened(expr: Spanned<Expr>) -> (r: Expr)
        ensures
            r.spec_strip_parens() == Some(expr),
    {
        Expr::Parened(Box::new(expr))
    }

    /// Lowers a call of the multi-argument shape to this tree's unary
    /// shape: applies `f` to the arguments in source order, currying left
    /// to right. All spans must come from one source, as one parse hands
    /// them out.
    pub fn apply_all(f: Spanned<Expr>, args: Vec<Spanned<Expr>>) -> (r: Spanned<Expr>)
        requires
            forall|i: int| 0 <= i < args@.len() ==> (#[trigger] args@[i]).span.src == f.span.src,
        ensures
            applies_to(r, f, args@),
    {
        let ghost all_args = args@;
        let mut acc = f;
        let mut rest = args;
        let ghost k: int = 0;
        proof {
            assert(all_args.subrange(0, 0) =~= Seq::<Spanned<Expr>>::empty());
        }
        while rest.len() > 0
            invariant
                0 <= k <= all_args.len(),
                rest@ == all_args.subrange(k, all_args.len() as int),
                applies_to(acc, f, all_args.subrange(0, k)),
                acc.span.src == f.span.src,
                forall|i: int|
                    0 <= i < all_args.len() ==> (#[trigger] all_args[i]).span.src == f.span.src,
            decreases rest@.len(),
        {
            let a = rest.remove(0);
            proof {
                assert(a == all_args[k]);
                assert(rest@ =~= all_args.subrange(k + 1, all_args.len() as int));
            }
            let span = acc.span.merge(a.span);
            let next = Spanned { span, value: Expr::Call(Box::new(CallExpr { func: acc, arg: a })) };
            proof {
                assert(all_args.subrange(0, k + 1).drop_last() =~= all_args.subrange(0, k));
                assert(all_args.subrange(0, k + 1).last() == all_args[k]);
                assert(applies_to(next, f, all_args.subrange(0, k + 1)));
            }
            acc = next;
            proof {
                k = k + 1;
            }
        }
        proof {
            assert(all_args.subrange(0, all_args.len() as int) =~= all_args);
        }
        acc
    }

    /// Strips one explicit parenthesisation; `None` on every other form.
    pub fn strip_parens(self) -> (r: Option<Spanned<Expr>>)
        ensures
            r == self.spec_strip_parens(),
    {
        match self {
            Expr::Parened(inner) => Some(*inner),
            _ => None,
        }
    }
}

/// Wrapping an expression in explicit parentheses and stripping them
/// gives back exactly the expression that was wrapped.
pub proof fn lemma_paren_roundtrip(inner: Box<Spanned<Expr>>)
    ensures
        (Expr::Parened(inner)).spec_strip_parens() == Some(*inner),
{
}

/// The shape a binding destructures: a single name, a list of exactly the
/// given arity (nested destructuring is a nested list), or a discard that
/// matches anything and binds nothing.
#[derive(Debug)]
pub enum Pattern {
    Ident(Ident),
    List(Vec<Spanned<Pattern>>),
    Discard,
}

/// A directional application: `Forward` feeds the left value to the right
/// function, `Backward` the reverse. Kept distinct from a call so error
/// messages and formatting can show the operator as written.
#[derive(Debug)]
pub struct PipeExpr {
    pub left: Spanned<Expr>,
    pub op: Spanned<PipeOp>,
    pub right: Spanned<Expr>,
}

impl PipeExpr {
    /// The call this pipe stands for: `Forward` applies the right-hand
    /// function to the left-hand value, `Backward` the reverse.
    pub fn lowered(self) -> (r: CallExpr)
        ensures
            self.op.value == PipeOp::Forward ==> r.func == self.right && r.arg == self.left,
            self.op.value == PipeOp::Backward ==> r.func == self.left && r.arg == self.right,
    {
        match self.op.value {
            PipeOp::Forward => CallExpr { func: self.right, arg: self.left },
            PipeOp::Backward => CallExpr { func: self.left, arg: self.right },
        }
    }
}

/// A conditional with a block for each branch.
#[derive(Debug)]
pub struct IfExpr {
    pub cond: Spanned<Expr>,
    pub if_true: Block,
    pub if_false: Block,
}

/// A unary application: this tree commits to the one-argument call
/// shape, and multi-argument calls are curried — the `func` of an inner
/// call is itself a call. [`Expr::apply_all`] lowers the other,
/// multi-argument shape into this one.
#[derive(Debug)]
pub struct CallExpr {
    pub func: Spanned<Expr>,
    pub arg: Spanned<Expr>,
}

/// `r` is the curried application of `f` to `args` in order: for each
/// argument in turn a call node applying what came before to it, spanning
/// its function and its argument.
pub open spec fn applies_to(r: Spanned<Expr>, f: Spanned<Expr>, args: Seq<Spanned<Expr>>) -> bool
    decreases args.len(),
{
    if args.len() == 0 {
        r == f
    } else {
        &&& r.value matches Expr::Call(c)
        &&& applies_to(c.func, f, args.drop_last())
        &&& c.arg == args.last()
        &&& r.span == c.func.span.spec_merge(c.arg.span)
    }
}

/// A binary operation. Operators carry no precedence here: the parser
/// encodes precedence and associativity in the tree shape.
#[derive(Debug)]
pub struct BinExpr {
    pub left: Spanned<Expr>,
    pub op: Spanned<BinOp>,
    pub right: Spanned<Expr>,
}

/// The closed set of binary operators, in declaration order: boolean,
/// comparison, arithmetic, then the function combinators. Adding one is a
/// breaking change.
#[derive(Debug, Clone, Copy, PartialEq, Eq, PartialOrd, Ord, Hash, Structural)]
pub enum BinOp {
    Or,
    And,
    Eq,
    Ne,
    Lt,
    Le,
    Gt,
    Ge,
    Add,
    Sub,
    Mul,
    Div,
    Compose,
    BlackBird,
    LeftThen,
    RightThen,
    Left,
    Right,
}

/// The curried application relation pins its result down: the lowering
/// of a multi-argument call is deterministic.
pub proof fn lemma_applies_to_deterministic(
    r1: Spanned<Expr>,
    r2: Spanned<Expr>,
    f: Spanned<Expr>,
    args: Seq<Spanned<Expr>>,
)
    requires
        applies_to(r1, f, args),
        applies_to(r2, f, args),
    ensures
        r1 == r2,
    decreases args.len(),
{
    if args.len() > 0 {
        let c1 = r1.value->Call_0;
        let c2 = r2.value->Call_0;
        lemma_applies_to_deterministic(c1.func, c2.func, f, args.drop_last());
        assert(*c1 == *c2);
    }
}

/// Every binary operator, in declaration order.
pub open spec fn all_bin_ops() -> Seq<BinOp> {
    seq![
        BinOp::Or,
        BinOp::And,
        BinOp::Eq,
        BinOp::Ne,
        BinOp::Lt,
        BinOp::Le,
        BinOp::Gt,
        BinOp::Ge,
        BinOp::Add,
        BinOp::Sub,
        BinOp::Mul,
        BinOp::Div,
        BinOp::Compose,
        BinOp::BlackBird,
        BinOp::LeftThen,
        BinOp::RightThen,
        BinOp::Left,
        BinOp::Right,
    ]
}

impl BinOp {
    /// All the operators there are, in declaration order.
    pub fn all() -> (r: Vec<BinOp>)
        ensures
            r@ == all_bin_ops(),
    {
        let r: Vec<BinOp> = vec![
            BinOp::Or,
            BinOp::And,
            BinOp::Eq,
            BinOp::Ne,
            BinOp::Lt,
            BinOp::Le,
            BinOp::Gt,
            BinOp::Ge,
            BinOp::Add,
            BinOp::Sub,
            BinOp::Mul,
            BinOp::Div,
            BinOp::Compose,
            BinOp::BlackBird,
            BinOp::LeftThen,
            BinOp::RightThen,
            BinOp::Left,
            BinOp::Right,
        ];
        proof {
            assert(r@ =~= all_bin_ops());
        }
        r
    }
}

/// The enumeration of binary operators is exhaustive and exact: it has
/// one entry per operator, every operator appears, and none repeats.
pub proof fn lemma_bin_ops_exhaustive()
    ensures
        all_bin_ops().len() == 18,
        forall|op: BinOp| all_bin_ops().contains(op),
        all_bin_ops().no_duplicates(),
{
    assert forall|op: BinOp| all_bin_ops().contains(op) by {
        let s = all_bin_ops();
        match op {
            BinOp::Or => assert(s[0] == op),
            BinOp::And => assert(s[1] == op),
            BinOp::Eq => assert(s[2] == op),
            BinOp::Ne => assert(s[3] == op),
            BinOp::Lt => assert(s[4] == op),
            BinOp::Le => assert(s[5] == op),
            BinOp::Gt => assert(s[6] == op),
            BinOp::Ge => assert(s[7] == op),
            BinOp::Add => assert(s[8] == op),
            BinOp::Sub => assert(s[9] == op),
            BinOp::Mul => assert(s[10] == op),
            BinOp::Div => assert(s[11] == op),
            BinOp::Compose => assert(s[12] == op),
            BinOp::BlackBird => assert(s[13] == op),
            BinOp::LeftThen => assert(s[14] == op),
            BinOp::RightThen => assert(s[15] == op),
            BinOp::Left => assert(s[16] == op),
            BinOp::Right => assert(s[17] == op),
        }
    }
}

/// The two directions of the pipe operator.
#[derive(Debug, Clone, Copy, PartialEq, Eq, PartialOrd, Ord, Hash, Structural)]
pub enum PipeOp {
    Forward,
    Backward,
}

} // verus!
