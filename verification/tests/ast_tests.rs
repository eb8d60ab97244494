use lang_ast::ast::{
    BinExpr, BinOp, Block, CallExpr, Expr, Func, FunctionDef, IfExpr, Item, Let, Pattern, PipeExpr,
    PipeOp,
};
use lang_ast::ident::{FunctionId, Ident};
use lang_ast::span::{Span, Spanned};

fn sp(start: usize, end: usize) -> Span {
    Span { src: 0, start, end }
}

fn ident(name: &str) -> Ident {
    Ident::new(name.to_string()).unwrap()
}

#[test]
fn default_expr_is_unit() {
    assert!(matches!(Expr::default(), Expr::Unit));
}

#[test]
fn ident_rejects_empty_name() {
    assert!(Ident::new(String::new()).is_none());
    let id = Ident::new("x".to_string()).unwrap();
    assert_eq!(id.name, "x");
}

#[test]
fn bin_op_enumeration_is_complete_and_ordered() {
    let all = BinOp::all();
    let expected = vec![
        BinOp::Or,
        BinOp::And,
        BinOp::Eq,
        BinOp::Ne,
        BinOp::Lt,
        BinOp::Le,
        BinOp::Gt,
        BinOp::Ge,
        BinOp::Add,
        BinOp::Sub,
        BinOp::Mul,
        BinOp::Div,
        BinOp::Compose,
        BinOp::BlackBird,
        BinOp::LeftThen,
        BinOp::RightThen,
        BinOp::Left,
        BinOp::Right,
    ];
    assert_eq!(all.len(), 18);
    assert_eq!(all, expected);
}

#[test]
fn bin_op_enumeration_has_no_repeats() {
    let all = BinOp::all();
    for i in 0..all.len() {
        for j in 0..all.len() {
            if i != j {
                assert_ne!(all[i], all[j]);
            }
        }
    }
}

#[test]
fn merge_is_idempotent() {
    let s = sp(3, 9);
    assert_eq!(s.merge(s), s);
}

#[test]
fn merge_is_commutative() {
    let a = sp(2, 5);
    let b = sp(4, 11);
    assert_eq!(a.merge(b), b.merge(a));
}

#[test]
fn merge_is_associative() {
    let a = sp(0, 3);
    let b = sp(10, 14);
    let c = sp(5, 7);
    assert_eq!(a.merge(b).merge(c), a.merge(b.merge(c)));
}

#[test]
fn merge_covers_both_inputs() {
    let a = sp(4, 6);
    let b = sp(1, 5);
    let m = a.merge(b);
    assert_eq!(m, sp(1, 6));
    assert!(m.start <= a.start && a.end <= m.end);
    assert!(m.start <= b.start && b.end <= m.end);
}

#[test]
fn spanned_equality_ignores_spans() {
    let a = Spanned { span: sp(0, 1), value: ident("x") };
    let b = Spanned { span: sp(7, 12), value: ident("x") };
    let c = Spanned { span: sp(0, 1), value: ident("y") };
    assert_eq!(a, b);
    assert_ne!(a, c);
}

#[test]
fn block_from_expr_has_no_items_and_that_tail() {
    let e = Spanned { span: sp(2, 3), value: Expr::Real("1".to_string()) };
    let b = Block::from_expr(e);
    assert!(b.items.is_empty());
    assert_eq!(b.expr.span, sp(2, 3));
    assert!(matches!(&b.expr.value, Expr::Real(t) if t == "1"));
}

#[test]
fn block_tail_is_the_tail_expression() {
    let e = Spanned { span: sp(5, 8), value: Expr::Unit };
    let b = Block::from_expr(e);
    let t = b.tail();
    assert_eq!(t.span, sp(5, 8));
    assert!(matches!(t.value, Expr::Unit));
}

#[test]
fn paren_wrap_then_strip_returns_the_expression() {
    let e = Spanned { span: sp(1, 2), value: Expr::Ident(ident("x")) };
    let wrapped = Expr::parened(e);
    let stripped = wrapped.strip_parens().unwrap();
    assert_eq!(stripped.span, sp(1, 2));
    assert!(matches!(&stripped.value, Expr::Ident(id) if id.name == "x"));
}

#[test]
fn strip_parens_of_unparenthesised_is_none() {
    assert!(Expr::Unit.strip_parens().is_none());
    assert!(Expr::Placeholder.strip_parens().is_none());
}

#[test]
fn empty_list_and_array_are_legal_with_delimiter_span() {
    let l = Spanned { span: sp(4, 6), value: Expr::List(Vec::new()) };
    assert!(l.span.start < l.span.end);
    assert!(matches!(&l.value, Expr::List(es) if es.is_empty()));
    let a = Spanned { span: sp(4, 6), value: Expr::Array(Vec::new()) };
    assert!(matches!(&a.value, Expr::Array(es) if es.is_empty()));
}

#[test]
fn nullary_function_is_legal() {
    let body = Block::from_expr(Spanned { span: sp(3, 9), value: Expr::Unit });
    let f = Func { id: FunctionId::Anonymous(sp(0, 10)), params: Vec::new(), body };
    assert!(f.params.is_empty());
    assert_eq!(f.id, FunctionId::Anonymous(sp(0, 10)));
}

#[test]
fn anonymous_identity_is_the_literal_span() {
    let one = FunctionId::Anonymous(sp(0, 5));
    let other = FunctionId::Anonymous(sp(7, 12));
    let same_place = FunctionId::Anonymous(sp(0, 5));
    assert_ne!(one, other);
    assert_eq!(one, same_place);
}

#[test]
fn let_item_span_covers_the_fragment() {
    let item = Item::Let(Let {
        pattern: Spanned { span: sp(4, 5), value: Pattern::Ident(ident("x")) },
        expr: Spanned { span: sp(8, 9), value: Expr::Real("1".to_string()) },
    });
    assert_eq!(item.span(), sp(4, 9));
}

#[test]
fn expr_item_span_is_its_own() {
    let item = Item::Expr(Spanned { span: sp(2, 7), value: Expr::Unit });
    assert_eq!(item.span(), sp(2, 7));
}

#[test]
fn const_item_span_merges_name_and_value() {
    let item = Item::Const(lang_ast::ast::Const {
        name: Spanned { span: sp(6, 7), value: ident("c") },
        expr: Spanned { span: sp(10, 12), value: Expr::Real("42".to_string()) },
    });
    assert_eq!(item.span(), sp(6, 12));
}

#[test]
fn function_def_identity_is_its_name() {
    let body = Block::from_expr(Spanned {
        span: sp(11, 16),
        value: Expr::Bin(Box::new(BinExpr {
            left: Spanned { span: sp(11, 12), value: Expr::Ident(ident("a")) },
            op: Spanned { span: sp(13, 14), value: BinOp::Add },
            right: Spanned { span: sp(15, 16), value: Expr::Ident(ident("b")) },
        })),
    });
    let def = FunctionDef::new(
        None,
        Spanned { span: sp(3, 6), value: ident("add") },
        vec![
            Spanned { span: sp(7, 8), value: ident("a") },
            Spanned { span: sp(9, 10), value: ident("b") },
        ],
        body,
    );
    assert_eq!(def.func.id, FunctionId::Named(ident("add")));
    assert_eq!(def.func.params.len(), 2);
    let item = Item::FunctionDef(def);
    assert_eq!(item.span(), sp(3, 16));
}

#[test]
fn function_def_keeps_its_doc_verbatim() {
    let body = Block::from_expr(Spanned { span: sp(20, 21), value: Expr::Unit });
    let def = FunctionDef::new(
        Some(Spanned { span: sp(0, 9), value: "adds two".to_string() }),
        Spanned { span: sp(13, 14), value: ident("f") },
        Vec::new(),
        body,
    );
    let doc = def.doc.unwrap();
    assert_eq!(doc.value, "adds two");
    assert_eq!(doc.span, sp(0, 9));
}

#[test]
fn if_expression_holds_a_block_per_branch() {
    let cond = Spanned { span: sp(3, 4), value: Expr::Ident(ident("c")) };
    let if_true = Block::from_expr(Spanned { span: sp(10, 11), value: Expr::Ident(ident("a")) });
    let if_false = Block::from_expr(Spanned { span: sp(17, 18), value: Expr::Ident(ident("b")) });
    let e = Expr::If(Box::new(IfExpr { cond, if_true, if_false }));
    match e {
        Expr::If(node) => {
            assert!(matches!(&node.cond.value, Expr::Ident(id) if id.name == "c"));
            assert!(node.if_true.items.is_empty());
            assert!(matches!(&node.if_true.expr.value, Expr::Ident(id) if id.name == "a"));
            assert!(node.if_false.items.is_empty());
            assert!(matches!(&node.if_false.expr.value, Expr::Ident(id) if id.name == "b"));
        },
        _ => panic!("expected an if expression"),
    }
}

#[test]
fn binary_chain_leans_left() {
    let inner = Expr::Bin(Box::new(BinExpr {
        left: Spanned { span: sp(0, 1), value: Expr::Real("1".to_string()) },
        op: Spanned { span: sp(2, 3), value: BinOp::Add },
        right: Spanned { span: sp(4, 5), value: Expr::Real("2".to_string()) },
    }));
    let chain = Expr::Bin(Box::new(BinExpr {
        left: Spanned { span: sp(0, 5), value: inner },
        op: Spanned { span: sp(6, 7), value: BinOp::Add },
        right: Spanned { span: sp(8, 9), value: Expr::Real("3".to_string()) },
    }));
    match chain {
        Expr::Bin(outer) => {
            assert_eq!(outer.op.value, BinOp::Add);
            assert!(matches!(&outer.right.value, Expr::Real(t) if t == "3"));
            match &outer.left.value {
                Expr::Bin(nested) => {
                    assert!(matches!(&nested.left.value, Expr::Real(t) if t == "1"));
                    assert!(matches!(&nested.right.value, Expr::Real(t) if t == "2"));
                },
                _ => panic!("the chain must lean left"),
            }
        },
        _ => panic!("expected a binary expression"),
    }
}

#[test]
fn pipe_forward_keeps_operand_order() {
    let e = Expr::Pipe(Box::new(PipeExpr {
        left: Spanned { span: sp(0, 1), value: Expr::Ident(ident("x")) },
        op: Spanned { span: sp(2, 4), value: PipeOp::Forward },
        right: Spanned { span: sp(5, 6), value: Expr::Ident(ident("f")) },
    }));
    match e {
        Expr::Pipe(node) => {
            assert_eq!(node.op.value, PipeOp::Forward);
            assert!(matches!(&node.left.value, Expr::Ident(id) if id.name == "x"));
            assert!(matches!(&node.right.value, Expr::Ident(id) if id.name == "f"));
        },
        _ => panic!("expected a pipe expression"),
    }
}

#[test]
fn call_is_unary_application() {
    let call = Expr::Call(Box::new(CallExpr {
        func: Spanned { span: sp(0, 1), value: Expr::Ident(ident("f")) },
        arg: Spanned { span: sp(2, 3), value: Expr::Ident(ident("x")) },
    }));
    match call {
        Expr::Call(node) => {
            assert!(matches!(&node.func.value, Expr::Ident(id) if id.name == "f"));
            assert!(matches!(&node.arg.value, Expr::Ident(id) if id.name == "x"));
        },
        _ => panic!("expected a call expression"),
    }
}

#[test]
fn named_identity_renders_in_backquotes() {
    let id = FunctionId::Named(ident("add"));
    assert_eq!(id.text(), "`add`");
}

#[test]
fn anonymous_identity_renders_its_span() {
    let id = FunctionId::Anonymous(Span { src: 0, start: 3, end: 9 });
    assert_eq!(id.text(), "fn from 0:3-9");
    let wide = FunctionId::Anonymous(Span { src: 2, start: 120, end: 345 });
    assert_eq!(wide.text(), "fn from 2:120-345");
}

#[test]
fn builtin_identity_renders_its_index() {
    assert_eq!(FunctionId::Builtin1(7).text(), "`7`");
    assert_eq!(FunctionId::Builtin2(12).text(), "`12`");
}

#[test]
fn decimal_rendering_is_exact() {
    assert_eq!(lang_ast::text::decimal_string(0), "0");
    assert_eq!(lang_ast::text::decimal_string(10), "10");
    assert_eq!(lang_ast::text::decimal_string(907), "907");
}

#[test]
fn pipe_lowering_follows_the_direction() {
    let forward = PipeExpr {
        left: Spanned { span: sp(0, 1), value: Expr::Ident(ident("x")) },
        op: Spanned { span: sp(2, 4), value: PipeOp::Forward },
        right: Spanned { span: sp(5, 6), value: Expr::Ident(ident("f")) },
    };
    let call = forward.lowered();
    assert!(matches!(&call.func.value, Expr::Ident(id) if id.name == "f"));
    assert!(matches!(&call.arg.value, Expr::Ident(id) if id.name == "x"));

    let backward = PipeExpr {
        left: Spanned { span: sp(0, 1), value: Expr::Ident(ident("f")) },
        op: Spanned { span: sp(2, 4), value: PipeOp::Backward },
        right: Spanned { span: sp(5, 6), value: Expr::Ident(ident("x")) },
    };
    let call = backward.lowered();
    assert!(matches!(&call.func.value, Expr::Ident(id) if id.name == "f"));
    assert!(matches!(&call.arg.value, Expr::Ident(id) if id.name == "x"));
}

#[test]
fn apply_all_curries_left_to_right() {
    let f = Spanned { span: sp(0, 1), value: Expr::Ident(ident("f")) };
    let args = vec![
        Spanned { span: sp(2, 3), value: Expr::Ident(ident("x")) },
        Spanned { span: sp(4, 5), value: Expr::Ident(ident("y")) },
    ];
    let r = Expr::apply_all(f, args);
    assert_eq!(r.span, sp(0, 5));
    match r.value {
        Expr::Call(outer) => {
            assert!(matches!(&outer.arg.value, Expr::Ident(id) if id.name == "y"));
            assert_eq!(outer.func.span, sp(0, 3));
            match &outer.func.value {
                Expr::Call(inner) => {
                    assert!(matches!(&inner.func.value, Expr::Ident(id) if id.name == "f"));
                    assert!(matches!(&inner.arg.value, Expr::Ident(id) if id.name == "x"));
                },
                _ => panic!("the chain must apply f first"),
            }
        },
        _ => panic!("expected a call expression"),
    }
}

#[test]
fn apply_all_of_no_arguments_is_the_function() {
    let f = Spanned { span: sp(0, 1), value: Expr::Ident(ident("f")) };
    let r = Expr::apply_all(f, Vec::new());
    assert_eq!(r.span, sp(0, 1));
    assert!(matches!(&r.value, Expr::Ident(id) if id.name == "f"));
}
