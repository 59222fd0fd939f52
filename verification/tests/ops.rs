use rhdl_ast::ast::{Block, Punctuated, Stmt, StmtExpr};
use rhdl_ast::expr::{
    AssOp, BinOp, Expr, ExprAssign, ExprBinary, ExprPath, ExprUnary, PathSegment, UnOp,
};
use rhdl_ast::lits::parse_int_literal;
use rhdl_ast::token::{BraceClose, BraceOpen, Ident, Lit, Semi, Span, ToTokens};

fn ident(s: &str) -> Ident {
    Ident { inner: s.to_string(), span: Span(0, 0) }
}

fn epath(s: &str) -> Expr {
    Expr::Path(ExprPath {
        leading_sep: None,
        segments: Punctuated {
            inner: vec![],
            last: Some(Box::new(PathSegment { ident: ident(s), generic_args: None })),
        },
    })
}

fn eint(raw: &str) -> Expr {
    Expr::Lit(Lit::Int(parse_int_literal(raw).unwrap()))
}

fn eblock1(e: Expr, semi: bool) -> Expr {
    Expr::Block(Block {
        brace_open: BraceOpen { left: 0 },
        statements: vec![Stmt::Expr(StmtExpr {
            expr: e,
            semi: if semi { Some(Semi { left: 0 }) } else { None },
        })],
        brace_close: BraceClose { left: 0 },
    })
}

#[test]
fn expr_parser_parses_all_ops() {
    // unary: `{op}a`, `{op}0`, `{op}{ 0 }`
    for shape in 0..3u32 {
        for op in UnOp::variants() {
            let d = op.display();
            let inner = match shape {
                0 => epath("a"),
                1 => eint("0"),
                _ => eblock1(eint("0"), false),
            };
            let expected = match shape {
                0 => format!("{}a", d),
                1 => format!("{}0", d),
                _ => format!("{}{{ 0 }}", d),
            };
            let e = Expr::Unary(ExprUnary { op, expr: Box::new(inner) });
            assert_eq!(rhdl_ast::display::format(e.to_tokens()), expected);
        }
    }
    // binary: `a {op} 0`, `a {op} b`, `a {op} { b }`
    for shape in 0..3u32 {
        for op in BinOp::variants() {
            let d = op.display();
            let rhs = match shape {
                0 => eint("0"),
                1 => epath("b"),
                _ => eblock1(epath("b"), false),
            };
            let expected = match shape {
                0 => format!("a {} 0", d),
                1 => format!("a {} b", d),
                _ => format!("a {} {{ b }}", d),
            };
            let e = Expr::Binary(ExprBinary {
                left: Box::new(epath("a")),
                op,
                right: Box::new(rhs),
            });
            assert_eq!(rhdl_ast::display::format(e.to_tokens()), expected);
        }
    }
    // assignment: `{ a {op} 0; }`, `{ a {op} b; }`, `{ a {op} { b }; }`
    for shape in 0..3u32 {
        for op in AssOp::variants() {
            let d = op.display();
            let rhs = match shape {
                0 => eint("0"),
                1 => epath("b"),
                _ => eblock1(epath("b"), false),
            };
            let expected = match shape {
                0 => format!("{{ a {} 0; }}", d),
                1 => format!("{{ a {} b; }}", d),
                _ => format!("{{ a {} {{ b }}; }}", d),
            };
            let e = eblock1(
                Expr::Assign(ExprAssign {
                    lhs: Box::new(epath("a")),
                    op,
                    rhs: Box::new(rhs),
                }),
                true,
            );
            assert_eq!(rhdl_ast::display::format(e.to_tokens()), expected);
        }
    }
}

// Every operator's canonical spelling looks back up as exactly that
// operator, and an unknown spelling is refused.
#[test]
fn op_tables_round_trip() {
    for op in BinOp::variants() {
        let d = op.display();
        assert_eq!(BinOp::from_str(&d), Ok(op));
    }
    for op in UnOp::variants() {
        let d = op.display();
        assert_eq!(UnOp::from_str(&d), Ok(op));
    }
    for op in AssOp::variants() {
        let d = op.display();
        assert_eq!(AssOp::from_str(&d), Ok(op));
    }
    assert!(BinOp::from_str("?").is_err());
    assert!(BinOp::from_str("<=<").is_err());
    assert!(UnOp::from_str("+").is_err());
    assert!(AssOp::from_str("==").is_err());
    assert_eq!(BinOp::variants().len(), 17);
    assert_eq!(UnOp::variants().len(), 2);
    assert_eq!(AssOp::variants().len(), 12);
}
