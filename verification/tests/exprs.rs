use rhdl_ast::ast::{Block, Punctuated, RangeType, Stmt, StmtExpr};
use rhdl_ast::expr::{
    Arm, BinOp, Expr, ExprArray, ExprBinary, ExprCall, ExprCast, ExprField, ExprFor, ExprIf,
    ExprIndex, ExprMatch, ExprMethodCall, ExprPath, ExprRange, ExprRepeat, ExprReturn,
    ExprStruct, ExprTuple, FieldValue, Member, PathSegment,
};
use rhdl_ast::lits::{parse_float_literal, parse_int_literal};
use rhdl_ast::pat::Pat;
use rhdl_ast::token::{
    As, BraceClose, BraceOpen, BracketClose, BracketOpen, Colon, Comma, Dot, DotDot, DotDotEq,
    Else, FatArrow, For, Ge, Gt, Ident, If, In, Lit, Lt, Match, Ne, ParenClose, ParenOpen,
    Return, Semi, Span, ToTokens, Underscore,
};
use rhdl_ast::types::{Type, TypePath};

fn ident(s: &str) -> Ident {
    Ident { inner: s.to_string(), span: Span(0, 0) }
}

fn path1(s: &str) -> ExprPath {
    ExprPath {
        leading_sep: None,
        segments: Punctuated {
            inner: vec![],
            last: Some(Box::new(PathSegment { ident: ident(s), generic_args: None })),
        },
    }
}

fn epath(s: &str) -> Expr {
    Expr::Path(path1(s))
}

fn eint(raw: &str) -> Expr {
    Expr::Lit(Lit::Int(parse_int_literal(raw).unwrap()))
}

fn efloat(raw: &str) -> Expr {
    Expr::Lit(Lit::Float(parse_float_literal(raw).unwrap()))
}

fn tpath(s: &str) -> Type {
    Type::Path(TypePath {
        leading_sep: None,
        segments: Punctuated {
            inner: vec![],
            last: Some(Box::new(PathSegment { ident: ident(s), generic_args: None })),
        },
    })
}

fn plist<T, P>(mut items: Vec<T>, mut seps: Vec<P>) -> Punctuated<T, P> {
    let last = items.pop().map(Box::new);
    seps.truncate(items.len());
    let inner = items.into_iter().zip(seps).collect();
    Punctuated { inner, last }
}

fn commas(n: usize) -> Vec<Comma> {
    (0..n).map(|_| Comma { left: 0 }).collect()
}

fn block(stmts: Vec<Stmt>) -> Block {
    Block {
        brace_open: BraceOpen { left: 0 },
        statements: stmts,
        brace_close: BraceClose { left: 0 },
    }
}

fn stmt(e: Expr, semi: bool) -> Stmt {
    Stmt::Expr(StmtExpr {
        expr: e,
        semi: if semi { Some(Semi { left: 0 }) } else { None },
    })
}

fn eif(cond: Expr, then: Block, alt: Option<Expr>) -> Expr {
    Expr::If(ExprIf {
        if_token: If { left: 0 },
        expr: Box::new(cond),
        block: then,
        else_token: alt.map(|e| (Else { left: 0 }, Box::new(e))),
    })
}

fn ebin(l: Expr, op: BinOp, r: Expr) -> Expr {
    Expr::Binary(ExprBinary { left: Box::new(l), op, right: Box::new(r) })
}

fn check(e: Expr, expected: &str) {
    assert_eq!(rhdl_ast::display::format(e.to_tokens()), expected);
}

#[test]
fn expr_parser() {
    check(Expr::Block(block(vec![])), "{ }");
    check(epath("a"), "a");
    check(eint("4"), "4");
    check(Expr::Block(block(vec![stmt(epath("a"), false)])), "{ a }");
    check(
        Expr::Repeat(ExprRepeat {
            bracket_open: BracketOpen { left: 0 },
            init: Box::new(eint("4")),
            semi: Semi { left: 0 },
            repeat: Box::new(eint("5")),
            bracket_close: BracketClose { left: 0 },
        }),
        "[4; 5]",
    );
    check(
        Expr::Range(ExprRange {
            left: Some(Box::new(eint("0"))),
            range_type: RangeType::Closed(DotDotEq { left: 0 }),
            right: Some(Box::new(eint("9"))),
        }),
        "0..=9",
    );
    check(
        Expr::Field(ExprField {
            on: Box::new(epath("point")),
            dot: Dot { left: 0 },
            member: Member::Named(ident("x")),
        }),
        "point.x",
    );
    check(
        Expr::Call(ExprCall {
            on: Box::new(epath("call")),
            paren_open: ParenOpen { left: 0 },
            args: Punctuated { inner: vec![], last: None },
            paren_close: ParenClose { left: 0 },
        }),
        "call()",
    );
    check(
        Expr::MethodCall(ExprMethodCall {
            on: Box::new(epath("x")),
            dot: Dot { left: 0 },
            method: ident("call"),
            paren_open: ParenOpen { left: 0 },
            args: Punctuated { inner: vec![], last: None },
            paren_close: ParenClose { left: 0 },
        }),
        "x.call()",
    );
    check(
        Expr::Index(ExprIndex {
            on: Box::new(epath("x")),
            bracket_open: BracketOpen { left: 0 },
            index: Box::new(eint("0")),
            bracket_close: BracketClose { left: 0 },
        }),
        "x[0]",
    );
    check(
        Expr::Array(ExprArray {
            bracket_open: BracketOpen { left: 0 },
            elements: plist(
                vec![eint("0"), eint("1"), eint("2"), eint("3"), eint("4"), eint("5")],
                commas(5),
            ),
            bracket_close: BracketClose { left: 0 },
        }),
        "[0, 1, 2, 3, 4, 5]",
    );
    check(
        Expr::Tuple(ExprTuple {
            paren_open: ParenOpen { left: 0 },
            elements: plist(
                vec![eint("0"), eint("1"), eint("2"), eint("3"), eint("4"), efloat("4.5")],
                commas(5),
            ),
            paren_close: ParenClose { left: 0 },
        }),
        "(0, 1, 2, 3, 4, 4.5)",
    );
    check(
        Expr::Cast(ExprCast {
            expr: Box::new(epath("x")),
            as_token: As { left: 0 },
            ty: Box::new(tpath("y")),
        }),
        "x as y",
    );
    check(
        eif(ebin(epath("a"), BinOp::Ge(Ge { left: 0 }), eint("4")), block(vec![]), None),
        "if a >= 4 { }",
    );
    check(
        eif(
            ebin(epath("a"), BinOp::Ge(Ge { left: 0 }), eint("4")),
            block(vec![]),
            Some(Expr::Block(block(vec![]))),
        ),
        "if a >= 4 { }\nelse { }",
    );
    check(
        eif(
            ebin(epath("a"), BinOp::Ge(Ge { left: 0 }), eint("4")),
            block(vec![]),
            Some(eif(
                ebin(epath("a"), BinOp::Lt(Lt { left: 0 }), eint("0")),
                block(vec![]),
                Some(eif(
                    ebin(epath("a"), BinOp::Gt(Gt { left: 0 }), eint("0")),
                    block(vec![]),
                    Some(Expr::Block(block(vec![]))),
                )),
            )),
        ),
        "if a >= 4 { }\nelse if a < 0 { }\nelse if a > 0 { }\nelse { }",
    );
    let arm = |pat: Pat, guard: Option<Expr>, body: Expr| Arm {
        pat,
        guard: guard.map(|g| (If { left: 0 }, g)),
        fat_arrow: FatArrow { left: 0 },
        body,
    };
    let pint = |raw: &str| Pat::Lit(parse_int_literal(raw).map(Lit::Int).unwrap());
    check(
        Expr::Match(ExprMatch {
            match_token: Match { left: 0 },
            expr: Box::new(epath("x")),
            brace_open: BraceOpen { left: 0 },
            arms: plist(
                vec![
                    arm(pint("0"), None, Expr::Block(block(vec![]))),
                    arm(pint("1"), None, Expr::Block(block(vec![stmt(epath("y"), false)]))),
                    arm(
                        Pat::Wildcard(Underscore { left: 0 }),
                        Some(ebin(epath("x"), BinOp::Ne(Ne { left: 0 }), eint("2"))),
                        Expr::Block(block(vec![])),
                    ),
                    arm(pint("2"), None, Expr::Block(block(vec![]))),
                ],
                commas(3),
            ),
            brace_close: BraceClose { left: 0 },
        }),
        "match x { 0 => { }, 1 => { y }, _ if x != 2 => { }, 2 => { } }",
    );
    check(
        Expr::Block(block(vec![stmt(
            Expr::Return(ExprReturn {
                return_token: Return { left: 0 },
                expr: Some(Box::new(epath("a"))),
            }),
            true,
        )])),
        "{ return a; }",
    );
    let fv = |name: &str, value: Option<Expr>| FieldValue {
        member: Member::Named(ident(name)),
        expr: value.map(|v| (Colon { left: 0 }, v)),
    };
    check(
        Expr::Struct(ExprStruct {
            path: path1("Struct"),
            brace_open: BraceOpen { left: 0 },
            fields: plist(
                vec![fv("x", None), fv("y", None), fv("z", None)],
                commas(2),
            ),
            base: None,
            comma: None,
            brace_close: BraceClose { left: 0 },
        }),
        "Struct { x, y, z }",
    );
    check(
        Expr::Struct(ExprStruct {
            path: path1("Struct"),
            brace_open: BraceOpen { left: 0 },
            fields: plist(
                vec![
                    fv("x", Some(epath("a"))),
                    fv("y", Some(epath("b"))),
                    fv("z", Some(epath("c"))),
                ],
                commas(2),
            ),
            base: None,
            comma: None,
            brace_close: BraceClose { left: 0 },
        }),
        "Struct { x: a, y: b, z: c }",
    );
    check(
        Expr::Struct(ExprStruct {
            path: path1("Struct"),
            brace_open: BraceOpen { left: 0 },
            fields: Punctuated {
                inner: vec![(fv("x", None), Comma { left: 0 })],
                last: None,
            },
            base: Some((DotDot { left: 0 }, Box::new(epath("z")))),
            comma: None,
            brace_close: BraceClose { left: 0 },
        }),
        "Struct { x, .. z }",
    );
    check(
        Expr::Struct(ExprStruct {
            path: path1("Struct"),
            brace_open: BraceOpen { left: 0 },
            fields: Punctuated { inner: vec![], last: None },
            base: Some((DotDot { left: 0 }, Box::new(epath("z")))),
            comma: None,
            brace_close: BraceClose { left: 0 },
        }),
        "Struct { .. z }",
    );
    check(
        Expr::For(ExprFor {
            for_token: For { left: 0 },
            pat: Box::new(Pat::Ident(ident("x"))),
            in_token: In { left: 0 },
            expr: Box::new(Expr::Range(ExprRange {
                left: Some(Box::new(eint("0"))),
                range_type: RangeType::HalfOpen(DotDot { left: 0 }),
                right: Some(Box::new(eint("16"))),
            })),
            block: block(vec![]),
        }),
        "for x in 0..16 { }",
    );
}
