use rhdl_ast::ast::{Punctuated, RangeType};
use rhdl_ast::expr::{Expr, ExprPath, PathSegment};
use rhdl_ast::lits::parse_int_literal;
use rhdl_ast::pat::{
    Pat, PatRange, PatSlice, PatStruct, PatTuple, PatTupleStruct, StructPatternField,
    StructPatternFieldIdent, StructPatternFieldIdentPat, StructPatternFieldTuplePat,
};
use rhdl_ast::token::{
    BraceClose, BraceOpen, BracketClose, BracketOpen, Colon, Comma, DotDot, DotDotEq, Ident,
    Lit, ParenClose, ParenOpen, PathSep, Span, ToTokens, Underscore,
};

fn ident(s: &str) -> Ident {
    Ident { inner: s.to_string(), span: Span(0, 0) }
}

fn seg(s: &str) -> PathSegment {
    PathSegment { ident: ident(s), generic_args: None }
}

fn path1(s: &str) -> ExprPath {
    ExprPath {
        leading_sep: None,
        segments: Punctuated { inner: vec![], last: Some(Box::new(seg(s))) },
    }
}

fn path2(a: &str, b: &str) -> ExprPath {
    ExprPath {
        leading_sep: None,
        segments: Punctuated {
            inner: vec![(seg(a), PathSep { left: 0 })],
            last: Some(Box::new(seg(b))),
        },
    }
}

fn eint(raw: &str) -> Expr {
    Expr::Lit(Lit::Int(parse_int_literal(raw).unwrap()))
}

fn plist<T, P>(mut items: Vec<T>, mut seps: Vec<P>) -> Punctuated<T, P> {
    let last = items.pop().map(Box::new);
    seps.truncate(items.len());
    let inner = items.into_iter().zip(seps).collect();
    Punctuated { inner, last }
}

fn commas(n: usize) -> Vec<Comma> {
    (0..n).map(|_| Comma { left: 0 }).collect()
}

fn check(p: Pat, expected: &str) {
    assert_eq!(rhdl_ast::display::format(p.to_tokens()), expected);
}

fn spf(name: &str) -> StructPatternField {
    StructPatternField::Ident(StructPatternFieldIdent { ident: ident(name) })
}

fn spf_pat(name: &str, p: Pat) -> StructPatternField {
    StructPatternField::IdentPat(StructPatternFieldIdentPat {
        ident: ident(name),
        colon: Colon { left: 0 },
        pat: Box::new(p),
    })
}

fn spf_idx(raw: &str, p: Pat) -> StructPatternField {
    StructPatternField::TuplePat(StructPatternFieldTuplePat {
        index: Lit::Int(parse_int_literal(raw).unwrap()),
        colon: Colon { left: 0 },
        pat: Box::new(p),
    })
}

#[test]
fn pat_parser() {
    check(Pat::Lit(Lit::Int(parse_int_literal("0").unwrap())), "0");
    check(Pat::Ident(ident("a")), "a");
    check(Pat::Path(path2("module", "Enum")), "module::Enum");
    check(Pat::Wildcard(Underscore { left: 0 }), "_");
    check(
        Pat::Range(PatRange {
            left: eint("0"),
            range_type: RangeType::HalfOpen(DotDot { left: 0 }),
            right: eint("10"),
        }),
        "0..10",
    );
    check(
        Pat::Range(PatRange {
            left: eint("0"),
            range_type: RangeType::Closed(DotDotEq { left: 0 }),
            right: eint("10"),
        }),
        "0..=10",
    );
    check(
        Pat::Range(PatRange {
            left: eint("0"),
            range_type: RangeType::HalfOpen(DotDot { left: 0 }),
            right: Expr::Path(path2("super", "RAM_SIZE")),
        }),
        "0..super::RAM_SIZE",
    );
    check(
        Pat::Struct(PatStruct {
            path: path1("Struct"),
            brace_open: BraceOpen { left: 0 },
            fields: Some(Punctuated {
                inner: vec![
                    (spf("a"), Comma { left: 0 }),
                    (spf("b"), Comma { left: 0 }),
                    (spf("c"), Comma { left: 0 }),
                ],
                last: None,
            }),
            remaining: Some(DotDot { left: 0 }),
            brace_close: BraceClose { left: 0 },
        }),
        "Struct { a, b, c, .. }",
    );
    check(
        Pat::Struct(PatStruct {
            path: path1("Struct"),
            brace_open: BraceOpen { left: 0 },
            fields: Some(Punctuated {
                inner: vec![
                    (spf_pat("a", Pat::Ident(ident("x"))), Comma { left: 0 }),
                    (spf_pat("b", Pat::Ident(ident("y"))), Comma { left: 0 }),
                    (spf_pat("c", Pat::Ident(ident("z"))), Comma { left: 0 }),
                ],
                last: None,
            }),
            remaining: Some(DotDot { left: 0 }),
            brace_close: BraceClose { left: 0 },
        }),
        "Struct { a: x, b: y, c: z, .. }",
    );
    check(
        Pat::Struct(PatStruct {
            path: path1("Struct"),
            brace_open: BraceOpen { left: 0 },
            fields: Some(plist(
                vec![
                    spf("a"),
                    spf("b"),
                    spf("c"),
                    spf("d"),
                    spf("e"),
                    spf("f"),
                    spf("g"),
                    spf("h"),
                ],
                commas(7),
            )),
            remaining: None,
            brace_close: BraceClose { left: 0 },
        }),
        "Struct { a, b, c, d, e, f, g, h }",
    );
    check(
        Pat::Struct(PatStruct {
            path: path1("Struct"),
            brace_open: BraceOpen { left: 0 },
            fields: None,
            remaining: Some(DotDot { left: 0 }),
            brace_close: BraceClose { left: 0 },
        }),
        "Struct { .. }",
    );
    check(
        Pat::Struct(PatStruct {
            path: path1("StructTup"),
            brace_open: BraceOpen { left: 0 },
            fields: Some(plist(
                vec![
                    spf_idx("0", Pat::Ident(ident("first"))),
                    spf_idx("1", Pat::Ident(ident("second"))),
                    spf_idx("2", Pat::Ident(ident("third"))),
                ],
                commas(2),
            )),
            remaining: None,
            brace_close: BraceClose { left: 0 },
        }),
        "StructTup { 0: first, 1: second, 2: third }",
    );
    check(
        Pat::TupleStruct(PatTupleStruct {
            path: path1("Tup"),
            paren_open: ParenOpen { left: 0 },
            subpats: plist(
                vec![Pat::Ident(ident("x")), Pat::Ident(ident("y")), Pat::Ident(ident("z"))],
                commas(2),
            ),
            rest_subpats: None,
            paren_close: ParenClose { left: 0 },
        }),
        "Tup(x, y, z)",
    );
    check(
        Pat::Tuple(PatTuple {
            paren_open: ParenOpen { left: 0 },
            subpats: plist(
                vec![Pat::Ident(ident("left")), Pat::Ident(ident("right"))],
                commas(1),
            ),
            rest_subpats: None,
            paren_close: ParenClose { left: 0 },
        }),
        "(left, right)",
    );
    check(
        Pat::Slice(PatSlice {
            bracket_open: BracketOpen { left: 0 },
            subpats: plist(
                vec![
                    Pat::Lit(Lit::Int(parse_int_literal("1").unwrap())),
                    Pat::Wildcard(Underscore { left: 0 }),
                    Pat::Wildcard(Underscore { left: 0 }),
                ],
                commas(2),
            ),
            bracket_close: BracketClose { left: 0 },
        }),
        "[1, _, _]",
    );
}

// A trailing rest pattern after the listed sub-patterns: the shape the
// catalog gives it puts the `..` right after the last separator.
#[test]
fn pat_rest_subpatterns() {
    let rest = |items: Vec<Pat>| Some((
        DotDot { left: 0 },
        plist(items, vec![]),
    ));
    let p = Pat::TupleStruct(PatTupleStruct {
        path: path1("Tup"),
        paren_open: ParenOpen { left: 0 },
        subpats: Punctuated {
            inner: vec![
                (Pat::Ident(ident("a")), Comma { left: 0 }),
                (Pat::Ident(ident("b")), Comma { left: 0 }),
            ],
            last: None,
        },
        rest_subpats: rest(vec![Pat::Ident(ident("z"))]),
        paren_close: ParenClose { left: 0 },
    });
    assert_eq!(rhdl_ast::display::format(p.to_tokens()), "Tup(a, b, .. z)");
    let q = Pat::Tuple(PatTuple {
        paren_open: ParenOpen { left: 0 },
        subpats: Punctuated {
            inner: vec![(Pat::Ident(ident("zero")), Comma { left: 0 })],
            last: None,
        },
        rest_subpats: rest(vec![Pat::Ident(ident("hundred"))]),
        paren_close: ParenClose { left: 0 },
    });
    assert_eq!(rhdl_ast::display::format(q.to_tokens()), "(zero, .. hundred)");
}
