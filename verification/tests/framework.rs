use rhdl_ast::ast::{Block, Punctuated, Stmt, StmtExpr};
use rhdl_ast::expr::{AssOp, BinOp, ExprAssign, ExprBinary};
use rhdl_ast::token::{Ge, PlusEq, TokenEq};
use rhdl_ast::expr::{Expr, ExprArray, ExprIf, ExprPath, ExprRange, PathSegment};
use rhdl_ast::item::{ModContent, ModContentFile, ModContentHere};
use rhdl_ast::lits::parse_int_literal;
use rhdl_ast::ast::RangeType;
use rhdl_ast::token::{
    BraceClose, BraceOpen, BracketClose, BracketOpen, Comma, DotDotEq, Else, Ident, If, Lit,
    Semi, Span, Spanned, ToTokens, Tok,
};

fn ident(s: &str) -> Ident {
    Ident { inner: s.to_string(), span: Span(0, 0) }
}

fn epath(s: &str) -> Expr {
    Expr::Path(ExprPath {
        leading_sep: None,
        segments: Punctuated {
            inner: vec![],
            last: Some(Box::new(PathSegment { ident: ident(s), generic_args: None })),
        },
    })
}

fn eint(raw: &str) -> Expr {
    Expr::Lit(Lit::Int(parse_int_literal(raw).unwrap()))
}

fn eint_at(raw: &str, left: usize) -> Expr {
    let mut li = parse_int_literal(raw).unwrap();
    li.span = Span(left, left + raw.len());
    Expr::Lit(Lit::Int(li))
}

fn plist<T, P>(mut items: Vec<T>, mut seps: Vec<P>) -> Punctuated<T, P> {
    let last = items.pop().map(Box::new);
    seps.truncate(items.len());
    let inner = items.into_iter().zip(seps).collect();
    Punctuated { inner, last }
}

// For any node with at least one token, the span runs forward and covers
// exactly the first through the last token.
#[test]
fn span_covers_first_to_last_token() {
    // the expression `0..=9` at offsets 0..5
    let range = Expr::Range(ExprRange {
        left: Some(Box::new(eint_at("0", 0))),
        range_type: RangeType::Closed(DotDotEq { left: 1 }),
        right: Some(Box::new(eint_at("9", 4))),
    });
    assert_eq!(range.span(), Span(0, 5));
    assert!(range.span().0 <= range.span().1);

    let t = Tok::DotDotEq(DotDotEq { left: 7 });
    assert_eq!(t.span(), Span(7, 10));

    // a node with no tokens gets the sentinel empty span
    let empty: Punctuated<Expr, Comma> = Punctuated { inner: vec![], last: None };
    assert_eq!(empty.span(), Span(0, 0));
}

#[test]
fn span_combine() {
    assert_eq!(Span(2, 5).combine(Span(0, 3)), Span(0, 5));
    assert_eq!(Span(0, 3).combine(Span(2, 5)), Span(0, 5));
    assert_eq!(Span(1, 2).combine(Span(1, 2)), Span(1, 2));
}

// len agrees with to_tokens().len() for every node, empty shapes included.
#[test]
fn len_agrees_with_to_tokens() {
    let empty_block = Block {
        brace_open: BraceOpen { left: 0 },
        statements: vec![],
        brace_close: BraceClose { left: 0 },
    };
    assert_eq!(empty_block.len(), empty_block.to_tokens().len());
    assert_eq!(empty_block.len(), 2);

    let cond = Expr::If(ExprIf {
        if_token: If { left: 0 },
        expr: Box::new(epath("a")),
        block: Block {
            brace_open: BraceOpen { left: 0 },
            statements: vec![Stmt::Expr(StmtExpr { expr: epath("b"), semi: None })],
            brace_close: BraceClose { left: 0 },
        },
        else_token: None,
    });
    assert_eq!(cond.len(), cond.to_tokens().len());
    assert_eq!(cond.len(), 5);

    let empty: Punctuated<Expr, Comma> = Punctuated { inner: vec![], last: None };
    assert_eq!(empty.len(), 0);
    assert_eq!(empty.to_tokens().len(), 0);
    assert!(empty.first().is_none());
    assert!(empty.last().is_none());
}

// A punctuated list built from k pairs and an optional trailing item has
// exactly k separators; iter yields the items and never a separator.
#[test]
fn punctuated_counts() {
    let two_pairs_trailing: Punctuated<Expr, Comma> = plist(
        vec![eint("0"), eint("1"), eint("2")],
        vec![Comma { left: 0 }, Comma { left: 0 }],
    );
    assert_eq!(two_pairs_trailing.inner.len(), 2);
    assert!(two_pairs_trailing.last.is_some());
    assert_eq!(two_pairs_trailing.iter().len(), 3);
    // 3 literal tokens and 2 separators
    assert_eq!(two_pairs_trailing.len(), 5);

    let no_trailing: Punctuated<Expr, Comma> = Punctuated {
        inner: vec![(eint("0"), Comma { left: 0 })],
        last: None,
    };
    assert_eq!(no_trailing.iter().len(), 1);
    assert_eq!(no_trailing.len(), 2);
}

#[test]
fn first_and_last_match_to_tokens() {
    let arr = Expr::Array(ExprArray {
        bracket_open: BracketOpen { left: 0 },
        elements: plist(vec![eint("0"), eint("1")], vec![Comma { left: 0 }]),
        bracket_close: BracketClose { left: 0 },
    });
    let toks = arr.to_tokens();
    assert!(matches!(arr.first().unwrap(), Tok::BracketOpen(_)));
    assert!(matches!(arr.last().unwrap(), Tok::BracketClose(_)));
    assert_eq!(toks.len(), arr.len());
}

#[test]
fn mod_content_is_file() {
    let file = ModContent::File(ModContentFile { semi: Semi { left: 0 } });
    assert!(file.is_file());
    let here = ModContent::Here(ModContentHere {
        brace_open: BraceOpen { left: 0 },
        items: vec![],
        brace_close: BraceClose { left: 0 },
    });
    assert!(!here.is_file());
}

// Formatting a parsed node's token stream reproduces the source, up to the
// formatter's own whitespace normalization; reformatting is a fixed point.
#[test]
fn format_round_trip_normalizes() {
    let range = Expr::Range(ExprRange {
        left: Some(Box::new(eint_at("0", 0))),
        range_type: RangeType::Closed(DotDotEq { left: 1 }),
        right: Some(Box::new(eint_at("9", 4))),
    });
    assert_eq!(rhdl_ast::display::format(range.to_tokens()), "0..=9");

    // `[0,1,2,3,4,5]` normalizes to comma-then-space; the spans a parser
    // would attach make no difference to the text
    let tight = Expr::Array(ExprArray {
        bracket_open: BracketOpen { left: 0 },
        elements: plist(
            vec![
                eint_at("0", 1),
                eint_at("1", 3),
                eint_at("2", 5),
                eint_at("3", 7),
                eint_at("4", 9),
                eint_at("5", 11),
            ],
            vec![
                Comma { left: 2 },
                Comma { left: 4 },
                Comma { left: 6 },
                Comma { left: 8 },
                Comma { left: 10 },
            ],
        ),
        bracket_close: BracketClose { left: 12 },
    });
    let once = rhdl_ast::display::format(tight.to_tokens());
    assert_eq!(once, "[0, 1, 2, 3, 4, 5]");
    // formatting again after "re-parsing" (same shapes, normalized offsets)
    // changes nothing more
    let spaced = Expr::Array(ExprArray {
        bracket_open: BracketOpen { left: 0 },
        elements: plist(
            vec![
                eint_at("0", 1),
                eint_at("1", 4),
                eint_at("2", 7),
                eint_at("3", 10),
                eint_at("4", 13),
                eint_at("5", 16),
            ],
            vec![
                Comma { left: 2 },
                Comma { left: 5 },
                Comma { left: 8 },
                Comma { left: 11 },
                Comma { left: 14 },
            ],
        ),
        bracket_close: BracketClose { left: 17 },
    });
    assert_eq!(rhdl_ast::display::format(spaced.to_tokens()), once);
}

// The if/else statement scenario: every token comes back out in order, with
// the formatter's spacing (it breaks the line before `else`).
#[test]
fn end_to_end_if_else_statement() {
    let stmt = |e: Expr, semi: bool| Stmt::Expr(StmtExpr {
        expr: e,
        semi: if semi { Some(Semi { left: 0 }) } else { None },
    });
    let block = |stmts: Vec<Stmt>| Block {
        brace_open: BraceOpen { left: 0 },
        statements: stmts,
        brace_close: BraceClose { left: 0 },
    };
    let then_block = block(vec![
        stmt(
            Expr::Assign(ExprAssign {
                lhs: Box::new(epath("a")),
                op: AssOp::Eq(TokenEq { left: 0 }),
                rhs: Box::new(eint("4")),
            }),
            true,
        ),
        stmt(epath("b"), false),
    ]);
    let else_block = block(vec![
        stmt(
            Expr::Assign(ExprAssign {
                lhs: Box::new(epath("a")),
                op: AssOp::PlusEq(PlusEq { left: 0 }),
                rhs: Box::new(eint("1")),
            }),
            true,
        ),
        stmt(epath("d"), false),
    ]);
    let e = Expr::If(ExprIf {
        if_token: If { left: 0 },
        expr: Box::new(Expr::Binary(ExprBinary {
            left: Box::new(epath("a")),
            op: BinOp::Ge(Ge { left: 0 }),
            right: Box::new(eint("4")),
        })),
        block: then_block,
        else_token: Some((Else { left: 0 }, Box::new(Expr::Block(else_block)))),
    });
    assert_eq!(
        rhdl_ast::display::format(e.to_tokens()),
        "if a >= 4 { a = 4; b }\nelse { a += 1; d }"
    );
}
