use rhdl_ast::macaroni::{MacroFragSpec, MacroMatch, MacroMatcher, MacroRepOp, MacroRule};
use rhdl_ast::token::{Ident, Span};

fn ident(s: &str) -> Ident {
    Ident { inner: s.to_string(), span: Span(0, 0) }
}

#[test]
fn macro_rule_display() {
    let matcher = MacroMatcher(vec![
        MacroMatch::Fragment(ident("x"), MacroFragSpec::Expr),
        MacroMatch::Token(",".to_string()),
        MacroMatch::Rep(
            vec![MacroMatch::Fragment(ident("y"), MacroFragSpec::Ident)],
            Some(",".to_string()),
            MacroRepOp::ZeroOrMore,
        ),
    ]);
    assert_eq!(matcher.display(), "$x: expr , $($y: ident),*");
    let rule = MacroRule(matcher, vec!["x ".to_string(), "+ 1".to_string()]);
    assert_eq!(rule.display(), "$x: expr , $($y: ident),* => x + 1");
}

#[test]
fn macro_matcher_nesting() {
    let inner = MacroMatcher(vec![MacroMatch::Token("a".to_string())]);
    let outer = MacroMatch::Matcher(inner);
    assert_eq!(outer.display(), "a");
    let rep = MacroMatch::Rep(vec![], None, MacroRepOp::Optional);
    assert_eq!(rep.display(), "$()?");
}

#[test]
fn macro_frag_spec_table() {
    // distinct spellings round-trip
    for f in [
        MacroFragSpec::Block,
        MacroFragSpec::Expr,
        MacroFragSpec::Ident,
        MacroFragSpec::Item,
        MacroFragSpec::Literal,
        MacroFragSpec::TokenTree,
        MacroFragSpec::Type,
        MacroFragSpec::Visibility,
    ] {
        assert_eq!(MacroFragSpec::from_str(&f.display()), Ok(f));
    }
    // the classes that share the `block` spelling parse back as Block
    for f in [
        MacroFragSpec::Meta,
        MacroFragSpec::Pat,
        MacroFragSpec::Path,
        MacroFragSpec::Stmt,
    ] {
        assert_eq!(f.display(), "block");
        assert_eq!(MacroFragSpec::from_str(&f.display()), Ok(MacroFragSpec::Block));
    }
    assert_eq!(MacroFragSpec::variants().len(), 12);
    assert!(MacroFragSpec::from_str("frag").is_err());
}

#[test]
fn macro_rep_op_table() {
    for op in MacroRepOp::variants() {
        assert_eq!(MacroRepOp::from_str(&op.display()), Ok(op));
    }
    assert!(MacroRepOp::from_str("?!").is_err());
}
