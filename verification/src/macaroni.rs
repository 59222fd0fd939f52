use vstd::prelude::*;
use vstd::string::StringExecFns;

use crate::token::{str_eq, Ident};

verus! {

/// The fragment classes a macro argument can be declared with. The display
/// spellings are the table the declaration scaffolding was written with;
/// several classes share the spelling `block`.
#[derive(Clone, Copy, PartialEq, Eq, Structural, Debug)]
pub enum MacroFragSpec {
    Block,
    Expr,
    Ident,
    Item,
    Literal,
    Meta,
    Pat,
    Path,
    Stmt,
    TokenTree,
    Type,
    Visibility,
}

pub open spec fn frag_spec_text(f: MacroFragSpec) -> Seq<char> {
    match f {
        MacroFragSpec::Block => "block"@,
        MacroFragSpec::Expr => "expr"@,
        MacroFragSpec::Ident => "ident"@,
        MacroFragSpec::Item => "item"@,
        MacroFragSpec::Literal => "literal"@,
        MacroFragSpec::Meta => "block"@,
        MacroFragSpec::Pat => "block"@,
        MacroFragSpec::Path => "block"@,
        MacroFragSpec::Stmt => "block"@,
        MacroFragSpec::TokenTree => "tt"@,
        MacroFragSpec::Type => "ty"@,
        MacroFragSpec::Visibility => "vis"@,
    }
}

pub open spec fn frag_spec_variants() -> Seq<MacroFragSpec> {
    seq![
        MacroFragSpec::Block,
        MacroFragSpec::Expr,
        MacroFragSpec::Ident,
        MacroFragSpec::Item,
        MacroFragSpec::Literal,
        MacroFragSpec::Meta,
        MacroFragSpec::Pat,
        MacroFragSpec::Path,
        MacroFragSpec::Stmt,
        MacroFragSpec::TokenTree,
        MacroFragSpec::Type,
        MacroFragSpec::Visibility,
    ]
}

/// First match in table order; the shared spelling `block` names the Block
/// class.
pub open spec fn frag_spec_from_str_spec(s: Seq<char>) -> Option<MacroFragSpec> {
    if s == "block"@ {
        Some(MacroFragSpec::Block)
    } else if s == "expr"@ {
        Some(MacroFragSpec::Expr)
    } else if s == "ident"@ {
        Some(MacroFragSpec::Ident)
    } else if s == "item"@ {
        Some(MacroFragSpec::Item)
    } else if s == "literal"@ {
        Some(MacroFragSpec::Literal)
    } else if s == "tt"@ {
        Some(MacroFragSpec::TokenTree)
    } else if s == "ty"@ {
        Some(MacroFragSpec::Type)
    } else if s == "vis"@ {
        Some(MacroFragSpec::Visibility)
    } else {
        None
    }
}

impl MacroFragSpec {
    pub fn variants() -> (r: Vec<MacroFragSpec>)
        ensures
            r@ == frag_spec_variants(),
    {
        let mut r: Vec<MacroFragSpec> = Vec::new();
        r.push(MacroFragSpec::Block);
        r.push(MacroFragSpec::Expr);
        r.push(MacroFragSpec::Ident);
        r.push(MacroFragSpec::Item);
        r.push(MacroFragSpec::Literal);
        r.push(MacroFragSpec::Meta);
        r.push(MacroFragSpec::Pat);
        r.push(MacroFragSpec::Path);
        r.push(MacroFragSpec::Stmt);
        r.push(MacroFragSpec::TokenTree);
        r.push(MacroFragSpec::Type);
        r.push(MacroFragSpec::Visibility);
        proof {
            assert(r@ =~= frag_spec_variants());
        }
        r
    }

    pub fn display(&self) -> (r: String)
        ensures
            r@ == frag_spec_text(*self),
    {
        match self {
            MacroFragSpec::Block => "block".to_owned(),
            MacroFragSpec::Expr => "expr".to_owned(),
            MacroFragSpec::Ident => "ident".to_owned(),
            MacroFragSpec::Item => "item".to_owned(),
            MacroFragSpec::Literal => "literal".to_owned(),
            MacroFragSpec::Meta => "block".to_owned(),
            MacroFragSpec::Pat => "block".to_owned(),
            MacroFragSpec::Path => "block".to_owned(),
            MacroFragSpec::Stmt => "block".to_owned(),
            MacroFragSpec::TokenTree => "tt".to_owned(),
            MacroFragSpec::Type => "ty".to_owned(),
            MacroFragSpec::Visibility => "vis".to_owned(),
        }
    }

    pub fn from_str(s: &str) -> (r: Result<MacroFragSpec, ()>)
        ensures
            r == (match frag_spec_from_str_spec(s@) {
                Some(f) => Ok::<MacroFragSpec, ()>(f),
                None => Err::<MacroFragSpec, ()>(()),
            }),
    {
        if str_eq(s, "block") {
            Ok(MacroFragSpec::Block)
        } else if str_eq(s, "expr") {
            Ok(MacroFragSpec::Expr)
        } else if str_eq(s, "ident") {
            Ok(MacroFragSpec::Ident)
        } else if str_eq(s, "item") {
            Ok(MacroFragSpec::Item)
        } else if str_eq(s, "literal") {
            Ok(MacroFragSpec::Literal)
        } else if str_eq(s, "tt") {
            Ok(MacroFragSpec::TokenTree)
        } else if str_eq(s, "ty") {
            Ok(MacroFragSpec::Type)
        } else if str_eq(s, "vis") {
            Ok(MacroFragSpec::Visibility)
        } else {
            Err(())
        }
    }
}

/// How often a repetition group may match.
#[derive(Clone, Copy, PartialEq, Eq, Structural, Debug)]
pub enum MacroRepOp {
    Optional,
    OneOrMore,
    ZeroOrMore,
}

pub open spec fn rep_op_text(op: MacroRepOp) -> Seq<char> {
    match op {
        MacroRepOp::Optional => "?"@,
        MacroRepOp::OneOrMore => "+"@,
        MacroRepOp::ZeroOrMore => "*"@,
    }
}

pub open spec fn rep_op_variants() -> Seq<MacroRepOp> {
    seq![MacroRepOp::Optional, MacroRepOp::OneOrMore, MacroRepOp::ZeroOrMore]
}

pub open spec fn rep_op_from_str_spec(s: Seq<char>) -> Option<MacroRepOp> {
    if s == "?"@ {
        Some(MacroRepOp::Optional)
    } else if s == "+"@ {
        Some(MacroRepOp::OneOrMore)
    } else if s == "*"@ {
        Some(MacroRepOp::ZeroOrMore)
    } else {
        None
    }
}

impl MacroRepOp {
    pub fn variants() -> (r: Vec<MacroRepOp>)
        ensures
            r@ == rep_op_variants(),
    {
        let mut r: Vec<MacroRepOp> = Vec::new();
        r.push(MacroRepOp::Optional);
        r.push(MacroRepOp::OneOrMore);
        r.push(MacroRepOp::ZeroOrMore);
        proof {
            assert(r@ =~= rep_op_variants());
        }
        r
    }

    pub fn display(&self) -> (r: String)
        ensures
            r@ == rep_op_text(*self),
    {
        match self {
            MacroRepOp::Optional => "?".to_owned(),
            MacroRepOp::OneOrMore => "+".to_owned(),
            MacroRepOp::ZeroOrMore => "*".to_owned(),
        }
    }

    pub fn from_str(s: &str) -> (r: Result<MacroRepOp, ()>)
        ensures
            r == (match rep_op_from_str_spec(s@) {
                Some(op) => Ok::<MacroRepOp, ()>(op),
                None => Err::<MacroRepOp, ()>(()),
            }),
    {
        if str_eq(s, "?") {
            Ok(MacroRepOp::Optional)
        } else if str_eq(s, "+") {
            Ok(MacroRepOp::OneOrMore)
        } else if str_eq(s, "*") {
            Ok(MacroRepOp::ZeroOrMore)
        } else {
            Err(())
        }
    }
}

/// Law: each repetition operator's spelling looks back up as exactly that
/// operator.
pub proof fn lemma_rep_op_from_str_display()
    ensures
        forall|i: int|
            0 <= i < rep_op_variants().len() ==> rep_op_from_str_spec(
                rep_op_text(#[trigger] rep_op_variants()[i]),
            ) == Some(rep_op_variants()[i]),
{
    reveal_strlit("?");
    reveal_strlit("+");
    reveal_strlit("*");
    assert forall|i: int| 0 <= i < rep_op_variants().len() implies rep_op_from_str_spec(
        rep_op_text(#[trigger] rep_op_variants()[i]),
    ) == Some(rep_op_variants()[i]) by {
        if i == 0 {
            assert(rep_op_variants()[0] == MacroRepOp::Optional);
        } else if i == 1 {
            assert(rep_op_variants()[1] == MacroRepOp::OneOrMore);
            assert("+"@ != "?"@) by {
                assert(("+"@)[0] == '+');
                assert(("?"@)[0] == '?');
            }
        } else {
            assert(rep_op_variants()[2] == MacroRepOp::ZeroOrMore);
            assert("*"@ != "?"@) by {
                assert(("*"@)[0] == '*');
                assert(("?"@)[0] == '?');
            }
            assert("*"@ != "+"@) by {
                assert(("*"@)[0] == '*');
                assert(("+"@)[0] == '+');
            }
        }
    }
}

/// One piece of a macro matcher: literal token text, a nested matcher, a
/// named fragment, or a repetition group.
#[derive(Debug)]
pub enum MacroMatch {
    Token(String),
    Matcher(MacroMatcher),
    Fragment(Ident, MacroFragSpec),
    Rep(Vec<MacroMatch>, Option<String>, MacroRepOp),
}

/// A whole matcher: a run of matches, displayed space-separated.
#[derive(Debug)]
pub struct MacroMatcher(pub Vec<MacroMatch>);

/// One rule of a declared macro: a matcher and its raw expansion.
#[derive(Debug)]
pub struct MacroRule(pub MacroMatcher, pub Vec<String>);

pub open spec fn macro_match_text(m: MacroMatch) -> Seq<char>
    decreases m,
{
    match m {
        MacroMatch::Token(t) => t@,
        MacroMatch::Matcher(inner) => macro_matcher_text(inner),
        MacroMatch::Fragment(id, f) => "$"@ + id.inner@ + ": "@ + frag_spec_text(f),
        MacroMatch::Rep(ms, sep, op) => "$("@ + macro_matches_text(ms@) + ")"@ + (match sep {
            Some(s) => s@,
            None => Seq::<char>::empty(),
        }) + rep_op_text(op),
    }
}

/// The matches joined by single spaces.
pub open spec fn macro_matches_text(s: Seq<MacroMatch>) -> Seq<char>
    decreases s,
{
    if s.len() == 0 {
        Seq::<char>::empty()
    } else if s.len() == 1 {
        macro_match_text(s.last())
    } else {
        macro_matches_text(s.drop_last()) + " "@ + macro_match_text(s.last())
    }
}

pub open spec fn macro_matcher_text(m: MacroMatcher) -> Seq<char>
    decreases m,
{
    macro_matches_text(m.0@)
}

pub open spec fn strings_concat(s: Seq<String>) -> Seq<char>
    decreases s,
{
    if s.len() == 0 {
        Seq::<char>::empty()
    } else {
        strings_concat(s.drop_last()) + s.last()@
    }
}

pub open spec fn macro_rule_text(r: MacroRule) -> Seq<char> {
    macro_matcher_text(r.0) + " => "@ + strings_concat(r.1@)
}

fn macro_matches_display(v: &Vec<MacroMatch>) -> (r: String)
    ensures
        r@ == macro_matches_text(v@),
    decreases v@,
{
    let mut acc = String::new();
    let mut i: usize = 0;
    proof {
        assert(v@.subrange(0, 0) =~= Seq::<MacroMatch>::empty());
    }
    while i < v.len()
        invariant
            i <= v@.len(),
            acc@ == macro_matches_text(v@.subrange(0, i as int)),
        decreases v@.len() - i,
    {
        if i > 0 {
            acc.append(" ");
        }
        proof {
            assert(decreases_to!(v@ => v@[i as int]));
        }
        let piece = v[i].display();
        acc.append(piece.as_str());
        i += 1;
        proof {
            assert(v@.subrange(0, i as int).drop_last() =~= v@.subrange(0, i - 1));
            assert(v@.subrange(0, i as int).last() == v@[i - 1]);
        }
    }
    proof {
        assert(v@.subrange(0, v@.len() as int) =~= v@);
    }
    acc
}

impl MacroMatch {
    /// The matcher text this piece displays as.
    pub fn display(&self) -> (r: String)
        ensures
            r@ == macro_match_text(*self),
        decreases self,
    {
        match self {
            MacroMatch::Token(t) => t.clone(),
            MacroMatch::Matcher(inner) => {
                proof {
                    assert(decreases_to!(*self => *inner));
                }
                inner.display()
            },
            MacroMatch::Fragment(id, f) => {
                let mut acc = String::new();
                acc.append("$");
                acc.append(id.inner.as_str());
                acc.append(": ");
                let ft = f.display();
                acc.append(ft.as_str());
                acc
            },
            MacroMatch::Rep(ms, sep, op) => {
                proof {
                    assert(decreases_to!(*self => ms@));
                }
                let mut acc = String::new();
                acc.append("$(");
                let inner = macro_matches_display(ms);
                acc.append(inner.as_str());
                acc.append(")");
                match sep {
                    Some(s) => acc.append(s.as_str()),
                    None => {},
                }
                let ot = op.display();
                acc.append(ot.as_str());
                acc
            },
        }
    }
}

impl MacroMatcher {
    /// The whole matcher's text: its pieces, space-separated.
    pub fn display(&self) -> (r: String)
        ensures
            r@ == macro_matcher_text(*self),
        decreases self,
    {
        proof {
            assert(decreases_to!(*self => self.0@));
        }
        macro_matches_display(&self.0)
    }
}

impl MacroRule {
    /// The rule's text: matcher, arrow, and the expansion verbatim.
    pub fn display(&self) -> (r: String)
        ensures
            r@ == macro_rule_text(*self),
    {
        let mut acc = self.0.display();
        acc.append(" => ");
        let mut i: usize = 0;
        proof {
            assert(self.1@.subrange(0, 0) =~= Seq::<String>::empty());
            assert(acc@ =~= macro_matcher_text(self.0) + " => "@ + strings_concat(
                self.1@.subrange(0, 0),
            ));
        }
        while i < self.1.len()
            invariant
                i <= self.1@.len(),
                acc@ == macro_matcher_text(self.0) + " => "@ + strings_concat(
                    self.1@.subrange(0, i as int),
                ),
            decreases self.1@.len() - i,
        {
            acc.append(self.1[i].as_str());
            i += 1;
            proof {
                assert(self.1@.subrange(0, i as int).drop_last() =~= self.1@.subrange(0, i - 1));
                assert(self.1@.subrange(0, i as int).last() == self.1@[i - 1]);
            }
        }
        proof {
            assert(self.1@.subrange(0, self.1@.len() as int) =~= self.1@);
        }
        acc
    }
}

} // verus!
