use vstd::prelude::*;
use vstd::string::StringExecFns;

use crate::token::{append_tok_text, tok_text, Tok};

verus! {

/// What to put between two adjacent tokens: a single space, a line break,
/// or nothing.
#[derive(Clone, Copy, PartialEq, Eq, Structural, Debug)]
pub enum SpacingHint {
    Any,
    LineBreak,
    NoSpace,
}

/// The spacing between an adjacent token pair, decided purely locally: from
/// the kind of the left token, the kind of the token after it, and in a few
/// cases the kind of the token before — never from tree structure. Total and
/// deterministic over every token pair.
pub open spec fn spacing_spec(prev: Option<Tok>, cur: Tok, next: Tok) -> SpacingHint {
    match cur {
        Tok::As(_) | Tok::Break(_) | Tok::Const(_) | Tok::Continue(_) | Tok::Else(_)
            | Tok::Enum(_) | Tok::Extern(_) | Tok::For(_) | Tok::If(_) | Tok::Impl(_)
            | Tok::In(_) | Tok::Let(_) | Tok::Loop(_) | Tok::Match(_) | Tok::Mod(_)
            | Tok::Move(_) | Tok::Mut(_) | Tok::Ref(_) | Tok::Return(_) | Tok::UpperSelf(_)
            | Tok::Static(_) | Tok::Struct(_) | Tok::Trait(_) | Tok::TokenType(_)
            | Tok::Unsafe(_) | Tok::Use(_) | Tok::Where(_) | Tok::While(_) | Tok::Async(_)
            | Tok::Await(_) | Tok::Dyn(_) | Tok::Abstract(_) | Tok::Become(_) | Tok::TokenBox(_)
            | Tok::Do(_) | Tok::Final(_) | Tok::Macro(_) | Tok::Override(_) | Tok::Priv(_)
            | Tok::Typeof(_) | Tok::Unsized(_) | Tok::Virtual(_) | Tok::Yield(_) | Tok::Try(_)
            | Tok::Union(_) | Tok::Entity(_) | Tok::Bag(_) | Tok::Ring(_) | Tok::Arch(_)
            | Tok::When(_) | Tok::Out(_) | Tok::InOut(_) => SpacingHint::Any,
        Tok::Plus(_) | Tok::Star(_) | Tok::StarStar(_) | Tok::Slash(_) | Tok::Percent(_)
            | Tok::Caret(_) | Tok::And(_) | Tok::Or(_) | Tok::AndAnd(_) | Tok::OrOr(_)
            | Tok::Shl(_) | Tok::Shr(_) | Tok::PlusEq(_) | Tok::MinusEq(_) | Tok::StarEq(_)
            | Tok::StarStarEq(_) | Tok::SlashEq(_) | Tok::PercentEq(_) | Tok::CaretEq(_)
            | Tok::AndEq(_) | Tok::OrEq(_) | Tok::ShlEq(_) | Tok::ShrEq(_) | Tok::Eq(_)
            | Tok::EqEq(_) | Tok::Ne(_) | Tok::Gt(_) | Tok::Lt(_) | Tok::Ge(_) | Tok::Le(_)
            | Tok::At(_) | Tok::Comma(_) | Tok::Colon(_) | Tok::RArrow(_) | Tok::FatArrow(_)
            | Tok::Pound(_) | Tok::Dollar(_) | Tok::Question(_) | Tok::BracketClose(_)
            | Tok::ParenClose(_) | Tok::BraceOpen(_) => match next {
            Tok::Semi(_) => SpacingHint::NoSpace,
            Tok::Comma(_) => SpacingHint::NoSpace,
            _ => SpacingHint::Any,
        },
        Tok::Semi(_) => match next {
            Tok::Ident(_) | Tok::Lit(_) | Tok::ParenOpen(_) | Tok::BraceClose(_) => {
                SpacingHint::Any
            },
            _ => SpacingHint::LineBreak,
        },
        Tok::BraceClose(_) => match next {
            Tok::Semi(_) | Tok::Comma(_) => SpacingHint::NoSpace,
            Tok::BraceClose(_) => SpacingHint::Any,
            _ => SpacingHint::LineBreak,
        },
        Tok::Pub(_) | Tok::Fn(_) => match next {
            Tok::ParenOpen(_) => SpacingHint::NoSpace,
            _ => SpacingHint::Any,
        },
        Tok::PathSep(_) | Tok::ParenOpen(_) | Tok::Dot(_) => SpacingHint::NoSpace,
        Tok::DotDot(_) | Tok::DotDotEq(_) => match prev {
            Some(Tok::BraceOpen(_)) | Some(Tok::ParenOpen(_)) => SpacingHint::Any,
            Some(Tok::Comma(_)) => match next {
                Tok::BraceClose(_) | Tok::Lit(_) | Tok::Ident(_) => SpacingHint::Any,
                _ => SpacingHint::NoSpace,
            },
            _ => SpacingHint::NoSpace,
        },
        Tok::BracketOpen(_) => match next {
            Tok::Lit(_) | Tok::Ident(_) => SpacingHint::NoSpace,
            _ => SpacingHint::Any,
        },
        Tok::Not(_) => SpacingHint::NoSpace,
        Tok::Minus(_) => match prev {
            Some(Tok::Ident(_)) | Some(Tok::Lit(_)) | Some(Tok::BraceClose(_))
                | Some(Tok::ParenClose(_)) | Some(Tok::BracketOpen(_)) => SpacingHint::Any,
            _ => SpacingHint::NoSpace,
        },
        Tok::Lit(_) | Tok::Ident(_) | Tok::Underscore(_) | Tok::Super(_) | Tok::LowerSelf(_)
            | Tok::Crate(_) => match next {
            Tok::Gt(_) => SpacingHint::Any,
            Tok::Colon(_) | Tok::Semi(_) | Tok::BracketClose(_) | Tok::DotDot(_)
                | Tok::DotDotEq(_) | Tok::Dot(_) | Tok::ParenOpen(_) | Tok::ParenClose(_)
                | Tok::BracketOpen(_) | Tok::Comma(_) | Tok::PathSep(_) => SpacingHint::NoSpace,
            _ => SpacingHint::Any,
        },
    }
}

/// Decides the spacing between `cur` and `next`, with `prev` the token just
/// before `cur` where there is one.
pub fn spacing_hint(prev: Option<&Tok>, cur: &Tok, next: &Tok) -> (r: SpacingHint)
    ensures
        r == spacing_spec(
            match prev {
                Some(p) => Some(*p),
                None => None::<Tok>,
            },
            *cur,
            *next,
        ),
{
    match cur {
        Tok::As(_) | Tok::Break(_) | Tok::Const(_) | Tok::Continue(_) | Tok::Else(_)
            | Tok::Enum(_) | Tok::Extern(_) | Tok::For(_) | Tok::If(_) | Tok::Impl(_)
            | Tok::In(_) | Tok::Let(_) | Tok::Loop(_) | Tok::Match(_) | Tok::Mod(_)
            | Tok::Move(_) | Tok::Mut(_) | Tok::Ref(_) | Tok::Return(_) | Tok::UpperSelf(_)
            | Tok::Static(_) | Tok::Struct(_) | Tok::Trait(_) | Tok::TokenType(_)
            | Tok::Unsafe(_) | Tok::Use(_) | Tok::Where(_) | Tok::While(_) | Tok::Async(_)
            | Tok::Await(_) | Tok::Dyn(_) | Tok::Abstract(_) | Tok::Become(_) | Tok::TokenBox(_)
            | Tok::Do(_) | Tok::Final(_) | Tok::Macro(_) | Tok::Override(_) | Tok::Priv(_)
            | Tok::Typeof(_) | Tok::Unsized(_) | Tok::Virtual(_) | Tok::Yield(_) | Tok::Try(_)
            | Tok::Union(_) | Tok::Entity(_) | Tok::Bag(_) | Tok::Ring(_) | Tok::Arch(_)
            | Tok::When(_) | Tok::Out(_) | Tok::InOut(_) => SpacingHint::Any,
        Tok::Plus(_) | Tok::Star(_) | Tok::StarStar(_) | Tok::Slash(_) | Tok::Percent(_)
            | Tok::Caret(_) | Tok::And(_) | Tok::Or(_) | Tok::AndAnd(_) | Tok::OrOr(_)
            | Tok::Shl(_) | Tok::Shr(_) | Tok::PlusEq(_) | Tok::MinusEq(_) | Tok::StarEq(_)
            | Tok::StarStarEq(_) | Tok::SlashEq(_) | Tok::PercentEq(_) | Tok::CaretEq(_)
            | Tok::AndEq(_) | Tok::OrEq(_) | Tok::ShlEq(_) | Tok::ShrEq(_) | Tok::Eq(_)
            | Tok::EqEq(_) | Tok::Ne(_) | Tok::Gt(_) | Tok::Lt(_) | Tok::Ge(_) | Tok::Le(_)
            | Tok::At(_) | Tok::Comma(_) | Tok::Colon(_) | Tok::RArrow(_) | Tok::FatArrow(_)
            | Tok::Pound(_) | Tok::Dollar(_) | Tok::Question(_) | Tok::BracketClose(_)
            | Tok::ParenClose(_) | Tok::BraceOpen(_) => match next {
            Tok::Semi(_) => SpacingHint::NoSpace,
            Tok::Comma(_) => SpacingHint::NoSpace,
            _ => SpacingHint::Any,
        },
        Tok::Semi(_) => match next {
            Tok::Ident(_) | Tok::Lit(_) | Tok::ParenOpen(_) | Tok::BraceClose(_) => {
                SpacingHint::Any
            },
            _ => SpacingHint::LineBreak,
        },
        Tok::BraceClose(_) => match next {
            Tok::Semi(_) | Tok::Comma(_) => SpacingHint::NoSpace,
            Tok::BraceClose(_) => SpacingHint::Any,
            _ => SpacingHint::LineBreak,
        },
        Tok::Pub(_) | Tok::Fn(_) => match next {
            Tok::ParenOpen(_) => SpacingHint::NoSpace,
            _ => SpacingHint::Any,
        },
        Tok::PathSep(_) | Tok::ParenOpen(_) | Tok::Dot(_) => SpacingHint::NoSpace,
        Tok::DotDot(_) | Tok::DotDotEq(_) => match prev {
            Some(Tok::BraceOpen(_)) | Some(Tok::ParenOpen(_)) => SpacingHint::Any,
            Some(Tok::Comma(_)) => match next {
                Tok::BraceClose(_) | Tok::Lit(_) | Tok::Ident(_) => SpacingHint::Any,
                _ => SpacingHint::NoSpace,
            },
            _ => SpacingHint::NoSpace,
        },
        Tok::BracketOpen(_) => match next {
            Tok::Lit(_) | Tok::Ident(_) => SpacingHint::NoSpace,
            _ => SpacingHint::Any,
        },
        Tok::Not(_) => SpacingHint::NoSpace,
        Tok::Minus(_) => match prev {
            Some(Tok::Ident(_)) | Some(Tok::Lit(_)) | Some(Tok::BraceClose(_))
                | Some(Tok::ParenClose(_)) | Some(Tok::BracketOpen(_)) => SpacingHint::Any,
            _ => SpacingHint::NoSpace,
        },
        Tok::Lit(_) | Tok::Ident(_) | Tok::Underscore(_) | Tok::Super(_) | Tok::LowerSelf(_)
            | Tok::Crate(_) => match next {
            Tok::Gt(_) => SpacingHint::Any,
            Tok::Colon(_) | Tok::Semi(_) | Tok::BracketClose(_) | Tok::DotDot(_)
                | Tok::DotDotEq(_) | Tok::Dot(_) | Tok::ParenOpen(_) | Tok::ParenClose(_)
                | Tok::BracketOpen(_) | Tok::Comma(_) | Tok::PathSep(_) => SpacingHint::NoSpace,
            _ => SpacingHint::Any,
        },
    }
}

pub open spec fn hint_chars(prev: Option<Tok>, cur: Tok, next: Tok) -> Seq<char> {
    match spacing_spec(prev, cur, next) {
        SpacingHint::Any => " "@,
        SpacingHint::LineBreak => "\n"@,
        SpacingHint::NoSpace => Seq::<char>::empty(),
    }
}

/// The text of a token sequence from some position on, given the token just
/// before that position: each token's display text, with the locally decided
/// spacing between each adjacent pair.
pub open spec fn fmt_sub(prev: Option<Tok>, s: Seq<Tok>) -> Seq<char>
    decreases s.len(),
{
    if s.len() == 0 {
        Seq::<char>::empty()
    } else if s.len() == 1 {
        tok_text(s[0])
    } else {
        tok_text(s[0]) + hint_chars(prev, s[0], s[1]) + fmt_sub(Some(s[0]), s.skip(1))
    }
}

/// The whole-sequence rendering: token texts joined by the spacing hints.
pub open spec fn fmt_spec(s: Seq<Tok>) -> Seq<char> {
    fmt_sub(None, s)
}

/// Walks a flat token sequence and re-inserts whitespace between adjacent
/// tokens using the local spacing rule.
pub fn format(tokens: Vec<Tok>) -> (r: String)
    ensures
        r@ == fmt_spec(tokens@),
{
    let s = Ghost(tokens@);
    let mut acc = String::new();
    let mut i: usize = 0;
    proof {
        assert(s@.skip(0) =~= s@);
        assert(acc@ + fmt_sub(None::<Tok>, s@) =~= fmt_sub(None::<Tok>, s@));
    }
    while i < tokens.len()
        invariant
            i <= s@.len(),
            s@ == tokens@,
            acc@ + fmt_sub(
                if i == 0 {
                    None
                } else {
                    Some(s@[i - 1])
                },
                s@.skip(i as int),
            ) == fmt_spec(s@),
        decreases s@.len() - i,
    {
        let ghost pre = acc@;
        let ghost prev: Option<Tok> = if i == 0 {
            None
        } else {
            Some(s@[i - 1])
        };
        append_tok_text(&mut acc, &tokens[i]);
        if i + 1 < tokens.len() {
            let h = spacing_hint(
                if i == 0 {
                    None
                } else {
                    Some(&tokens[i - 1])
                },
                &tokens[i],
                &tokens[i + 1],
            );
            match h {
                SpacingHint::Any => acc.append(" "),
                SpacingHint::LineBreak => acc.append("\n"),
                SpacingHint::NoSpace => {},
            }
            proof {
                assert(s@.skip(i as int).len() >= 2);
                assert(s@.skip(i as int)[0] == s@[i as int]);
                assert(s@.skip(i as int)[1] == s@[i + 1]);
                assert(s@.skip(i as int).skip(1) =~= s@.skip(i + 1));
                assert(fmt_sub(prev, s@.skip(i as int)) == tok_text(s@[i as int]) + hint_chars(
                    prev,
                    s@[i as int],
                    s@[i + 1],
                ) + fmt_sub(Some(s@[i as int]), s@.skip(i + 1)));
                assert(acc@ =~= pre + tok_text(s@[i as int]) + hint_chars(
                    prev,
                    s@[i as int],
                    s@[i + 1],
                ));
                assert(acc@ + fmt_sub(Some(s@[i as int]), s@.skip(i + 1)) =~= pre + fmt_sub(
                    prev,
                    s@.skip(i as int),
                ));
            }
        } else {
            proof {
                assert(s@.skip(i as int).len() == 1);
                assert(s@.skip(i as int)[0] == s@[i as int]);
                assert(fmt_sub(prev, s@.skip(i as int)) == tok_text(s@[i as int]));
                assert(s@.skip(i + 1).len() == 0);
                assert(acc@ + fmt_sub(Some(s@[i as int]), s@.skip(i + 1)) =~= pre + fmt_sub(
                    prev,
                    s@.skip(i as int),
                ));
            }
        }
        i += 1;
    }
    proof {
        assert(s@.skip(s@.len() as int).len() == 0);
        assert(acc@ + Seq::<char>::empty() =~= acc@);
    }
    acc
}

} // verus!
