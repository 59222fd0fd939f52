use vstd::prelude::*;

use crate::ast::{Punctuated};
use crate::expr::{PathSegment, punct_path_segment_path_sep_toks};
use crate::token::{As, BracketClose, BracketOpen, Comma, Gt, Lit, LitInt, Lt, ParenClose, ParenOpen, PathSep, Plus, RArrow, Semi, ToTokens, Tok, TokenFn, Underscore};

verus! {

pub type TypeInfer = Underscore;

#[derive(Debug)]
pub struct TypeParenthesized {
    pub paren_open: ParenOpen,
    pub inner: Box<Type>,
    pub paren_close: ParenClose,
}

pub open spec fn type_parenthesized_toks(n: TypeParenthesized) -> Seq<Tok>
    decreases n,
{
    seq![Tok::ParenOpen(n.paren_open)] + type_toks(*n.inner) + seq![Tok::ParenClose(n.paren_close)]
}

impl TypeParenthesized {
    #[verifier::rlimit(50)]
    pub(crate) fn toks_vec(&self) -> (r: Vec<Tok>)
        ensures
            r@ == type_parenthesized_toks(*self),
        decreases self,
    {
        let mut acc: Vec<Tok> = Vec::new();
        acc.push(Tok::ParenOpen(self.paren_open));
        proof {
            assert(decreases_to!(*self => *self.inner));
        }
        let mut t69 = self.inner.toks_vec();
        acc.append(&mut t69);
        acc.push(Tok::ParenClose(self.paren_close));
        proof {
            assert(acc@ =~= type_parenthesized_toks(*self));
        }
        acc
    }
}

impl ToTokens for TypeParenthesized {
    open spec fn tok_spec(&self) -> Seq<Tok> {
        type_parenthesized_toks(*self)
    }

    fn to_tokens(&self) -> (r: Vec<Tok>) {
        self.toks_vec()
    }
}

#[derive(Debug)]
pub struct TypePath {
    pub leading_sep: Option<PathSep>,
    pub segments: Punctuated<PathSegment, PathSep>,
}

pub open spec fn type_path_toks(n: TypePath) -> Seq<Tok>
    decreases n,
{
    (match n.leading_sep {
        Some(x) => seq![Tok::PathSep(x)],
        None => Seq::<Tok>::empty(),
    }) + punct_path_segment_path_sep_toks(n.segments)
}

impl TypePath {
    #[verifier::rlimit(50)]
    pub(crate) fn toks_vec(&self) -> (r: Vec<Tok>)
        ensures
            r@ == type_path_toks(*self),
        decreases self,
    {
        let mut acc: Vec<Tok> = Vec::new();
        match &self.leading_sep {
            Some(x) => {
                acc.push(Tok::PathSep(*x));
            },
            None => {},
        }
        proof {
            assert(decreases_to!(*self => self.segments));
        }
        let mut t70 = self.segments.toks_vec();
        acc.append(&mut t70);
        proof {
            assert(acc@ =~= type_path_toks(*self));
        }
        acc
    }
}

impl ToTokens for TypePath {
    open spec fn tok_spec(&self) -> Seq<Tok> {
        type_path_toks(*self)
    }

    fn to_tokens(&self) -> (r: Vec<Tok>) {
        self.toks_vec()
    }
}

#[derive(Debug)]
pub struct TypeQPath {
    pub qualifier: Qualifier,
    pub leading_sep: PathSep,
    pub segments: Punctuated<PathSegment, PathSep>,
}

pub open spec fn type_q_path_toks(n: TypeQPath) -> Seq<Tok>
    decreases n,
{
    qualifier_toks(n.qualifier) + seq![Tok::PathSep(n.leading_sep)] + punct_path_segment_path_sep_toks(n.segments)
}

impl TypeQPath {
    #[verifier::rlimit(50)]
    pub(crate) fn toks_vec(&self) -> (r: Vec<Tok>)
        ensures
            r@ == type_q_path_toks(*self),
        decreases self,
    {
        let mut acc: Vec<Tok> = Vec::new();
        proof {
            assert(decreases_to!(*self => self.qualifier));
        }
        let mut t71 = self.qualifier.toks_vec();
        acc.append(&mut t71);
        acc.push(Tok::PathSep(self.leading_sep));
        proof {
            assert(decreases_to!(*self => self.segments));
        }
        let mut t72 = self.segments.toks_vec();
        acc.append(&mut t72);
        proof {
            assert(acc@ =~= type_q_path_toks(*self));
        }
        acc
    }
}

impl ToTokens for TypeQPath {
    open spec fn tok_spec(&self) -> Seq<Tok> {
        type_q_path_toks(*self)
    }

    fn to_tokens(&self) -> (r: Vec<Tok>) {
        self.toks_vec()
    }
}

#[derive(Debug)]
pub struct TypeTuple {
    pub paren_open: ParenOpen,
    pub tys: Punctuated<Type, Comma>,
    pub paren_close: ParenClose,
}

pub open spec fn type_tuple_toks(n: TypeTuple) -> Seq<Tok>
    decreases n,
{
    seq![Tok::ParenOpen(n.paren_open)] + punct_type_comma_toks(n.tys) + seq![Tok::ParenClose(n.paren_close)]
}

impl TypeTuple {
    #[verifier::rlimit(50)]
    pub(crate) fn toks_vec(&self) -> (r: Vec<Tok>)
        ensures
            r@ == type_tuple_toks(*self),
        decreases self,
    {
        let mut acc: Vec<Tok> = Vec::new();
        acc.push(Tok::ParenOpen(self.paren_open));
        proof {
            assert(decreases_to!(*self => self.tys));
        }
        let mut t73 = self.tys.toks_vec();
        acc.append(&mut t73);
        acc.push(Tok::ParenClose(self.paren_close));
        proof {
            assert(acc@ =~= type_tuple_toks(*self));
        }
        acc
    }
}

impl ToTokens for TypeTuple {
    open spec fn tok_spec(&self) -> Seq<Tok> {
        type_tuple_toks(*self)
    }

    fn to_tokens(&self) -> (r: Vec<Tok>) {
        self.toks_vec()
    }
}

#[derive(Debug)]
pub struct TypeArray {
    pub bracket_open: BracketOpen,
    pub ty: Box<Type>,
    pub semi: Semi,
    pub lit: LitInt,
    pub bracket_close: BracketClose,
}

pub open spec fn type_array_toks(n: TypeArray) -> Seq<Tok>
    decreases n,
{
    seq![Tok::BracketOpen(n.bracket_open)] + type_toks(*n.ty) + seq![Tok::Semi(n.semi)] + seq![Tok::Lit(Lit::Int(n.lit))] + seq![Tok::BracketClose(n.bracket_close)]
}

impl TypeArray {
    #[verifier::rlimit(50)]
    pub(crate) fn toks_vec(&self) -> (r: Vec<Tok>)
        ensures
            r@ == type_array_toks(*self),
        decreases self,
    {
        let mut acc: Vec<Tok> = Vec::new();
        acc.push(Tok::BracketOpen(self.bracket_open));
        proof {
            assert(decreases_to!(*self => *self.ty));
        }
        let mut t74 = self.ty.toks_vec();
        acc.append(&mut t74);
        acc.push(Tok::Semi(self.semi));
        acc.push(Tok::Lit(Lit::Int(self.lit.dup())));
        acc.push(Tok::BracketClose(self.bracket_close));
        proof {
            assert(acc@ =~= type_array_toks(*self));
        }
        acc
    }
}

impl ToTokens for TypeArray {
    open spec fn tok_spec(&self) -> Seq<Tok> {
        type_array_toks(*self)
    }

    fn to_tokens(&self) -> (r: Vec<Tok>) {
        self.toks_vec()
    }
}

#[derive(Debug)]
pub struct TypeSlice {
    pub bracket_open: BracketOpen,
    pub ty: Box<Type>,
    pub bracket_close: BracketClose,
}

pub open spec fn type_slice_toks(n: TypeSlice) -> Seq<Tok>
    decreases n,
{
    seq![Tok::BracketOpen(n.bracket_open)] + type_toks(*n.ty) + seq![Tok::BracketClose(n.bracket_close)]
}

impl TypeSlice {
    #[verifier::rlimit(50)]
    pub(crate) fn toks_vec(&self) -> (r: Vec<Tok>)
        ensures
            r@ == type_slice_toks(*self),
        decreases self,
    {
        let mut acc: Vec<Tok> = Vec::new();
        acc.push(Tok::BracketOpen(self.bracket_open));
        proof {
            assert(decreases_to!(*self => *self.ty));
        }
        let mut t75 = self.ty.toks_vec();
        acc.append(&mut t75);
        acc.push(Tok::BracketClose(self.bracket_close));
        proof {
            assert(acc@ =~= type_slice_toks(*self));
        }
        acc
    }
}

impl ToTokens for TypeSlice {
    open spec fn tok_spec(&self) -> Seq<Tok> {
        type_slice_toks(*self)
    }

    fn to_tokens(&self) -> (r: Vec<Tok>) {
        self.toks_vec()
    }
}

#[derive(Debug)]
pub struct TypeFn {
    pub fn_token: TokenFn,
    pub paren_open: ParenOpen,
    pub args: Punctuated<Type, Comma>,
    pub paren_close: ParenClose,
    pub ret: Option<(RArrow, Box<Type>)>,
}

pub open spec fn type_fn_toks(n: TypeFn) -> Seq<Tok>
    decreases n,
{
    seq![Tok::Fn(n.fn_token)] + seq![Tok::ParenOpen(n.paren_open)] + punct_type_comma_toks(n.args) + seq![Tok::ParenClose(n.paren_close)] + (match n.ret {
        Some(pr) => seq![Tok::RArrow(pr.0)] + type_toks(*pr.1),
        None => Seq::<Tok>::empty(),
    })
}

impl TypeFn {
    #[verifier::rlimit(50)]
    pub(crate) fn toks_vec(&self) -> (r: Vec<Tok>)
        ensures
            r@ == type_fn_toks(*self),
        decreases self,
    {
        let mut acc: Vec<Tok> = Vec::new();
        acc.push(Tok::Fn(self.fn_token));
        acc.push(Tok::ParenOpen(self.paren_open));
        proof {
            assert(decreases_to!(*self => self.args));
        }
        let mut t76 = self.args.toks_vec();
        acc.append(&mut t76);
        acc.push(Tok::ParenClose(self.paren_close));
        match &self.ret {
            Some((a, b)) => {
                acc.push(Tok::RArrow(*a));
                proof {
                    assert(decreases_to!(*self => **b));
                }
                let mut t77 = b.toks_vec();
                acc.append(&mut t77);
            },
            None => {},
        }
        proof {
            assert(acc@ =~= type_fn_toks(*self));
        }
        acc
    }
}

impl ToTokens for TypeFn {
    open spec fn tok_spec(&self) -> Seq<Tok> {
        type_fn_toks(*self)
    }

    fn to_tokens(&self) -> (r: Vec<Tok>) {
        self.toks_vec()
    }
}

#[derive(Debug)]
pub struct Qualifier {
    pub lt: Lt,
    pub ty: Box<Type>,
    pub cast: Option<(As, Box<TypePath>)>,
    pub gt: Gt,
}

pub open spec fn qualifier_toks(n: Qualifier) -> Seq<Tok>
    decreases n,
{
    seq![Tok::Lt(n.lt)] + type_toks(*n.ty) + (match n.cast {
        Some(pr) => seq![Tok::As(pr.0)] + type_path_toks(*pr.1),
        None => Seq::<Tok>::empty(),
    }) + seq![Tok::Gt(n.gt)]
}

impl Qualifier {
    #[verifier::rlimit(50)]
    pub(crate) fn toks_vec(&self) -> (r: Vec<Tok>)
        ensures
            r@ == qualifier_toks(*self),
        decreases self,
    {
        let mut acc: Vec<Tok> = Vec::new();
        acc.push(Tok::Lt(self.lt));
        proof {
            assert(decreases_to!(*self => *self.ty));
        }
        let mut t78 = self.ty.toks_vec();
        acc.append(&mut t78);
        match &self.cast {
            Some((a, b)) => {
                acc.push(Tok::As(*a));
                proof {
                    assert(decreases_to!(*self => **b));
                }
                let mut t79 = b.toks_vec();
                acc.append(&mut t79);
            },
            None => {},
        }
        acc.push(Tok::Gt(self.gt));
        proof {
            assert(acc@ =~= qualifier_toks(*self));
        }
        acc
    }
}

impl ToTokens for Qualifier {
    open spec fn tok_spec(&self) -> Seq<Tok> {
        qualifier_toks(*self)
    }

    fn to_tokens(&self) -> (r: Vec<Tok>) {
        self.toks_vec()
    }
}

/// A type: the closed sum of all the ways a type can be written.
#[derive(Debug)]
pub enum Type {
    Parenthesized(TypeParenthesized),
    Path(TypePath),
    QPath(TypeQPath),
    Tuple(TypeTuple),
    Array(TypeArray),
    Slice(TypeSlice),
    Infer(TypeInfer),
    Fn(TypeFn),
}

pub open spec fn type_toks(n: Type) -> Seq<Tok>
    decreases n,
{
    match n {
        Type::Parenthesized(x) => type_parenthesized_toks(x),
        Type::Path(x) => type_path_toks(x),
        Type::QPath(x) => type_q_path_toks(x),
        Type::Tuple(x) => type_tuple_toks(x),
        Type::Array(x) => type_array_toks(x),
        Type::Slice(x) => type_slice_toks(x),
        Type::Infer(x) => seq![Tok::Underscore(x)],
        Type::Fn(x) => type_fn_toks(x),
    }
}

impl Type {
    #[verifier::rlimit(50)]
    pub(crate) fn toks_vec(&self) -> (r: Vec<Tok>)
        ensures
            r@ == type_toks(*self),
        decreases self,
    {
        match self {
            Type::Parenthesized(x) => {
                proof {
                    assert(decreases_to!(*self => *x));
                }
                x.toks_vec()
            },
            Type::Path(x) => {
                proof {
                    assert(decreases_to!(*self => *x));
                }
                x.toks_vec()
            },
            Type::QPath(x) => {
                proof {
                    assert(decreases_to!(*self => *x));
                }
                x.toks_vec()
            },
            Type::Tuple(x) => {
                proof {
                    assert(decreases_to!(*self => *x));
                }
                x.toks_vec()
            },
            Type::Array(x) => {
                proof {
                    assert(decreases_to!(*self => *x));
                }
                x.toks_vec()
            },
            Type::Slice(x) => {
                proof {
                    assert(decreases_to!(*self => *x));
                }
                x.toks_vec()
            },
            Type::Infer(x) => {
                let mut acc: Vec<Tok> = Vec::new();
                acc.push(Tok::Underscore(*x));
                proof {
                    assert(acc@ =~= type_toks(*self));
                }
                acc
            },
            Type::Fn(x) => {
                proof {
                    assert(decreases_to!(*self => *x));
                }
                x.toks_vec()
            },
        }
    }
}

impl ToTokens for Type {
    open spec fn tok_spec(&self) -> Seq<Tok> {
        type_toks(*self)
    }

    fn to_tokens(&self) -> (r: Vec<Tok>) {
        self.toks_vec()
    }
}

pub open spec fn pairs_type_comma_toks(s: Seq<(Type, Comma)>) -> Seq<Tok>
    decreases s,
{
    if s.len() == 0 {
        Seq::<Tok>::empty()
    } else {
        type_toks(s[0].0) + seq![Tok::Comma(s[0].1)] + pairs_type_comma_toks(s.subrange(1, s.len() as int))
    }
}

pub open spec fn punct_type_comma_toks(p: Punctuated<Type, Comma>) -> Seq<Tok>
    decreases p,
{
    pairs_type_comma_toks(p.inner@) + match p.last {
        Some(t) => type_toks(*t),
        None => Seq::<Tok>::empty(),
    }
}

proof fn lemma_pairs_type_comma_push(s: Seq<(Type, Comma)>)
    requires
        s.len() > 0,
    ensures
        pairs_type_comma_toks(s) == pairs_type_comma_toks(s.drop_last()) + type_toks(s.last().0) + seq![Tok::Comma(s.last().1)],
    decreases s.len(),
{
    if s.len() == 1 {
        assert(s.drop_last() =~= Seq::<(Type, Comma)>::empty());
        assert(s.subrange(1, 1) =~= Seq::<(Type, Comma)>::empty());
        assert(pairs_type_comma_toks(Seq::<(Type, Comma)>::empty()) =~= Seq::<Tok>::empty());
        assert(pairs_type_comma_toks(s) =~= type_toks(s[0].0) + seq![Tok::Comma(s[0].1)]);
    } else {
        let tail = s.subrange(1, s.len() as int);
        lemma_pairs_type_comma_push(tail);
        assert(tail.drop_last() =~= s.drop_last().subrange(1, s.drop_last().len() as int));
        assert(tail.last() == s.last());
        assert(pairs_type_comma_toks(s) =~= pairs_type_comma_toks(s.drop_last()) + type_toks(s.last().0) + seq![Tok::Comma(s.last().1)]);
    }
}

impl Punctuated<Type, Comma> {
    #[verifier::rlimit(100)]
    #[verifier::spinoff_prover]
    pub(crate) fn toks_vec(&self) -> (r: Vec<Tok>)
        ensures
            r@ == punct_type_comma_toks(*self),
        decreases self,
    {
        let mut acc: Vec<Tok> = Vec::new();
        let mut i: usize = 0;
        proof {
            assert(self.inner@.subrange(0, 0) =~= Seq::<(Type, Comma)>::empty());
        }
        while i < self.inner.len()
            invariant
                i <= self.inner@.len(),
                acc@ == pairs_type_comma_toks(self.inner@.subrange(0, i as int)),
            decreases self.inner@.len() - i,
        {
            proof {
                assert(decreases_to!(*self => self.inner@[i as int].0));
            }
            let mut t = self.inner[i].0.toks_vec();
            acc.append(&mut t);
            acc.push(Tok::Comma(self.inner[i].1));
            i += 1;
            proof {
                lemma_pairs_type_comma_push(self.inner@.subrange(0, i as int));
                assert(self.inner@.subrange(0, i as int).drop_last() =~= self.inner@.subrange(
                    0,
                    i - 1,
                ));
            }
        }
        proof {
            assert(self.inner@.subrange(0, self.inner@.len() as int) =~= self.inner@);
        }
        match &self.last {
            Some(t) => {
                proof {
                    assert(decreases_to!(*self => **t));
                }
                let mut tt = t.toks_vec();
                acc.append(&mut tt);
            },
            None => {},
        }
        acc
    }
}

impl ToTokens for Punctuated<Type, Comma> {
    open spec fn tok_spec(&self) -> Seq<Tok> {
        punct_type_comma_toks(*self)
    }

    fn to_tokens(&self) -> (r: Vec<Tok>) {
        self.toks_vec()
    }
}

pub open spec fn pairs_type_path_plus_toks(s: Seq<(TypePath, Plus)>) -> Seq<Tok>
    decreases s,
{
    if s.len() == 0 {
        Seq::<Tok>::empty()
    } else {
        type_path_toks(s[0].0) + seq![Tok::Plus(s[0].1)] + pairs_type_path_plus_toks(s.subrange(1, s.len() as int))
    }
}

pub open spec fn punct_type_path_plus_toks(p: Punctuated<TypePath, Plus>) -> Seq<Tok>
    decreases p,
{
    pairs_type_path_plus_toks(p.inner@) + match p.last {
        Some(t) => type_path_toks(*t),
        None => Seq::<Tok>::empty(),
    }
}

proof fn lemma_pairs_type_path_plus_push(s: Seq<(TypePath, Plus)>)
    requires
        s.len() > 0,
    ensures
        pairs_type_path_plus_toks(s) == pairs_type_path_plus_toks(s.drop_last()) + type_path_toks(s.last().0) + seq![Tok::Plus(s.last().1)],
    decreases s.len(),
{
    if s.len() == 1 {
        assert(s.drop_last() =~= Seq::<(TypePath, Plus)>::empty());
        assert(s.subrange(1, 1) =~= Seq::<(TypePath, Plus)>::empty());
        assert(pairs_type_path_plus_toks(Seq::<(TypePath, Plus)>::empty()) =~= Seq::<Tok>::empty());
        assert(pairs_type_path_plus_toks(s) =~= type_path_toks(s[0].0) + seq![Tok::Plus(s[0].1)]);
    } else {
        let tail = s.subrange(1, s.len() as int);
        lemma_pairs_type_path_plus_push(tail);
        assert(tail.drop_last() =~= s.drop_last().subrange(1, s.drop_last().len() as int));
        assert(tail.last() == s.last());
        assert(pairs_type_path_plus_toks(s) =~= pairs_type_path_plus_toks(s.drop_last()) + type_path_toks(s.last().0) + seq![Tok::Plus(s.last().1)]);
    }
}

impl Punctuated<TypePath, Plus> {
    #[verifier::rlimit(100)]
    #[verifier::spinoff_prover]
    pub(crate) fn toks_vec(&self) -> (r: Vec<Tok>)
        ensures
            r@ == punct_type_path_plus_toks(*self),
        decreases self,
    {
        let mut acc: Vec<Tok> = Vec::new();
        let mut i: usize = 0;
        proof {
            assert(self.inner@.subrange(0, 0) =~= Seq::<(TypePath, Plus)>::empty());
        }
        while i < self.inner.len()
            invariant
                i <= self.inner@.len(),
                acc@ == pairs_type_path_plus_toks(self.inner@.subrange(0, i as int)),
            decreases self.inner@.len() - i,
        {
            proof {
                assert(decreases_to!(*self => self.inner@[i as int].0));
            }
            let mut t = self.inner[i].0.toks_vec();
            acc.append(&mut t);
            acc.push(Tok::Plus(self.inner[i].1));
            i += 1;
            proof {
                lemma_pairs_type_path_plus_push(self.inner@.subrange(0, i as int));
                assert(self.inner@.subrange(0, i as int).drop_last() =~= self.inner@.subrange(
                    0,
                    i - 1,
                ));
            }
        }
        proof {
            assert(self.inner@.subrange(0, self.inner@.len() as int) =~= self.inner@);
        }
        match &self.last {
            Some(t) => {
                proof {
                    assert(decreases_to!(*self => **t));
                }
                let mut tt = t.toks_vec();
                acc.append(&mut tt);
            },
            None => {},
        }
        acc
    }
}

impl ToTokens for Punctuated<TypePath, Plus> {
    open spec fn tok_spec(&self) -> Seq<Tok> {
        punct_type_path_plus_toks(*self)
    }

    fn to_tokens(&self) -> (r: Vec<Tok>) {
        self.toks_vec()
    }
}

} // verus!
