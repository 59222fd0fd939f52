use vstd::prelude::*;

use crate::ast::{Punctuated, RangeType, range_type_toks};
use crate::expr::{Expr, ExprPath, expr_path_toks, expr_toks};
use crate::token::{BraceClose, BraceOpen, BracketClose, BracketOpen, Colon, Comma, DotDot, Ident, Lit, ParenClose, ParenOpen, ToTokens, Tok, Underscore};
use crate::types::{Type, type_toks};

verus! {

pub type PatLit = Lit;

pub type PatPath = ExprPath;

pub type PatIdent = Ident;

pub type PatWildcard = Underscore;

#[derive(Debug)]
pub struct PatType {
    pub pat: Pat,
    pub colon: Colon,
    pub ty: Type,
}

pub open spec fn pat_type_toks(n: PatType) -> Seq<Tok>
    decreases n,
{
    pat_toks(n.pat) + seq![Tok::Colon(n.colon)] + type_toks(n.ty)
}

impl PatType {
    #[verifier::rlimit(50)]
    pub(crate) fn toks_vec(&self) -> (r: Vec<Tok>)
        ensures
            r@ == pat_type_toks(*self),
        decreases self,
    {
        let mut acc: Vec<Tok> = Vec::new();
        proof {
            assert(decreases_to!(*self => self.pat));
        }
        let mut t54 = self.pat.toks_vec();
        acc.append(&mut t54);
        acc.push(Tok::Colon(self.colon));
        proof {
            assert(decreases_to!(*self => self.ty));
        }
        let mut t55 = self.ty.toks_vec();
        acc.append(&mut t55);
        proof {
            assert(acc@ =~= pat_type_toks(*self));
        }
        acc
    }
}

impl ToTokens for PatType {
    open spec fn tok_spec(&self) -> Seq<Tok> {
        pat_type_toks(*self)
    }

    fn to_tokens(&self) -> (r: Vec<Tok>) {
        self.toks_vec()
    }
}

#[derive(Debug)]
pub struct PatRange {
    pub left: Expr,
    pub range_type: RangeType,
    pub right: Expr,
}

pub open spec fn pat_range_toks(n: PatRange) -> Seq<Tok>
    decreases n,
{
    expr_toks(n.left) + range_type_toks(n.range_type) + expr_toks(n.right)
}

impl PatRange {
    #[verifier::rlimit(50)]
    pub(crate) fn toks_vec(&self) -> (r: Vec<Tok>)
        ensures
            r@ == pat_range_toks(*self),
        decreases self,
    {
        let mut acc: Vec<Tok> = Vec::new();
        proof {
            assert(decreases_to!(*self => self.left));
        }
        let mut t56 = self.left.toks_vec();
        acc.append(&mut t56);
        let mut t57 = self.range_type.toks_vec();
        acc.append(&mut t57);
        proof {
            assert(decreases_to!(*self => self.right));
        }
        let mut t58 = self.right.toks_vec();
        acc.append(&mut t58);
        proof {
            assert(acc@ =~= pat_range_toks(*self));
        }
        acc
    }
}

impl ToTokens for PatRange {
    open spec fn tok_spec(&self) -> Seq<Tok> {
        pat_range_toks(*self)
    }

    fn to_tokens(&self) -> (r: Vec<Tok>) {
        self.toks_vec()
    }
}

#[derive(Debug)]
pub struct PatStruct {
    pub path: ExprPath,
    pub brace_open: BraceOpen,
    pub fields: Option<Punctuated<StructPatternField, Comma>>,
    pub remaining: Option<DotDot>,
    pub brace_close: BraceClose,
}

pub open spec fn pat_struct_toks(n: PatStruct) -> Seq<Tok>
    decreases n,
{
    expr_path_toks(n.path) + seq![Tok::BraceOpen(n.brace_open)] + (match n.fields {
        Some(x) => punct_struct_pattern_field_comma_toks(x),
        None => Seq::<Tok>::empty(),
    }) + (match n.remaining {
        Some(x) => seq![Tok::DotDot(x)],
        None => Seq::<Tok>::empty(),
    }) + seq![Tok::BraceClose(n.brace_close)]
}

impl PatStruct {
    #[verifier::rlimit(50)]
    pub(crate) fn toks_vec(&self) -> (r: Vec<Tok>)
        ensures
            r@ == pat_struct_toks(*self),
        decreases self,
    {
        let mut acc: Vec<Tok> = Vec::new();
        proof {
            assert(decreases_to!(*self => self.path));
        }
        let mut t59 = self.path.toks_vec();
        acc.append(&mut t59);
        acc.push(Tok::BraceOpen(self.brace_open));
        match &self.fields {
            Some(x) => {
                proof {
                    assert(decreases_to!(*self => *x));
                }
                let mut t60 = x.toks_vec();
                acc.append(&mut t60);
            },
            None => {},
        }
        match &self.remaining {
            Some(x) => {
                acc.push(Tok::DotDot(*x));
            },
            None => {},
        }
        acc.push(Tok::BraceClose(self.brace_close));
        proof {
            assert(acc@ =~= pat_struct_toks(*self));
        }
        acc
    }
}

impl ToTokens for PatStruct {
    open spec fn tok_spec(&self) -> Seq<Tok> {
        pat_struct_toks(*self)
    }

    fn to_tokens(&self) -> (r: Vec<Tok>) {
        self.toks_vec()
    }
}

#[derive(Debug)]
pub struct PatTupleStruct {
    pub path: ExprPath,
    pub paren_open: ParenOpen,
    pub subpats: Punctuated<Pat, Comma>,
    pub rest_subpats: Option<(DotDot, Punctuated<Pat, Comma>)>,
    pub paren_close: ParenClose,
}

pub open spec fn pat_tuple_struct_toks(n: PatTupleStruct) -> Seq<Tok>
    decreases n,
{
    expr_path_toks(n.path) + seq![Tok::ParenOpen(n.paren_open)] + punct_pat_comma_toks(n.subpats) + (match n.rest_subpats {
        Some(pr) => seq![Tok::DotDot(pr.0)] + punct_pat_comma_toks(pr.1),
        None => Seq::<Tok>::empty(),
    }) + seq![Tok::ParenClose(n.paren_close)]
}

impl PatTupleStruct {
    #[verifier::rlimit(50)]
    pub(crate) fn toks_vec(&self) -> (r: Vec<Tok>)
        ensures
            r@ == pat_tuple_struct_toks(*self),
        decreases self,
    {
        let mut acc: Vec<Tok> = Vec::new();
        proof {
            assert(decreases_to!(*self => self.path));
        }
        let mut t61 = self.path.toks_vec();
        acc.append(&mut t61);
        acc.push(Tok::ParenOpen(self.paren_open));
        proof {
            assert(decreases_to!(*self => self.subpats));
        }
        let mut t62 = self.subpats.toks_vec();
        acc.append(&mut t62);
        match &self.rest_subpats {
            Some((a, b)) => {
                acc.push(Tok::DotDot(*a));
                proof {
                    assert(decreases_to!(*self => *b));
                }
                let mut t63 = b.toks_vec();
                acc.append(&mut t63);
            },
            None => {},
        }
        acc.push(Tok::ParenClose(self.paren_close));
        proof {
            assert(acc@ =~= pat_tuple_struct_toks(*self));
        }
        acc
    }
}

impl ToTokens for PatTupleStruct {
    open spec fn tok_spec(&self) -> Seq<Tok> {
        pat_tuple_struct_toks(*self)
    }

    fn to_tokens(&self) -> (r: Vec<Tok>) {
        self.toks_vec()
    }
}

#[derive(Debug)]
pub struct PatTuple {
    pub paren_open: ParenOpen,
    pub subpats: Punctuated<Pat, Comma>,
    pub rest_subpats: Option<(DotDot, Punctuated<Pat, Comma>)>,
    pub paren_close: ParenClose,
}

pub open spec fn pat_tuple_toks(n: PatTuple) -> Seq<Tok>
    decreases n,
{
    seq![Tok::ParenOpen(n.paren_open)] + punct_pat_comma_toks(n.subpats) + (match n.rest_subpats {
        Some(pr) => seq![Tok::DotDot(pr.0)] + punct_pat_comma_toks(pr.1),
        None => Seq::<Tok>::empty(),
    }) + seq![Tok::ParenClose(n.paren_close)]
}

impl PatTuple {
    #[verifier::rlimit(50)]
    pub(crate) fn toks_vec(&self) -> (r: Vec<Tok>)
        ensures
            r@ == pat_tuple_toks(*self),
        decreases self,
    {
        let mut acc: Vec<Tok> = Vec::new();
        acc.push(Tok::ParenOpen(self.paren_open));
        proof {
            assert(decreases_to!(*self => self.subpats));
        }
        let mut t64 = self.subpats.toks_vec();
        acc.append(&mut t64);
        match &self.rest_subpats {
            Some((a, b)) => {
                acc.push(Tok::DotDot(*a));
                proof {
                    assert(decreases_to!(*self => *b));
                }
                let mut t65 = b.toks_vec();
                acc.append(&mut t65);
            },
            None => {},
        }
        acc.push(Tok::ParenClose(self.paren_close));
        proof {
            assert(acc@ =~= pat_tuple_toks(*self));
        }
        acc
    }
}

impl ToTokens for PatTuple {
    open spec fn tok_spec(&self) -> Seq<Tok> {
        pat_tuple_toks(*self)
    }

    fn to_tokens(&self) -> (r: Vec<Tok>) {
        self.toks_vec()
    }
}

#[derive(Debug)]
pub struct PatSlice {
    pub bracket_open: BracketOpen,
    pub subpats: Punctuated<Pat, Comma>,
    pub bracket_close: BracketClose,
}

pub open spec fn pat_slice_toks(n: PatSlice) -> Seq<Tok>
    decreases n,
{
    seq![Tok::BracketOpen(n.bracket_open)] + punct_pat_comma_toks(n.subpats) + seq![Tok::BracketClose(n.bracket_close)]
}

impl PatSlice {
    #[verifier::rlimit(50)]
    pub(crate) fn toks_vec(&self) -> (r: Vec<Tok>)
        ensures
            r@ == pat_slice_toks(*self),
        decreases self,
    {
        let mut acc: Vec<Tok> = Vec::new();
        acc.push(Tok::BracketOpen(self.bracket_open));
        proof {
            assert(decreases_to!(*self => self.subpats));
        }
        let mut t66 = self.subpats.toks_vec();
        acc.append(&mut t66);
        acc.push(Tok::BracketClose(self.bracket_close));
        proof {
            assert(acc@ =~= pat_slice_toks(*self));
        }
        acc
    }
}

impl ToTokens for PatSlice {
    open spec fn tok_spec(&self) -> Seq<Tok> {
        pat_slice_toks(*self)
    }

    fn to_tokens(&self) -> (r: Vec<Tok>) {
        self.toks_vec()
    }
}

#[derive(Debug)]
pub struct StructPatternFieldTuplePat {
    pub index: Lit,
    pub colon: Colon,
    pub pat: Box<Pat>,
}

pub open spec fn struct_pattern_field_tuple_pat_toks(n: StructPatternFieldTuplePat) -> Seq<Tok>
    decreases n,
{
    seq![Tok::Lit(n.index)] + seq![Tok::Colon(n.colon)] + pat_toks(*n.pat)
}

impl StructPatternFieldTuplePat {
    #[verifier::rlimit(50)]
    pub(crate) fn toks_vec(&self) -> (r: Vec<Tok>)
        ensures
            r@ == struct_pattern_field_tuple_pat_toks(*self),
        decreases self,
    {
        let mut acc: Vec<Tok> = Vec::new();
        acc.push(Tok::Lit(self.index.dup()));
        acc.push(Tok::Colon(self.colon));
        proof {
            assert(decreases_to!(*self => *self.pat));
        }
        let mut t67 = self.pat.toks_vec();
        acc.append(&mut t67);
        proof {
            assert(acc@ =~= struct_pattern_field_tuple_pat_toks(*self));
        }
        acc
    }
}

impl ToTokens for StructPatternFieldTuplePat {
    open spec fn tok_spec(&self) -> Seq<Tok> {
        struct_pattern_field_tuple_pat_toks(*self)
    }

    fn to_tokens(&self) -> (r: Vec<Tok>) {
        self.toks_vec()
    }
}

#[derive(Debug)]
pub struct StructPatternFieldIdentPat {
    pub ident: Ident,
    pub colon: Colon,
    pub pat: Box<Pat>,
}

pub open spec fn struct_pattern_field_ident_pat_toks(n: StructPatternFieldIdentPat) -> Seq<Tok>
    decreases n,
{
    seq![Tok::Ident(n.ident)] + seq![Tok::Colon(n.colon)] + pat_toks(*n.pat)
}

impl StructPatternFieldIdentPat {
    #[verifier::rlimit(50)]
    pub(crate) fn toks_vec(&self) -> (r: Vec<Tok>)
        ensures
            r@ == struct_pattern_field_ident_pat_toks(*self),
        decreases self,
    {
        let mut acc: Vec<Tok> = Vec::new();
        acc.push(Tok::Ident(self.ident.dup()));
        acc.push(Tok::Colon(self.colon));
        proof {
            assert(decreases_to!(*self => *self.pat));
        }
        let mut t68 = self.pat.toks_vec();
        acc.append(&mut t68);
        proof {
            assert(acc@ =~= struct_pattern_field_ident_pat_toks(*self));
        }
        acc
    }
}

impl ToTokens for StructPatternFieldIdentPat {
    open spec fn tok_spec(&self) -> Seq<Tok> {
        struct_pattern_field_ident_pat_toks(*self)
    }

    fn to_tokens(&self) -> (r: Vec<Tok>) {
        self.toks_vec()
    }
}

#[derive(Debug)]
pub struct StructPatternFieldIdent {
    pub ident: Ident,
}

pub open spec fn struct_pattern_field_ident_toks(n: StructPatternFieldIdent) -> Seq<Tok>
    decreases n,
{
    seq![Tok::Ident(n.ident)]
}

impl StructPatternFieldIdent {
    #[verifier::rlimit(50)]
    pub(crate) fn toks_vec(&self) -> (r: Vec<Tok>)
        ensures
            r@ == struct_pattern_field_ident_toks(*self),
        decreases self,
    {
        let mut acc: Vec<Tok> = Vec::new();
        acc.push(Tok::Ident(self.ident.dup()));
        proof {
            assert(acc@ =~= struct_pattern_field_ident_toks(*self));
        }
        acc
    }
}

impl ToTokens for StructPatternFieldIdent {
    open spec fn tok_spec(&self) -> Seq<Tok> {
        struct_pattern_field_ident_toks(*self)
    }

    fn to_tokens(&self) -> (r: Vec<Tok>) {
        self.toks_vec()
    }
}

/// A pattern: the closed sum of all the ways a pattern can look.
#[derive(Debug)]
pub enum Pat {
    Lit(PatLit),
    Path(PatPath),
    Ident(PatIdent),
    Wildcard(PatWildcard),
    Range(PatRange),
    Struct(PatStruct),
    TupleStruct(PatTupleStruct),
    Tuple(PatTuple),
    Slice(PatSlice),
}

pub open spec fn pat_toks(n: Pat) -> Seq<Tok>
    decreases n,
{
    match n {
        Pat::Lit(x) => seq![Tok::Lit(x)],
        Pat::Path(x) => expr_path_toks(x),
        Pat::Ident(x) => seq![Tok::Ident(x)],
        Pat::Wildcard(x) => seq![Tok::Underscore(x)],
        Pat::Range(x) => pat_range_toks(x),
        Pat::Struct(x) => pat_struct_toks(x),
        Pat::TupleStruct(x) => pat_tuple_struct_toks(x),
        Pat::Tuple(x) => pat_tuple_toks(x),
        Pat::Slice(x) => pat_slice_toks(x),
    }
}

impl Pat {
    #[verifier::rlimit(50)]
    pub(crate) fn toks_vec(&self) -> (r: Vec<Tok>)
        ensures
            r@ == pat_toks(*self),
        decreases self,
    {
        match self {
            Pat::Lit(x) => {
                let mut acc: Vec<Tok> = Vec::new();
                acc.push(Tok::Lit(x.dup()));
                proof {
                    assert(acc@ =~= pat_toks(*self));
                }
                acc
            },
            Pat::Path(x) => {
                proof {
                    assert(decreases_to!(*self => *x));
                }
                x.toks_vec()
            },
            Pat::Ident(x) => {
                let mut acc: Vec<Tok> = Vec::new();
                acc.push(Tok::Ident(x.dup()));
                proof {
                    assert(acc@ =~= pat_toks(*self));
                }
                acc
            },
            Pat::Wildcard(x) => {
                let mut acc: Vec<Tok> = Vec::new();
                acc.push(Tok::Underscore(*x));
                proof {
                    assert(acc@ =~= pat_toks(*self));
                }
                acc
            },
            Pat::Range(x) => {
                proof {
                    assert(decreases_to!(*self => *x));
                }
                x.toks_vec()
            },
            Pat::Struct(x) => {
                proof {
                    assert(decreases_to!(*self => *x));
                }
                x.toks_vec()
            },
            Pat::TupleStruct(x) => {
                proof {
                    assert(decreases_to!(*self => *x));
                }
                x.toks_vec()
            },
            Pat::Tuple(x) => {
                proof {
                    assert(decreases_to!(*self => *x));
                }
                x.toks_vec()
            },
            Pat::Slice(x) => {
                proof {
                    assert(decreases_to!(*self => *x));
                }
                x.toks_vec()
            },
        }
    }
}

impl ToTokens for Pat {
    open spec fn tok_spec(&self) -> Seq<Tok> {
        pat_toks(*self)
    }

    fn to_tokens(&self) -> (r: Vec<Tok>) {
        self.toks_vec()
    }
}

#[derive(Debug)]
pub enum StructPatternField {
    TuplePat(StructPatternFieldTuplePat),
    IdentPat(StructPatternFieldIdentPat),
    Ident(StructPatternFieldIdent),
}

pub open spec fn struct_pattern_field_toks(n: StructPatternField) -> Seq<Tok>
    decreases n,
{
    match n {
        StructPatternField::TuplePat(x) => struct_pattern_field_tuple_pat_toks(x),
        StructPatternField::IdentPat(x) => struct_pattern_field_ident_pat_toks(x),
        StructPatternField::Ident(x) => struct_pattern_field_ident_toks(x),
    }
}

impl StructPatternField {
    #[verifier::rlimit(50)]
    pub(crate) fn toks_vec(&self) -> (r: Vec<Tok>)
        ensures
            r@ == struct_pattern_field_toks(*self),
        decreases self,
    {
        match self {
            StructPatternField::TuplePat(x) => {
                proof {
                    assert(decreases_to!(*self => *x));
                }
                x.toks_vec()
            },
            StructPatternField::IdentPat(x) => {
                proof {
                    assert(decreases_to!(*self => *x));
                }
                x.toks_vec()
            },
            StructPatternField::Ident(x) => {
                x.toks_vec()
            },
        }
    }
}

impl ToTokens for StructPatternField {
    open spec fn tok_spec(&self) -> Seq<Tok> {
        struct_pattern_field_toks(*self)
    }

    fn to_tokens(&self) -> (r: Vec<Tok>) {
        self.toks_vec()
    }
}

pub open spec fn pairs_pat_comma_toks(s: Seq<(Pat, Comma)>) -> Seq<Tok>
    decreases s,
{
    if s.len() == 0 {
        Seq::<Tok>::empty()
    } else {
        pat_toks(s[0].0) + seq![Tok::Comma(s[0].1)] + pairs_pat_comma_toks(s.subrange(1, s.len() as int))
    }
}

pub open spec fn punct_pat_comma_toks(p: Punctuated<Pat, Comma>) -> Seq<Tok>
    decreases p,
{
    pairs_pat_comma_toks(p.inner@) + match p.last {
        Some(t) => pat_toks(*t),
        None => Seq::<Tok>::empty(),
    }
}

proof fn lemma_pairs_pat_comma_push(s: Seq<(Pat, Comma)>)
    requires
        s.len() > 0,
    ensures
        pairs_pat_comma_toks(s) == pairs_pat_comma_toks(s.drop_last()) + pat_toks(s.last().0) + seq![Tok::Comma(s.last().1)],
    decreases s.len(),
{
    if s.len() == 1 {
        assert(s.drop_last() =~= Seq::<(Pat, Comma)>::empty());
        assert(s.subrange(1, 1) =~= Seq::<(Pat, Comma)>::empty());
        assert(pairs_pat_comma_toks(Seq::<(Pat, Comma)>::empty()) =~= Seq::<Tok>::empty());
        assert(pairs_pat_comma_toks(s) =~= pat_toks(s[0].0) + seq![Tok::Comma(s[0].1)]);
    } else {
        let tail = s.subrange(1, s.len() as int);
        lemma_pairs_pat_comma_push(tail);
        assert(tail.drop_last() =~= s.drop_last().subrange(1, s.drop_last().len() as int));
        assert(tail.last() == s.last());
        assert(pairs_pat_comma_toks(s) =~= pairs_pat_comma_toks(s.drop_last()) + pat_toks(s.last().0) + seq![Tok::Comma(s.last().1)]);
    }
}

impl Punctuated<Pat, Comma> {
    #[verifier::rlimit(100)]
    #[verifier::spinoff_prover]
    pub(crate) fn toks_vec(&self) -> (r: Vec<Tok>)
        ensures
            r@ == punct_pat_comma_toks(*self),
        decreases self,
    {
        let mut acc: Vec<Tok> = Vec::new();
        let mut i: usize = 0;
        proof {
            assert(self.inner@.subrange(0, 0) =~= Seq::<(Pat, Comma)>::empty());
        }
        while i < self.inner.len()
            invariant
                i <= self.inner@.len(),
                acc@ == pairs_pat_comma_toks(self.inner@.subrange(0, i as int)),
            decreases self.inner@.len() - i,
        {
            proof {
                assert(decreases_to!(*self => self.inner@[i as int].0));
            }
            let mut t = self.inner[i].0.toks_vec();
            acc.append(&mut t);
            acc.push(Tok::Comma(self.inner[i].1));
            i += 1;
            proof {
                lemma_pairs_pat_comma_push(self.inner@.subrange(0, i as int));
                assert(self.inner@.subrange(0, i as int).drop_last() =~= self.inner@.subrange(
                    0,
                    i - 1,
                ));
            }
        }
        proof {
            assert(self.inner@.subrange(0, self.inner@.len() as int) =~= self.inner@);
        }
        match &self.last {
            Some(t) => {
                proof {
                    assert(decreases_to!(*self => **t));
                }
                let mut tt = t.toks_vec();
                acc.append(&mut tt);
            },
            None => {},
        }
        acc
    }
}

impl ToTokens for Punctuated<Pat, Comma> {
    open spec fn tok_spec(&self) -> Seq<Tok> {
        punct_pat_comma_toks(*self)
    }

    fn to_tokens(&self) -> (r: Vec<Tok>) {
        self.toks_vec()
    }
}

pub open spec fn pairs_struct_pattern_field_comma_toks(s: Seq<(StructPatternField, Comma)>) -> Seq<Tok>
    decreases s,
{
    if s.len() == 0 {
        Seq::<Tok>::empty()
    } else {
        struct_pattern_field_toks(s[0].0) + seq![Tok::Comma(s[0].1)] + pairs_struct_pattern_field_comma_toks(s.subrange(1, s.len() as int))
    }
}

pub open spec fn punct_struct_pattern_field_comma_toks(p: Punctuated<StructPatternField, Comma>) -> Seq<Tok>
    decreases p,
{
    pairs_struct_pattern_field_comma_toks(p.inner@) + match p.last {
        Some(t) => struct_pattern_field_toks(*t),
        None => Seq::<Tok>::empty(),
    }
}

proof fn lemma_pairs_struct_pattern_field_comma_push(s: Seq<(StructPatternField, Comma)>)
    requires
        s.len() > 0,
    ensures
        pairs_struct_pattern_field_comma_toks(s) == pairs_struct_pattern_field_comma_toks(s.drop_last()) + struct_pattern_field_toks(s.last().0) + seq![Tok::Comma(s.last().1)],
    decreases s.len(),
{
    if s.len() == 1 {
        assert(s.drop_last() =~= Seq::<(StructPatternField, Comma)>::empty());
        assert(s.subrange(1, 1) =~= Seq::<(StructPatternField, Comma)>::empty());
        assert(pairs_struct_pattern_field_comma_toks(Seq::<(StructPatternField, Comma)>::empty()) =~= Seq::<Tok>::empty());
        assert(pairs_struct_pattern_field_comma_toks(s) =~= struct_pattern_field_toks(s[0].0) + seq![Tok::Comma(s[0].1)]);
    } else {
        let tail = s.subrange(1, s.len() as int);
        lemma_pairs_struct_pattern_field_comma_push(tail);
        assert(tail.drop_last() =~= s.drop_last().subrange(1, s.drop_last().len() as int));
        assert(tail.last() == s.last());
        assert(pairs_struct_pattern_field_comma_toks(s) =~= pairs_struct_pattern_field_comma_toks(s.drop_last()) + struct_pattern_field_toks(s.last().0) + seq![Tok::Comma(s.last().1)]);
    }
}

impl Punctuated<StructPatternField, Comma> {
    #[verifier::rlimit(100)]
    #[verifier::spinoff_prover]
    pub(crate) fn toks_vec(&self) -> (r: Vec<Tok>)
        ensures
            r@ == punct_struct_pattern_field_comma_toks(*self),
        decreases self,
    {
        let mut acc: Vec<Tok> = Vec::new();
        let mut i: usize = 0;
        proof {
            assert(self.inner@.subrange(0, 0) =~= Seq::<(StructPatternField, Comma)>::empty());
        }
        while i < self.inner.len()
            invariant
                i <= self.inner@.len(),
                acc@ == pairs_struct_pattern_field_comma_toks(self.inner@.subrange(0, i as int)),
            decreases self.inner@.len() - i,
        {
            proof {
                assert(decreases_to!(*self => self.inner@[i as int].0));
            }
            let mut t = self.inner[i].0.toks_vec();
            acc.append(&mut t);
            acc.push(Tok::Comma(self.inner[i].1));
            i += 1;
            proof {
                lemma_pairs_struct_pattern_field_comma_push(self.inner@.subrange(0, i as int));
                assert(self.inner@.subrange(0, i as int).drop_last() =~= self.inner@.subrange(
                    0,
                    i - 1,
                ));
            }
        }
        proof {
            assert(self.inner@.subrange(0, self.inner@.len() as int) =~= self.inner@);
        }
        match &self.last {
            Some(t) => {
                proof {
                    assert(decreases_to!(*self => **t));
                }
                let mut tt = t.toks_vec();
                acc.append(&mut tt);
            },
            None => {},
        }
        acc
    }
}

impl ToTokens for Punctuated<StructPatternField, Comma> {
    open spec fn tok_spec(&self) -> Seq<Tok> {
        punct_struct_pattern_field_comma_toks(*self)
    }

    fn to_tokens(&self) -> (r: Vec<Tok>) {
        self.toks_vec()
    }
}

} // verus!
