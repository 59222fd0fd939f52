use vstd::prelude::*;

use crate::expr::{Expr, expr_toks};
use crate::item::{Item, item_toks};
use crate::pat::{Pat, pat_toks};
use crate::token::{BraceClose, BraceOpen, Colon, DotDot, DotDotEq, Ident, Let, PathSep, Semi, ToTokens, Tok, TokenEq};
use crate::types::{Type, type_toks};



verus! {

/// A generic ordered sequence of `T` values separated by `P` separator
/// tokens, with an optional unseparated trailing item: the shape of
/// comma/plus/pipe-separated grammar productions. If `last` is `None` the
/// whole list is empty; every separator in `inner` stands between its paired
/// item and the next; the trailing item has no separator after it.
#[derive(Debug)]
pub struct Punctuated<T, P> {
    pub inner: Vec<(T, P)>,
    pub last: Option<Box<T>>,
}

impl<T, P> Punctuated<T, P> {
    /// The item values in declaration order: each paired item, then the
    /// trailing item. Separators never appear here.
    pub open spec fn items(&self) -> Seq<T> {
        self.inner@.map(|i: int, pr: (T, P)| pr.0) + match self.last {
            Some(t) => seq![*t],
            None => Seq::<T>::empty(),
        }
    }

    /// The separator values in order.
    pub open spec fn seps(&self) -> Seq<P> {
        self.inner@.map(|i: int, pr: (T, P)| pr.1)
    }

    /// The item values, one reference each, in declaration order: each
    /// paired item then the trailing item, never a separator.
    pub fn iter(&self) -> (r: Vec<&T>)
        ensures
            r@.len() == self.items().len(),
            forall|i: int| 0 <= i < r@.len() ==> *r@[i] == self.items()[i],
    {
        let mut r: Vec<&T> = Vec::new();
        let mut i: usize = 0;
        while i < self.inner.len()
            invariant
                i <= self.inner@.len(),
                r@.len() == i,
                forall|j: int| 0 <= j < i ==> *r@[j] == self.inner@[j].0,
            decreases self.inner@.len() - i,
        {
            r.push(&self.inner[i].0);
            i += 1;
        }
        match &self.last {
            Some(t) => {
                r.push(&**t);
            },
            None => {},
        }
        r
    }
}

/// Law: a punctuated list built from `k` pairs and an optional trailing item
/// has exactly `k` separators; its items are exactly the paired items
/// followed by the trailing one, `k + 1` of them with a trailing item and
/// `k` without; and no separator stands among the items.
pub proof fn lemma_punctuated_counts<T, P>(p: Punctuated<T, P>)
    ensures
        p.seps().len() == p.inner@.len(),
        p.items().len() == p.inner@.len() + (match p.last {
            Some(_) => 1int,
            None => 0int,
        }),
        forall|i: int| 0 <= i < p.inner@.len() ==> p.items()[i] == p.inner@[i].0,
        match p.last {
            Some(t) => p.items().last() == *t,
            None => true,
        },
{
}

pub type StmtItem = Item;

pub type RangeTypeHalfOpen = DotDot;

pub type RangeTypeClosed = DotDotEq;

/// A braced run of statements.
#[derive(Debug)]
pub struct Block {
    pub brace_open: BraceOpen,
    pub statements: Vec<Stmt>,
    pub brace_close: BraceClose,
}

pub open spec fn block_toks(n: Block) -> Seq<Tok>
    decreases n,
{
    seq![Tok::BraceOpen(n.brace_open)] + seq_stmt_toks(n.statements@) + seq![Tok::BraceClose(n.brace_close)]
}

impl Block {
    #[verifier::rlimit(50)]
    pub(crate) fn toks_vec(&self) -> (r: Vec<Tok>)
        ensures
            r@ == block_toks(*self),
        decreases self,
    {
        let mut acc: Vec<Tok> = Vec::new();
        acc.push(Tok::BraceOpen(self.brace_open));
        proof {
            assert(decreases_to!(*self => self.statements@));
        }
        let mut t1 = vec_stmt_toks(&self.statements);
        acc.append(&mut t1);
        acc.push(Tok::BraceClose(self.brace_close));
        proof {
            assert(acc@ =~= block_toks(*self));
        }
        acc
    }
}

impl ToTokens for Block {
    open spec fn tok_spec(&self) -> Seq<Tok> {
        block_toks(*self)
    }

    fn to_tokens(&self) -> (r: Vec<Tok>) {
        self.toks_vec()
    }
}

/// A plain path of identifiers, as used by imports and visibilities.
#[derive(Debug)]
pub struct SimplePath {
    pub leading_sep: Option<PathSep>,
    pub segments: Punctuated<Ident, PathSep>,
}

pub open spec fn simple_path_toks(n: SimplePath) -> Seq<Tok>
    decreases n,
{
    (match n.leading_sep {
        Some(x) => seq![Tok::PathSep(x)],
        None => Seq::<Tok>::empty(),
    }) + punct_ident_path_sep_toks(n.segments)
}

impl SimplePath {
    #[verifier::rlimit(50)]
    pub(crate) fn toks_vec(&self) -> (r: Vec<Tok>)
        ensures
            r@ == simple_path_toks(*self),
        decreases self,
    {
        let mut acc: Vec<Tok> = Vec::new();
        match &self.leading_sep {
            Some(x) => {
                acc.push(Tok::PathSep(*x));
            },
            None => {},
        }
        let mut t2 = self.segments.toks_vec();
        acc.append(&mut t2);
        proof {
            assert(acc@ =~= simple_path_toks(*self));
        }
        acc
    }
}

impl ToTokens for SimplePath {
    open spec fn tok_spec(&self) -> Seq<Tok> {
        simple_path_toks(*self)
    }

    fn to_tokens(&self) -> (r: Vec<Tok>) {
        self.toks_vec()
    }
}

#[derive(Debug)]
pub struct StmtLocal {
    pub let_token: Let,
    pub pat: Pat,
    pub ty: Option<(Colon, Type)>,
    pub init: Option<(TokenEq, Box<Expr>)>,
    pub semi: Semi,
}

pub open spec fn stmt_local_toks(n: StmtLocal) -> Seq<Tok>
    decreases n,
{
    seq![Tok::Let(n.let_token)] + pat_toks(n.pat) + (match n.ty {
        Some(pr) => seq![Tok::Colon(pr.0)] + type_toks(pr.1),
        None => Seq::<Tok>::empty(),
    }) + (match n.init {
        Some(pr) => seq![Tok::Eq(pr.0)] + expr_toks(*pr.1),
        None => Seq::<Tok>::empty(),
    }) + seq![Tok::Semi(n.semi)]
}

impl StmtLocal {
    #[verifier::rlimit(50)]
    pub(crate) fn toks_vec(&self) -> (r: Vec<Tok>)
        ensures
            r@ == stmt_local_toks(*self),
        decreases self,
    {
        let mut acc: Vec<Tok> = Vec::new();
        acc.push(Tok::Let(self.let_token));
        proof {
            assert(decreases_to!(*self => self.pat));
        }
        let mut t3 = self.pat.toks_vec();
        acc.append(&mut t3);
        match &self.ty {
            Some((a, b)) => {
                acc.push(Tok::Colon(*a));
                proof {
                    assert(decreases_to!(*self => *b));
                }
                let mut t4 = b.toks_vec();
                acc.append(&mut t4);
            },
            None => {},
        }
        match &self.init {
            Some((a, b)) => {
                acc.push(Tok::Eq(*a));
                proof {
                    assert(decreases_to!(*self => **b));
                }
                let mut t5 = b.toks_vec();
                acc.append(&mut t5);
            },
            None => {},
        }
        acc.push(Tok::Semi(self.semi));
        proof {
            assert(acc@ =~= stmt_local_toks(*self));
        }
        acc
    }
}

impl ToTokens for StmtLocal {
    open spec fn tok_spec(&self) -> Seq<Tok> {
        stmt_local_toks(*self)
    }

    fn to_tokens(&self) -> (r: Vec<Tok>) {
        self.toks_vec()
    }
}

#[derive(Debug)]
pub struct StmtExpr {
    pub expr: Expr,
    pub semi: Option<Semi>,
}

pub open spec fn stmt_expr_toks(n: StmtExpr) -> Seq<Tok>
    decreases n,
{
    expr_toks(n.expr) + (match n.semi {
        Some(x) => seq![Tok::Semi(x)],
        None => Seq::<Tok>::empty(),
    })
}

impl StmtExpr {
    #[verifier::rlimit(50)]
    pub(crate) fn toks_vec(&self) -> (r: Vec<Tok>)
        ensures
            r@ == stmt_expr_toks(*self),
        decreases self,
    {
        let mut acc: Vec<Tok> = Vec::new();
        proof {
            assert(decreases_to!(*self => self.expr));
        }
        let mut t6 = self.expr.toks_vec();
        acc.append(&mut t6);
        match &self.semi {
            Some(x) => {
                acc.push(Tok::Semi(*x));
            },
            None => {},
        }
        proof {
            assert(acc@ =~= stmt_expr_toks(*self));
        }
        acc
    }
}

impl ToTokens for StmtExpr {
    open spec fn tok_spec(&self) -> Seq<Tok> {
        stmt_expr_toks(*self)
    }

    fn to_tokens(&self) -> (r: Vec<Tok>) {
        self.toks_vec()
    }
}

/// A statement inside a block.
#[derive(Debug)]
pub enum Stmt {
    Local(StmtLocal),
    Item(StmtItem),
    Expr(StmtExpr),
}

pub open spec fn stmt_toks(n: Stmt) -> Seq<Tok>
    decreases n,
{
    match n {
        Stmt::Local(x) => stmt_local_toks(x),
        Stmt::Item(x) => item_toks(x),
        Stmt::Expr(x) => stmt_expr_toks(x),
    }
}

impl Stmt {
    #[verifier::rlimit(50)]
    pub(crate) fn toks_vec(&self) -> (r: Vec<Tok>)
        ensures
            r@ == stmt_toks(*self),
        decreases self,
    {
        match self {
            Stmt::Local(x) => {
                proof {
                    assert(decreases_to!(*self => *x));
                }
                x.toks_vec()
            },
            Stmt::Item(x) => {
                proof {
                    assert(decreases_to!(*self => *x));
                }
                x.toks_vec()
            },
            Stmt::Expr(x) => {
                proof {
                    assert(decreases_to!(*self => *x));
                }
                x.toks_vec()
            },
        }
    }
}

impl ToTokens for Stmt {
    open spec fn tok_spec(&self) -> Seq<Tok> {
        stmt_toks(*self)
    }

    fn to_tokens(&self) -> (r: Vec<Tok>) {
        self.toks_vec()
    }
}

/// Whether a range is half-open (`..`) or closed (`..=`).
#[derive(Debug)]
pub enum RangeType {
    HalfOpen(RangeTypeHalfOpen),
    Closed(RangeTypeClosed),
}

pub open spec fn range_type_toks(n: RangeType) -> Seq<Tok>
    decreases n,
{
    match n {
        RangeType::HalfOpen(x) => seq![Tok::DotDot(x)],
        RangeType::Closed(x) => seq![Tok::DotDotEq(x)],
    }
}

impl RangeType {
    #[verifier::rlimit(50)]
    pub(crate) fn toks_vec(&self) -> (r: Vec<Tok>)
        ensures
            r@ == range_type_toks(*self),
        decreases self,
    {
        match self {
            RangeType::HalfOpen(x) => {
                let mut acc: Vec<Tok> = Vec::new();
                acc.push(Tok::DotDot(*x));
                proof {
                    assert(acc@ =~= range_type_toks(*self));
                }
                acc
            },
            RangeType::Closed(x) => {
                let mut acc: Vec<Tok> = Vec::new();
                acc.push(Tok::DotDotEq(*x));
                proof {
                    assert(acc@ =~= range_type_toks(*self));
                }
                acc
            },
        }
    }
}

impl ToTokens for RangeType {
    open spec fn tok_spec(&self) -> Seq<Tok> {
        range_type_toks(*self)
    }

    fn to_tokens(&self) -> (r: Vec<Tok>) {
        self.toks_vec()
    }
}

pub open spec fn pairs_ident_path_sep_toks(s: Seq<(Ident, PathSep)>) -> Seq<Tok>
    decreases s,
{
    if s.len() == 0 {
        Seq::<Tok>::empty()
    } else {
        seq![Tok::Ident(s[0].0)] + seq![Tok::PathSep(s[0].1)] + pairs_ident_path_sep_toks(s.subrange(1, s.len() as int))
    }
}

pub open spec fn punct_ident_path_sep_toks(p: Punctuated<Ident, PathSep>) -> Seq<Tok>
    decreases p,
{
    pairs_ident_path_sep_toks(p.inner@) + match p.last {
        Some(t) => seq![Tok::Ident(*t)],
        None => Seq::<Tok>::empty(),
    }
}

proof fn lemma_pairs_ident_path_sep_push(s: Seq<(Ident, PathSep)>)
    requires
        s.len() > 0,
    ensures
        pairs_ident_path_sep_toks(s) == pairs_ident_path_sep_toks(s.drop_last()) + seq![Tok::Ident(s.last().0)] + seq![Tok::PathSep(s.last().1)],
    decreases s.len(),
{
    if s.len() == 1 {
        assert(s.drop_last() =~= Seq::<(Ident, PathSep)>::empty());
        assert(s.subrange(1, 1) =~= Seq::<(Ident, PathSep)>::empty());
        assert(pairs_ident_path_sep_toks(Seq::<(Ident, PathSep)>::empty()) =~= Seq::<Tok>::empty());
        assert(pairs_ident_path_sep_toks(s) =~= seq![Tok::Ident(s[0].0)] + seq![Tok::PathSep(s[0].1)]);
    } else {
        let tail = s.subrange(1, s.len() as int);
        lemma_pairs_ident_path_sep_push(tail);
        assert(tail.drop_last() =~= s.drop_last().subrange(1, s.drop_last().len() as int));
        assert(tail.last() == s.last());
        assert(pairs_ident_path_sep_toks(s) =~= pairs_ident_path_sep_toks(s.drop_last()) + seq![Tok::Ident(s.last().0)] + seq![Tok::PathSep(s.last().1)]);
    }
}

impl Punctuated<Ident, PathSep> {
    #[verifier::rlimit(100)]
    #[verifier::spinoff_prover]
    pub(crate) fn toks_vec(&self) -> (r: Vec<Tok>)
        ensures
            r@ == punct_ident_path_sep_toks(*self),
        decreases self,
    {
        let mut acc: Vec<Tok> = Vec::new();
        let mut i: usize = 0;
        proof {
            assert(self.inner@.subrange(0, 0) =~= Seq::<(Ident, PathSep)>::empty());
        }
        while i < self.inner.len()
            invariant
                i <= self.inner@.len(),
                acc@ == pairs_ident_path_sep_toks(self.inner@.subrange(0, i as int)),
            decreases self.inner@.len() - i,
        {
            acc.push(Tok::Ident(self.inner[i].0.dup()));
            acc.push(Tok::PathSep(self.inner[i].1));
            i += 1;
            proof {
                lemma_pairs_ident_path_sep_push(self.inner@.subrange(0, i as int));
                assert(self.inner@.subrange(0, i as int).drop_last() =~= self.inner@.subrange(
                    0,
                    i - 1,
                ));
            }
        }
        proof {
            assert(self.inner@.subrange(0, self.inner@.len() as int) =~= self.inner@);
        }
        match &self.last {
            Some(t) => {
                acc.push(Tok::Ident(t.dup()));
            },
            None => {},
        }
        acc
    }
}

impl ToTokens for Punctuated<Ident, PathSep> {
    open spec fn tok_spec(&self) -> Seq<Tok> {
        punct_ident_path_sep_toks(*self)
    }

    fn to_tokens(&self) -> (r: Vec<Tok>) {
        self.toks_vec()
    }
}

pub open spec fn seq_stmt_toks(s: Seq<Stmt>) -> Seq<Tok>
    decreases s,
{
    if s.len() == 0 {
        Seq::<Tok>::empty()
    } else {
        stmt_toks(s[0]) + seq_stmt_toks(s.subrange(1, s.len() as int))
    }
}

proof fn lemma_seq_stmt_push(s: Seq<Stmt>)
    requires
        s.len() > 0,
    ensures
        seq_stmt_toks(s) == seq_stmt_toks(s.drop_last()) + stmt_toks(s.last()),
    decreases s.len(),
{
    if s.len() == 1 {
        assert(s.drop_last() =~= Seq::<Stmt>::empty());
        assert(s.subrange(1, 1) =~= Seq::<Stmt>::empty());
        assert(seq_stmt_toks(Seq::<Stmt>::empty()) =~= Seq::<Tok>::empty());
        assert(seq_stmt_toks(s) =~= stmt_toks(s[0]));
    } else {
        let tail = s.subrange(1, s.len() as int);
        lemma_seq_stmt_push(tail);
        assert(tail.drop_last() =~= s.drop_last().subrange(1, s.drop_last().len() as int));
        assert(tail.last() == s.last());
        assert(seq_stmt_toks(s) =~= seq_stmt_toks(s.drop_last()) + stmt_toks(s.last()));
    }
}

fn vec_stmt_toks(v: &Vec<Stmt>) -> (r: Vec<Tok>)
    ensures
        r@ == seq_stmt_toks(v@),
    decreases v@,
{
    let mut acc: Vec<Tok> = Vec::new();
    let mut i: usize = 0;
    proof {
        assert(v@.subrange(0, 0) =~= Seq::<Stmt>::empty());
    }
    while i < v.len()
        invariant
            i <= v@.len(),
            acc@ == seq_stmt_toks(v@.subrange(0, i as int)),
        decreases v@.len() - i,
    {
        proof {
            assert(decreases_to!(v@ => v@[i as int]));
        }
        let mut t = v[i].toks_vec();
        acc.append(&mut t);
        i += 1;
        proof {
            lemma_seq_stmt_push(v@.subrange(0, i as int));
            assert(v@.subrange(0, i as int).drop_last() =~= v@.subrange(0, i - 1));
        }
    }
    proof {
        assert(v@.subrange(0, v@.len() as int) =~= v@);
    }
    acc
}

} // verus!
