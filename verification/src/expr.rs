use vstd::prelude::*;

use crate::ast::{Block, Punctuated, RangeType, block_toks, range_type_toks};
use crate::pat::{Pat, pat_toks};
use crate::token::{And, AndEq, As, BraceClose, BraceOpen, BracketClose, BracketOpen, Caret, CaretEq, Colon, Comma, Dot, DotDot, Else, EqEq, FatArrow, For, Ge, Gt, Ident, If, In, Le, Lit, LitInt, Lt, Match, Minus, MinusEq, Ne, Not, Or, OrEq, ParenClose, ParenOpen, PathSep, Percent, PercentEq, Plus, PlusEq, Return, Semi, Shl, ShlEq, Shr, ShrEq, Slash, SlashEq, Star, StarEq, StarStar, StarStarEq, ToTokens, Tok, TokenEq, str_eq};
use crate::types::{Type, type_toks};

verus! {

pub type ExprLit = Lit;

pub type ExprBlock = Block;

pub type GenericArgType = Type;

pub type GenericArgExpr = Expr;

pub type MemberNamed = Ident;

pub type MemberUnnamed = LitInt;

#[derive(Debug)]
pub struct ExprUnary {
    pub op: UnOp,
    pub expr: Box<Expr>,
}

pub open spec fn expr_unary_toks(n: ExprUnary) -> Seq<Tok>
    decreases n,
{
    un_op_toks(n.op) + expr_toks(*n.expr)
}

impl ExprUnary {
    #[verifier::rlimit(50)]
    pub(crate) fn toks_vec(&self) -> (r: Vec<Tok>)
        ensures
            r@ == expr_unary_toks(*self),
        decreases self,
    {
        let mut acc: Vec<Tok> = Vec::new();
        let mut t7 = self.op.toks_vec();
        acc.append(&mut t7);
        proof {
            assert(decreases_to!(*self => *self.expr));
        }
        let mut t8 = self.expr.toks_vec();
        acc.append(&mut t8);
        proof {
            assert(acc@ =~= expr_unary_toks(*self));
        }
        acc
    }
}

impl ToTokens for ExprUnary {
    open spec fn tok_spec(&self) -> Seq<Tok> {
        expr_unary_toks(*self)
    }

    fn to_tokens(&self) -> (r: Vec<Tok>) {
        self.toks_vec()
    }
}

#[derive(Debug)]
pub struct ExprBinary {
    pub left: Box<Expr>,
    pub op: BinOp,
    pub right: Box<Expr>,
}

pub open spec fn expr_binary_toks(n: ExprBinary) -> Seq<Tok>
    decreases n,
{
    expr_toks(*n.left) + bin_op_toks(n.op) + expr_toks(*n.right)
}

impl ExprBinary {
    #[verifier::rlimit(50)]
    pub(crate) fn toks_vec(&self) -> (r: Vec<Tok>)
        ensures
            r@ == expr_binary_toks(*self),
        decreases self,
    {
        let mut acc: Vec<Tok> = Vec::new();
        proof {
            assert(decreases_to!(*self => *self.left));
        }
        let mut t9 = self.left.toks_vec();
        acc.append(&mut t9);
        let mut t10 = self.op.toks_vec();
        acc.append(&mut t10);
        proof {
            assert(decreases_to!(*self => *self.right));
        }
        let mut t11 = self.right.toks_vec();
        acc.append(&mut t11);
        proof {
            assert(acc@ =~= expr_binary_toks(*self));
        }
        acc
    }
}

impl ToTokens for ExprBinary {
    open spec fn tok_spec(&self) -> Seq<Tok> {
        expr_binary_toks(*self)
    }

    fn to_tokens(&self) -> (r: Vec<Tok>) {
        self.toks_vec()
    }
}

#[derive(Debug)]
pub struct ExprAssign {
    pub lhs: Box<Expr>,
    pub op: AssOp,
    pub rhs: Box<Expr>,
}

pub open spec fn expr_assign_toks(n: ExprAssign) -> Seq<Tok>
    decreases n,
{
    expr_toks(*n.lhs) + ass_op_toks(n.op) + expr_toks(*n.rhs)
}

impl ExprAssign {
    #[verifier::rlimit(50)]
    pub(crate) fn toks_vec(&self) -> (r: Vec<Tok>)
        ensures
            r@ == expr_assign_toks(*self),
        decreases self,
    {
        let mut acc: Vec<Tok> = Vec::new();
        proof {
            assert(decreases_to!(*self => *self.lhs));
        }
        let mut t12 = self.lhs.toks_vec();
        acc.append(&mut t12);
        let mut t13 = self.op.toks_vec();
        acc.append(&mut t13);
        proof {
            assert(decreases_to!(*self => *self.rhs));
        }
        let mut t14 = self.rhs.toks_vec();
        acc.append(&mut t14);
        proof {
            assert(acc@ =~= expr_assign_toks(*self));
        }
        acc
    }
}

impl ToTokens for ExprAssign {
    open spec fn tok_spec(&self) -> Seq<Tok> {
        expr_assign_toks(*self)
    }

    fn to_tokens(&self) -> (r: Vec<Tok>) {
        self.toks_vec()
    }
}

#[derive(Debug)]
pub struct ExprRepeat {
    pub bracket_open: BracketOpen,
    pub init: Box<Expr>,
    pub semi: Semi,
    pub repeat: Box<Expr>,
    pub bracket_close: BracketClose,
}

pub open spec fn expr_repeat_toks(n: ExprRepeat) -> Seq<Tok>
    decreases n,
{
    seq![Tok::BracketOpen(n.bracket_open)] + expr_toks(*n.init) + seq![Tok::Semi(n.semi)] + expr_toks(*n.repeat) + seq![Tok::BracketClose(n.bracket_close)]
}

impl ExprRepeat {
    #[verifier::rlimit(50)]
    pub(crate) fn toks_vec(&self) -> (r: Vec<Tok>)
        ensures
            r@ == expr_repeat_toks(*self),
        decreases self,
    {
        let mut acc: Vec<Tok> = Vec::new();
        acc.push(Tok::BracketOpen(self.bracket_open));
        proof {
            assert(decreases_to!(*self => *self.init));
        }
        let mut t15 = self.init.toks_vec();
        acc.append(&mut t15);
        acc.push(Tok::Semi(self.semi));
        proof {
            assert(decreases_to!(*self => *self.repeat));
        }
        let mut t16 = self.repeat.toks_vec();
        acc.append(&mut t16);
        acc.push(Tok::BracketClose(self.bracket_close));
        proof {
            assert(acc@ =~= expr_repeat_toks(*self));
        }
        acc
    }
}

impl ToTokens for ExprRepeat {
    open spec fn tok_spec(&self) -> Seq<Tok> {
        expr_repeat_toks(*self)
    }

    fn to_tokens(&self) -> (r: Vec<Tok>) {
        self.toks_vec()
    }
}

#[derive(Debug)]
pub struct ExprRange {
    pub left: Option<Box<Expr>>,
    pub range_type: RangeType,
    pub right: Option<Box<Expr>>,
}

pub open spec fn expr_range_toks(n: ExprRange) -> Seq<Tok>
    decreases n,
{
    (match n.left {
        Some(x) => expr_toks(*x),
        None => Seq::<Tok>::empty(),
    }) + range_type_toks(n.range_type) + (match n.right {
        Some(x) => expr_toks(*x),
        None => Seq::<Tok>::empty(),
    })
}

impl ExprRange {
    #[verifier::rlimit(50)]
    pub(crate) fn toks_vec(&self) -> (r: Vec<Tok>)
        ensures
            r@ == expr_range_toks(*self),
        decreases self,
    {
        let mut acc: Vec<Tok> = Vec::new();
        match &self.left {
            Some(x) => {
                proof {
                    assert(decreases_to!(*self => **x));
                }
                let mut t17 = x.toks_vec();
                acc.append(&mut t17);
            },
            None => {},
        }
        let mut t18 = self.range_type.toks_vec();
        acc.append(&mut t18);
        match &self.right {
            Some(x) => {
                proof {
                    assert(decreases_to!(*self => **x));
                }
                let mut t19 = x.toks_vec();
                acc.append(&mut t19);
            },
            None => {},
        }
        proof {
            assert(acc@ =~= expr_range_toks(*self));
        }
        acc
    }
}

impl ToTokens for ExprRange {
    open spec fn tok_spec(&self) -> Seq<Tok> {
        expr_range_toks(*self)
    }

    fn to_tokens(&self) -> (r: Vec<Tok>) {
        self.toks_vec()
    }
}

#[derive(Debug)]
pub struct ExprPath {
    pub leading_sep: Option<PathSep>,
    pub segments: Punctuated<PathSegment, PathSep>,
}

pub open spec fn expr_path_toks(n: ExprPath) -> Seq<Tok>
    decreases n,
{
    (match n.leading_sep {
        Some(x) => seq![Tok::PathSep(x)],
        None => Seq::<Tok>::empty(),
    }) + punct_path_segment_path_sep_toks(n.segments)
}

impl ExprPath {
    #[verifier::rlimit(50)]
    pub(crate) fn toks_vec(&self) -> (r: Vec<Tok>)
        ensures
            r@ == expr_path_toks(*self),
        decreases self,
    {
        let mut acc: Vec<Tok> = Vec::new();
        match &self.leading_sep {
            Some(x) => {
                acc.push(Tok::PathSep(*x));
            },
            None => {},
        }
        proof {
            assert(decreases_to!(*self => self.segments));
        }
        let mut t20 = self.segments.toks_vec();
        acc.append(&mut t20);
        proof {
            assert(acc@ =~= expr_path_toks(*self));
        }
        acc
    }
}

impl ToTokens for ExprPath {
    open spec fn tok_spec(&self) -> Seq<Tok> {
        expr_path_toks(*self)
    }

    fn to_tokens(&self) -> (r: Vec<Tok>) {
        self.toks_vec()
    }
}

#[derive(Debug)]
pub struct ExprField {
    pub on: Box<Expr>,
    pub dot: Dot,
    pub member: Member,
}

pub open spec fn expr_field_toks(n: ExprField) -> Seq<Tok>
    decreases n,
{
    expr_toks(*n.on) + seq![Tok::Dot(n.dot)] + member_toks(n.member)
}

impl ExprField {
    #[verifier::rlimit(50)]
    pub(crate) fn toks_vec(&self) -> (r: Vec<Tok>)
        ensures
            r@ == expr_field_toks(*self),
        decreases self,
    {
        let mut acc: Vec<Tok> = Vec::new();
        proof {
            assert(decreases_to!(*self => *self.on));
        }
        let mut t21 = self.on.toks_vec();
        acc.append(&mut t21);
        acc.push(Tok::Dot(self.dot));
        let mut t22 = self.member.toks_vec();
        acc.append(&mut t22);
        proof {
            assert(acc@ =~= expr_field_toks(*self));
        }
        acc
    }
}

impl ToTokens for ExprField {
    open spec fn tok_spec(&self) -> Seq<Tok> {
        expr_field_toks(*self)
    }

    fn to_tokens(&self) -> (r: Vec<Tok>) {
        self.toks_vec()
    }
}

#[derive(Debug)]
pub struct ExprCall {
    pub on: Box<Expr>,
    pub paren_open: ParenOpen,
    pub args: Punctuated<Expr, Comma>,
    pub paren_close: ParenClose,
}

pub open spec fn expr_call_toks(n: ExprCall) -> Seq<Tok>
    decreases n,
{
    expr_toks(*n.on) + seq![Tok::ParenOpen(n.paren_open)] + punct_expr_comma_toks(n.args) + seq![Tok::ParenClose(n.paren_close)]
}

impl ExprCall {
    #[verifier::rlimit(50)]
    pub(crate) fn toks_vec(&self) -> (r: Vec<Tok>)
        ensures
            r@ == expr_call_toks(*self),
        decreases self,
    {
        let mut acc: Vec<Tok> = Vec::new();
        proof {
            assert(decreases_to!(*self => *self.on));
        }
        let mut t23 = self.on.toks_vec();
        acc.append(&mut t23);
        acc.push(Tok::ParenOpen(self.paren_open));
        proof {
            assert(decreases_to!(*self => self.args));
        }
        let mut t24 = self.args.toks_vec();
        acc.append(&mut t24);
        acc.push(Tok::ParenClose(self.paren_close));
        proof {
            assert(acc@ =~= expr_call_toks(*self));
        }
        acc
    }
}

impl ToTokens for ExprCall {
    open spec fn tok_spec(&self) -> Seq<Tok> {
        expr_call_toks(*self)
    }

    fn to_tokens(&self) -> (r: Vec<Tok>) {
        self.toks_vec()
    }
}

#[derive(Debug)]
pub struct ExprMethodCall {
    pub on: Box<Expr>,
    pub dot: Dot,
    pub method: Ident,
    pub paren_open: ParenOpen,
    pub args: Punctuated<Expr, Comma>,
    pub paren_close: ParenClose,
}

pub open spec fn expr_method_call_toks(n: ExprMethodCall) -> Seq<Tok>
    decreases n,
{
    expr_toks(*n.on) + seq![Tok::Dot(n.dot)] + seq![Tok::Ident(n.method)] + seq![Tok::ParenOpen(n.paren_open)] + punct_expr_comma_toks(n.args) + seq![Tok::ParenClose(n.paren_close)]
}

impl ExprMethodCall {
    #[verifier::rlimit(50)]
    pub(crate) fn toks_vec(&self) -> (r: Vec<Tok>)
        ensures
            r@ == expr_method_call_toks(*self),
        decreases self,
    {
        let mut acc: Vec<Tok> = Vec::new();
        proof {
            assert(decreases_to!(*self => *self.on));
        }
        let mut t25 = self.on.toks_vec();
        acc.append(&mut t25);
        acc.push(Tok::Dot(self.dot));
        acc.push(Tok::Ident(self.method.dup()));
        acc.push(Tok::ParenOpen(self.paren_open));
        proof {
            assert(decreases_to!(*self => self.args));
        }
        let mut t26 = self.args.toks_vec();
        acc.append(&mut t26);
        acc.push(Tok::ParenClose(self.paren_close));
        proof {
            assert(acc@ =~= expr_method_call_toks(*self));
        }
        acc
    }
}

impl ToTokens for ExprMethodCall {
    open spec fn tok_spec(&self) -> Seq<Tok> {
        expr_method_call_toks(*self)
    }

    fn to_tokens(&self) -> (r: Vec<Tok>) {
        self.toks_vec()
    }
}

#[derive(Debug)]
pub struct ExprIndex {
    pub on: Box<Expr>,
    pub bracket_open: BracketOpen,
    pub index: Box<Expr>,
    pub bracket_close: BracketClose,
}

pub open spec fn expr_index_toks(n: ExprIndex) -> Seq<Tok>
    decreases n,
{
    expr_toks(*n.on) + seq![Tok::BracketOpen(n.bracket_open)] + expr_toks(*n.index) + seq![Tok::BracketClose(n.bracket_close)]
}

impl ExprIndex {
    #[verifier::rlimit(50)]
    pub(crate) fn toks_vec(&self) -> (r: Vec<Tok>)
        ensures
            r@ == expr_index_toks(*self),
        decreases self,
    {
        let mut acc: Vec<Tok> = Vec::new();
        proof {
            assert(decreases_to!(*self => *self.on));
        }
        let mut t27 = self.on.toks_vec();
        acc.append(&mut t27);
        acc.push(Tok::BracketOpen(self.bracket_open));
        proof {
            assert(decreases_to!(*self => *self.index));
        }
        let mut t28 = self.index.toks_vec();
        acc.append(&mut t28);
        acc.push(Tok::BracketClose(self.bracket_close));
        proof {
            assert(acc@ =~= expr_index_toks(*self));
        }
        acc
    }
}

impl ToTokens for ExprIndex {
    open spec fn tok_spec(&self) -> Seq<Tok> {
        expr_index_toks(*self)
    }

    fn to_tokens(&self) -> (r: Vec<Tok>) {
        self.toks_vec()
    }
}

#[derive(Debug)]
pub struct ExprArray {
    pub bracket_open: BracketOpen,
    pub elements: Punctuated<Expr, Comma>,
    pub bracket_close: BracketClose,
}

pub open spec fn expr_array_toks(n: ExprArray) -> Seq<Tok>
    decreases n,
{
    seq![Tok::BracketOpen(n.bracket_open)] + punct_expr_comma_toks(n.elements) + seq![Tok::BracketClose(n.bracket_close)]
}

impl ExprArray {
    #[verifier::rlimit(50)]
    pub(crate) fn toks_vec(&self) -> (r: Vec<Tok>)
        ensures
            r@ == expr_array_toks(*self),
        decreases self,
    {
        let mut acc: Vec<Tok> = Vec::new();
        acc.push(Tok::BracketOpen(self.bracket_open));
        proof {
            assert(decreases_to!(*self => self.elements));
        }
        let mut t29 = self.elements.toks_vec();
        acc.append(&mut t29);
        acc.push(Tok::BracketClose(self.bracket_close));
        proof {
            assert(acc@ =~= expr_array_toks(*self));
        }
        acc
    }
}

impl ToTokens for ExprArray {
    open spec fn tok_spec(&self) -> Seq<Tok> {
        expr_array_toks(*self)
    }

    fn to_tokens(&self) -> (r: Vec<Tok>) {
        self.toks_vec()
    }
}

#[derive(Debug)]
pub struct ExprTuple {
    pub paren_open: ParenOpen,
    pub elements: Punctuated<Expr, Comma>,
    pub paren_close: ParenClose,
}

pub open spec fn expr_tuple_toks(n: ExprTuple) -> Seq<Tok>
    decreases n,
{
    seq![Tok::ParenOpen(n.paren_open)] + punct_expr_comma_toks(n.elements) + seq![Tok::ParenClose(n.paren_close)]
}

impl ExprTuple {
    #[verifier::rlimit(50)]
    pub(crate) fn toks_vec(&self) -> (r: Vec<Tok>)
        ensures
            r@ == expr_tuple_toks(*self),
        decreases self,
    {
        let mut acc: Vec<Tok> = Vec::new();
        acc.push(Tok::ParenOpen(self.paren_open));
        proof {
            assert(decreases_to!(*self => self.elements));
        }
        let mut t30 = self.elements.toks_vec();
        acc.append(&mut t30);
        acc.push(Tok::ParenClose(self.paren_close));
        proof {
            assert(acc@ =~= expr_tuple_toks(*self));
        }
        acc
    }
}

impl ToTokens for ExprTuple {
    open spec fn tok_spec(&self) -> Seq<Tok> {
        expr_tuple_toks(*self)
    }

    fn to_tokens(&self) -> (r: Vec<Tok>) {
        self.toks_vec()
    }
}

#[derive(Debug)]
pub struct ExprCast {
    pub expr: Box<Expr>,
    pub as_token: As,
    pub ty: Box<Type>,
}

pub open spec fn expr_cast_toks(n: ExprCast) -> Seq<Tok>
    decreases n,
{
    expr_toks(*n.expr) + seq![Tok::As(n.as_token)] + type_toks(*n.ty)
}

impl ExprCast {
    #[verifier::rlimit(50)]
    pub(crate) fn toks_vec(&self) -> (r: Vec<Tok>)
        ensures
            r@ == expr_cast_toks(*self),
        decreases self,
    {
        let mut acc: Vec<Tok> = Vec::new();
        proof {
            assert(decreases_to!(*self => *self.expr));
        }
        let mut t31 = self.expr.toks_vec();
        acc.append(&mut t31);
        acc.push(Tok::As(self.as_token));
        proof {
            assert(decreases_to!(*self => *self.ty));
        }
        let mut t32 = self.ty.toks_vec();
        acc.append(&mut t32);
        proof {
            assert(acc@ =~= expr_cast_toks(*self));
        }
        acc
    }
}

impl ToTokens for ExprCast {
    open spec fn tok_spec(&self) -> Seq<Tok> {
        expr_cast_toks(*self)
    }

    fn to_tokens(&self) -> (r: Vec<Tok>) {
        self.toks_vec()
    }
}

#[derive(Debug)]
pub struct ExprFor {
    pub for_token: For,
    pub pat: Box<Pat>,
    pub in_token: In,
    pub expr: Box<Expr>,
    pub block: Block,
}

pub open spec fn expr_for_toks(n: ExprFor) -> Seq<Tok>
    decreases n,
{
    seq![Tok::For(n.for_token)] + pat_toks(*n.pat) + seq![Tok::In(n.in_token)] + expr_toks(*n.expr) + block_toks(n.block)
}

impl ExprFor {
    #[verifier::rlimit(50)]
    pub(crate) fn toks_vec(&self) -> (r: Vec<Tok>)
        ensures
            r@ == expr_for_toks(*self),
        decreases self,
    {
        let mut acc: Vec<Tok> = Vec::new();
        acc.push(Tok::For(self.for_token));
        proof {
            assert(decreases_to!(*self => *self.pat));
        }
        let mut t33 = self.pat.toks_vec();
        acc.append(&mut t33);
        acc.push(Tok::In(self.in_token));
        proof {
            assert(decreases_to!(*self => *self.expr));
        }
        let mut t34 = self.expr.toks_vec();
        acc.append(&mut t34);
        proof {
            assert(decreases_to!(*self => self.block));
        }
        let mut t35 = self.block.toks_vec();
        acc.append(&mut t35);
        proof {
            assert(acc@ =~= expr_for_toks(*self));
        }
        acc
    }
}

impl ToTokens for ExprFor {
    open spec fn tok_spec(&self) -> Seq<Tok> {
        expr_for_toks(*self)
    }

    fn to_tokens(&self) -> (r: Vec<Tok>) {
        self.toks_vec()
    }
}

#[derive(Debug)]
pub struct ExprIf {
    pub if_token: If,
    pub expr: Box<Expr>,
    pub block: Block,
    pub else_token: Option<(Else, Box<Expr>)>,
}

pub open spec fn expr_if_toks(n: ExprIf) -> Seq<Tok>
    decreases n,
{
    seq![Tok::If(n.if_token)] + expr_toks(*n.expr) + block_toks(n.block) + (match n.else_token {
        Some(pr) => seq![Tok::Else(pr.0)] + expr_toks(*pr.1),
        None => Seq::<Tok>::empty(),
    })
}

impl ExprIf {
    #[verifier::rlimit(50)]
    pub(crate) fn toks_vec(&self) -> (r: Vec<Tok>)
        ensures
            r@ == expr_if_toks(*self),
        decreases self,
    {
        let mut acc: Vec<Tok> = Vec::new();
        acc.push(Tok::If(self.if_token));
        proof {
            assert(decreases_to!(*self => *self.expr));
        }
        let mut t36 = self.expr.toks_vec();
        acc.append(&mut t36);
        proof {
            assert(decreases_to!(*self => self.block));
        }
        let mut t37 = self.block.toks_vec();
        acc.append(&mut t37);
        match &self.else_token {
            Some((a, b)) => {
                acc.push(Tok::Else(*a));
                proof {
                    assert(decreases_to!(*self => **b));
                }
                let mut t38 = b.toks_vec();
                acc.append(&mut t38);
            },
            None => {},
        }
        proof {
            assert(acc@ =~= expr_if_toks(*self));
        }
        acc
    }
}

impl ToTokens for ExprIf {
    open spec fn tok_spec(&self) -> Seq<Tok> {
        expr_if_toks(*self)
    }

    fn to_tokens(&self) -> (r: Vec<Tok>) {
        self.toks_vec()
    }
}

#[derive(Debug)]
pub struct ExprMatch {
    pub match_token: Match,
    pub expr: Box<Expr>,
    pub brace_open: BraceOpen,
    pub arms: Punctuated<Arm, Comma>,
    pub brace_close: BraceClose,
}

pub open spec fn expr_match_toks(n: ExprMatch) -> Seq<Tok>
    decreases n,
{
    seq![Tok::Match(n.match_token)] + expr_toks(*n.expr) + seq![Tok::BraceOpen(n.brace_open)] + punct_arm_comma_toks(n.arms) + seq![Tok::BraceClose(n.brace_close)]
}

impl ExprMatch {
    #[verifier::rlimit(50)]
    pub(crate) fn toks_vec(&self) -> (r: Vec<Tok>)
        ensures
            r@ == expr_match_toks(*self),
        decreases self,
    {
        let mut acc: Vec<Tok> = Vec::new();
        acc.push(Tok::Match(self.match_token));
        proof {
            assert(decreases_to!(*self => *self.expr));
        }
        let mut t39 = self.expr.toks_vec();
        acc.append(&mut t39);
        acc.push(Tok::BraceOpen(self.brace_open));
        proof {
            assert(decreases_to!(*self => self.arms));
        }
        let mut t40 = self.arms.toks_vec();
        acc.append(&mut t40);
        acc.push(Tok::BraceClose(self.brace_close));
        proof {
            assert(acc@ =~= expr_match_toks(*self));
        }
        acc
    }
}

impl ToTokens for ExprMatch {
    open spec fn tok_spec(&self) -> Seq<Tok> {
        expr_match_toks(*self)
    }

    fn to_tokens(&self) -> (r: Vec<Tok>) {
        self.toks_vec()
    }
}

#[derive(Debug)]
pub struct ExprReturn {
    pub return_token: Return,
    pub expr: Option<Box<Expr>>,
}

pub open spec fn expr_return_toks(n: ExprReturn) -> Seq<Tok>
    decreases n,
{
    seq![Tok::Return(n.return_token)] + (match n.expr {
        Some(x) => expr_toks(*x),
        None => Seq::<Tok>::empty(),
    })
}

impl ExprReturn {
    #[verifier::rlimit(50)]
    pub(crate) fn toks_vec(&self) -> (r: Vec<Tok>)
        ensures
            r@ == expr_return_toks(*self),
        decreases self,
    {
        let mut acc: Vec<Tok> = Vec::new();
        acc.push(Tok::Return(self.return_token));
        match &self.expr {
            Some(x) => {
                proof {
                    assert(decreases_to!(*self => **x));
                }
                let mut t41 = x.toks_vec();
                acc.append(&mut t41);
            },
            None => {},
        }
        proof {
            assert(acc@ =~= expr_return_toks(*self));
        }
        acc
    }
}

impl ToTokens for ExprReturn {
    open spec fn tok_spec(&self) -> Seq<Tok> {
        expr_return_toks(*self)
    }

    fn to_tokens(&self) -> (r: Vec<Tok>) {
        self.toks_vec()
    }
}

#[derive(Debug)]
pub struct ExprStruct {
    pub path: ExprPath,
    pub brace_open: BraceOpen,
    pub fields: Punctuated<FieldValue, Comma>,
    pub base: Option<(DotDot, Box<Expr>)>,
    pub comma: Option<Comma>,
    pub brace_close: BraceClose,
}

pub open spec fn expr_struct_toks(n: ExprStruct) -> Seq<Tok>
    decreases n,
{
    expr_path_toks(n.path) + seq![Tok::BraceOpen(n.brace_open)] + punct_field_value_comma_toks(n.fields) + (match n.base {
        Some(pr) => seq![Tok::DotDot(pr.0)] + expr_toks(*pr.1),
        None => Seq::<Tok>::empty(),
    }) + (match n.comma {
        Some(x) => seq![Tok::Comma(x)],
        None => Seq::<Tok>::empty(),
    }) + seq![Tok::BraceClose(n.brace_close)]
}

impl ExprStruct {
    #[verifier::rlimit(50)]
    pub(crate) fn toks_vec(&self) -> (r: Vec<Tok>)
        ensures
            r@ == expr_struct_toks(*self),
        decreases self,
    {
        let mut acc: Vec<Tok> = Vec::new();
        proof {
            assert(decreases_to!(*self => self.path));
        }
        let mut t42 = self.path.toks_vec();
        acc.append(&mut t42);
        acc.push(Tok::BraceOpen(self.brace_open));
        proof {
            assert(decreases_to!(*self => self.fields));
        }
        let mut t43 = self.fields.toks_vec();
        acc.append(&mut t43);
        match &self.base {
            Some((a, b)) => {
                acc.push(Tok::DotDot(*a));
                proof {
                    assert(decreases_to!(*self => **b));
                }
                let mut t44 = b.toks_vec();
                acc.append(&mut t44);
            },
            None => {},
        }
        match &self.comma {
            Some(x) => {
                acc.push(Tok::Comma(*x));
            },
            None => {},
        }
        acc.push(Tok::BraceClose(self.brace_close));
        proof {
            assert(acc@ =~= expr_struct_toks(*self));
        }
        acc
    }
}

impl ToTokens for ExprStruct {
    open spec fn tok_spec(&self) -> Seq<Tok> {
        expr_struct_toks(*self)
    }

    fn to_tokens(&self) -> (r: Vec<Tok>) {
        self.toks_vec()
    }
}

#[derive(Debug)]
pub struct ExprGrouped {
    pub paren_open: ParenOpen,
    pub expr: Box<Expr>,
    pub paren_close: ParenClose,
}

pub open spec fn expr_grouped_toks(n: ExprGrouped) -> Seq<Tok>
    decreases n,
{
    seq![Tok::ParenOpen(n.paren_open)] + expr_toks(*n.expr) + seq![Tok::ParenClose(n.paren_close)]
}

impl ExprGrouped {
    #[verifier::rlimit(50)]
    pub(crate) fn toks_vec(&self) -> (r: Vec<Tok>)
        ensures
            r@ == expr_grouped_toks(*self),
        decreases self,
    {
        let mut acc: Vec<Tok> = Vec::new();
        acc.push(Tok::ParenOpen(self.paren_open));
        proof {
            assert(decreases_to!(*self => *self.expr));
        }
        let mut t45 = self.expr.toks_vec();
        acc.append(&mut t45);
        acc.push(Tok::ParenClose(self.paren_close));
        proof {
            assert(acc@ =~= expr_grouped_toks(*self));
        }
        acc
    }
}

impl ToTokens for ExprGrouped {
    open spec fn tok_spec(&self) -> Seq<Tok> {
        expr_grouped_toks(*self)
    }

    fn to_tokens(&self) -> (r: Vec<Tok>) {
        self.toks_vec()
    }
}

#[derive(Debug)]
pub struct PathSegment {
    pub ident: Ident,
    pub generic_args: Option<GenericArgs>,
}

pub open spec fn path_segment_toks(n: PathSegment) -> Seq<Tok>
    decreases n,
{
    seq![Tok::Ident(n.ident)] + (match n.generic_args {
        Some(x) => generic_args_toks(x),
        None => Seq::<Tok>::empty(),
    })
}

impl PathSegment {
    #[verifier::rlimit(50)]
    pub(crate) fn toks_vec(&self) -> (r: Vec<Tok>)
        ensures
            r@ == path_segment_toks(*self),
        decreases self,
    {
        let mut acc: Vec<Tok> = Vec::new();
        acc.push(Tok::Ident(self.ident.dup()));
        match &self.generic_args {
            Some(x) => {
                proof {
                    assert(decreases_to!(*self => *x));
                }
                let mut t46 = x.toks_vec();
                acc.append(&mut t46);
            },
            None => {},
        }
        proof {
            assert(acc@ =~= path_segment_toks(*self));
        }
        acc
    }
}

impl ToTokens for PathSegment {
    open spec fn tok_spec(&self) -> Seq<Tok> {
        path_segment_toks(*self)
    }

    fn to_tokens(&self) -> (r: Vec<Tok>) {
        self.toks_vec()
    }
}

#[derive(Debug)]
pub struct Arm {
    pub pat: Pat,
    pub guard: Option<(If, Expr)>,
    pub fat_arrow: FatArrow,
    pub body: Expr,
}

pub open spec fn arm_toks(n: Arm) -> Seq<Tok>
    decreases n,
{
    pat_toks(n.pat) + (match n.guard {
        Some(pr) => seq![Tok::If(pr.0)] + expr_toks(pr.1),
        None => Seq::<Tok>::empty(),
    }) + seq![Tok::FatArrow(n.fat_arrow)] + expr_toks(n.body)
}

impl Arm {
    #[verifier::rlimit(50)]
    pub(crate) fn toks_vec(&self) -> (r: Vec<Tok>)
        ensures
            r@ == arm_toks(*self),
        decreases self,
    {
        let mut acc: Vec<Tok> = Vec::new();
        proof {
            assert(decreases_to!(*self => self.pat));
        }
        let mut t47 = self.pat.toks_vec();
        acc.append(&mut t47);
        match &self.guard {
            Some((a, b)) => {
                acc.push(Tok::If(*a));
                proof {
                    assert(decreases_to!(*self => *b));
                }
                let mut t48 = b.toks_vec();
                acc.append(&mut t48);
            },
            None => {},
        }
        acc.push(Tok::FatArrow(self.fat_arrow));
        proof {
            assert(decreases_to!(*self => self.body));
        }
        let mut t49 = self.body.toks_vec();
        acc.append(&mut t49);
        proof {
            assert(acc@ =~= arm_toks(*self));
        }
        acc
    }
}

impl ToTokens for Arm {
    open spec fn tok_spec(&self) -> Seq<Tok> {
        arm_toks(*self)
    }

    fn to_tokens(&self) -> (r: Vec<Tok>) {
        self.toks_vec()
    }
}

#[derive(Debug)]
pub struct FieldValue {
    pub member: Member,
    pub expr: Option<(Colon, Expr)>,
}

pub open spec fn field_value_toks(n: FieldValue) -> Seq<Tok>
    decreases n,
{
    member_toks(n.member) + (match n.expr {
        Some(pr) => seq![Tok::Colon(pr.0)] + expr_toks(pr.1),
        None => Seq::<Tok>::empty(),
    })
}

impl FieldValue {
    #[verifier::rlimit(50)]
    pub(crate) fn toks_vec(&self) -> (r: Vec<Tok>)
        ensures
            r@ == field_value_toks(*self),
        decreases self,
    {
        let mut acc: Vec<Tok> = Vec::new();
        let mut t50 = self.member.toks_vec();
        acc.append(&mut t50);
        match &self.expr {
            Some((a, b)) => {
                acc.push(Tok::Colon(*a));
                proof {
                    assert(decreases_to!(*self => *b));
                }
                let mut t51 = b.toks_vec();
                acc.append(&mut t51);
            },
            None => {},
        }
        proof {
            assert(acc@ =~= field_value_toks(*self));
        }
        acc
    }
}

impl ToTokens for FieldValue {
    open spec fn tok_spec(&self) -> Seq<Tok> {
        field_value_toks(*self)
    }

    fn to_tokens(&self) -> (r: Vec<Tok>) {
        self.toks_vec()
    }
}

#[derive(Debug)]
pub struct GenericArgs {
    pub path_sep: Option<PathSep>,
    pub lt: Lt,
    pub args: Punctuated<GenericArg, Comma>,
    pub gt: Gt,
}

pub open spec fn generic_args_toks(n: GenericArgs) -> Seq<Tok>
    decreases n,
{
    (match n.path_sep {
        Some(x) => seq![Tok::PathSep(x)],
        None => Seq::<Tok>::empty(),
    }) + seq![Tok::Lt(n.lt)] + punct_generic_arg_comma_toks(n.args) + seq![Tok::Gt(n.gt)]
}

impl GenericArgs {
    #[verifier::rlimit(50)]
    pub(crate) fn toks_vec(&self) -> (r: Vec<Tok>)
        ensures
            r@ == generic_args_toks(*self),
        decreases self,
    {
        let mut acc: Vec<Tok> = Vec::new();
        match &self.path_sep {
            Some(x) => {
                acc.push(Tok::PathSep(*x));
            },
            None => {},
        }
        acc.push(Tok::Lt(self.lt));
        proof {
            assert(decreases_to!(*self => self.args));
        }
        let mut t52 = self.args.toks_vec();
        acc.append(&mut t52);
        acc.push(Tok::Gt(self.gt));
        proof {
            assert(acc@ =~= generic_args_toks(*self));
        }
        acc
    }
}

impl ToTokens for GenericArgs {
    open spec fn tok_spec(&self) -> Seq<Tok> {
        generic_args_toks(*self)
    }

    fn to_tokens(&self) -> (r: Vec<Tok>) {
        self.toks_vec()
    }
}

#[derive(Debug)]
pub struct GenericArgBinding {
    pub ident: Ident,
    pub eq: TokenEq,
    pub ty: Type,
}

pub open spec fn generic_arg_binding_toks(n: GenericArgBinding) -> Seq<Tok>
    decreases n,
{
    seq![Tok::Ident(n.ident)] + seq![Tok::Eq(n.eq)] + type_toks(n.ty)
}

impl GenericArgBinding {
    #[verifier::rlimit(50)]
    pub(crate) fn toks_vec(&self) -> (r: Vec<Tok>)
        ensures
            r@ == generic_arg_binding_toks(*self),
        decreases self,
    {
        let mut acc: Vec<Tok> = Vec::new();
        acc.push(Tok::Ident(self.ident.dup()));
        acc.push(Tok::Eq(self.eq));
        proof {
            assert(decreases_to!(*self => self.ty));
        }
        let mut t53 = self.ty.toks_vec();
        acc.append(&mut t53);
        proof {
            assert(acc@ =~= generic_arg_binding_toks(*self));
        }
        acc
    }
}

impl ToTokens for GenericArgBinding {
    open spec fn tok_spec(&self) -> Seq<Tok> {
        generic_arg_binding_toks(*self)
    }

    fn to_tokens(&self) -> (r: Vec<Tok>) {
        self.toks_vec()
    }
}

/// An expression: the closed sum of all the ways an expression can look.
/// Each variant wraps its own record type so that every alternative stays
/// independently nameable.
#[derive(Debug)]
pub enum Expr {
    Unary(ExprUnary),
    Binary(ExprBinary),
    Assign(ExprAssign),
    Repeat(ExprRepeat),
    Range(ExprRange),
    Path(ExprPath),
    Lit(ExprLit),
    Field(ExprField),
    Call(ExprCall),
    MethodCall(ExprMethodCall),
    Index(ExprIndex),
    Array(ExprArray),
    Tuple(ExprTuple),
    Cast(ExprCast),
    For(ExprFor),
    If(ExprIf),
    Match(ExprMatch),
    Block(ExprBlock),
    Return(ExprReturn),
    Struct(ExprStruct),
    Grouped(ExprGrouped),
}

pub open spec fn expr_toks(n: Expr) -> Seq<Tok>
    decreases n,
{
    match n {
        Expr::Unary(x) => expr_unary_toks(x),
        Expr::Binary(x) => expr_binary_toks(x),
        Expr::Assign(x) => expr_assign_toks(x),
        Expr::Repeat(x) => expr_repeat_toks(x),
        Expr::Range(x) => expr_range_toks(x),
        Expr::Path(x) => expr_path_toks(x),
        Expr::Lit(x) => seq![Tok::Lit(x)],
        Expr::Field(x) => expr_field_toks(x),
        Expr::Call(x) => expr_call_toks(x),
        Expr::MethodCall(x) => expr_method_call_toks(x),
        Expr::Index(x) => expr_index_toks(x),
        Expr::Array(x) => expr_array_toks(x),
        Expr::Tuple(x) => expr_tuple_toks(x),
        Expr::Cast(x) => expr_cast_toks(x),
        Expr::For(x) => expr_for_toks(x),
        Expr::If(x) => expr_if_toks(x),
        Expr::Match(x) => expr_match_toks(x),
        Expr::Block(x) => block_toks(x),
        Expr::Return(x) => expr_return_toks(x),
        Expr::Struct(x) => expr_struct_toks(x),
        Expr::Grouped(x) => expr_grouped_toks(x),
    }
}

impl Expr {
    #[verifier::rlimit(50)]
    pub(crate) fn toks_vec(&self) -> (r: Vec<Tok>)
        ensures
            r@ == expr_toks(*self),
        decreases self,
    {
        match self {
            Expr::Unary(x) => {
                proof {
                    assert(decreases_to!(*self => *x));
                }
                x.toks_vec()
            },
            Expr::Binary(x) => {
                proof {
                    assert(decreases_to!(*self => *x));
                }
                x.toks_vec()
            },
            Expr::Assign(x) => {
                proof {
                    assert(decreases_to!(*self => *x));
                }
                x.toks_vec()
            },
            Expr::Repeat(x) => {
                proof {
                    assert(decreases_to!(*self => *x));
                }
                x.toks_vec()
            },
            Expr::Range(x) => {
                proof {
                    assert(decreases_to!(*self => *x));
                }
                x.toks_vec()
            },
            Expr::Path(x) => {
                proof {
                    assert(decreases_to!(*self => *x));
                }
                x.toks_vec()
            },
            Expr::Lit(x) => {
                let mut acc: Vec<Tok> = Vec::new();
                acc.push(Tok::Lit(x.dup()));
                proof {
                    assert(acc@ =~= expr_toks(*self));
                }
                acc
            },
            Expr::Field(x) => {
                proof {
                    assert(decreases_to!(*self => *x));
                }
                x.toks_vec()
            },
            Expr::Call(x) => {
                proof {
                    assert(decreases_to!(*self => *x));
                }
                x.toks_vec()
            },
            Expr::MethodCall(x) => {
                proof {
                    assert(decreases_to!(*self => *x));
                }
                x.toks_vec()
            },
            Expr::Index(x) => {
                proof {
                    assert(decreases_to!(*self => *x));
                }
                x.toks_vec()
            },
            Expr::Array(x) => {
                proof {
                    assert(decreases_to!(*self => *x));
                }
                x.toks_vec()
            },
            Expr::Tuple(x) => {
                proof {
                    assert(decreases_to!(*self => *x));
                }
                x.toks_vec()
            },
            Expr::Cast(x) => {
                proof {
                    assert(decreases_to!(*self => *x));
                }
                x.toks_vec()
            },
            Expr::For(x) => {
                proof {
                    assert(decreases_to!(*self => *x));
                }
                x.toks_vec()
            },
            Expr::If(x) => {
                proof {
                    assert(decreases_to!(*self => *x));
                }
                x.toks_vec()
            },
            Expr::Match(x) => {
                proof {
                    assert(decreases_to!(*self => *x));
                }
                x.toks_vec()
            },
            Expr::Block(x) => {
                proof {
                    assert(decreases_to!(*self => *x));
                }
                x.toks_vec()
            },
            Expr::Return(x) => {
                proof {
                    assert(decreases_to!(*self => *x));
                }
                x.toks_vec()
            },
            Expr::Struct(x) => {
                proof {
                    assert(decreases_to!(*self => *x));
                }
                x.toks_vec()
            },
            Expr::Grouped(x) => {
                proof {
                    assert(decreases_to!(*self => *x));
                }
                x.toks_vec()
            },
        }
    }
}

impl ToTokens for Expr {
    open spec fn tok_spec(&self) -> Seq<Tok> {
        expr_toks(*self)
    }

    fn to_tokens(&self) -> (r: Vec<Tok>) {
        self.toks_vec()
    }
}

#[derive(Debug)]
pub enum GenericArg {
    Type(GenericArgType),
    Expr(GenericArgExpr),
    Binding(GenericArgBinding),
}

pub open spec fn generic_arg_toks(n: GenericArg) -> Seq<Tok>
    decreases n,
{
    match n {
        GenericArg::Type(x) => type_toks(x),
        GenericArg::Expr(x) => expr_toks(x),
        GenericArg::Binding(x) => generic_arg_binding_toks(x),
    }
}

impl GenericArg {
    #[verifier::rlimit(50)]
    pub(crate) fn toks_vec(&self) -> (r: Vec<Tok>)
        ensures
            r@ == generic_arg_toks(*self),
        decreases self,
    {
        match self {
            GenericArg::Type(x) => {
                proof {
                    assert(decreases_to!(*self => *x));
                }
                x.toks_vec()
            },
            GenericArg::Expr(x) => {
                proof {
                    assert(decreases_to!(*self => *x));
                }
                x.toks_vec()
            },
            GenericArg::Binding(x) => {
                proof {
                    assert(decreases_to!(*self => *x));
                }
                x.toks_vec()
            },
        }
    }
}

impl ToTokens for GenericArg {
    open spec fn tok_spec(&self) -> Seq<Tok> {
        generic_arg_toks(*self)
    }

    fn to_tokens(&self) -> (r: Vec<Tok>) {
        self.toks_vec()
    }
}

/// A field reference: by name, or by index into a tuple struct.
#[derive(Debug)]
pub enum Member {
    Named(MemberNamed),
    Unnamed(MemberUnnamed),
}

pub open spec fn member_toks(n: Member) -> Seq<Tok>
    decreases n,
{
    match n {
        Member::Named(x) => seq![Tok::Ident(x)],
        Member::Unnamed(x) => seq![Tok::Lit(Lit::Int(x))],
    }
}

impl Member {
    #[verifier::rlimit(50)]
    pub(crate) fn toks_vec(&self) -> (r: Vec<Tok>)
        ensures
            r@ == member_toks(*self),
        decreases self,
    {
        match self {
            Member::Named(x) => {
                let mut acc: Vec<Tok> = Vec::new();
                acc.push(Tok::Ident(x.dup()));
                proof {
                    assert(acc@ =~= member_toks(*self));
                }
                acc
            },
            Member::Unnamed(x) => {
                let mut acc: Vec<Tok> = Vec::new();
                acc.push(Tok::Lit(Lit::Int(x.dup())));
                proof {
                    assert(acc@ =~= member_toks(*self));
                }
                acc
            },
        }
    }
}

impl ToTokens for Member {
    open spec fn tok_spec(&self) -> Seq<Tok> {
        member_toks(*self)
    }

    fn to_tokens(&self) -> (r: Vec<Tok>) {
        self.toks_vec()
    }
}

/// The binary-operator table: closed enumeration of the lexical spellings.
#[derive(PartialEq, Eq, Structural, Debug)]
pub enum BinOp {
    Plus(Plus),
    Minus(Minus),
    Star(Star),
    Slash(Slash),
    Percent(Percent),
    StarStar(StarStar),
    Caret(Caret),
    And(And),
    Or(Or),
    Shl(Shl),
    Shr(Shr),
    EqEq(EqEq),
    Lt(Lt),
    Le(Le),
    Ne(Ne),
    Ge(Ge),
    Gt(Gt),
}

pub open spec fn bin_op_toks(n: BinOp) -> Seq<Tok> {
    match n {
        BinOp::Plus(x) => seq![Tok::Plus(x)],
        BinOp::Minus(x) => seq![Tok::Minus(x)],
        BinOp::Star(x) => seq![Tok::Star(x)],
        BinOp::Slash(x) => seq![Tok::Slash(x)],
        BinOp::Percent(x) => seq![Tok::Percent(x)],
        BinOp::StarStar(x) => seq![Tok::StarStar(x)],
        BinOp::Caret(x) => seq![Tok::Caret(x)],
        BinOp::And(x) => seq![Tok::And(x)],
        BinOp::Or(x) => seq![Tok::Or(x)],
        BinOp::Shl(x) => seq![Tok::Shl(x)],
        BinOp::Shr(x) => seq![Tok::Shr(x)],
        BinOp::EqEq(x) => seq![Tok::EqEq(x)],
        BinOp::Lt(x) => seq![Tok::Lt(x)],
        BinOp::Le(x) => seq![Tok::Le(x)],
        BinOp::Ne(x) => seq![Tok::Ne(x)],
        BinOp::Ge(x) => seq![Tok::Ge(x)],
        BinOp::Gt(x) => seq![Tok::Gt(x)],
    }
}

/// The canonical spelling of each operator.
pub open spec fn bin_op_text(n: BinOp) -> Seq<char> {
    match n {
        BinOp::Plus(_) => "+"@,
        BinOp::Minus(_) => "-"@,
        BinOp::Star(_) => "*"@,
        BinOp::Slash(_) => "/"@,
        BinOp::Percent(_) => "%"@,
        BinOp::StarStar(_) => "**"@,
        BinOp::Caret(_) => "^"@,
        BinOp::And(_) => "&"@,
        BinOp::Or(_) => "|"@,
        BinOp::Shl(_) => "<<"@,
        BinOp::Shr(_) => ">>"@,
        BinOp::EqEq(_) => "=="@,
        BinOp::Lt(_) => "<"@,
        BinOp::Le(_) => "<="@,
        BinOp::Ne(_) => "!="@,
        BinOp::Ge(_) => ">="@,
        BinOp::Gt(_) => ">"@,
    }
}

/// Every operator of the table, in table order, at the zero offset.
pub open spec fn bin_op_variants() -> Seq<BinOp> {
    seq![
        BinOp::Plus(Plus { left: 0 }),
        BinOp::Minus(Minus { left: 0 }),
        BinOp::Star(Star { left: 0 }),
        BinOp::Slash(Slash { left: 0 }),
        BinOp::Percent(Percent { left: 0 }),
        BinOp::StarStar(StarStar { left: 0 }),
        BinOp::Caret(Caret { left: 0 }),
        BinOp::And(And { left: 0 }),
        BinOp::Or(Or { left: 0 }),
        BinOp::Shl(Shl { left: 0 }),
        BinOp::Shr(Shr { left: 0 }),
        BinOp::EqEq(EqEq { left: 0 }),
        BinOp::Lt(Lt { left: 0 }),
        BinOp::Le(Le { left: 0 }),
        BinOp::Ne(Ne { left: 0 }),
        BinOp::Ge(Ge { left: 0 }),
        BinOp::Gt(Gt { left: 0 }),
    ]
}

/// Exact, case-sensitive lookup of an operator by its spelling.
pub open spec fn bin_op_from_str_spec(s: Seq<char>) -> Option<BinOp> {
    if s == "+"@ {
        Some(BinOp::Plus(Plus { left: 0 }))
    } else if s == "-"@ {
        Some(BinOp::Minus(Minus { left: 0 }))
    } else if s == "*"@ {
        Some(BinOp::Star(Star { left: 0 }))
    } else if s == "/"@ {
        Some(BinOp::Slash(Slash { left: 0 }))
    } else if s == "%"@ {
        Some(BinOp::Percent(Percent { left: 0 }))
    } else if s == "**"@ {
        Some(BinOp::StarStar(StarStar { left: 0 }))
    } else if s == "^"@ {
        Some(BinOp::Caret(Caret { left: 0 }))
    } else if s == "&"@ {
        Some(BinOp::And(And { left: 0 }))
    } else if s == "|"@ {
        Some(BinOp::Or(Or { left: 0 }))
    } else if s == "<<"@ {
        Some(BinOp::Shl(Shl { left: 0 }))
    } else if s == ">>"@ {
        Some(BinOp::Shr(Shr { left: 0 }))
    } else if s == "=="@ {
        Some(BinOp::EqEq(EqEq { left: 0 }))
    } else if s == "<"@ {
        Some(BinOp::Lt(Lt { left: 0 }))
    } else if s == "<="@ {
        Some(BinOp::Le(Le { left: 0 }))
    } else if s == "!="@ {
        Some(BinOp::Ne(Ne { left: 0 }))
    } else if s == ">="@ {
        Some(BinOp::Ge(Ge { left: 0 }))
    } else if s == ">"@ {
        Some(BinOp::Gt(Gt { left: 0 }))
    } else {
        None
    }
}

impl BinOp {
    #[verifier::rlimit(50)]
    pub(crate) fn toks_vec(&self) -> (r: Vec<Tok>)
        ensures
            r@ == bin_op_toks(*self),
    {
        let mut acc: Vec<Tok> = Vec::new();
        match self {
            BinOp::Plus(x) => acc.push(Tok::Plus(*x)),
            BinOp::Minus(x) => acc.push(Tok::Minus(*x)),
            BinOp::Star(x) => acc.push(Tok::Star(*x)),
            BinOp::Slash(x) => acc.push(Tok::Slash(*x)),
            BinOp::Percent(x) => acc.push(Tok::Percent(*x)),
            BinOp::StarStar(x) => acc.push(Tok::StarStar(*x)),
            BinOp::Caret(x) => acc.push(Tok::Caret(*x)),
            BinOp::And(x) => acc.push(Tok::And(*x)),
            BinOp::Or(x) => acc.push(Tok::Or(*x)),
            BinOp::Shl(x) => acc.push(Tok::Shl(*x)),
            BinOp::Shr(x) => acc.push(Tok::Shr(*x)),
            BinOp::EqEq(x) => acc.push(Tok::EqEq(*x)),
            BinOp::Lt(x) => acc.push(Tok::Lt(*x)),
            BinOp::Le(x) => acc.push(Tok::Le(*x)),
            BinOp::Ne(x) => acc.push(Tok::Ne(*x)),
            BinOp::Ge(x) => acc.push(Tok::Ge(*x)),
            BinOp::Gt(x) => acc.push(Tok::Gt(*x)),
        }
        proof {
            assert(acc@ =~= bin_op_toks(*self));
        }
        acc
    }

    /// Every operator of the table, in table order.
    pub fn variants() -> (r: Vec<BinOp>)
        ensures
            r@ == bin_op_variants(),
    {
        let mut r: Vec<BinOp> = Vec::new();
        r.push(BinOp::Plus(Plus { left: 0 }));
        r.push(BinOp::Minus(Minus { left: 0 }));
        r.push(BinOp::Star(Star { left: 0 }));
        r.push(BinOp::Slash(Slash { left: 0 }));
        r.push(BinOp::Percent(Percent { left: 0 }));
        r.push(BinOp::StarStar(StarStar { left: 0 }));
        r.push(BinOp::Caret(Caret { left: 0 }));
        r.push(BinOp::And(And { left: 0 }));
        r.push(BinOp::Or(Or { left: 0 }));
        r.push(BinOp::Shl(Shl { left: 0 }));
        r.push(BinOp::Shr(Shr { left: 0 }));
        r.push(BinOp::EqEq(EqEq { left: 0 }));
        r.push(BinOp::Lt(Lt { left: 0 }));
        r.push(BinOp::Le(Le { left: 0 }));
        r.push(BinOp::Ne(Ne { left: 0 }));
        r.push(BinOp::Ge(Ge { left: 0 }));
        r.push(BinOp::Gt(Gt { left: 0 }));
        proof {
            assert(r@ =~= bin_op_variants());
        }
        r
    }

    /// The canonical spelling of this operator.
    pub fn display(&self) -> (r: String)
        ensures
            r@ == bin_op_text(*self),
    {
        match self {
            BinOp::Plus(_) => "+".to_owned(),
            BinOp::Minus(_) => "-".to_owned(),
            BinOp::Star(_) => "*".to_owned(),
            BinOp::Slash(_) => "/".to_owned(),
            BinOp::Percent(_) => "%".to_owned(),
            BinOp::StarStar(_) => "**".to_owned(),
            BinOp::Caret(_) => "^".to_owned(),
            BinOp::And(_) => "&".to_owned(),
            BinOp::Or(_) => "|".to_owned(),
            BinOp::Shl(_) => "<<".to_owned(),
            BinOp::Shr(_) => ">>".to_owned(),
            BinOp::EqEq(_) => "==".to_owned(),
            BinOp::Lt(_) => "<".to_owned(),
            BinOp::Le(_) => "<=".to_owned(),
            BinOp::Ne(_) => "!=".to_owned(),
            BinOp::Ge(_) => ">=".to_owned(),
            BinOp::Gt(_) => ">".to_owned(),
        }
    }

    /// Parse-from-text lookup: exact match against the canonical
    /// spelling, case-sensitive, no partial matches.
    pub fn from_str(s: &str) -> (r: Result<BinOp, ()>)
        ensures
            r == (match bin_op_from_str_spec(s@) {
                Some(op) => Ok::<BinOp, ()>(op),
                None => Err::<BinOp, ()>(()),
            }),
    {
        if str_eq(s, "+") {
            Ok(BinOp::Plus(Plus { left: 0 }))
        } else if str_eq(s, "-") {
            Ok(BinOp::Minus(Minus { left: 0 }))
        } else if str_eq(s, "*") {
            Ok(BinOp::Star(Star { left: 0 }))
        } else if str_eq(s, "/") {
            Ok(BinOp::Slash(Slash { left: 0 }))
        } else if str_eq(s, "%") {
            Ok(BinOp::Percent(Percent { left: 0 }))
        } else if str_eq(s, "**") {
            Ok(BinOp::StarStar(StarStar { left: 0 }))
        } else if str_eq(s, "^") {
            Ok(BinOp::Caret(Caret { left: 0 }))
        } else if str_eq(s, "&") {
            Ok(BinOp::And(And { left: 0 }))
        } else if str_eq(s, "|") {
            Ok(BinOp::Or(Or { left: 0 }))
        } else if str_eq(s, "<<") {
            Ok(BinOp::Shl(Shl { left: 0 }))
        } else if str_eq(s, ">>") {
            Ok(BinOp::Shr(Shr { left: 0 }))
        } else if str_eq(s, "==") {
            Ok(BinOp::EqEq(EqEq { left: 0 }))
        } else if str_eq(s, "<") {
            Ok(BinOp::Lt(Lt { left: 0 }))
        } else if str_eq(s, "<=") {
            Ok(BinOp::Le(Le { left: 0 }))
        } else if str_eq(s, "!=") {
            Ok(BinOp::Ne(Ne { left: 0 }))
        } else if str_eq(s, ">=") {
            Ok(BinOp::Ge(Ge { left: 0 }))
        } else if str_eq(s, ">") {
            Ok(BinOp::Gt(Gt { left: 0 }))
        } else {
            Err(())
        }
    }
}

impl ToTokens for BinOp {
    open spec fn tok_spec(&self) -> Seq<Tok> {
        bin_op_toks(*self)
    }

    fn to_tokens(&self) -> (r: Vec<Tok>) {
        self.toks_vec()
    }
}

/// Law: for every operator in the table, looking its canonical
/// spelling back up returns exactly that operator.
#[verifier::rlimit(60)]
pub proof fn lemma_bin_op_from_str_display()
    ensures
        forall|i: int|
            0 <= i < bin_op_variants().len() ==> bin_op_from_str_spec(
                bin_op_text(#[trigger] bin_op_variants()[i]),
            ) == Some(bin_op_variants()[i]),
{
    reveal_strlit("!=");
    reveal_strlit("%");
    reveal_strlit("&");
    reveal_strlit("*");
    reveal_strlit("**");
    reveal_strlit("+");
    reveal_strlit("-");
    reveal_strlit("/");
    reveal_strlit("<");
    reveal_strlit("<<");
    reveal_strlit("<=");
    reveal_strlit("==");
    reveal_strlit(">");
    reveal_strlit(">=");
    reveal_strlit(">>");
    reveal_strlit("^");
    reveal_strlit("|");
    assert forall|i: int| 0 <= i < bin_op_variants().len() implies bin_op_from_str_spec(
        bin_op_text(#[trigger] bin_op_variants()[i]),
    ) == Some(bin_op_variants()[i]) by {
        if i == 0 {
            assert(bin_op_variants()[0] == BinOp::Plus(Plus { left: 0 }));
            assert(bin_op_from_str_spec(bin_op_text(bin_op_variants()[0])) == Some(
                bin_op_variants()[0],
            ));
        } else if i == 1 {
            assert(bin_op_variants()[1] == BinOp::Minus(Minus { left: 0 }));
            assert("-"@ != "+"@) by {
                assert(("-"@).len() == 1);
                assert(("+"@).len() == 1);
                assert(("-"@)[0] == '-');
                assert(("+"@)[0] == '+');
            }
            assert(bin_op_from_str_spec(bin_op_text(bin_op_variants()[1])) == Some(
                bin_op_variants()[1],
            ));
        } else if i == 2 {
            assert(bin_op_variants()[2] == BinOp::Star(Star { left: 0 }));
            assert("*"@ != "+"@) by {
                assert(("*"@).len() == 1);
                assert(("+"@).len() == 1);
                assert(("*"@)[0] == '*');
                assert(("+"@)[0] == '+');
            }
            assert("*"@ != "-"@) by {
                assert(("*"@).len() == 1);
                assert(("-"@).len() == 1);
                assert(("*"@)[0] == '*');
                assert(("-"@)[0] == '-');
            }
            assert(bin_op_from_str_spec(bin_op_text(bin_op_variants()[2])) == Some(
                bin_op_variants()[2],
            ));
        } else if i == 3 {
            assert(bin_op_variants()[3] == BinOp::Slash(Slash { left: 0 }));
            assert("/"@ != "+"@) by {
                assert(("/"@).len() == 1);
                assert(("+"@).len() == 1);
                assert(("/"@)[0] == '/');
                assert(("+"@)[0] == '+');
            }
            assert("/"@ != "-"@) by {
                assert(("/"@).len() == 1);
                assert(("-"@).len() == 1);
                assert(("/"@)[0] == '/');
                assert(("-"@)[0] == '-');
            }
            assert("/"@ != "*"@) by {
                assert(("/"@).len() == 1);
                assert(("*"@).len() == 1);
                assert(("/"@)[0] == '/');
                assert(("*"@)[0] == '*');
            }
            assert(bin_op_from_str_spec(bin_op_text(bin_op_variants()[3])) == Some(
                bin_op_variants()[3],
            ));
        } else if i == 4 {
            assert(bin_op_variants()[4] == BinOp::Percent(Percent { left: 0 }));
            assert("%"@ != "+"@) by {
                assert(("%"@).len() == 1);
                assert(("+"@).len() == 1);
                assert(("%"@)[0] == '%');
                assert(("+"@)[0] == '+');
            }
            assert("%"@ != "-"@) by {
                assert(("%"@).len() == 1);
                assert(("-"@).len() == 1);
                assert(("%"@)[0] == '%');
                assert(("-"@)[0] == '-');
            }
            assert("%"@ != "*"@) by {
                assert(("%"@).len() == 1);
                assert(("*"@).len() == 1);
                assert(("%"@)[0] == '%');
                assert(("*"@)[0] == '*');
            }
            assert("%"@ != "/"@) by {
                assert(("%"@).len() == 1);
                assert(("/"@).len() == 1);
                assert(("%"@)[0] == '%');
                assert(("/"@)[0] == '/');
            }
            assert(bin_op_from_str_spec(bin_op_text(bin_op_variants()[4])) == Some(
                bin_op_variants()[4],
            ));
        } else if i == 5 {
            assert(bin_op_variants()[5] == BinOp::StarStar(StarStar { left: 0 }));
            assert("**"@ != "+"@) by {
                assert(("**"@).len() == 2);
                assert(("+"@).len() == 1);
            }
            assert("**"@ != "-"@) by {
                assert(("**"@).len() == 2);
                assert(("-"@).len() == 1);
            }
            assert("**"@ != "*"@) by {
                assert(("**"@).len() == 2);
                assert(("*"@).len() == 1);
            }
            assert("**"@ != "/"@) by {
                assert(("**"@).len() == 2);
                assert(("/"@).len() == 1);
            }
            assert("**"@ != "%"@) by {
                assert(("**"@).len() == 2);
                assert(("%"@).len() == 1);
            }
            assert(bin_op_from_str_spec(bin_op_text(bin_op_variants()[5])) == Some(
                bin_op_variants()[5],
            ));
        } else if i == 6 {
            assert(bin_op_variants()[6] == BinOp::Caret(Caret { left: 0 }));
            assert("^"@ != "+"@) by {
                assert(("^"@).len() == 1);
                assert(("+"@).len() == 1);
                assert(("^"@)[0] == '^');
                assert(("+"@)[0] == '+');
            }
            assert("^"@ != "-"@) by {
                assert(("^"@).len() == 1);
                assert(("-"@).len() == 1);
                assert(("^"@)[0] == '^');
                assert(("-"@)[0] == '-');
            }
            assert("^"@ != "*"@) by {
                assert(("^"@).len() == 1);
                assert(("*"@).len() == 1);
                assert(("^"@)[0] == '^');
                assert(("*"@)[0] == '*');
            }
            assert("^"@ != "/"@) by {
                assert(("^"@).len() == 1);
                assert(("/"@).len() == 1);
                assert(("^"@)[0] == '^');
                assert(("/"@)[0] == '/');
            }
            assert("^"@ != "%"@) by {
                assert(("^"@).len() == 1);
                assert(("%"@).len() == 1);
                assert(("^"@)[0] == '^');
                assert(("%"@)[0] == '%');
            }
            assert("^"@ != "**"@) by {
                assert(("^"@).len() == 1);
                assert(("**"@).len() == 2);
            }
            assert(bin_op_from_str_spec(bin_op_text(bin_op_variants()[6])) == Some(
                bin_op_variants()[6],
            ));
        } else if i == 7 {
            assert(bin_op_variants()[7] == BinOp::And(And { left: 0 }));
            assert("&"@ != "+"@) by {
                assert(("&"@).len() == 1);
                assert(("+"@).len() == 1);
                assert(("&"@)[0] == '&');
                assert(("+"@)[0] == '+');
            }
            assert("&"@ != "-"@) by {
                assert(("&"@).len() == 1);
                assert(("-"@).len() == 1);
                assert(("&"@)[0] == '&');
                assert(("-"@)[0] == '-');
            }
            assert("&"@ != "*"@) by {
                assert(("&"@).len() == 1);
                assert(("*"@).len() == 1);
                assert(("&"@)[0] == '&');
                assert(("*"@)[0] == '*');
            }
            assert("&"@ != "/"@) by {
                assert(("&"@).len() == 1);
                assert(("/"@).len() == 1);
                assert(("&"@)[0] == '&');
                assert(("/"@)[0] == '/');
            }
            assert("&"@ != "%"@) by {
                assert(("&"@).len() == 1);
                assert(("%"@).len() == 1);
                assert(("&"@)[0] == '&');
                assert(("%"@)[0] == '%');
            }
            assert("&"@ != "**"@) by {
                assert(("&"@).len() == 1);
                assert(("**"@).len() == 2);
            }
            assert("&"@ != "^"@) by {
                assert(("&"@).len() == 1);
                assert(("^"@).len() == 1);
                assert(("&"@)[0] == '&');
                assert(("^"@)[0] == '^');
            }
            assert(bin_op_from_str_spec(bin_op_text(bin_op_variants()[7])) == Some(
                bin_op_variants()[7],
            ));
        } else if i == 8 {
            assert(bin_op_variants()[8] == BinOp::Or(Or { left: 0 }));
            assert("|"@ != "+"@) by {
                assert(("|"@).len() == 1);
                assert(("+"@).len() == 1);
                assert(("|"@)[0] == '|');
                assert(("+"@)[0] == '+');
            }
            assert("|"@ != "-"@) by {
                assert(("|"@).len() == 1);
                assert(("-"@).len() == 1);
                assert(("|"@)[0] == '|');
                assert(("-"@)[0] == '-');
            }
            assert("|"@ != "*"@) by {
                assert(("|"@).len() == 1);
                assert(("*"@).len() == 1);
                assert(("|"@)[0] == '|');
                assert(("*"@)[0] == '*');
            }
            assert("|"@ != "/"@) by {
                assert(("|"@).len() == 1);
                assert(("/"@).len() == 1);
                assert(("|"@)[0] == '|');
                assert(("/"@)[0] == '/');
            }
            assert("|"@ != "%"@) by {
                assert(("|"@).len() == 1);
                assert(("%"@).len() == 1);
                assert(("|"@)[0] == '|');
                assert(("%"@)[0] == '%');
            }
            assert("|"@ != "**"@) by {
                assert(("|"@).len() == 1);
                assert(("**"@).len() == 2);
            }
            assert("|"@ != "^"@) by {
                assert(("|"@).len() == 1);
                assert(("^"@).len() == 1);
                assert(("|"@)[0] == '|');
                assert(("^"@)[0] == '^');
            }
            assert("|"@ != "&"@) by {
                assert(("|"@).len() == 1);
                assert(("&"@).len() == 1);
                assert(("|"@)[0] == '|');
                assert(("&"@)[0] == '&');
            }
            assert(bin_op_from_str_spec(bin_op_text(bin_op_variants()[8])) == Some(
                bin_op_variants()[8],
            ));
        } else if i == 9 {
            assert(bin_op_variants()[9] == BinOp::Shl(Shl { left: 0 }));
            assert("<<"@ != "+"@) by {
                assert(("<<"@).len() == 2);
                assert(("+"@).len() == 1);
            }
            assert("<<"@ != "-"@) by {
                assert(("<<"@).len() == 2);
                assert(("-"@).len() == 1);
            }
            assert("<<"@ != "*"@) by {
                assert(("<<"@).len() == 2);
                assert(("*"@).len() == 1);
            }
            assert("<<"@ != "/"@) by {
                assert(("<<"@).len() == 2);
                assert(("/"@).len() == 1);
            }
            assert("<<"@ != "%"@) by {
                assert(("<<"@).len() == 2);
                assert(("%"@).len() == 1);
            }
            assert("<<"@ != "**"@) by {
                assert(("<<"@).len() == 2);
                assert(("**"@).len() == 2);
                assert(("<<"@)[0] == '<');
                assert(("**"@)[0] == '*');
            }
            assert("<<"@ != "^"@) by {
                assert(("<<"@).len() == 2);
                assert(("^"@).len() == 1);
            }
            assert("<<"@ != "&"@) by {
                assert(("<<"@).len() == 2);
                assert(("&"@).len() == 1);
            }
            assert("<<"@ != "|"@) by {
                assert(("<<"@).len() == 2);
                assert(("|"@).len() == 1);
            }
            assert(bin_op_from_str_spec(bin_op_text(bin_op_variants()[9])) == Some(
                bin_op_variants()[9],
            ));
        } else if i == 10 {
            assert(bin_op_variants()[10] == BinOp::Shr(Shr { left: 0 }));
            assert(">>"@ != "+"@) by {
                assert((">>"@).len() == 2);
                assert(("+"@).len() == 1);
            }
            assert(">>"@ != "-"@) by {
                assert((">>"@).len() == 2);
                assert(("-"@).len() == 1);
            }
            assert(">>"@ != "*"@) by {
                assert((">>"@).len() == 2);
                assert(("*"@).len() == 1);
            }
            assert(">>"@ != "/"@) by {
                assert((">>"@).len() == 2);
                assert(("/"@).len() == 1);
            }
            assert(">>"@ != "%"@) by {
                assert((">>"@).len() == 2);
                assert(("%"@).len() == 1);
            }
            assert(">>"@ != "**"@) by {
                assert((">>"@).len() == 2);
                assert(("**"@).len() == 2);
                assert((">>"@)[0] == '>');
                assert(("**"@)[0] == '*');
            }
            assert(">>"@ != "^"@) by {
                assert((">>"@).len() == 2);
                assert(("^"@).len() == 1);
            }
            assert(">>"@ != "&"@) by {
                assert((">>"@).len() == 2);
                assert(("&"@).len() == 1);
            }
            assert(">>"@ != "|"@) by {
                assert((">>"@).len() == 2);
                assert(("|"@).len() == 1);
            }
            assert(">>"@ != "<<"@) by {
                assert((">>"@).len() == 2);
                assert(("<<"@).len() == 2);
                assert((">>"@)[0] == '>');
                assert(("<<"@)[0] == '<');
            }
            assert(bin_op_from_str_spec(bin_op_text(bin_op_variants()[10])) == Some(
                bin_op_variants()[10],
            ));
        } else if i == 11 {
            assert(bin_op_variants()[11] == BinOp::EqEq(EqEq { left: 0 }));
            assert("=="@ != "+"@) by {
                assert(("=="@).len() == 2);
                assert(("+"@).len() == 1);
            }
            assert("=="@ != "-"@) by {
                assert(("=="@).len() == 2);
                assert(("-"@).len() == 1);
            }
            assert("=="@ != "*"@) by {
                assert(("=="@).len() == 2);
                assert(("*"@).len() == 1);
            }
            assert("=="@ != "/"@) by {
                assert(("=="@).len() == 2);
                assert(("/"@).len() == 1);
            }
            assert("=="@ != "%"@) by {
                assert(("=="@).len() == 2);
                assert(("%"@).len() == 1);
            }
            assert("=="@ != "**"@) by {
                assert(("=="@).len() == 2);
                assert(("**"@).len() == 2);
                assert(("=="@)[0] == '=');
                assert(("**"@)[0] == '*');
            }
            assert("=="@ != "^"@) by {
                assert(("=="@).len() == 2);
                assert(("^"@).len() == 1);
            }
            assert("=="@ != "&"@) by {
                assert(("=="@).len() == 2);
                assert(("&"@).len() == 1);
            }
            assert("=="@ != "|"@) by {
                assert(("=="@).len() == 2);
                assert(("|"@).len() == 1);
            }
            assert("=="@ != "<<"@) by {
                assert(("=="@).len() == 2);
                assert(("<<"@).len() == 2);
                assert(("=="@)[0] == '=');
                assert(("<<"@)[0] == '<');
            }
            assert("=="@ != ">>"@) by {
                assert(("=="@).len() == 2);
                assert((">>"@).len() == 2);
                assert(("=="@)[0] == '=');
                assert((">>"@)[0] == '>');
            }
            assert(bin_op_from_str_spec(bin_op_text(bin_op_variants()[11])) == Some(
                bin_op_variants()[11],
            ));
        } else if i == 12 {
            assert(bin_op_variants()[12] == BinOp::Lt(Lt { left: 0 }));
            assert("<"@ != "+"@) by {
                assert(("<"@).len() == 1);
                assert(("+"@).len() == 1);
                assert(("<"@)[0] == '<');
                assert(("+"@)[0] == '+');
            }
            assert("<"@ != "-"@) by {
                assert(("<"@).len() == 1);
                assert(("-"@).len() == 1);
                assert(("<"@)[0] == '<');
                assert(("-"@)[0] == '-');
            }
            assert("<"@ != "*"@) by {
                assert(("<"@).len() == 1);
                assert(("*"@).len() == 1);
                assert(("<"@)[0] == '<');
                assert(("*"@)[0] == '*');
            }
            assert("<"@ != "/"@) by {
                assert(("<"@).len() == 1);
                assert(("/"@).len() == 1);
                assert(("<"@)[0] == '<');
                assert(("/"@)[0] == '/');
            }
            assert("<"@ != "%"@) by {
                assert(("<"@).len() == 1);
                assert(("%"@).len() == 1);
                assert(("<"@)[0] == '<');
                assert(("%"@)[0] == '%');
            }
            assert("<"@ != "**"@) by {
                assert(("<"@).len() == 1);
                assert(("**"@).len() == 2);
            }
            assert("<"@ != "^"@) by {
                assert(("<"@).len() == 1);
                assert(("^"@).len() == 1);
                assert(("<"@)[0] == '<');
                assert(("^"@)[0] == '^');
            }
            assert("<"@ != "&"@) by {
                assert(("<"@).len() == 1);
                assert(("&"@).len() == 1);
                assert(("<"@)[0] == '<');
                assert(("&"@)[0] == '&');
            }
            assert("<"@ != "|"@) by {
                assert(("<"@).len() == 1);
                assert(("|"@).len() == 1);
                assert(("<"@)[0] == '<');
                assert(("|"@)[0] == '|');
            }
            assert("<"@ != "<<"@) by {
                assert(("<"@).len() == 1);
                assert(("<<"@).len() == 2);
            }
            assert("<"@ != ">>"@) by {
                assert(("<"@).len() == 1);
                assert((">>"@).len() == 2);
            }
            assert("<"@ != "=="@) by {
                assert(("<"@).len() == 1);
                assert(("=="@).len() == 2);
            }
            assert(bin_op_from_str_spec(bin_op_text(bin_op_variants()[12])) == Some(
                bin_op_variants()[12],
            ));
        } else if i == 13 {
            assert(bin_op_variants()[13] == BinOp::Le(Le { left: 0 }));
            assert("<="@ != "+"@) by {
                assert(("<="@).len() == 2);
                assert(("+"@).len() == 1);
            }
            assert("<="@ != "-"@) by {
                assert(("<="@).len() == 2);
                assert(("-"@).len() == 1);
            }
            assert("<="@ != "*"@) by {
                assert(("<="@).len() == 2);
                assert(("*"@).len() == 1);
            }
            assert("<="@ != "/"@) by {
                assert(("<="@).len() == 2);
                assert(("/"@).len() == 1);
            }
            assert("<="@ != "%"@) by {
                assert(("<="@).len() == 2);
                assert(("%"@).len() == 1);
            }
            assert("<="@ != "**"@) by {
                assert(("<="@).len() == 2);
                assert(("**"@).len() == 2);
                assert(("<="@)[0] == '<');
                assert(("**"@)[0] == '*');
            }
            assert("<="@ != "^"@) by {
                assert(("<="@).len() == 2);
                assert(("^"@).len() == 1);
            }
            assert("<="@ != "&"@) by {
                assert(("<="@).len() == 2);
                assert(("&"@).len() == 1);
            }
            assert("<="@ != "|"@) by {
                assert(("<="@).len() == 2);
                assert(("|"@).len() == 1);
            }
            assert("<="@ != "<<"@) by {
                assert(("<="@).len() == 2);
                assert(("<<"@).len() == 2);
                assert(("<="@)[1] == '=');
                assert(("<<"@)[1] == '<');
            }
            assert("<="@ != ">>"@) by {
                assert(("<="@).len() == 2);
                assert((">>"@).len() == 2);
                assert(("<="@)[0] == '<');
                assert((">>"@)[0] == '>');
            }
            assert("<="@ != "=="@) by {
                assert(("<="@).len() == 2);
                assert(("=="@).len() == 2);
                assert(("<="@)[0] == '<');
                assert(("=="@)[0] == '=');
            }
            assert("<="@ != "<"@) by {
                assert(("<="@).len() == 2);
                assert(("<"@).len() == 1);
            }
            assert(bin_op_from_str_spec(bin_op_text(bin_op_variants()[13])) == Some(
                bin_op_variants()[13],
            ));
        } else if i == 14 {
            assert(bin_op_variants()[14] == BinOp::Ne(Ne { left: 0 }));
            assert("!="@ != "+"@) by {
                assert(("!="@).len() == 2);
                assert(("+"@).len() == 1);
            }
            assert("!="@ != "-"@) by {
                assert(("!="@).len() == 2);
                assert(("-"@).len() == 1);
            }
            assert("!="@ != "*"@) by {
                assert(("!="@).len() == 2);
                assert(("*"@).len() == 1);
            }
            assert("!="@ != "/"@) by {
                assert(("!="@).len() == 2);
                assert(("/"@).len() == 1);
            }
            assert("!="@ != "%"@) by {
                assert(("!="@).len() == 2);
                assert(("%"@).len() == 1);
            }
            assert("!="@ != "**"@) by {
                assert(("!="@).len() == 2);
                assert(("**"@).len() == 2);
                assert(("!="@)[0] == '!');
                assert(("**"@)[0] == '*');
            }
            assert("!="@ != "^"@) by {
                assert(("!="@).len() == 2);
                assert(("^"@).len() == 1);
            }
            assert("!="@ != "&"@) by {
                assert(("!="@).len() == 2);
                assert(("&"@).len() == 1);
            }
            assert("!="@ != "|"@) by {
                assert(("!="@).len() == 2);
                assert(("|"@).len() == 1);
            }
            assert("!="@ != "<<"@) by {
                assert(("!="@).len() == 2);
                assert(("<<"@).len() == 2);
                assert(("!="@)[0] == '!');
                assert(("<<"@)[0] == '<');
            }
            assert("!="@ != ">>"@) by {
                assert(("!="@).len() == 2);
                assert((">>"@).len() == 2);
                assert(("!="@)[0] == '!');
                assert((">>"@)[0] == '>');
            }
            assert("!="@ != "=="@) by {
                assert(("!="@).len() == 2);
                assert(("=="@).len() == 2);
                assert(("!="@)[0] == '!');
                assert(("=="@)[0] == '=');
            }
            assert("!="@ != "<"@) by {
                assert(("!="@).len() == 2);
                assert(("<"@).len() == 1);
            }
            assert("!="@ != "<="@) by {
                assert(("!="@).len() == 2);
                assert(("<="@).len() == 2);
                assert(("!="@)[0] == '!');
                assert(("<="@)[0] == '<');
            }
            assert(bin_op_from_str_spec(bin_op_text(bin_op_variants()[14])) == Some(
                bin_op_variants()[14],
            ));
        } else if i == 15 {
            assert(bin_op_variants()[15] == BinOp::Ge(Ge { left: 0 }));
            assert(">="@ != "+"@) by {
                assert((">="@).len() == 2);
                assert(("+"@).len() == 1);
            }
            assert(">="@ != "-"@) by {
                assert((">="@).len() == 2);
                assert(("-"@).len() == 1);
            }
            assert(">="@ != "*"@) by {
                assert((">="@).len() == 2);
                assert(("*"@).len() == 1);
            }
            assert(">="@ != "/"@) by {
                assert((">="@).len() == 2);
                assert(("/"@).len() == 1);
            }
            assert(">="@ != "%"@) by {
                assert((">="@).len() == 2);
                assert(("%"@).len() == 1);
            }
            assert(">="@ != "**"@) by {
                assert((">="@).len() == 2);
                assert(("**"@).len() == 2);
                assert((">="@)[0] == '>');
                assert(("**"@)[0] == '*');
            }
            assert(">="@ != "^"@) by {
                assert((">="@).len() == 2);
                assert(("^"@).len() == 1);
            }
            assert(">="@ != "&"@) by {
                assert((">="@).len() == 2);
                assert(("&"@).len() == 1);
            }
            assert(">="@ != "|"@) by {
                assert((">="@).len() == 2);
                assert(("|"@).len() == 1);
            }
            assert(">="@ != "<<"@) by {
                assert((">="@).len() == 2);
                assert(("<<"@).len() == 2);
                assert((">="@)[0] == '>');
                assert(("<<"@)[0] == '<');
            }
            assert(">="@ != ">>"@) by {
                assert((">="@).len() == 2);
                assert((">>"@).len() == 2);
                assert((">="@)[1] == '=');
                assert((">>"@)[1] == '>');
            }
            assert(">="@ != "=="@) by {
                assert((">="@).len() == 2);
                assert(("=="@).len() == 2);
                assert((">="@)[0] == '>');
                assert(("=="@)[0] == '=');
            }
            assert(">="@ != "<"@) by {
                assert((">="@).len() == 2);
                assert(("<"@).len() == 1);
            }
            assert(">="@ != "<="@) by {
                assert((">="@).len() == 2);
                assert(("<="@).len() == 2);
                assert((">="@)[0] == '>');
                assert(("<="@)[0] == '<');
            }
            assert(">="@ != "!="@) by {
                assert((">="@).len() == 2);
                assert(("!="@).len() == 2);
                assert((">="@)[0] == '>');
                assert(("!="@)[0] == '!');
            }
            assert(bin_op_from_str_spec(bin_op_text(bin_op_variants()[15])) == Some(
                bin_op_variants()[15],
            ));
        } else if i == 16 {
            assert(bin_op_variants()[16] == BinOp::Gt(Gt { left: 0 }));
            assert(">"@ != "+"@) by {
                assert((">"@).len() == 1);
                assert(("+"@).len() == 1);
                assert((">"@)[0] == '>');
                assert(("+"@)[0] == '+');
            }
            assert(">"@ != "-"@) by {
                assert((">"@).len() == 1);
                assert(("-"@).len() == 1);
                assert((">"@)[0] == '>');
                assert(("-"@)[0] == '-');
            }
            assert(">"@ != "*"@) by {
                assert((">"@).len() == 1);
                assert(("*"@).len() == 1);
                assert((">"@)[0] == '>');
                assert(("*"@)[0] == '*');
            }
            assert(">"@ != "/"@) by {
                assert((">"@).len() == 1);
                assert(("/"@).len() == 1);
                assert((">"@)[0] == '>');
                assert(("/"@)[0] == '/');
            }
            assert(">"@ != "%"@) by {
                assert((">"@).len() == 1);
                assert(("%"@).len() == 1);
                assert((">"@)[0] == '>');
                assert(("%"@)[0] == '%');
            }
            assert(">"@ != "**"@) by {
                assert((">"@).len() == 1);
                assert(("**"@).len() == 2);
            }
            assert(">"@ != "^"@) by {
                assert((">"@).len() == 1);
                assert(("^"@).len() == 1);
                assert((">"@)[0] == '>');
                assert(("^"@)[0] == '^');
            }
            assert(">"@ != "&"@) by {
                assert((">"@).len() == 1);
                assert(("&"@).len() == 1);
                assert((">"@)[0] == '>');
                assert(("&"@)[0] == '&');
            }
            assert(">"@ != "|"@) by {
                assert((">"@).len() == 1);
                assert(("|"@).len() == 1);
                assert((">"@)[0] == '>');
                assert(("|"@)[0] == '|');
            }
            assert(">"@ != "<<"@) by {
                assert((">"@).len() == 1);
                assert(("<<"@).len() == 2);
            }
            assert(">"@ != ">>"@) by {
                assert((">"@).len() == 1);
                assert((">>"@).len() == 2);
            }
            assert(">"@ != "=="@) by {
                assert((">"@).len() == 1);
                assert(("=="@).len() == 2);
            }
            assert(">"@ != "<"@) by {
                assert((">"@).len() == 1);
                assert(("<"@).len() == 1);
                assert((">"@)[0] == '>');
                assert(("<"@)[0] == '<');
            }
            assert(">"@ != "<="@) by {
                assert((">"@).len() == 1);
                assert(("<="@).len() == 2);
            }
            assert(">"@ != "!="@) by {
                assert((">"@).len() == 1);
                assert(("!="@).len() == 2);
            }
            assert(">"@ != ">="@) by {
                assert((">"@).len() == 1);
                assert((">="@).len() == 2);
            }
            assert(bin_op_from_str_spec(bin_op_text(bin_op_variants()[16])) == Some(
                bin_op_variants()[16],
            ));
        } else {
        }
    }
}

/// The unary-operator table.
#[derive(PartialEq, Eq, Structural, Debug)]
pub enum UnOp {
    Not(Not),
    Minus(Minus),
}

pub open spec fn un_op_toks(n: UnOp) -> Seq<Tok> {
    match n {
        UnOp::Not(x) => seq![Tok::Not(x)],
        UnOp::Minus(x) => seq![Tok::Minus(x)],
    }
}

/// The canonical spelling of each operator.
pub open spec fn un_op_text(n: UnOp) -> Seq<char> {
    match n {
        UnOp::Not(_) => "!"@,
        UnOp::Minus(_) => "-"@,
    }
}

/// Every operator of the table, in table order, at the zero offset.
pub open spec fn un_op_variants() -> Seq<UnOp> {
    seq![
        UnOp::Not(Not { left: 0 }),
        UnOp::Minus(Minus { left: 0 }),
    ]
}

/// Exact, case-sensitive lookup of an operator by its spelling.
pub open spec fn un_op_from_str_spec(s: Seq<char>) -> Option<UnOp> {
    if s == "!"@ {
        Some(UnOp::Not(Not { left: 0 }))
    } else if s == "-"@ {
        Some(UnOp::Minus(Minus { left: 0 }))
    } else {
        None
    }
}

impl UnOp {
    #[verifier::rlimit(50)]
    pub(crate) fn toks_vec(&self) -> (r: Vec<Tok>)
        ensures
            r@ == un_op_toks(*self),
    {
        let mut acc: Vec<Tok> = Vec::new();
        match self {
            UnOp::Not(x) => acc.push(Tok::Not(*x)),
            UnOp::Minus(x) => acc.push(Tok::Minus(*x)),
        }
        proof {
            assert(acc@ =~= un_op_toks(*self));
        }
        acc
    }

    /// Every operator of the table, in table order.
    pub fn variants() -> (r: Vec<UnOp>)
        ensures
            r@ == un_op_variants(),
    {
        let mut r: Vec<UnOp> = Vec::new();
        r.push(UnOp::Not(Not { left: 0 }));
        r.push(UnOp::Minus(Minus { left: 0 }));
        proof {
            assert(r@ =~= un_op_variants());
        }
        r
    }

    /// The canonical spelling of this operator.
    pub fn display(&self) -> (r: String)
        ensures
            r@ == un_op_text(*self),
    {
        match self {
            UnOp::Not(_) => "!".to_owned(),
            UnOp::Minus(_) => "-".to_owned(),
        }
    }

    /// Parse-from-text lookup: exact match against the canonical
    /// spelling, case-sensitive, no partial matches.
    pub fn from_str(s: &str) -> (r: Result<UnOp, ()>)
        ensures
            r == (match un_op_from_str_spec(s@) {
                Some(op) => Ok::<UnOp, ()>(op),
                None => Err::<UnOp, ()>(()),
            }),
    {
        if str_eq(s, "!") {
            Ok(UnOp::Not(Not { left: 0 }))
        } else if str_eq(s, "-") {
            Ok(UnOp::Minus(Minus { left: 0 }))
        } else {
            Err(())
        }
    }
}

impl ToTokens for UnOp {
    open spec fn tok_spec(&self) -> Seq<Tok> {
        un_op_toks(*self)
    }

    fn to_tokens(&self) -> (r: Vec<Tok>) {
        self.toks_vec()
    }
}

/// Law: for every operator in the table, looking its canonical
/// spelling back up returns exactly that operator.
#[verifier::rlimit(60)]
pub proof fn lemma_un_op_from_str_display()
    ensures
        forall|i: int|
            0 <= i < un_op_variants().len() ==> un_op_from_str_spec(
                un_op_text(#[trigger] un_op_variants()[i]),
            ) == Some(un_op_variants()[i]),
{
    reveal_strlit("!");
    reveal_strlit("-");
    assert forall|i: int| 0 <= i < un_op_variants().len() implies un_op_from_str_spec(
        un_op_text(#[trigger] un_op_variants()[i]),
    ) == Some(un_op_variants()[i]) by {
        if i == 0 {
            assert(un_op_variants()[0] == UnOp::Not(Not { left: 0 }));
            assert(un_op_from_str_spec(un_op_text(un_op_variants()[0])) == Some(
                un_op_variants()[0],
            ));
        } else if i == 1 {
            assert(un_op_variants()[1] == UnOp::Minus(Minus { left: 0 }));
            assert("-"@ != "!"@) by {
                assert(("-"@).len() == 1);
                assert(("!"@).len() == 1);
                assert(("-"@)[0] == '-');
                assert(("!"@)[0] == '!');
            }
            assert(un_op_from_str_spec(un_op_text(un_op_variants()[1])) == Some(
                un_op_variants()[1],
            ));
        } else {
        }
    }
}

/// The assignment-operator table.
#[derive(PartialEq, Eq, Structural, Debug)]
pub enum AssOp {
    Eq(TokenEq),
    PlusEq(PlusEq),
    MinusEq(MinusEq),
    StarEq(StarEq),
    SlashEq(SlashEq),
    PercentEq(PercentEq),
    StarStarEq(StarStarEq),
    CaretEq(CaretEq),
    AndEq(AndEq),
    OrEq(OrEq),
    ShlEq(ShlEq),
    ShrEq(ShrEq),
}

pub open spec fn ass_op_toks(n: AssOp) -> Seq<Tok> {
    match n {
        AssOp::Eq(x) => seq![Tok::Eq(x)],
        AssOp::PlusEq(x) => seq![Tok::PlusEq(x)],
        AssOp::MinusEq(x) => seq![Tok::MinusEq(x)],
        AssOp::StarEq(x) => seq![Tok::StarEq(x)],
        AssOp::SlashEq(x) => seq![Tok::SlashEq(x)],
        AssOp::PercentEq(x) => seq![Tok::PercentEq(x)],
        AssOp::StarStarEq(x) => seq![Tok::StarStarEq(x)],
        AssOp::CaretEq(x) => seq![Tok::CaretEq(x)],
        AssOp::AndEq(x) => seq![Tok::AndEq(x)],
        AssOp::OrEq(x) => seq![Tok::OrEq(x)],
        AssOp::ShlEq(x) => seq![Tok::ShlEq(x)],
        AssOp::ShrEq(x) => seq![Tok::ShrEq(x)],
    }
}

/// The canonical spelling of each operator.
pub open spec fn ass_op_text(n: AssOp) -> Seq<char> {
    match n {
        AssOp::Eq(_) => "="@,
        AssOp::PlusEq(_) => "+="@,
        AssOp::MinusEq(_) => "-="@,
        AssOp::StarEq(_) => "*="@,
        AssOp::SlashEq(_) => "/="@,
        AssOp::PercentEq(_) => "%="@,
        AssOp::StarStarEq(_) => "**="@,
        AssOp::CaretEq(_) => "^="@,
        AssOp::AndEq(_) => "&="@,
        AssOp::OrEq(_) => "|="@,
        AssOp::ShlEq(_) => "<<="@,
        AssOp::ShrEq(_) => ">>="@,
    }
}

/// Every operator of the table, in table order, at the zero offset.
pub open spec fn ass_op_variants() -> Seq<AssOp> {
    seq![
        AssOp::Eq(TokenEq { left: 0 }),
        AssOp::PlusEq(PlusEq { left: 0 }),
        AssOp::MinusEq(MinusEq { left: 0 }),
        AssOp::StarEq(StarEq { left: 0 }),
        AssOp::SlashEq(SlashEq { left: 0 }),
        AssOp::PercentEq(PercentEq { left: 0 }),
        AssOp::StarStarEq(StarStarEq { left: 0 }),
        AssOp::CaretEq(CaretEq { left: 0 }),
        AssOp::AndEq(AndEq { left: 0 }),
        AssOp::OrEq(OrEq { left: 0 }),
        AssOp::ShlEq(ShlEq { left: 0 }),
        AssOp::ShrEq(ShrEq { left: 0 }),
    ]
}

/// Exact, case-sensitive lookup of an operator by its spelling.
pub open spec fn ass_op_from_str_spec(s: Seq<char>) -> Option<AssOp> {
    if s == "="@ {
        Some(AssOp::Eq(TokenEq { left: 0 }))
    } else if s == "+="@ {
        Some(AssOp::PlusEq(PlusEq { left: 0 }))
    } else if s == "-="@ {
        Some(AssOp::MinusEq(MinusEq { left: 0 }))
    } else if s == "*="@ {
        Some(AssOp::StarEq(StarEq { left: 0 }))
    } else if s == "/="@ {
        Some(AssOp::SlashEq(SlashEq { left: 0 }))
    } else if s == "%="@ {
        Some(AssOp::PercentEq(PercentEq { left: 0 }))
    } else if s == "**="@ {
        Some(AssOp::StarStarEq(StarStarEq { left: 0 }))
    } else if s == "^="@ {
        Some(AssOp::CaretEq(CaretEq { left: 0 }))
    } else if s == "&="@ {
        Some(AssOp::AndEq(AndEq { left: 0 }))
    } else if s == "|="@ {
        Some(AssOp::OrEq(OrEq { left: 0 }))
    } else if s == "<<="@ {
        Some(AssOp::ShlEq(ShlEq { left: 0 }))
    } else if s == ">>="@ {
        Some(AssOp::ShrEq(ShrEq { left: 0 }))
    } else {
        None
    }
}

impl AssOp {
    #[verifier::rlimit(50)]
    pub(crate) fn toks_vec(&self) -> (r: Vec<Tok>)
        ensures
            r@ == ass_op_toks(*self),
    {
        let mut acc: Vec<Tok> = Vec::new();
        match self {
            AssOp::Eq(x) => acc.push(Tok::Eq(*x)),
            AssOp::PlusEq(x) => acc.push(Tok::PlusEq(*x)),
            AssOp::MinusEq(x) => acc.push(Tok::MinusEq(*x)),
            AssOp::StarEq(x) => acc.push(Tok::StarEq(*x)),
            AssOp::SlashEq(x) => acc.push(Tok::SlashEq(*x)),
            AssOp::PercentEq(x) => acc.push(Tok::PercentEq(*x)),
            AssOp::StarStarEq(x) => acc.push(Tok::StarStarEq(*x)),
            AssOp::CaretEq(x) => acc.push(Tok::CaretEq(*x)),
            AssOp::AndEq(x) => acc.push(Tok::AndEq(*x)),
            AssOp::OrEq(x) => acc.push(Tok::OrEq(*x)),
            AssOp::ShlEq(x) => acc.push(Tok::ShlEq(*x)),
            AssOp::ShrEq(x) => acc.push(Tok::ShrEq(*x)),
        }
        proof {
            assert(acc@ =~= ass_op_toks(*self));
        }
        acc
    }

    /// Every operator of the table, in table order.
    pub fn variants() -> (r: Vec<AssOp>)
        ensures
            r@ == ass_op_variants(),
    {
        let mut r: Vec<AssOp> = Vec::new();
        r.push(AssOp::Eq(TokenEq { left: 0 }));
        r.push(AssOp::PlusEq(PlusEq { left: 0 }));
        r.push(AssOp::MinusEq(MinusEq { left: 0 }));
        r.push(AssOp::StarEq(StarEq { left: 0 }));
        r.push(AssOp::SlashEq(SlashEq { left: 0 }));
        r.push(AssOp::PercentEq(PercentEq { left: 0 }));
        r.push(AssOp::StarStarEq(StarStarEq { left: 0 }));
        r.push(AssOp::CaretEq(CaretEq { left: 0 }));
        r.push(AssOp::AndEq(AndEq { left: 0 }));
        r.push(AssOp::OrEq(OrEq { left: 0 }));
        r.push(AssOp::ShlEq(ShlEq { left: 0 }));
        r.push(AssOp::ShrEq(ShrEq { left: 0 }));
        proof {
            assert(r@ =~= ass_op_variants());
        }
        r
    }

    /// The canonical spelling of this operator.
    pub fn display(&self) -> (r: String)
        ensures
            r@ == ass_op_text(*self),
    {
        match self {
            AssOp::Eq(_) => "=".to_owned(),
            AssOp::PlusEq(_) => "+=".to_owned(),
            AssOp::MinusEq(_) => "-=".to_owned(),
            AssOp::StarEq(_) => "*=".to_owned(),
            AssOp::SlashEq(_) => "/=".to_owned(),
            AssOp::PercentEq(_) => "%=".to_owned(),
            AssOp::StarStarEq(_) => "**=".to_owned(),
            AssOp::CaretEq(_) => "^=".to_owned(),
            AssOp::AndEq(_) => "&=".to_owned(),
            AssOp::OrEq(_) => "|=".to_owned(),
            AssOp::ShlEq(_) => "<<=".to_owned(),
            AssOp::ShrEq(_) => ">>=".to_owned(),
        }
    }

    /// Parse-from-text lookup: exact match against the canonical
    /// spelling, case-sensitive, no partial matches.
    pub fn from_str(s: &str) -> (r: Result<AssOp, ()>)
        ensures
            r == (match ass_op_from_str_spec(s@) {
                Some(op) => Ok::<AssOp, ()>(op),
                None => Err::<AssOp, ()>(()),
            }),
    {
        if str_eq(s, "=") {
            Ok(AssOp::Eq(TokenEq { left: 0 }))
        } else if str_eq(s, "+=") {
            Ok(AssOp::PlusEq(PlusEq { left: 0 }))
        } else if str_eq(s, "-=") {
            Ok(AssOp::MinusEq(MinusEq { left: 0 }))
        } else if str_eq(s, "*=") {
            Ok(AssOp::StarEq(StarEq { left: 0 }))
        } else if str_eq(s, "/=") {
            Ok(AssOp::SlashEq(SlashEq { left: 0 }))
        } else if str_eq(s, "%=") {
            Ok(AssOp::PercentEq(PercentEq { left: 0 }))
        } else if str_eq(s, "**=") {
            Ok(AssOp::StarStarEq(StarStarEq { left: 0 }))
        } else if str_eq(s, "^=") {
            Ok(AssOp::CaretEq(CaretEq { left: 0 }))
        } else if str_eq(s, "&=") {
            Ok(AssOp::AndEq(AndEq { left: 0 }))
        } else if str_eq(s, "|=") {
            Ok(AssOp::OrEq(OrEq { left: 0 }))
        } else if str_eq(s, "<<=") {
            Ok(AssOp::ShlEq(ShlEq { left: 0 }))
        } else if str_eq(s, ">>=") {
            Ok(AssOp::ShrEq(ShrEq { left: 0 }))
        } else {
            Err(())
        }
    }
}

impl ToTokens for AssOp {
    open spec fn tok_spec(&self) -> Seq<Tok> {
        ass_op_toks(*self)
    }

    fn to_tokens(&self) -> (r: Vec<Tok>) {
        self.toks_vec()
    }
}

/// Law: for every operator in the table, looking its canonical
/// spelling back up returns exactly that operator.
#[verifier::rlimit(60)]
pub proof fn lemma_ass_op_from_str_display()
    ensures
        forall|i: int|
            0 <= i < ass_op_variants().len() ==> ass_op_from_str_spec(
                ass_op_text(#[trigger] ass_op_variants()[i]),
            ) == Some(ass_op_variants()[i]),
{
    reveal_strlit("%=");
    reveal_strlit("&=");
    reveal_strlit("**=");
    reveal_strlit("*=");
    reveal_strlit("+=");
    reveal_strlit("-=");
    reveal_strlit("/=");
    reveal_strlit("<<=");
    reveal_strlit("=");
    reveal_strlit(">>=");
    reveal_strlit("^=");
    reveal_strlit("|=");
    assert forall|i: int| 0 <= i < ass_op_variants().len() implies ass_op_from_str_spec(
        ass_op_text(#[trigger] ass_op_variants()[i]),
    ) == Some(ass_op_variants()[i]) by {
        if i == 0 {
            assert(ass_op_variants()[0] == AssOp::Eq(TokenEq { left: 0 }));
            assert(ass_op_from_str_spec(ass_op_text(ass_op_variants()[0])) == Some(
                ass_op_variants()[0],
            ));
        } else if i == 1 {
            assert(ass_op_variants()[1] == AssOp::PlusEq(PlusEq { left: 0 }));
            assert("+="@ != "="@) by {
                assert(("+="@).len() == 2);
                assert(("="@).len() == 1);
            }
            assert(ass_op_from_str_spec(ass_op_text(ass_op_variants()[1])) == Some(
                ass_op_variants()[1],
            ));
        } else if i == 2 {
            assert(ass_op_variants()[2] == AssOp::MinusEq(MinusEq { left: 0 }));
            assert("-="@ != "="@) by {
                assert(("-="@).len() == 2);
                assert(("="@).len() == 1);
            }
            assert("-="@ != "+="@) by {
                assert(("-="@).len() == 2);
                assert(("+="@).len() == 2);
                assert(("-="@)[0] == '-');
                assert(("+="@)[0] == '+');
            }
            assert(ass_op_from_str_spec(ass_op_text(ass_op_variants()[2])) == Some(
                ass_op_variants()[2],
            ));
        } else if i == 3 {
            assert(ass_op_variants()[3] == AssOp::StarEq(StarEq { left: 0 }));
            assert("*="@ != "="@) by {
                assert(("*="@).len() == 2);
                assert(("="@).len() == 1);
            }
            assert("*="@ != "+="@) by {
                assert(("*="@).len() == 2);
                assert(("+="@).len() == 2);
                assert(("*="@)[0] == '*');
                assert(("+="@)[0] == '+');
            }
            assert("*="@ != "-="@) by {
                assert(("*="@).len() == 2);
                assert(("-="@).len() == 2);
                assert(("*="@)[0] == '*');
                assert(("-="@)[0] == '-');
            }
            assert(ass_op_from_str_spec(ass_op_text(ass_op_variants()[3])) == Some(
                ass_op_variants()[3],
            ));
        } else if i == 4 {
            assert(ass_op_variants()[4] == AssOp::SlashEq(SlashEq { left: 0 }));
            assert("/="@ != "="@) by {
                assert(("/="@).len() == 2);
                assert(("="@).len() == 1);
            }
            assert("/="@ != "+="@) by {
                assert(("/="@).len() == 2);
                assert(("+="@).len() == 2);
                assert(("/="@)[0] == '/');
                assert(("+="@)[0] == '+');
            }
            assert("/="@ != "-="@) by {
                assert(("/="@).len() == 2);
                assert(("-="@).len() == 2);
                assert(("/="@)[0] == '/');
                assert(("-="@)[0] == '-');
            }
            assert("/="@ != "*="@) by {
                assert(("/="@).len() == 2);
                assert(("*="@).len() == 2);
                assert(("/="@)[0] == '/');
                assert(("*="@)[0] == '*');
            }
            assert(ass_op_from_str_spec(ass_op_text(ass_op_variants()[4])) == Some(
                ass_op_variants()[4],
            ));
        } else if i == 5 {
            assert(ass_op_variants()[5] == AssOp::PercentEq(PercentEq { left: 0 }));
            assert("%="@ != "="@) by {
                assert(("%="@).len() == 2);
                assert(("="@).len() == 1);
            }
            assert("%="@ != "+="@) by {
                assert(("%="@).len() == 2);
                assert(("+="@).len() == 2);
                assert(("%="@)[0] == '%');
                assert(("+="@)[0] == '+');
            }
            assert("%="@ != "-="@) by {
                assert(("%="@).len() == 2);
                assert(("-="@).len() == 2);
                assert(("%="@)[0] == '%');
                assert(("-="@)[0] == '-');
            }
            assert("%="@ != "*="@) by {
                assert(("%="@).len() == 2);
                assert(("*="@).len() == 2);
                assert(("%="@)[0] == '%');
                assert(("*="@)[0] == '*');
            }
            assert("%="@ != "/="@) by {
                assert(("%="@).len() == 2);
                assert(("/="@).len() == 2);
                assert(("%="@)[0] == '%');
                assert(("/="@)[0] == '/');
            }
            assert(ass_op_from_str_spec(ass_op_text(ass_op_variants()[5])) == Some(
                ass_op_variants()[5],
            ));
        } else if i == 6 {
            assert(ass_op_variants()[6] == AssOp::StarStarEq(StarStarEq { left: 0 }));
            assert("**="@ != "="@) by {
                assert(("**="@).len() == 3);
                assert(("="@).len() == 1);
            }
            assert("**="@ != "+="@) by {
                assert(("**="@).len() == 3);
                assert(("+="@).len() == 2);
            }
            assert("**="@ != "-="@) by {
                assert(("**="@).len() == 3);
                assert(("-="@).len() == 2);
            }
            assert("**="@ != "*="@) by {
                assert(("**="@).len() == 3);
                assert(("*="@).len() == 2);
            }
            assert("**="@ != "/="@) by {
                assert(("**="@).len() == 3);
                assert(("/="@).len() == 2);
            }
            assert("**="@ != "%="@) by {
                assert(("**="@).len() == 3);
                assert(("%="@).len() == 2);
            }
            assert(ass_op_from_str_spec(ass_op_text(ass_op_variants()[6])) == Some(
                ass_op_variants()[6],
            ));
        } else if i == 7 {
            assert(ass_op_variants()[7] == AssOp::CaretEq(CaretEq { left: 0 }));
            assert("^="@ != "="@) by {
                assert(("^="@).len() == 2);
                assert(("="@).len() == 1);
            }
            assert("^="@ != "+="@) by {
                assert(("^="@).len() == 2);
                assert(("+="@).len() == 2);
                assert(("^="@)[0] == '^');
                assert(("+="@)[0] == '+');
            }
            assert("^="@ != "-="@) by {
                assert(("^="@).len() == 2);
                assert(("-="@).len() == 2);
                assert(("^="@)[0] == '^');
                assert(("-="@)[0] == '-');
            }
            assert("^="@ != "*="@) by {
                assert(("^="@).len() == 2);
                assert(("*="@).len() == 2);
                assert(("^="@)[0] == '^');
                assert(("*="@)[0] == '*');
            }
            assert("^="@ != "/="@) by {
                assert(("^="@).len() == 2);
                assert(("/="@).len() == 2);
                assert(("^="@)[0] == '^');
                assert(("/="@)[0] == '/');
            }
            assert("^="@ != "%="@) by {
                assert(("^="@).len() == 2);
                assert(("%="@).len() == 2);
                assert(("^="@)[0] == '^');
                assert(("%="@)[0] == '%');
            }
            assert("^="@ != "**="@) by {
                assert(("^="@).len() == 2);
                assert(("**="@).len() == 3);
            }
            assert(ass_op_from_str_spec(ass_op_text(ass_op_variants()[7])) == Some(
                ass_op_variants()[7],
            ));
        } else if i == 8 {
            assert(ass_op_variants()[8] == AssOp::AndEq(AndEq { left: 0 }));
            assert("&="@ != "="@) by {
                assert(("&="@).len() == 2);
                assert(("="@).len() == 1);
            }
            assert("&="@ != "+="@) by {
                assert(("&="@).len() == 2);
                assert(("+="@).len() == 2);
                assert(("&="@)[0] == '&');
                assert(("+="@)[0] == '+');
            }
            assert("&="@ != "-="@) by {
                assert(("&="@).len() == 2);
                assert(("-="@).len() == 2);
                assert(("&="@)[0] == '&');
                assert(("-="@)[0] == '-');
            }
            assert("&="@ != "*="@) by {
                assert(("&="@).len() == 2);
                assert(("*="@).len() == 2);
                assert(("&="@)[0] == '&');
                assert(("*="@)[0] == '*');
            }
            assert("&="@ != "/="@) by {
                assert(("&="@).len() == 2);
                assert(("/="@).len() == 2);
                assert(("&="@)[0] == '&');
                assert(("/="@)[0] == '/');
            }
            assert("&="@ != "%="@) by {
                assert(("&="@).len() == 2);
                assert(("%="@).len() == 2);
                assert(("&="@)[0] == '&');
                assert(("%="@)[0] == '%');
            }
            assert("&="@ != "**="@) by {
                assert(("&="@).len() == 2);
                assert(("**="@).len() == 3);
            }
            assert("&="@ != "^="@) by {
                assert(("&="@).len() == 2);
                assert(("^="@).len() == 2);
                assert(("&="@)[0] == '&');
                assert(("^="@)[0] == '^');
            }
            assert(ass_op_from_str_spec(ass_op_text(ass_op_variants()[8])) == Some(
                ass_op_variants()[8],
            ));
        } else if i == 9 {
            assert(ass_op_variants()[9] == AssOp::OrEq(OrEq { left: 0 }));
            assert("|="@ != "="@) by {
                assert(("|="@).len() == 2);
                assert(("="@).len() == 1);
            }
            assert("|="@ != "+="@) by {
                assert(("|="@).len() == 2);
                assert(("+="@).len() == 2);
                assert(("|="@)[0] == '|');
                assert(("+="@)[0] == '+');
            }
            assert("|="@ != "-="@) by {
                assert(("|="@).len() == 2);
                assert(("-="@).len() == 2);
                assert(("|="@)[0] == '|');
                assert(("-="@)[0] == '-');
            }
            assert("|="@ != "*="@) by {
                assert(("|="@).len() == 2);
                assert(("*="@).len() == 2);
                assert(("|="@)[0] == '|');
                assert(("*="@)[0] == '*');
            }
            assert("|="@ != "/="@) by {
                assert(("|="@).len() == 2);
                assert(("/="@).len() == 2);
                assert(("|="@)[0] == '|');
                assert(("/="@)[0] == '/');
            }
            assert("|="@ != "%="@) by {
                assert(("|="@).len() == 2);
                assert(("%="@).len() == 2);
                assert(("|="@)[0] == '|');
                assert(("%="@)[0] == '%');
            }
            assert("|="@ != "**="@) by {
                assert(("|="@).len() == 2);
                assert(("**="@).len() == 3);
            }
            assert("|="@ != "^="@) by {
                assert(("|="@).len() == 2);
                assert(("^="@).len() == 2);
                assert(("|="@)[0] == '|');
                assert(("^="@)[0] == '^');
            }
            assert("|="@ != "&="@) by {
                assert(("|="@).len() == 2);
                assert(("&="@).len() == 2);
                assert(("|="@)[0] == '|');
                assert(("&="@)[0] == '&');
            }
            assert(ass_op_from_str_spec(ass_op_text(ass_op_variants()[9])) == Some(
                ass_op_variants()[9],
            ));
        } else if i == 10 {
            assert(ass_op_variants()[10] == AssOp::ShlEq(ShlEq { left: 0 }));
            assert("<<="@ != "="@) by {
                assert(("<<="@).len() == 3);
                assert(("="@).len() == 1);
            }
            assert("<<="@ != "+="@) by {
                assert(("<<="@).len() == 3);
                assert(("+="@).len() == 2);
            }
            assert("<<="@ != "-="@) by {
                assert(("<<="@).len() == 3);
                assert(("-="@).len() == 2);
            }
            assert("<<="@ != "*="@) by {
                assert(("<<="@).len() == 3);
                assert(("*="@).len() == 2);
            }
            assert("<<="@ != "/="@) by {
                assert(("<<="@).len() == 3);
                assert(("/="@).len() == 2);
            }
            assert("<<="@ != "%="@) by {
                assert(("<<="@).len() == 3);
                assert(("%="@).len() == 2);
            }
            assert("<<="@ != "**="@) by {
                assert(("<<="@).len() == 3);
                assert(("**="@).len() == 3);
                assert(("<<="@)[0] == '<');
                assert(("**="@)[0] == '*');
            }
            assert("<<="@ != "^="@) by {
                assert(("<<="@).len() == 3);
                assert(("^="@).len() == 2);
            }
            assert("<<="@ != "&="@) by {
                assert(("<<="@).len() == 3);
                assert(("&="@).len() == 2);
            }
            assert("<<="@ != "|="@) by {
                assert(("<<="@).len() == 3);
                assert(("|="@).len() == 2);
            }
            assert(ass_op_from_str_spec(ass_op_text(ass_op_variants()[10])) == Some(
                ass_op_variants()[10],
            ));
        } else if i == 11 {
            assert(ass_op_variants()[11] == AssOp::ShrEq(ShrEq { left: 0 }));
            assert(">>="@ != "="@) by {
                assert((">>="@).len() == 3);
                assert(("="@).len() == 1);
            }
            assert(">>="@ != "+="@) by {
                assert((">>="@).len() == 3);
                assert(("+="@).len() == 2);
            }
            assert(">>="@ != "-="@) by {
                assert((">>="@).len() == 3);
                assert(("-="@).len() == 2);
            }
            assert(">>="@ != "*="@) by {
                assert((">>="@).len() == 3);
                assert(("*="@).len() == 2);
            }
            assert(">>="@ != "/="@) by {
                assert((">>="@).len() == 3);
                assert(("/="@).len() == 2);
            }
            assert(">>="@ != "%="@) by {
                assert((">>="@).len() == 3);
                assert(("%="@).len() == 2);
            }
            assert(">>="@ != "**="@) by {
                assert((">>="@).len() == 3);
                assert(("**="@).len() == 3);
                assert((">>="@)[0] == '>');
                assert(("**="@)[0] == '*');
            }
            assert(">>="@ != "^="@) by {
                assert((">>="@).len() == 3);
                assert(("^="@).len() == 2);
            }
            assert(">>="@ != "&="@) by {
                assert((">>="@).len() == 3);
                assert(("&="@).len() == 2);
            }
            assert(">>="@ != "|="@) by {
                assert((">>="@).len() == 3);
                assert(("|="@).len() == 2);
            }
            assert(">>="@ != "<<="@) by {
                assert((">>="@).len() == 3);
                assert(("<<="@).len() == 3);
                assert((">>="@)[0] == '>');
                assert(("<<="@)[0] == '<');
            }
            assert(ass_op_from_str_spec(ass_op_text(ass_op_variants()[11])) == Some(
                ass_op_variants()[11],
            ));
        } else {
        }
    }
}

pub open spec fn pairs_arm_comma_toks(s: Seq<(Arm, Comma)>) -> Seq<Tok>
    decreases s,
{
    if s.len() == 0 {
        Seq::<Tok>::empty()
    } else {
        arm_toks(s[0].0) + seq![Tok::Comma(s[0].1)] + pairs_arm_comma_toks(s.subrange(1, s.len() as int))
    }
}

pub open spec fn punct_arm_comma_toks(p: Punctuated<Arm, Comma>) -> Seq<Tok>
    decreases p,
{
    pairs_arm_comma_toks(p.inner@) + match p.last {
        Some(t) => arm_toks(*t),
        None => Seq::<Tok>::empty(),
    }
}

proof fn lemma_pairs_arm_comma_push(s: Seq<(Arm, Comma)>)
    requires
        s.len() > 0,
    ensures
        pairs_arm_comma_toks(s) == pairs_arm_comma_toks(s.drop_last()) + arm_toks(s.last().0) + seq![Tok::Comma(s.last().1)],
    decreases s.len(),
{
    if s.len() == 1 {
        assert(s.drop_last() =~= Seq::<(Arm, Comma)>::empty());
        assert(s.subrange(1, 1) =~= Seq::<(Arm, Comma)>::empty());
        assert(pairs_arm_comma_toks(Seq::<(Arm, Comma)>::empty()) =~= Seq::<Tok>::empty());
        assert(pairs_arm_comma_toks(s) =~= arm_toks(s[0].0) + seq![Tok::Comma(s[0].1)]);
    } else {
        let tail = s.subrange(1, s.len() as int);
        lemma_pairs_arm_comma_push(tail);
        assert(tail.drop_last() =~= s.drop_last().subrange(1, s.drop_last().len() as int));
        assert(tail.last() == s.last());
        assert(pairs_arm_comma_toks(s) =~= pairs_arm_comma_toks(s.drop_last()) + arm_toks(s.last().0) + seq![Tok::Comma(s.last().1)]);
    }
}

impl Punctuated<Arm, Comma> {
    #[verifier::rlimit(100)]
    #[verifier::spinoff_prover]
    pub(crate) fn toks_vec(&self) -> (r: Vec<Tok>)
        ensures
            r@ == punct_arm_comma_toks(*self),
        decreases self,
    {
        let mut acc: Vec<Tok> = Vec::new();
        let mut i: usize = 0;
        proof {
            assert(self.inner@.subrange(0, 0) =~= Seq::<(Arm, Comma)>::empty());
        }
        while i < self.inner.len()
            invariant
                i <= self.inner@.len(),
                acc@ == pairs_arm_comma_toks(self.inner@.subrange(0, i as int)),
            decreases self.inner@.len() - i,
        {
            proof {
                assert(decreases_to!(*self => self.inner@[i as int].0));
            }
            let mut t = self.inner[i].0.toks_vec();
            acc.append(&mut t);
            acc.push(Tok::Comma(self.inner[i].1));
            i += 1;
            proof {
                lemma_pairs_arm_comma_push(self.inner@.subrange(0, i as int));
                assert(self.inner@.subrange(0, i as int).drop_last() =~= self.inner@.subrange(
                    0,
                    i - 1,
                ));
            }
        }
        proof {
            assert(self.inner@.subrange(0, self.inner@.len() as int) =~= self.inner@);
        }
        match &self.last {
            Some(t) => {
                proof {
                    assert(decreases_to!(*self => **t));
                }
                let mut tt = t.toks_vec();
                acc.append(&mut tt);
            },
            None => {},
        }
        acc
    }
}

impl ToTokens for Punctuated<Arm, Comma> {
    open spec fn tok_spec(&self) -> Seq<Tok> {
        punct_arm_comma_toks(*self)
    }

    fn to_tokens(&self) -> (r: Vec<Tok>) {
        self.toks_vec()
    }
}

pub open spec fn pairs_expr_comma_toks(s: Seq<(Expr, Comma)>) -> Seq<Tok>
    decreases s,
{
    if s.len() == 0 {
        Seq::<Tok>::empty()
    } else {
        expr_toks(s[0].0) + seq![Tok::Comma(s[0].1)] + pairs_expr_comma_toks(s.subrange(1, s.len() as int))
    }
}

pub open spec fn punct_expr_comma_toks(p: Punctuated<Expr, Comma>) -> Seq<Tok>
    decreases p,
{
    pairs_expr_comma_toks(p.inner@) + match p.last {
        Some(t) => expr_toks(*t),
        None => Seq::<Tok>::empty(),
    }
}

proof fn lemma_pairs_expr_comma_push(s: Seq<(Expr, Comma)>)
    requires
        s.len() > 0,
    ensures
        pairs_expr_comma_toks(s) == pairs_expr_comma_toks(s.drop_last()) + expr_toks(s.last().0) + seq![Tok::Comma(s.last().1)],
    decreases s.len(),
{
    if s.len() == 1 {
        assert(s.drop_last() =~= Seq::<(Expr, Comma)>::empty());
        assert(s.subrange(1, 1) =~= Seq::<(Expr, Comma)>::empty());
        assert(pairs_expr_comma_toks(Seq::<(Expr, Comma)>::empty()) =~= Seq::<Tok>::empty());
        assert(pairs_expr_comma_toks(s) =~= expr_toks(s[0].0) + seq![Tok::Comma(s[0].1)]);
    } else {
        let tail = s.subrange(1, s.len() as int);
        lemma_pairs_expr_comma_push(tail);
        assert(tail.drop_last() =~= s.drop_last().subrange(1, s.drop_last().len() as int));
        assert(tail.last() == s.last());
        assert(pairs_expr_comma_toks(s) =~= pairs_expr_comma_toks(s.drop_last()) + expr_toks(s.last().0) + seq![Tok::Comma(s.last().1)]);
    }
}

impl Punctuated<Expr, Comma> {
    #[verifier::rlimit(100)]
    #[verifier::spinoff_prover]
    pub(crate) fn toks_vec(&self) -> (r: Vec<Tok>)
        ensures
            r@ == punct_expr_comma_toks(*self),
        decreases self,
    {
        let mut acc: Vec<Tok> = Vec::new();
        let mut i: usize = 0;
        proof {
            assert(self.inner@.subrange(0, 0) =~= Seq::<(Expr, Comma)>::empty());
        }
        while i < self.inner.len()
            invariant
                i <= self.inner@.len(),
                acc@ == pairs_expr_comma_toks(self.inner@.subrange(0, i as int)),
            decreases self.inner@.len() - i,
        {
            proof {
                assert(decreases_to!(*self => self.inner@[i as int].0));
            }
            let mut t = self.inner[i].0.toks_vec();
            acc.append(&mut t);
            acc.push(Tok::Comma(self.inner[i].1));
            i += 1;
            proof {
                lemma_pairs_expr_comma_push(self.inner@.subrange(0, i as int));
                assert(self.inner@.subrange(0, i as int).drop_last() =~= self.inner@.subrange(
                    0,
                    i - 1,
                ));
            }
        }
        proof {
            assert(self.inner@.subrange(0, self.inner@.len() as int) =~= self.inner@);
        }
        match &self.last {
            Some(t) => {
                proof {
                    assert(decreases_to!(*self => **t));
                }
                let mut tt = t.toks_vec();
                acc.append(&mut tt);
            },
            None => {},
        }
        acc
    }
}

impl ToTokens for Punctuated<Expr, Comma> {
    open spec fn tok_spec(&self) -> Seq<Tok> {
        punct_expr_comma_toks(*self)
    }

    fn to_tokens(&self) -> (r: Vec<Tok>) {
        self.toks_vec()
    }
}

pub open spec fn pairs_field_value_comma_toks(s: Seq<(FieldValue, Comma)>) -> Seq<Tok>
    decreases s,
{
    if s.len() == 0 {
        Seq::<Tok>::empty()
    } else {
        field_value_toks(s[0].0) + seq![Tok::Comma(s[0].1)] + pairs_field_value_comma_toks(s.subrange(1, s.len() as int))
    }
}

pub open spec fn punct_field_value_comma_toks(p: Punctuated<FieldValue, Comma>) -> Seq<Tok>
    decreases p,
{
    pairs_field_value_comma_toks(p.inner@) + match p.last {
        Some(t) => field_value_toks(*t),
        None => Seq::<Tok>::empty(),
    }
}

proof fn lemma_pairs_field_value_comma_push(s: Seq<(FieldValue, Comma)>)
    requires
        s.len() > 0,
    ensures
        pairs_field_value_comma_toks(s) == pairs_field_value_comma_toks(s.drop_last()) + field_value_toks(s.last().0) + seq![Tok::Comma(s.last().1)],
    decreases s.len(),
{
    if s.len() == 1 {
        assert(s.drop_last() =~= Seq::<(FieldValue, Comma)>::empty());
        assert(s.subrange(1, 1) =~= Seq::<(FieldValue, Comma)>::empty());
        assert(pairs_field_value_comma_toks(Seq::<(FieldValue, Comma)>::empty()) =~= Seq::<Tok>::empty());
        assert(pairs_field_value_comma_toks(s) =~= field_value_toks(s[0].0) + seq![Tok::Comma(s[0].1)]);
    } else {
        let tail = s.subrange(1, s.len() as int);
        lemma_pairs_field_value_comma_push(tail);
        assert(tail.drop_last() =~= s.drop_last().subrange(1, s.drop_last().len() as int));
        assert(tail.last() == s.last());
        assert(pairs_field_value_comma_toks(s) =~= pairs_field_value_comma_toks(s.drop_last()) + field_value_toks(s.last().0) + seq![Tok::Comma(s.last().1)]);
    }
}

impl Punctuated<FieldValue, Comma> {
    #[verifier::rlimit(100)]
    #[verifier::spinoff_prover]
    pub(crate) fn toks_vec(&self) -> (r: Vec<Tok>)
        ensures
            r@ == punct_field_value_comma_toks(*self),
        decreases self,
    {
        let mut acc: Vec<Tok> = Vec::new();
        let mut i: usize = 0;
        proof {
            assert(self.inner@.subrange(0, 0) =~= Seq::<(FieldValue, Comma)>::empty());
        }
        while i < self.inner.len()
            invariant
                i <= self.inner@.len(),
                acc@ == pairs_field_value_comma_toks(self.inner@.subrange(0, i as int)),
            decreases self.inner@.len() - i,
        {
            proof {
                assert(decreases_to!(*self => self.inner@[i as int].0));
            }
            let mut t = self.inner[i].0.toks_vec();
            acc.append(&mut t);
            acc.push(Tok::Comma(self.inner[i].1));
            i += 1;
            proof {
                lemma_pairs_field_value_comma_push(self.inner@.subrange(0, i as int));
                assert(self.inner@.subrange(0, i as int).drop_last() =~= self.inner@.subrange(
                    0,
                    i - 1,
                ));
            }
        }
        proof {
            assert(self.inner@.subrange(0, self.inner@.len() as int) =~= self.inner@);
        }
        match &self.last {
            Some(t) => {
                proof {
                    assert(decreases_to!(*self => **t));
                }
                let mut tt = t.toks_vec();
                acc.append(&mut tt);
            },
            None => {},
        }
        acc
    }
}

impl ToTokens for Punctuated<FieldValue, Comma> {
    open spec fn tok_spec(&self) -> Seq<Tok> {
        punct_field_value_comma_toks(*self)
    }

    fn to_tokens(&self) -> (r: Vec<Tok>) {
        self.toks_vec()
    }
}

pub open spec fn pairs_generic_arg_comma_toks(s: Seq<(GenericArg, Comma)>) -> Seq<Tok>
    decreases s,
{
    if s.len() == 0 {
        Seq::<Tok>::empty()
    } else {
        generic_arg_toks(s[0].0) + seq![Tok::Comma(s[0].1)] + pairs_generic_arg_comma_toks(s.subrange(1, s.len() as int))
    }
}

pub open spec fn punct_generic_arg_comma_toks(p: Punctuated<GenericArg, Comma>) -> Seq<Tok>
    decreases p,
{
    pairs_generic_arg_comma_toks(p.inner@) + match p.last {
        Some(t) => generic_arg_toks(*t),
        None => Seq::<Tok>::empty(),
    }
}

proof fn lemma_pairs_generic_arg_comma_push(s: Seq<(GenericArg, Comma)>)
    requires
        s.len() > 0,
    ensures
        pairs_generic_arg_comma_toks(s) == pairs_generic_arg_comma_toks(s.drop_last()) + generic_arg_toks(s.last().0) + seq![Tok::Comma(s.last().1)],
    decreases s.len(),
{
    if s.len() == 1 {
        assert(s.drop_last() =~= Seq::<(GenericArg, Comma)>::empty());
        assert(s.subrange(1, 1) =~= Seq::<(GenericArg, Comma)>::empty());
        assert(pairs_generic_arg_comma_toks(Seq::<(GenericArg, Comma)>::empty()) =~= Seq::<Tok>::empty());
        assert(pairs_generic_arg_comma_toks(s) =~= generic_arg_toks(s[0].0) + seq![Tok::Comma(s[0].1)]);
    } else {
        let tail = s.subrange(1, s.len() as int);
        lemma_pairs_generic_arg_comma_push(tail);
        assert(tail.drop_last() =~= s.drop_last().subrange(1, s.drop_last().len() as int));
        assert(tail.last() == s.last());
        assert(pairs_generic_arg_comma_toks(s) =~= pairs_generic_arg_comma_toks(s.drop_last()) + generic_arg_toks(s.last().0) + seq![Tok::Comma(s.last().1)]);
    }
}

impl Punctuated<GenericArg, Comma> {
    #[verifier::rlimit(100)]
    #[verifier::spinoff_prover]
    pub(crate) fn toks_vec(&self) -> (r: Vec<Tok>)
        ensures
            r@ == punct_generic_arg_comma_toks(*self),
        decreases self,
    {
        let mut acc: Vec<Tok> = Vec::new();
        let mut i: usize = 0;
        proof {
            assert(self.inner@.subrange(0, 0) =~= Seq::<(GenericArg, Comma)>::empty());
        }
        while i < self.inner.len()
            invariant
                i <= self.inner@.len(),
                acc@ == pairs_generic_arg_comma_toks(self.inner@.subrange(0, i as int)),
            decreases self.inner@.len() - i,
        {
            proof {
                assert(decreases_to!(*self => self.inner@[i as int].0));
            }
            let mut t = self.inner[i].0.toks_vec();
            acc.append(&mut t);
            acc.push(Tok::Comma(self.inner[i].1));
            i += 1;
            proof {
                lemma_pairs_generic_arg_comma_push(self.inner@.subrange(0, i as int));
                assert(self.inner@.subrange(0, i as int).drop_last() =~= self.inner@.subrange(
                    0,
                    i - 1,
                ));
            }
        }
        proof {
            assert(self.inner@.subrange(0, self.inner@.len() as int) =~= self.inner@);
        }
        match &self.last {
            Some(t) => {
                proof {
                    assert(decreases_to!(*self => **t));
                }
                let mut tt = t.toks_vec();
                acc.append(&mut tt);
            },
            None => {},
        }
        acc
    }
}

impl ToTokens for Punctuated<GenericArg, Comma> {
    open spec fn tok_spec(&self) -> Seq<Tok> {
        punct_generic_arg_comma_toks(*self)
    }

    fn to_tokens(&self) -> (r: Vec<Tok>) {
        self.toks_vec()
    }
}

pub open spec fn pairs_path_segment_path_sep_toks(s: Seq<(PathSegment, PathSep)>) -> Seq<Tok>
    decreases s,
{
    if s.len() == 0 {
        Seq::<Tok>::empty()
    } else {
        path_segment_toks(s[0].0) + seq![Tok::PathSep(s[0].1)] + pairs_path_segment_path_sep_toks(s.subrange(1, s.len() as int))
    }
}

pub open spec fn punct_path_segment_path_sep_toks(p: Punctuated<PathSegment, PathSep>) -> Seq<Tok>
    decreases p,
{
    pairs_path_segment_path_sep_toks(p.inner@) + match p.last {
        Some(t) => path_segment_toks(*t),
        None => Seq::<Tok>::empty(),
    }
}

proof fn lemma_pairs_path_segment_path_sep_push(s: Seq<(PathSegment, PathSep)>)
    requires
        s.len() > 0,
    ensures
        pairs_path_segment_path_sep_toks(s) == pairs_path_segment_path_sep_toks(s.drop_last()) + path_segment_toks(s.last().0) + seq![Tok::PathSep(s.last().1)],
    decreases s.len(),
{
    if s.len() == 1 {
        assert(s.drop_last() =~= Seq::<(PathSegment, PathSep)>::empty());
        assert(s.subrange(1, 1) =~= Seq::<(PathSegment, PathSep)>::empty());
        assert(pairs_path_segment_path_sep_toks(Seq::<(PathSegment, PathSep)>::empty()) =~= Seq::<Tok>::empty());
        assert(pairs_path_segment_path_sep_toks(s) =~= path_segment_toks(s[0].0) + seq![Tok::PathSep(s[0].1)]);
    } else {
        let tail = s.subrange(1, s.len() as int);
        lemma_pairs_path_segment_path_sep_push(tail);
        assert(tail.drop_last() =~= s.drop_last().subrange(1, s.drop_last().len() as int));
        assert(tail.last() == s.last());
        assert(pairs_path_segment_path_sep_toks(s) =~= pairs_path_segment_path_sep_toks(s.drop_last()) + path_segment_toks(s.last().0) + seq![Tok::PathSep(s.last().1)]);
    }
}

impl Punctuated<PathSegment, PathSep> {
    #[verifier::rlimit(100)]
    #[verifier::spinoff_prover]
    pub(crate) fn toks_vec(&self) -> (r: Vec<Tok>)
        ensures
            r@ == punct_path_segment_path_sep_toks(*self),
        decreases self,
    {
        let mut acc: Vec<Tok> = Vec::new();
        let mut i: usize = 0;
        proof {
            assert(self.inner@.subrange(0, 0) =~= Seq::<(PathSegment, PathSep)>::empty());
        }
        while i < self.inner.len()
            invariant
                i <= self.inner@.len(),
                acc@ == pairs_path_segment_path_sep_toks(self.inner@.subrange(0, i as int)),
            decreases self.inner@.len() - i,
        {
            proof {
                assert(decreases_to!(*self => self.inner@[i as int].0));
            }
            let mut t = self.inner[i].0.toks_vec();
            acc.append(&mut t);
            acc.push(Tok::PathSep(self.inner[i].1));
            i += 1;
            proof {
                lemma_pairs_path_segment_path_sep_push(self.inner@.subrange(0, i as int));
                assert(self.inner@.subrange(0, i as int).drop_last() =~= self.inner@.subrange(
                    0,
                    i - 1,
                ));
            }
        }
        proof {
            assert(self.inner@.subrange(0, self.inner@.len() as int) =~= self.inner@);
        }
        match &self.last {
            Some(t) => {
                proof {
                    assert(decreases_to!(*self => **t));
                }
                let mut tt = t.toks_vec();
                acc.append(&mut tt);
            },
            None => {},
        }
        acc
    }
}

impl ToTokens for Punctuated<PathSegment, PathSep> {
    open spec fn tok_spec(&self) -> Seq<Tok> {
        punct_path_segment_path_sep_toks(*self)
    }

    fn to_tokens(&self) -> (r: Vec<Tok>) {
        self.toks_vec()
    }
}

} // verus!
