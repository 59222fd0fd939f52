use vstd::prelude::*;
use vstd::string::StringExecFns;

use crate::lits::{FloatVal, Natural};

verus! {

/// A half-open interval of source-text offsets: where in the source buffer a
/// token or node came from.
#[derive(Clone, Copy, PartialEq, Eq, Structural, Debug, Hash)]
pub struct Span(pub usize, pub usize);

impl Span {
    /// The smallest span covering both operands.
    pub open spec fn combine_spec(self, rhs: Span) -> Span {
        Span(
            if self.0 <= rhs.0 {
                self.0
            } else {
                rhs.0
            },
            if self.1 >= rhs.1 {
                self.1
            } else {
                rhs.1
            },
        )
    }

    pub fn combine(self, rhs: Span) -> (r: Span)
        ensures
            r == self.combine_spec(rhs),
    {
        Span(
            if self.0 <= rhs.0 {
                self.0
            } else {
                rhs.0
            },
            if self.1 >= rhs.1 {
                self.1
            } else {
                rhs.1
            },
        )
    }
}

/// Law: combining spans is commutative in effect.
pub proof fn lemma_combine_commutative(a: Span, b: Span)
    ensures
        a.combine_spec(b) == b.combine_spec(a),
{
}

/// Law: combining spans is associative in effect, so a fold over children is
/// insensitive to grouping.
pub proof fn lemma_combine_associative(a: Span, b: Span, c: Span)
    ensures
        a.combine_spec(b).combine_spec(c) == a.combine_spec(b.combine_spec(c)),
{
}

/// An identifier token: its text and where it stood in the source.
#[derive(Debug)]
pub struct Ident {
    pub inner: String,
    pub span: Span,
}

impl Ident {
    /// An exact copy; spelled out so that its effect is specified.
    pub fn dup(&self) -> (r: Ident)
        ensures
            r == *self,
    {
        Ident { inner: self.inner.clone(), span: self.span }
    }
}

/// Identifiers compare equal on their text alone: where they occur must not
/// affect identity, only what they say.
impl PartialEq for Ident {
    fn eq(&self, other: &Ident) -> (r: bool) {
        self.inner == other.inner
    }
}

impl vstd::std_specs::cmp::PartialEqSpecImpl for Ident {
    open spec fn obeys_eq_spec() -> bool {
        true
    }

    open spec fn eq_spec(&self, other: &Ident) -> bool {
        self.inner@ == other.inner@
    }
}

/// An integer literal: its arbitrary-precision value, an optional type
/// suffix, the literal text verbatim, and its span.
#[derive(Debug)]
pub struct LitInt {
    pub val: Natural,
    pub suffix: Option<Ident>,
    pub raw: String,
    pub span: Span,
}

impl LitInt {
    pub fn dup(&self) -> (r: LitInt)
        ensures
            r == *self,
    {
        LitInt {
            val: self.val.dup(),
            suffix: match &self.suffix {
                Some(i) => Some(i.dup()),
                None => None,
            },
            raw: self.raw.clone(),
            span: self.span,
        }
    }
}

/// A float literal: its value held exactly as a decimal mantissa and
/// exponent at a stated precision, an optional type suffix, the literal text
/// verbatim, and its span.
#[derive(Debug)]
pub struct LitFloat {
    pub val: FloatVal,
    pub suffix: Option<Ident>,
    pub raw: String,
    pub span: Span,
}

impl LitFloat {
    pub fn dup(&self) -> (r: LitFloat)
        ensures
            r == *self,
    {
        LitFloat {
            val: self.val.dup(),
            suffix: match &self.suffix {
                Some(i) => Some(i.dup()),
                None => None,
            },
            raw: self.raw.clone(),
            span: self.span,
        }
    }
}

/// A boolean literal and its span.
#[derive(Clone, Copy, Debug)]
pub struct LitBool {
    pub inner: bool,
    pub span: Span,
}

impl LitBool {
    pub fn dup(&self) -> (r: LitBool)
        ensures
            r == *self,
    {
        LitBool { inner: self.inner, span: self.span }
    }
}

/// A literal token: integer, float or boolean.
#[derive(Debug)]
pub enum Lit {
    Int(LitInt),
    Float(LitFloat),
    Bool(LitBool),
}

impl Lit {
    pub fn dup(&self) -> (r: Lit)
        ensures
            r == *self,
    {
        match self {
            Lit::Int(i) => Lit::Int(i.dup()),
            Lit::Float(f) => Lit::Float(f.dup()),
            Lit::Bool(b) => Lit::Bool(b.dup()),
        }
    }
}

pub open spec fn lit_span(l: Lit) -> Span {
    match l {
        Lit::Int(i) => i.span,
        Lit::Float(f) => f.span,
        Lit::Bool(b) => b.span,
    }
}

pub open spec fn lit_text(l: Lit) -> Seq<char> {
    match l {
        Lit::Int(i) => i.raw@,
        Lit::Float(f) => f.raw@,
        Lit::Bool(b) => if b.inner {
            "true"@
        } else {
            "false"@
        },
    }
}

/// The fixed token `as`, carrying only its starting offset.
#[derive(Clone, Copy, PartialEq, Eq, Structural, Debug, Hash)]
pub struct As {
    pub left: usize,
}

/// The fixed token `break`, carrying only its starting offset.
#[derive(Clone, Copy, PartialEq, Eq, Structural, Debug, Hash)]
pub struct Break {
    pub left: usize,
}

/// The fixed token `const`, carrying only its starting offset.
#[derive(Clone, Copy, PartialEq, Eq, Structural, Debug, Hash)]
pub struct Const {
    pub left: usize,
}

/// The fixed token `continue`, carrying only its starting offset.
#[derive(Clone, Copy, PartialEq, Eq, Structural, Debug, Hash)]
pub struct Continue {
    pub left: usize,
}

/// The fixed token `crate`, carrying only its starting offset.
#[derive(Clone, Copy, PartialEq, Eq, Structural, Debug, Hash)]
pub struct Crate {
    pub left: usize,
}

/// The fixed token `else`, carrying only its starting offset.
#[derive(Clone, Copy, PartialEq, Eq, Structural, Debug, Hash)]
pub struct Else {
    pub left: usize,
}

/// The fixed token `enum`, carrying only its starting offset.
#[derive(Clone, Copy, PartialEq, Eq, Structural, Debug, Hash)]
pub struct Enum {
    pub left: usize,
}

/// The fixed token `extern`, carrying only its starting offset.
#[derive(Clone, Copy, PartialEq, Eq, Structural, Debug, Hash)]
pub struct TokenExtern {
    pub left: usize,
}

/// The fixed token `fn`, carrying only its starting offset.
#[derive(Clone, Copy, PartialEq, Eq, Structural, Debug, Hash)]
pub struct TokenFn {
    pub left: usize,
}

/// The fixed token `for`, carrying only its starting offset.
#[derive(Clone, Copy, PartialEq, Eq, Structural, Debug, Hash)]
pub struct For {
    pub left: usize,
}

/// The fixed token `if`, carrying only its starting offset.
#[derive(Clone, Copy, PartialEq, Eq, Structural, Debug, Hash)]
pub struct If {
    pub left: usize,
}

/// The fixed token `impl`, carrying only its starting offset.
#[derive(Clone, Copy, PartialEq, Eq, Structural, Debug, Hash)]
pub struct Impl {
    pub left: usize,
}

/// The fixed token `in`, carrying only its starting offset.
#[derive(Clone, Copy, PartialEq, Eq, Structural, Debug, Hash)]
pub struct In {
    pub left: usize,
}

/// The fixed token `let`, carrying only its starting offset.
#[derive(Clone, Copy, PartialEq, Eq, Structural, Debug, Hash)]
pub struct Let {
    pub left: usize,
}

/// The fixed token `loop`, carrying only its starting offset.
#[derive(Clone, Copy, PartialEq, Eq, Structural, Debug, Hash)]
pub struct Loop {
    pub left: usize,
}

/// The fixed token `match`, carrying only its starting offset.
#[derive(Clone, Copy, PartialEq, Eq, Structural, Debug, Hash)]
pub struct Match {
    pub left: usize,
}

/// The fixed token `mod`, carrying only its starting offset.
#[derive(Clone, Copy, PartialEq, Eq, Structural, Debug, Hash)]
pub struct Mod {
    pub left: usize,
}

/// The fixed token `move`, carrying only its starting offset.
#[derive(Clone, Copy, PartialEq, Eq, Structural, Debug, Hash)]
pub struct Move {
    pub left: usize,
}

/// The fixed token `mut`, carrying only its starting offset.
#[derive(Clone, Copy, PartialEq, Eq, Structural, Debug, Hash)]
pub struct Mut {
    pub left: usize,
}

/// The fixed token `pub`, carrying only its starting offset.
#[derive(Clone, Copy, PartialEq, Eq, Structural, Debug, Hash)]
pub struct Pub {
    pub left: usize,
}

/// The fixed token `ref`, carrying only its starting offset.
#[derive(Clone, Copy, PartialEq, Eq, Structural, Debug, Hash)]
pub struct Ref {
    pub left: usize,
}

/// The fixed token `return`, carrying only its starting offset.
#[derive(Clone, Copy, PartialEq, Eq, Structural, Debug, Hash)]
pub struct Return {
    pub left: usize,
}

/// The fixed token `self`, carrying only its starting offset.
#[derive(Clone, Copy, PartialEq, Eq, Structural, Debug, Hash)]
pub struct LowerSelf {
    pub left: usize,
}

/// The fixed token `Self`, carrying only its starting offset.
#[derive(Clone, Copy, PartialEq, Eq, Structural, Debug, Hash)]
pub struct UpperSelf {
    pub left: usize,
}

/// The fixed token `static`, carrying only its starting offset.
#[derive(Clone, Copy, PartialEq, Eq, Structural, Debug, Hash)]
pub struct Static {
    pub left: usize,
}

/// The fixed token `struct`, carrying only its starting offset.
#[derive(Clone, Copy, PartialEq, Eq, Structural, Debug, Hash)]
pub struct Struct {
    pub left: usize,
}

/// The fixed token `super`, carrying only its starting offset.
#[derive(Clone, Copy, PartialEq, Eq, Structural, Debug, Hash)]
pub struct Super {
    pub left: usize,
}

/// The fixed token `trait`, carrying only its starting offset.
#[derive(Clone, Copy, PartialEq, Eq, Structural, Debug, Hash)]
pub struct Trait {
    pub left: usize,
}

/// The fixed token `type`, carrying only its starting offset.
#[derive(Clone, Copy, PartialEq, Eq, Structural, Debug, Hash)]
pub struct TokenType {
    pub left: usize,
}

/// The fixed token `unsafe`, carrying only its starting offset.
#[derive(Clone, Copy, PartialEq, Eq, Structural, Debug, Hash)]
pub struct Unsafe {
    pub left: usize,
}

/// The fixed token `use`, carrying only its starting offset.
#[derive(Clone, Copy, PartialEq, Eq, Structural, Debug, Hash)]
pub struct Use {
    pub left: usize,
}

/// The fixed token `where`, carrying only its starting offset.
#[derive(Clone, Copy, PartialEq, Eq, Structural, Debug, Hash)]
pub struct Where {
    pub left: usize,
}

/// The fixed token `while`, carrying only its starting offset.
#[derive(Clone, Copy, PartialEq, Eq, Structural, Debug, Hash)]
pub struct While {
    pub left: usize,
}

/// The fixed token `async`, carrying only its starting offset.
#[derive(Clone, Copy, PartialEq, Eq, Structural, Debug, Hash)]
pub struct Async {
    pub left: usize,
}

/// The fixed token `await`, carrying only its starting offset.
#[derive(Clone, Copy, PartialEq, Eq, Structural, Debug, Hash)]
pub struct Await {
    pub left: usize,
}

/// The fixed token `dyn`, carrying only its starting offset.
#[derive(Clone, Copy, PartialEq, Eq, Structural, Debug, Hash)]
pub struct Dyn {
    pub left: usize,
}

/// The fixed token `abstract`, carrying only its starting offset.
#[derive(Clone, Copy, PartialEq, Eq, Structural, Debug, Hash)]
pub struct Abstract {
    pub left: usize,
}

/// The fixed token `become`, carrying only its starting offset.
#[derive(Clone, Copy, PartialEq, Eq, Structural, Debug, Hash)]
pub struct Become {
    pub left: usize,
}

/// The fixed token `box`, carrying only its starting offset.
#[derive(Clone, Copy, PartialEq, Eq, Structural, Debug, Hash)]
pub struct TokenBox {
    pub left: usize,
}

/// The fixed token `do`, carrying only its starting offset.
#[derive(Clone, Copy, PartialEq, Eq, Structural, Debug, Hash)]
pub struct Do {
    pub left: usize,
}

/// The fixed token `final`, carrying only its starting offset.
#[derive(Clone, Copy, PartialEq, Eq, Structural, Debug, Hash)]
pub struct TokenFinal {
    pub left: usize,
}

/// The fixed token `macro`, carrying only its starting offset.
#[derive(Clone, Copy, PartialEq, Eq, Structural, Debug, Hash)]
pub struct Macro {
    pub left: usize,
}

/// The fixed token `override`, carrying only its starting offset.
#[derive(Clone, Copy, PartialEq, Eq, Structural, Debug, Hash)]
pub struct Override {
    pub left: usize,
}

/// The fixed token `priv`, carrying only its starting offset.
#[derive(Clone, Copy, PartialEq, Eq, Structural, Debug, Hash)]
pub struct Priv {
    pub left: usize,
}

/// The fixed token `typeof`, carrying only its starting offset.
#[derive(Clone, Copy, PartialEq, Eq, Structural, Debug, Hash)]
pub struct Typeof {
    pub left: usize,
}

/// The fixed token `unsized`, carrying only its starting offset.
#[derive(Clone, Copy, PartialEq, Eq, Structural, Debug, Hash)]
pub struct Unsized {
    pub left: usize,
}

/// The fixed token `virtual`, carrying only its starting offset.
#[derive(Clone, Copy, PartialEq, Eq, Structural, Debug, Hash)]
pub struct Virtual {
    pub left: usize,
}

/// The fixed token `yield`, carrying only its starting offset.
#[derive(Clone, Copy, PartialEq, Eq, Structural, Debug, Hash)]
pub struct Yield {
    pub left: usize,
}

/// The fixed token `try`, carrying only its starting offset.
#[derive(Clone, Copy, PartialEq, Eq, Structural, Debug, Hash)]
pub struct Try {
    pub left: usize,
}

/// The fixed token `union`, carrying only its starting offset.
#[derive(Clone, Copy, PartialEq, Eq, Structural, Debug, Hash)]
pub struct Union {
    pub left: usize,
}

/// The fixed token `entity`, carrying only its starting offset.
#[derive(Clone, Copy, PartialEq, Eq, Structural, Debug, Hash)]
pub struct Entity {
    pub left: usize,
}

/// The fixed token `bag`, carrying only its starting offset.
#[derive(Clone, Copy, PartialEq, Eq, Structural, Debug, Hash)]
pub struct Bag {
    pub left: usize,
}

/// The fixed token `ring`, carrying only its starting offset.
#[derive(Clone, Copy, PartialEq, Eq, Structural, Debug, Hash)]
pub struct Ring {
    pub left: usize,
}

/// The fixed token `arch`, carrying only its starting offset.
#[derive(Clone, Copy, PartialEq, Eq, Structural, Debug, Hash)]
pub struct Arch {
    pub left: usize,
}

/// The fixed token `when`, carrying only its starting offset.
#[derive(Clone, Copy, PartialEq, Eq, Structural, Debug, Hash)]
pub struct When {
    pub left: usize,
}

/// The fixed token `out`, carrying only its starting offset.
#[derive(Clone, Copy, PartialEq, Eq, Structural, Debug, Hash)]
pub struct Out {
    pub left: usize,
}

/// The fixed token `inout`, carrying only its starting offset.
#[derive(Clone, Copy, PartialEq, Eq, Structural, Debug, Hash)]
pub struct InOut {
    pub left: usize,
}

/// The fixed token `+`, carrying only its starting offset.
#[derive(Clone, Copy, PartialEq, Eq, Structural, Debug, Hash)]
pub struct Plus {
    pub left: usize,
}

/// The fixed token `-`, carrying only its starting offset.
#[derive(Clone, Copy, PartialEq, Eq, Structural, Debug, Hash)]
pub struct Minus {
    pub left: usize,
}

/// The fixed token `*`, carrying only its starting offset.
#[derive(Clone, Copy, PartialEq, Eq, Structural, Debug, Hash)]
pub struct Star {
    pub left: usize,
}

/// The fixed token `**`, carrying only its starting offset.
#[derive(Clone, Copy, PartialEq, Eq, Structural, Debug, Hash)]
pub struct StarStar {
    pub left: usize,
}

/// The fixed token `/`, carrying only its starting offset.
#[derive(Clone, Copy, PartialEq, Eq, Structural, Debug, Hash)]
pub struct Slash {
    pub left: usize,
}

/// The fixed token `%`, carrying only its starting offset.
#[derive(Clone, Copy, PartialEq, Eq, Structural, Debug, Hash)]
pub struct Percent {
    pub left: usize,
}

/// The fixed token `^`, carrying only its starting offset.
#[derive(Clone, Copy, PartialEq, Eq, Structural, Debug, Hash)]
pub struct Caret {
    pub left: usize,
}

/// The fixed token `!`, carrying only its starting offset.
#[derive(Clone, Copy, PartialEq, Eq, Structural, Debug, Hash)]
pub struct Not {
    pub left: usize,
}

/// The fixed token `&`, carrying only its starting offset.
#[derive(Clone, Copy, PartialEq, Eq, Structural, Debug, Hash)]
pub struct And {
    pub left: usize,
}

/// The fixed token `|`, carrying only its starting offset.
#[derive(Clone, Copy, PartialEq, Eq, Structural, Debug, Hash)]
pub struct Or {
    pub left: usize,
}

/// The fixed token `&&`, carrying only its starting offset.
#[derive(Clone, Copy, PartialEq, Eq, Structural, Debug, Hash)]
pub struct AndAnd {
    pub left: usize,
}

/// The fixed token `||`, carrying only its starting offset.
#[derive(Clone, Copy, PartialEq, Eq, Structural, Debug, Hash)]
pub struct OrOr {
    pub left: usize,
}

/// The fixed token `<<`, carrying only its starting offset.
#[derive(Clone, Copy, PartialEq, Eq, Structural, Debug, Hash)]
pub struct Shl {
    pub left: usize,
}

/// The fixed token `>>`, carrying only its starting offset.
#[derive(Clone, Copy, PartialEq, Eq, Structural, Debug, Hash)]
pub struct Shr {
    pub left: usize,
}

/// The fixed token `+=`, carrying only its starting offset.
#[derive(Clone, Copy, PartialEq, Eq, Structural, Debug, Hash)]
pub struct PlusEq {
    pub left: usize,
}

/// The fixed token `-=`, carrying only its starting offset.
#[derive(Clone, Copy, PartialEq, Eq, Structural, Debug, Hash)]
pub struct MinusEq {
    pub left: usize,
}

/// The fixed token `*=`, carrying only its starting offset.
#[derive(Clone, Copy, PartialEq, Eq, Structural, Debug, Hash)]
pub struct StarEq {
    pub left: usize,
}

/// The fixed token `**=`, carrying only its starting offset.
#[derive(Clone, Copy, PartialEq, Eq, Structural, Debug, Hash)]
pub struct StarStarEq {
    pub left: usize,
}

/// The fixed token `/=`, carrying only its starting offset.
#[derive(Clone, Copy, PartialEq, Eq, Structural, Debug, Hash)]
pub struct SlashEq {
    pub left: usize,
}

/// The fixed token `%=`, carrying only its starting offset.
#[derive(Clone, Copy, PartialEq, Eq, Structural, Debug, Hash)]
pub struct PercentEq {
    pub left: usize,
}

/// The fixed token `^=`, carrying only its starting offset.
#[derive(Clone, Copy, PartialEq, Eq, Structural, Debug, Hash)]
pub struct CaretEq {
    pub left: usize,
}

/// The fixed token `&=`, carrying only its starting offset.
#[derive(Clone, Copy, PartialEq, Eq, Structural, Debug, Hash)]
pub struct AndEq {
    pub left: usize,
}

/// The fixed token `|=`, carrying only its starting offset.
#[derive(Clone, Copy, PartialEq, Eq, Structural, Debug, Hash)]
pub struct OrEq {
    pub left: usize,
}

/// The fixed token `<<=`, carrying only its starting offset.
#[derive(Clone, Copy, PartialEq, Eq, Structural, Debug, Hash)]
pub struct ShlEq {
    pub left: usize,
}

/// The fixed token `>>=`, carrying only its starting offset.
#[derive(Clone, Copy, PartialEq, Eq, Structural, Debug, Hash)]
pub struct ShrEq {
    pub left: usize,
}

/// The fixed token `=`, carrying only its starting offset.
#[derive(Clone, Copy, PartialEq, Eq, Structural, Debug, Hash)]
pub struct TokenEq {
    pub left: usize,
}

/// The fixed token `==`, carrying only its starting offset.
#[derive(Clone, Copy, PartialEq, Eq, Structural, Debug, Hash)]
pub struct EqEq {
    pub left: usize,
}

/// The fixed token `!=`, carrying only its starting offset.
#[derive(Clone, Copy, PartialEq, Eq, Structural, Debug, Hash)]
pub struct Ne {
    pub left: usize,
}

/// The fixed token `>`, carrying only its starting offset.
#[derive(Clone, Copy, PartialEq, Eq, Structural, Debug, Hash)]
pub struct Gt {
    pub left: usize,
}

/// The fixed token `<`, carrying only its starting offset.
#[derive(Clone, Copy, PartialEq, Eq, Structural, Debug, Hash)]
pub struct Lt {
    pub left: usize,
}

/// The fixed token `>=`, carrying only its starting offset.
#[derive(Clone, Copy, PartialEq, Eq, Structural, Debug, Hash)]
pub struct Ge {
    pub left: usize,
}

/// The fixed token `<=`, carrying only its starting offset.
#[derive(Clone, Copy, PartialEq, Eq, Structural, Debug, Hash)]
pub struct Le {
    pub left: usize,
}

/// The fixed token `@`, carrying only its starting offset.
#[derive(Clone, Copy, PartialEq, Eq, Structural, Debug, Hash)]
pub struct At {
    pub left: usize,
}

/// The fixed token `_`, carrying only its starting offset.
#[derive(Clone, Copy, PartialEq, Eq, Structural, Debug, Hash)]
pub struct Underscore {
    pub left: usize,
}

/// The fixed token `.`, carrying only its starting offset.
#[derive(Clone, Copy, PartialEq, Eq, Structural, Debug, Hash)]
pub struct Dot {
    pub left: usize,
}

/// The fixed token `..`, carrying only its starting offset.
#[derive(Clone, Copy, PartialEq, Eq, Structural, Debug, Hash)]
pub struct DotDot {
    pub left: usize,
}

/// The fixed token `..=`, carrying only its starting offset.
#[derive(Clone, Copy, PartialEq, Eq, Structural, Debug, Hash)]
pub struct DotDotEq {
    pub left: usize,
}

/// The fixed token `,`, carrying only its starting offset.
#[derive(Clone, Copy, PartialEq, Eq, Structural, Debug, Hash)]
pub struct Comma {
    pub left: usize,
}

/// The fixed token `;`, carrying only its starting offset.
#[derive(Clone, Copy, PartialEq, Eq, Structural, Debug, Hash)]
pub struct Semi {
    pub left: usize,
}

/// The fixed token `:`, carrying only its starting offset.
#[derive(Clone, Copy, PartialEq, Eq, Structural, Debug, Hash)]
pub struct Colon {
    pub left: usize,
}

/// The fixed token `::`, carrying only its starting offset.
#[derive(Clone, Copy, PartialEq, Eq, Structural, Debug, Hash)]
pub struct PathSep {
    pub left: usize,
}

/// The fixed token `->`, carrying only its starting offset.
#[derive(Clone, Copy, PartialEq, Eq, Structural, Debug, Hash)]
pub struct RArrow {
    pub left: usize,
}

/// The fixed token `=>`, carrying only its starting offset.
#[derive(Clone, Copy, PartialEq, Eq, Structural, Debug, Hash)]
pub struct FatArrow {
    pub left: usize,
}

/// The fixed token `#`, carrying only its starting offset.
#[derive(Clone, Copy, PartialEq, Eq, Structural, Debug, Hash)]
pub struct Pound {
    pub left: usize,
}

/// The fixed token `$`, carrying only its starting offset.
#[derive(Clone, Copy, PartialEq, Eq, Structural, Debug, Hash)]
pub struct Dollar {
    pub left: usize,
}

/// The fixed token `?`, carrying only its starting offset.
#[derive(Clone, Copy, PartialEq, Eq, Structural, Debug, Hash)]
pub struct Question {
    pub left: usize,
}

/// The fixed token `[`, carrying only its starting offset.
#[derive(Clone, Copy, PartialEq, Eq, Structural, Debug, Hash)]
pub struct BracketOpen {
    pub left: usize,
}

/// The fixed token `]`, carrying only its starting offset.
#[derive(Clone, Copy, PartialEq, Eq, Structural, Debug, Hash)]
pub struct BracketClose {
    pub left: usize,
}

/// The fixed token `(`, carrying only its starting offset.
#[derive(Clone, Copy, PartialEq, Eq, Structural, Debug, Hash)]
pub struct ParenOpen {
    pub left: usize,
}

/// The fixed token `)`, carrying only its starting offset.
#[derive(Clone, Copy, PartialEq, Eq, Structural, Debug, Hash)]
pub struct ParenClose {
    pub left: usize,
}

/// The fixed token `{`, carrying only its starting offset.
#[derive(Clone, Copy, PartialEq, Eq, Structural, Debug, Hash)]
pub struct BraceOpen {
    pub left: usize,
}

/// The fixed token `}`, carrying only its starting offset.
#[derive(Clone, Copy, PartialEq, Eq, Structural, Debug, Hash)]
pub struct BraceClose {
    pub left: usize,
}

/// One indivisible lexical unit of source text.
#[derive(Debug)]
pub enum Tok {
    As(As),
    Break(Break),
    Const(Const),
    Continue(Continue),
    Crate(Crate),
    Else(Else),
    Enum(Enum),
    Extern(TokenExtern),
    Fn(TokenFn),
    For(For),
    If(If),
    Impl(Impl),
    In(In),
    Let(Let),
    Loop(Loop),
    Match(Match),
    Mod(Mod),
    Move(Move),
    Mut(Mut),
    Pub(Pub),
    Ref(Ref),
    Return(Return),
    LowerSelf(LowerSelf),
    UpperSelf(UpperSelf),
    Static(Static),
    Struct(Struct),
    Super(Super),
    Trait(Trait),
    TokenType(TokenType),
    Unsafe(Unsafe),
    Use(Use),
    Where(Where),
    While(While),
    Async(Async),
    Await(Await),
    Dyn(Dyn),
    Abstract(Abstract),
    Become(Become),
    TokenBox(TokenBox),
    Do(Do),
    Final(TokenFinal),
    Macro(Macro),
    Override(Override),
    Priv(Priv),
    Typeof(Typeof),
    Unsized(Unsized),
    Virtual(Virtual),
    Yield(Yield),
    Try(Try),
    Union(Union),
    Entity(Entity),
    Bag(Bag),
    Ring(Ring),
    Arch(Arch),
    When(When),
    Out(Out),
    InOut(InOut),
    Plus(Plus),
    Minus(Minus),
    Star(Star),
    StarStar(StarStar),
    Slash(Slash),
    Percent(Percent),
    Caret(Caret),
    Not(Not),
    And(And),
    Or(Or),
    AndAnd(AndAnd),
    OrOr(OrOr),
    Shl(Shl),
    Shr(Shr),
    PlusEq(PlusEq),
    MinusEq(MinusEq),
    StarEq(StarEq),
    StarStarEq(StarStarEq),
    SlashEq(SlashEq),
    PercentEq(PercentEq),
    CaretEq(CaretEq),
    AndEq(AndEq),
    OrEq(OrEq),
    ShlEq(ShlEq),
    ShrEq(ShrEq),
    Eq(TokenEq),
    EqEq(EqEq),
    Ne(Ne),
    Gt(Gt),
    Lt(Lt),
    Ge(Ge),
    Le(Le),
    At(At),
    Underscore(Underscore),
    Dot(Dot),
    DotDot(DotDot),
    DotDotEq(DotDotEq),
    Comma(Comma),
    Semi(Semi),
    Colon(Colon),
    PathSep(PathSep),
    RArrow(RArrow),
    FatArrow(FatArrow),
    Pound(Pound),
    Dollar(Dollar),
    Question(Question),
    BracketOpen(BracketOpen),
    BracketClose(BracketClose),
    ParenOpen(ParenOpen),
    ParenClose(ParenClose),
    BraceOpen(BraceOpen),
    BraceClose(BraceClose),
    Ident(Ident),
    Lit(Lit),
}

impl Tok {
    /// An exact copy; spelled out so that its effect is specified.
    pub fn dup(&self) -> (r: Tok)
        ensures
            r == *self,
    {
        match self {
            Tok::As(x) => Tok::As(*x),
            Tok::Break(x) => Tok::Break(*x),
            Tok::Const(x) => Tok::Const(*x),
            Tok::Continue(x) => Tok::Continue(*x),
            Tok::Crate(x) => Tok::Crate(*x),
            Tok::Else(x) => Tok::Else(*x),
            Tok::Enum(x) => Tok::Enum(*x),
            Tok::Extern(x) => Tok::Extern(*x),
            Tok::Fn(x) => Tok::Fn(*x),
            Tok::For(x) => Tok::For(*x),
            Tok::If(x) => Tok::If(*x),
            Tok::Impl(x) => Tok::Impl(*x),
            Tok::In(x) => Tok::In(*x),
            Tok::Let(x) => Tok::Let(*x),
            Tok::Loop(x) => Tok::Loop(*x),
            Tok::Match(x) => Tok::Match(*x),
            Tok::Mod(x) => Tok::Mod(*x),
            Tok::Move(x) => Tok::Move(*x),
            Tok::Mut(x) => Tok::Mut(*x),
            Tok::Pub(x) => Tok::Pub(*x),
            Tok::Ref(x) => Tok::Ref(*x),
            Tok::Return(x) => Tok::Return(*x),
            Tok::LowerSelf(x) => Tok::LowerSelf(*x),
            Tok::UpperSelf(x) => Tok::UpperSelf(*x),
            Tok::Static(x) => Tok::Static(*x),
            Tok::Struct(x) => Tok::Struct(*x),
            Tok::Super(x) => Tok::Super(*x),
            Tok::Trait(x) => Tok::Trait(*x),
            Tok::TokenType(x) => Tok::TokenType(*x),
            Tok::Unsafe(x) => Tok::Unsafe(*x),
            Tok::Use(x) => Tok::Use(*x),
            Tok::Where(x) => Tok::Where(*x),
            Tok::While(x) => Tok::While(*x),
            Tok::Async(x) => Tok::Async(*x),
            Tok::Await(x) => Tok::Await(*x),
            Tok::Dyn(x) => Tok::Dyn(*x),
            Tok::Abstract(x) => Tok::Abstract(*x),
            Tok::Become(x) => Tok::Become(*x),
            Tok::TokenBox(x) => Tok::TokenBox(*x),
            Tok::Do(x) => Tok::Do(*x),
            Tok::Final(x) => Tok::Final(*x),
            Tok::Macro(x) => Tok::Macro(*x),
            Tok::Override(x) => Tok::Override(*x),
            Tok::Priv(x) => Tok::Priv(*x),
            Tok::Typeof(x) => Tok::Typeof(*x),
            Tok::Unsized(x) => Tok::Unsized(*x),
            Tok::Virtual(x) => Tok::Virtual(*x),
            Tok::Yield(x) => Tok::Yield(*x),
            Tok::Try(x) => Tok::Try(*x),
            Tok::Union(x) => Tok::Union(*x),
            Tok::Entity(x) => Tok::Entity(*x),
            Tok::Bag(x) => Tok::Bag(*x),
            Tok::Ring(x) => Tok::Ring(*x),
            Tok::Arch(x) => Tok::Arch(*x),
            Tok::When(x) => Tok::When(*x),
            Tok::Out(x) => Tok::Out(*x),
            Tok::InOut(x) => Tok::InOut(*x),
            Tok::Plus(x) => Tok::Plus(*x),
            Tok::Minus(x) => Tok::Minus(*x),
            Tok::Star(x) => Tok::Star(*x),
            Tok::StarStar(x) => Tok::StarStar(*x),
            Tok::Slash(x) => Tok::Slash(*x),
            Tok::Percent(x) => Tok::Percent(*x),
            Tok::Caret(x) => Tok::Caret(*x),
            Tok::Not(x) => Tok::Not(*x),
            Tok::And(x) => Tok::And(*x),
            Tok::Or(x) => Tok::Or(*x),
            Tok::AndAnd(x) => Tok::AndAnd(*x),
            Tok::OrOr(x) => Tok::OrOr(*x),
            Tok::Shl(x) => Tok::Shl(*x),
            Tok::Shr(x) => Tok::Shr(*x),
            Tok::PlusEq(x) => Tok::PlusEq(*x),
            Tok::MinusEq(x) => Tok::MinusEq(*x),
            Tok::StarEq(x) => Tok::StarEq(*x),
            Tok::StarStarEq(x) => Tok::StarStarEq(*x),
            Tok::SlashEq(x) => Tok::SlashEq(*x),
            Tok::PercentEq(x) => Tok::PercentEq(*x),
            Tok::CaretEq(x) => Tok::CaretEq(*x),
            Tok::AndEq(x) => Tok::AndEq(*x),
            Tok::OrEq(x) => Tok::OrEq(*x),
            Tok::ShlEq(x) => Tok::ShlEq(*x),
            Tok::ShrEq(x) => Tok::ShrEq(*x),
            Tok::Eq(x) => Tok::Eq(*x),
            Tok::EqEq(x) => Tok::EqEq(*x),
            Tok::Ne(x) => Tok::Ne(*x),
            Tok::Gt(x) => Tok::Gt(*x),
            Tok::Lt(x) => Tok::Lt(*x),
            Tok::Ge(x) => Tok::Ge(*x),
            Tok::Le(x) => Tok::Le(*x),
            Tok::At(x) => Tok::At(*x),
            Tok::Underscore(x) => Tok::Underscore(*x),
            Tok::Dot(x) => Tok::Dot(*x),
            Tok::DotDot(x) => Tok::DotDot(*x),
            Tok::DotDotEq(x) => Tok::DotDotEq(*x),
            Tok::Comma(x) => Tok::Comma(*x),
            Tok::Semi(x) => Tok::Semi(*x),
            Tok::Colon(x) => Tok::Colon(*x),
            Tok::PathSep(x) => Tok::PathSep(*x),
            Tok::RArrow(x) => Tok::RArrow(*x),
            Tok::FatArrow(x) => Tok::FatArrow(*x),
            Tok::Pound(x) => Tok::Pound(*x),
            Tok::Dollar(x) => Tok::Dollar(*x),
            Tok::Question(x) => Tok::Question(*x),
            Tok::BracketOpen(x) => Tok::BracketOpen(*x),
            Tok::BracketClose(x) => Tok::BracketClose(*x),
            Tok::ParenOpen(x) => Tok::ParenOpen(*x),
            Tok::ParenClose(x) => Tok::ParenClose(*x),
            Tok::BraceOpen(x) => Tok::BraceOpen(*x),
            Tok::BraceClose(x) => Tok::BraceClose(*x),
            Tok::Ident(i) => Tok::Ident(i.dup()),
            Tok::Lit(l) => Tok::Lit(l.dup()),
        }
    }
}

/// The display text of a token.
pub open spec fn tok_text(t: Tok) -> Seq<char> {
    match t {
        Tok::As(_) => "as"@,
        Tok::Break(_) => "break"@,
        Tok::Const(_) => "const"@,
        Tok::Continue(_) => "continue"@,
        Tok::Crate(_) => "crate"@,
        Tok::Else(_) => "else"@,
        Tok::Enum(_) => "enum"@,
        Tok::Extern(_) => "extern"@,
        Tok::Fn(_) => "fn"@,
        Tok::For(_) => "for"@,
        Tok::If(_) => "if"@,
        Tok::Impl(_) => "impl"@,
        Tok::In(_) => "in"@,
        Tok::Let(_) => "let"@,
        Tok::Loop(_) => "loop"@,
        Tok::Match(_) => "match"@,
        Tok::Mod(_) => "mod"@,
        Tok::Move(_) => "move"@,
        Tok::Mut(_) => "mut"@,
        Tok::Pub(_) => "pub"@,
        Tok::Ref(_) => "ref"@,
        Tok::Return(_) => "return"@,
        Tok::LowerSelf(_) => "self"@,
        Tok::UpperSelf(_) => "Self"@,
        Tok::Static(_) => "static"@,
        Tok::Struct(_) => "struct"@,
        Tok::Super(_) => "super"@,
        Tok::Trait(_) => "trait"@,
        Tok::TokenType(_) => "type"@,
        Tok::Unsafe(_) => "unsafe"@,
        Tok::Use(_) => "use"@,
        Tok::Where(_) => "where"@,
        Tok::While(_) => "while"@,
        Tok::Async(_) => "async"@,
        Tok::Await(_) => "await"@,
        Tok::Dyn(_) => "dyn"@,
        Tok::Abstract(_) => "abstract"@,
        Tok::Become(_) => "become"@,
        Tok::TokenBox(_) => "box"@,
        Tok::Do(_) => "do"@,
        Tok::Final(_) => "final"@,
        Tok::Macro(_) => "macro"@,
        Tok::Override(_) => "override"@,
        Tok::Priv(_) => "priv"@,
        Tok::Typeof(_) => "typeof"@,
        Tok::Unsized(_) => "unsized"@,
        Tok::Virtual(_) => "virtual"@,
        Tok::Yield(_) => "yield"@,
        Tok::Try(_) => "try"@,
        Tok::Union(_) => "union"@,
        Tok::Entity(_) => "entity"@,
        Tok::Bag(_) => "bag"@,
        Tok::Ring(_) => "ring"@,
        Tok::Arch(_) => "arch"@,
        Tok::When(_) => "when"@,
        Tok::Out(_) => "out"@,
        Tok::InOut(_) => "inout"@,
        Tok::Plus(_) => "+"@,
        Tok::Minus(_) => "-"@,
        Tok::Star(_) => "*"@,
        Tok::StarStar(_) => "**"@,
        Tok::Slash(_) => "/"@,
        Tok::Percent(_) => "%"@,
        Tok::Caret(_) => "^"@,
        Tok::Not(_) => "!"@,
        Tok::And(_) => "&"@,
        Tok::Or(_) => "|"@,
        Tok::AndAnd(_) => "&&"@,
        Tok::OrOr(_) => "||"@,
        Tok::Shl(_) => "<<"@,
        Tok::Shr(_) => ">>"@,
        Tok::PlusEq(_) => "+="@,
        Tok::MinusEq(_) => "-="@,
        Tok::StarEq(_) => "*="@,
        Tok::StarStarEq(_) => "**="@,
        Tok::SlashEq(_) => "/="@,
        Tok::PercentEq(_) => "%="@,
        Tok::CaretEq(_) => "^="@,
        Tok::AndEq(_) => "&="@,
        Tok::OrEq(_) => "|="@,
        Tok::ShlEq(_) => "<<="@,
        Tok::ShrEq(_) => ">>="@,
        Tok::Eq(_) => "="@,
        Tok::EqEq(_) => "=="@,
        Tok::Ne(_) => "!="@,
        Tok::Gt(_) => ">"@,
        Tok::Lt(_) => "<"@,
        Tok::Ge(_) => ">="@,
        Tok::Le(_) => "<="@,
        Tok::At(_) => "@"@,
        Tok::Underscore(_) => "_"@,
        Tok::Dot(_) => "."@,
        Tok::DotDot(_) => ".."@,
        Tok::DotDotEq(_) => "..="@,
        Tok::Comma(_) => ","@,
        Tok::Semi(_) => ";"@,
        Tok::Colon(_) => ":"@,
        Tok::PathSep(_) => "::"@,
        Tok::RArrow(_) => "->"@,
        Tok::FatArrow(_) => "=>"@,
        Tok::Pound(_) => "#"@,
        Tok::Dollar(_) => "$"@,
        Tok::Question(_) => "?"@,
        Tok::BracketOpen(_) => "["@,
        Tok::BracketClose(_) => "]"@,
        Tok::ParenOpen(_) => "("@,
        Tok::ParenClose(_) => ")"@,
        Tok::BraceOpen(_) => "{"@,
        Tok::BraceClose(_) => "}"@,
        Tok::Ident(i) => i.inner@,
        Tok::Lit(l) => lit_text(l),
    }
}

/// The source interval a token covers. A fixed token stores only its start;
/// its end follows from its statically known text.
pub open spec fn tok_span(t: Tok) -> Span {
    match t {
        Tok::As(x) => Span(x.left, (x.left + 2) as usize),
        Tok::Break(x) => Span(x.left, (x.left + 5) as usize),
        Tok::Const(x) => Span(x.left, (x.left + 5) as usize),
        Tok::Continue(x) => Span(x.left, (x.left + 8) as usize),
        Tok::Crate(x) => Span(x.left, (x.left + 5) as usize),
        Tok::Else(x) => Span(x.left, (x.left + 4) as usize),
        Tok::Enum(x) => Span(x.left, (x.left + 4) as usize),
        Tok::Extern(x) => Span(x.left, (x.left + 6) as usize),
        Tok::Fn(x) => Span(x.left, (x.left + 2) as usize),
        Tok::For(x) => Span(x.left, (x.left + 3) as usize),
        Tok::If(x) => Span(x.left, (x.left + 2) as usize),
        Tok::Impl(x) => Span(x.left, (x.left + 4) as usize),
        Tok::In(x) => Span(x.left, (x.left + 2) as usize),
        Tok::Let(x) => Span(x.left, (x.left + 3) as usize),
        Tok::Loop(x) => Span(x.left, (x.left + 4) as usize),
        Tok::Match(x) => Span(x.left, (x.left + 5) as usize),
        Tok::Mod(x) => Span(x.left, (x.left + 3) as usize),
        Tok::Move(x) => Span(x.left, (x.left + 4) as usize),
        Tok::Mut(x) => Span(x.left, (x.left + 3) as usize),
        Tok::Pub(x) => Span(x.left, (x.left + 3) as usize),
        Tok::Ref(x) => Span(x.left, (x.left + 3) as usize),
        Tok::Return(x) => Span(x.left, (x.left + 6) as usize),
        Tok::LowerSelf(x) => Span(x.left, (x.left + 4) as usize),
        Tok::UpperSelf(x) => Span(x.left, (x.left + 4) as usize),
        Tok::Static(x) => Span(x.left, (x.left + 6) as usize),
        Tok::Struct(x) => Span(x.left, (x.left + 6) as usize),
        Tok::Super(x) => Span(x.left, (x.left + 5) as usize),
        Tok::Trait(x) => Span(x.left, (x.left + 5) as usize),
        Tok::TokenType(x) => Span(x.left, (x.left + 4) as usize),
        Tok::Unsafe(x) => Span(x.left, (x.left + 6) as usize),
        Tok::Use(x) => Span(x.left, (x.left + 3) as usize),
        Tok::Where(x) => Span(x.left, (x.left + 5) as usize),
        Tok::While(x) => Span(x.left, (x.left + 5) as usize),
        Tok::Async(x) => Span(x.left, (x.left + 5) as usize),
        Tok::Await(x) => Span(x.left, (x.left + 5) as usize),
        Tok::Dyn(x) => Span(x.left, (x.left + 3) as usize),
        Tok::Abstract(x) => Span(x.left, (x.left + 8) as usize),
        Tok::Become(x) => Span(x.left, (x.left + 6) as usize),
        Tok::TokenBox(x) => Span(x.left, (x.left + 3) as usize),
        Tok::Do(x) => Span(x.left, (x.left + 2) as usize),
        Tok::Final(x) => Span(x.left, (x.left + 5) as usize),
        Tok::Macro(x) => Span(x.left, (x.left + 5) as usize),
        Tok::Override(x) => Span(x.left, (x.left + 8) as usize),
        Tok::Priv(x) => Span(x.left, (x.left + 4) as usize),
        Tok::Typeof(x) => Span(x.left, (x.left + 6) as usize),
        Tok::Unsized(x) => Span(x.left, (x.left + 7) as usize),
        Tok::Virtual(x) => Span(x.left, (x.left + 7) as usize),
        Tok::Yield(x) => Span(x.left, (x.left + 5) as usize),
        Tok::Try(x) => Span(x.left, (x.left + 3) as usize),
        Tok::Union(x) => Span(x.left, (x.left + 5) as usize),
        Tok::Entity(x) => Span(x.left, (x.left + 6) as usize),
        Tok::Bag(x) => Span(x.left, (x.left + 3) as usize),
        Tok::Ring(x) => Span(x.left, (x.left + 4) as usize),
        Tok::Arch(x) => Span(x.left, (x.left + 4) as usize),
        Tok::When(x) => Span(x.left, (x.left + 4) as usize),
        Tok::Out(x) => Span(x.left, (x.left + 3) as usize),
        Tok::InOut(x) => Span(x.left, (x.left + 5) as usize),
        Tok::Plus(x) => Span(x.left, (x.left + 1) as usize),
        Tok::Minus(x) => Span(x.left, (x.left + 1) as usize),
        Tok::Star(x) => Span(x.left, (x.left + 1) as usize),
        Tok::StarStar(x) => Span(x.left, (x.left + 2) as usize),
        Tok::Slash(x) => Span(x.left, (x.left + 1) as usize),
        Tok::Percent(x) => Span(x.left, (x.left + 1) as usize),
        Tok::Caret(x) => Span(x.left, (x.left + 1) as usize),
        Tok::Not(x) => Span(x.left, (x.left + 1) as usize),
        Tok::And(x) => Span(x.left, (x.left + 1) as usize),
        Tok::Or(x) => Span(x.left, (x.left + 1) as usize),
        Tok::AndAnd(x) => Span(x.left, (x.left + 2) as usize),
        Tok::OrOr(x) => Span(x.left, (x.left + 2) as usize),
        Tok::Shl(x) => Span(x.left, (x.left + 2) as usize),
        Tok::Shr(x) => Span(x.left, (x.left + 2) as usize),
        Tok::PlusEq(x) => Span(x.left, (x.left + 2) as usize),
        Tok::MinusEq(x) => Span(x.left, (x.left + 2) as usize),
        Tok::StarEq(x) => Span(x.left, (x.left + 2) as usize),
        Tok::StarStarEq(x) => Span(x.left, (x.left + 3) as usize),
        Tok::SlashEq(x) => Span(x.left, (x.left + 2) as usize),
        Tok::PercentEq(x) => Span(x.left, (x.left + 2) as usize),
        Tok::CaretEq(x) => Span(x.left, (x.left + 2) as usize),
        Tok::AndEq(x) => Span(x.left, (x.left + 2) as usize),
        Tok::OrEq(x) => Span(x.left, (x.left + 2) as usize),
        Tok::ShlEq(x) => Span(x.left, (x.left + 3) as usize),
        Tok::ShrEq(x) => Span(x.left, (x.left + 3) as usize),
        Tok::Eq(x) => Span(x.left, (x.left + 1) as usize),
        Tok::EqEq(x) => Span(x.left, (x.left + 2) as usize),
        Tok::Ne(x) => Span(x.left, (x.left + 2) as usize),
        Tok::Gt(x) => Span(x.left, (x.left + 1) as usize),
        Tok::Lt(x) => Span(x.left, (x.left + 1) as usize),
        Tok::Ge(x) => Span(x.left, (x.left + 2) as usize),
        Tok::Le(x) => Span(x.left, (x.left + 2) as usize),
        Tok::At(x) => Span(x.left, (x.left + 1) as usize),
        Tok::Underscore(x) => Span(x.left, (x.left + 1) as usize),
        Tok::Dot(x) => Span(x.left, (x.left + 1) as usize),
        Tok::DotDot(x) => Span(x.left, (x.left + 2) as usize),
        Tok::DotDotEq(x) => Span(x.left, (x.left + 3) as usize),
        Tok::Comma(x) => Span(x.left, (x.left + 1) as usize),
        Tok::Semi(x) => Span(x.left, (x.left + 1) as usize),
        Tok::Colon(x) => Span(x.left, (x.left + 1) as usize),
        Tok::PathSep(x) => Span(x.left, (x.left + 2) as usize),
        Tok::RArrow(x) => Span(x.left, (x.left + 2) as usize),
        Tok::FatArrow(x) => Span(x.left, (x.left + 2) as usize),
        Tok::Pound(x) => Span(x.left, (x.left + 1) as usize),
        Tok::Dollar(x) => Span(x.left, (x.left + 1) as usize),
        Tok::Question(x) => Span(x.left, (x.left + 1) as usize),
        Tok::BracketOpen(x) => Span(x.left, (x.left + 1) as usize),
        Tok::BracketClose(x) => Span(x.left, (x.left + 1) as usize),
        Tok::ParenOpen(x) => Span(x.left, (x.left + 1) as usize),
        Tok::ParenClose(x) => Span(x.left, (x.left + 1) as usize),
        Tok::BraceOpen(x) => Span(x.left, (x.left + 1) as usize),
        Tok::BraceClose(x) => Span(x.left, (x.left + 1) as usize),
        Tok::Ident(i) => i.span,
        Tok::Lit(l) => lit_span(l),
    }
}

/// A token is well formed when its span fits the source buffer: the end
/// offset of a fixed token does not overflow, and a payload token's span is
/// not inverted.
pub open spec fn tok_wf(t: Tok) -> bool {
    match t {
        Tok::As(x) => x.left + 2 <= usize::MAX,
        Tok::Break(x) => x.left + 5 <= usize::MAX,
        Tok::Const(x) => x.left + 5 <= usize::MAX,
        Tok::Continue(x) => x.left + 8 <= usize::MAX,
        Tok::Crate(x) => x.left + 5 <= usize::MAX,
        Tok::Else(x) => x.left + 4 <= usize::MAX,
        Tok::Enum(x) => x.left + 4 <= usize::MAX,
        Tok::Extern(x) => x.left + 6 <= usize::MAX,
        Tok::Fn(x) => x.left + 2 <= usize::MAX,
        Tok::For(x) => x.left + 3 <= usize::MAX,
        Tok::If(x) => x.left + 2 <= usize::MAX,
        Tok::Impl(x) => x.left + 4 <= usize::MAX,
        Tok::In(x) => x.left + 2 <= usize::MAX,
        Tok::Let(x) => x.left + 3 <= usize::MAX,
        Tok::Loop(x) => x.left + 4 <= usize::MAX,
        Tok::Match(x) => x.left + 5 <= usize::MAX,
        Tok::Mod(x) => x.left + 3 <= usize::MAX,
        Tok::Move(x) => x.left + 4 <= usize::MAX,
        Tok::Mut(x) => x.left + 3 <= usize::MAX,
        Tok::Pub(x) => x.left + 3 <= usize::MAX,
        Tok::Ref(x) => x.left + 3 <= usize::MAX,
        Tok::Return(x) => x.left + 6 <= usize::MAX,
        Tok::LowerSelf(x) => x.left + 4 <= usize::MAX,
        Tok::UpperSelf(x) => x.left + 4 <= usize::MAX,
        Tok::Static(x) => x.left + 6 <= usize::MAX,
        Tok::Struct(x) => x.left + 6 <= usize::MAX,
        Tok::Super(x) => x.left + 5 <= usize::MAX,
        Tok::Trait(x) => x.left + 5 <= usize::MAX,
        Tok::TokenType(x) => x.left + 4 <= usize::MAX,
        Tok::Unsafe(x) => x.left + 6 <= usize::MAX,
        Tok::Use(x) => x.left + 3 <= usize::MAX,
        Tok::Where(x) => x.left + 5 <= usize::MAX,
        Tok::While(x) => x.left + 5 <= usize::MAX,
        Tok::Async(x) => x.left + 5 <= usize::MAX,
        Tok::Await(x) => x.left + 5 <= usize::MAX,
        Tok::Dyn(x) => x.left + 3 <= usize::MAX,
        Tok::Abstract(x) => x.left + 8 <= usize::MAX,
        Tok::Become(x) => x.left + 6 <= usize::MAX,
        Tok::TokenBox(x) => x.left + 3 <= usize::MAX,
        Tok::Do(x) => x.left + 2 <= usize::MAX,
        Tok::Final(x) => x.left + 5 <= usize::MAX,
        Tok::Macro(x) => x.left + 5 <= usize::MAX,
        Tok::Override(x) => x.left + 8 <= usize::MAX,
        Tok::Priv(x) => x.left + 4 <= usize::MAX,
        Tok::Typeof(x) => x.left + 6 <= usize::MAX,
        Tok::Unsized(x) => x.left + 7 <= usize::MAX,
        Tok::Virtual(x) => x.left + 7 <= usize::MAX,
        Tok::Yield(x) => x.left + 5 <= usize::MAX,
        Tok::Try(x) => x.left + 3 <= usize::MAX,
        Tok::Union(x) => x.left + 5 <= usize::MAX,
        Tok::Entity(x) => x.left + 6 <= usize::MAX,
        Tok::Bag(x) => x.left + 3 <= usize::MAX,
        Tok::Ring(x) => x.left + 4 <= usize::MAX,
        Tok::Arch(x) => x.left + 4 <= usize::MAX,
        Tok::When(x) => x.left + 4 <= usize::MAX,
        Tok::Out(x) => x.left + 3 <= usize::MAX,
        Tok::InOut(x) => x.left + 5 <= usize::MAX,
        Tok::Plus(x) => x.left + 1 <= usize::MAX,
        Tok::Minus(x) => x.left + 1 <= usize::MAX,
        Tok::Star(x) => x.left + 1 <= usize::MAX,
        Tok::StarStar(x) => x.left + 2 <= usize::MAX,
        Tok::Slash(x) => x.left + 1 <= usize::MAX,
        Tok::Percent(x) => x.left + 1 <= usize::MAX,
        Tok::Caret(x) => x.left + 1 <= usize::MAX,
        Tok::Not(x) => x.left + 1 <= usize::MAX,
        Tok::And(x) => x.left + 1 <= usize::MAX,
        Tok::Or(x) => x.left + 1 <= usize::MAX,
        Tok::AndAnd(x) => x.left + 2 <= usize::MAX,
        Tok::OrOr(x) => x.left + 2 <= usize::MAX,
        Tok::Shl(x) => x.left + 2 <= usize::MAX,
        Tok::Shr(x) => x.left + 2 <= usize::MAX,
        Tok::PlusEq(x) => x.left + 2 <= usize::MAX,
        Tok::MinusEq(x) => x.left + 2 <= usize::MAX,
        Tok::StarEq(x) => x.left + 2 <= usize::MAX,
        Tok::StarStarEq(x) => x.left + 3 <= usize::MAX,
        Tok::SlashEq(x) => x.left + 2 <= usize::MAX,
        Tok::PercentEq(x) => x.left + 2 <= usize::MAX,
        Tok::CaretEq(x) => x.left + 2 <= usize::MAX,
        Tok::AndEq(x) => x.left + 2 <= usize::MAX,
        Tok::OrEq(x) => x.left + 2 <= usize::MAX,
        Tok::ShlEq(x) => x.left + 3 <= usize::MAX,
        Tok::ShrEq(x) => x.left + 3 <= usize::MAX,
        Tok::Eq(x) => x.left + 1 <= usize::MAX,
        Tok::EqEq(x) => x.left + 2 <= usize::MAX,
        Tok::Ne(x) => x.left + 2 <= usize::MAX,
        Tok::Gt(x) => x.left + 1 <= usize::MAX,
        Tok::Lt(x) => x.left + 1 <= usize::MAX,
        Tok::Ge(x) => x.left + 2 <= usize::MAX,
        Tok::Le(x) => x.left + 2 <= usize::MAX,
        Tok::At(x) => x.left + 1 <= usize::MAX,
        Tok::Underscore(x) => x.left + 1 <= usize::MAX,
        Tok::Dot(x) => x.left + 1 <= usize::MAX,
        Tok::DotDot(x) => x.left + 2 <= usize::MAX,
        Tok::DotDotEq(x) => x.left + 3 <= usize::MAX,
        Tok::Comma(x) => x.left + 1 <= usize::MAX,
        Tok::Semi(x) => x.left + 1 <= usize::MAX,
        Tok::Colon(x) => x.left + 1 <= usize::MAX,
        Tok::PathSep(x) => x.left + 2 <= usize::MAX,
        Tok::RArrow(x) => x.left + 2 <= usize::MAX,
        Tok::FatArrow(x) => x.left + 2 <= usize::MAX,
        Tok::Pound(x) => x.left + 1 <= usize::MAX,
        Tok::Dollar(x) => x.left + 1 <= usize::MAX,
        Tok::Question(x) => x.left + 1 <= usize::MAX,
        Tok::BracketOpen(x) => x.left + 1 <= usize::MAX,
        Tok::BracketClose(x) => x.left + 1 <= usize::MAX,
        Tok::ParenOpen(x) => x.left + 1 <= usize::MAX,
        Tok::ParenClose(x) => x.left + 1 <= usize::MAX,
        Tok::BraceOpen(x) => x.left + 1 <= usize::MAX,
        Tok::BraceClose(x) => x.left + 1 <= usize::MAX,
        Tok::Ident(i) => i.span.0 <= i.span.1,
        Tok::Lit(l) => lit_span(l).0 <= lit_span(l).1,
    }
}

pub(crate) fn tok_span_exec(t: &Tok) -> (s: Span)
    requires
        tok_wf(*t),
    ensures
        s == tok_span(*t),
{
    match t {
        Tok::As(x) => Span(x.left, x.left + 2),
        Tok::Break(x) => Span(x.left, x.left + 5),
        Tok::Const(x) => Span(x.left, x.left + 5),
        Tok::Continue(x) => Span(x.left, x.left + 8),
        Tok::Crate(x) => Span(x.left, x.left + 5),
        Tok::Else(x) => Span(x.left, x.left + 4),
        Tok::Enum(x) => Span(x.left, x.left + 4),
        Tok::Extern(x) => Span(x.left, x.left + 6),
        Tok::Fn(x) => Span(x.left, x.left + 2),
        Tok::For(x) => Span(x.left, x.left + 3),
        Tok::If(x) => Span(x.left, x.left + 2),
        Tok::Impl(x) => Span(x.left, x.left + 4),
        Tok::In(x) => Span(x.left, x.left + 2),
        Tok::Let(x) => Span(x.left, x.left + 3),
        Tok::Loop(x) => Span(x.left, x.left + 4),
        Tok::Match(x) => Span(x.left, x.left + 5),
        Tok::Mod(x) => Span(x.left, x.left + 3),
        Tok::Move(x) => Span(x.left, x.left + 4),
        Tok::Mut(x) => Span(x.left, x.left + 3),
        Tok::Pub(x) => Span(x.left, x.left + 3),
        Tok::Ref(x) => Span(x.left, x.left + 3),
        Tok::Return(x) => Span(x.left, x.left + 6),
        Tok::LowerSelf(x) => Span(x.left, x.left + 4),
        Tok::UpperSelf(x) => Span(x.left, x.left + 4),
        Tok::Static(x) => Span(x.left, x.left + 6),
        Tok::Struct(x) => Span(x.left, x.left + 6),
        Tok::Super(x) => Span(x.left, x.left + 5),
        Tok::Trait(x) => Span(x.left, x.left + 5),
        Tok::TokenType(x) => Span(x.left, x.left + 4),
        Tok::Unsafe(x) => Span(x.left, x.left + 6),
        Tok::Use(x) => Span(x.left, x.left + 3),
        Tok::Where(x) => Span(x.left, x.left + 5),
        Tok::While(x) => Span(x.left, x.left + 5),
        Tok::Async(x) => Span(x.left, x.left + 5),
        Tok::Await(x) => Span(x.left, x.left + 5),
        Tok::Dyn(x) => Span(x.left, x.left + 3),
        Tok::Abstract(x) => Span(x.left, x.left + 8),
        Tok::Become(x) => Span(x.left, x.left + 6),
        Tok::TokenBox(x) => Span(x.left, x.left + 3),
        Tok::Do(x) => Span(x.left, x.left + 2),
        Tok::Final(x) => Span(x.left, x.left + 5),
        Tok::Macro(x) => Span(x.left, x.left + 5),
        Tok::Override(x) => Span(x.left, x.left + 8),
        Tok::Priv(x) => Span(x.left, x.left + 4),
        Tok::Typeof(x) => Span(x.left, x.left + 6),
        Tok::Unsized(x) => Span(x.left, x.left + 7),
        Tok::Virtual(x) => Span(x.left, x.left + 7),
        Tok::Yield(x) => Span(x.left, x.left + 5),
        Tok::Try(x) => Span(x.left, x.left + 3),
        Tok::Union(x) => Span(x.left, x.left + 5),
        Tok::Entity(x) => Span(x.left, x.left + 6),
        Tok::Bag(x) => Span(x.left, x.left + 3),
        Tok::Ring(x) => Span(x.left, x.left + 4),
        Tok::Arch(x) => Span(x.left, x.left + 4),
        Tok::When(x) => Span(x.left, x.left + 4),
        Tok::Out(x) => Span(x.left, x.left + 3),
        Tok::InOut(x) => Span(x.left, x.left + 5),
        Tok::Plus(x) => Span(x.left, x.left + 1),
        Tok::Minus(x) => Span(x.left, x.left + 1),
        Tok::Star(x) => Span(x.left, x.left + 1),
        Tok::StarStar(x) => Span(x.left, x.left + 2),
        Tok::Slash(x) => Span(x.left, x.left + 1),
        Tok::Percent(x) => Span(x.left, x.left + 1),
        Tok::Caret(x) => Span(x.left, x.left + 1),
        Tok::Not(x) => Span(x.left, x.left + 1),
        Tok::And(x) => Span(x.left, x.left + 1),
        Tok::Or(x) => Span(x.left, x.left + 1),
        Tok::AndAnd(x) => Span(x.left, x.left + 2),
        Tok::OrOr(x) => Span(x.left, x.left + 2),
        Tok::Shl(x) => Span(x.left, x.left + 2),
        Tok::Shr(x) => Span(x.left, x.left + 2),
        Tok::PlusEq(x) => Span(x.left, x.left + 2),
        Tok::MinusEq(x) => Span(x.left, x.left + 2),
        Tok::StarEq(x) => Span(x.left, x.left + 2),
        Tok::StarStarEq(x) => Span(x.left, x.left + 3),
        Tok::SlashEq(x) => Span(x.left, x.left + 2),
        Tok::PercentEq(x) => Span(x.left, x.left + 2),
        Tok::CaretEq(x) => Span(x.left, x.left + 2),
        Tok::AndEq(x) => Span(x.left, x.left + 2),
        Tok::OrEq(x) => Span(x.left, x.left + 2),
        Tok::ShlEq(x) => Span(x.left, x.left + 3),
        Tok::ShrEq(x) => Span(x.left, x.left + 3),
        Tok::Eq(x) => Span(x.left, x.left + 1),
        Tok::EqEq(x) => Span(x.left, x.left + 2),
        Tok::Ne(x) => Span(x.left, x.left + 2),
        Tok::Gt(x) => Span(x.left, x.left + 1),
        Tok::Lt(x) => Span(x.left, x.left + 1),
        Tok::Ge(x) => Span(x.left, x.left + 2),
        Tok::Le(x) => Span(x.left, x.left + 2),
        Tok::At(x) => Span(x.left, x.left + 1),
        Tok::Underscore(x) => Span(x.left, x.left + 1),
        Tok::Dot(x) => Span(x.left, x.left + 1),
        Tok::DotDot(x) => Span(x.left, x.left + 2),
        Tok::DotDotEq(x) => Span(x.left, x.left + 3),
        Tok::Comma(x) => Span(x.left, x.left + 1),
        Tok::Semi(x) => Span(x.left, x.left + 1),
        Tok::Colon(x) => Span(x.left, x.left + 1),
        Tok::PathSep(x) => Span(x.left, x.left + 2),
        Tok::RArrow(x) => Span(x.left, x.left + 2),
        Tok::FatArrow(x) => Span(x.left, x.left + 2),
        Tok::Pound(x) => Span(x.left, x.left + 1),
        Tok::Dollar(x) => Span(x.left, x.left + 1),
        Tok::Question(x) => Span(x.left, x.left + 1),
        Tok::BracketOpen(x) => Span(x.left, x.left + 1),
        Tok::BracketClose(x) => Span(x.left, x.left + 1),
        Tok::ParenOpen(x) => Span(x.left, x.left + 1),
        Tok::ParenClose(x) => Span(x.left, x.left + 1),
        Tok::BraceOpen(x) => Span(x.left, x.left + 1),
        Tok::BraceClose(x) => Span(x.left, x.left + 1),
        Tok::Ident(i) => i.span,
        Tok::Lit(l) => match l {
            Lit::Int(i) => i.span,
            Lit::Float(f) => f.span,
            Lit::Bool(b) => b.span,
        },
    }
}

/// Appends a token's display text to an accumulating string.
pub fn append_tok_text(acc: &mut String, t: &Tok)
    ensures
        final(acc)@ == old(acc)@ + tok_text(*t),
{
    match t {
        Tok::As(_) => acc.append("as"),
        Tok::Break(_) => acc.append("break"),
        Tok::Const(_) => acc.append("const"),
        Tok::Continue(_) => acc.append("continue"),
        Tok::Crate(_) => acc.append("crate"),
        Tok::Else(_) => acc.append("else"),
        Tok::Enum(_) => acc.append("enum"),
        Tok::Extern(_) => acc.append("extern"),
        Tok::Fn(_) => acc.append("fn"),
        Tok::For(_) => acc.append("for"),
        Tok::If(_) => acc.append("if"),
        Tok::Impl(_) => acc.append("impl"),
        Tok::In(_) => acc.append("in"),
        Tok::Let(_) => acc.append("let"),
        Tok::Loop(_) => acc.append("loop"),
        Tok::Match(_) => acc.append("match"),
        Tok::Mod(_) => acc.append("mod"),
        Tok::Move(_) => acc.append("move"),
        Tok::Mut(_) => acc.append("mut"),
        Tok::Pub(_) => acc.append("pub"),
        Tok::Ref(_) => acc.append("ref"),
        Tok::Return(_) => acc.append("return"),
        Tok::LowerSelf(_) => acc.append("self"),
        Tok::UpperSelf(_) => acc.append("Self"),
        Tok::Static(_) => acc.append("static"),
        Tok::Struct(_) => acc.append("struct"),
        Tok::Super(_) => acc.append("super"),
        Tok::Trait(_) => acc.append("trait"),
        Tok::TokenType(_) => acc.append("type"),
        Tok::Unsafe(_) => acc.append("unsafe"),
        Tok::Use(_) => acc.append("use"),
        Tok::Where(_) => acc.append("where"),
        Tok::While(_) => acc.append("while"),
        Tok::Async(_) => acc.append("async"),
        Tok::Await(_) => acc.append("await"),
        Tok::Dyn(_) => acc.append("dyn"),
        Tok::Abstract(_) => acc.append("abstract"),
        Tok::Become(_) => acc.append("become"),
        Tok::TokenBox(_) => acc.append("box"),
        Tok::Do(_) => acc.append("do"),
        Tok::Final(_) => acc.append("final"),
        Tok::Macro(_) => acc.append("macro"),
        Tok::Override(_) => acc.append("override"),
        Tok::Priv(_) => acc.append("priv"),
        Tok::Typeof(_) => acc.append("typeof"),
        Tok::Unsized(_) => acc.append("unsized"),
        Tok::Virtual(_) => acc.append("virtual"),
        Tok::Yield(_) => acc.append("yield"),
        Tok::Try(_) => acc.append("try"),
        Tok::Union(_) => acc.append("union"),
        Tok::Entity(_) => acc.append("entity"),
        Tok::Bag(_) => acc.append("bag"),
        Tok::Ring(_) => acc.append("ring"),
        Tok::Arch(_) => acc.append("arch"),
        Tok::When(_) => acc.append("when"),
        Tok::Out(_) => acc.append("out"),
        Tok::InOut(_) => acc.append("inout"),
        Tok::Plus(_) => acc.append("+"),
        Tok::Minus(_) => acc.append("-"),
        Tok::Star(_) => acc.append("*"),
        Tok::StarStar(_) => acc.append("**"),
        Tok::Slash(_) => acc.append("/"),
        Tok::Percent(_) => acc.append("%"),
        Tok::Caret(_) => acc.append("^"),
        Tok::Not(_) => acc.append("!"),
        Tok::And(_) => acc.append("&"),
        Tok::Or(_) => acc.append("|"),
        Tok::AndAnd(_) => acc.append("&&"),
        Tok::OrOr(_) => acc.append("||"),
        Tok::Shl(_) => acc.append("<<"),
        Tok::Shr(_) => acc.append(">>"),
        Tok::PlusEq(_) => acc.append("+="),
        Tok::MinusEq(_) => acc.append("-="),
        Tok::StarEq(_) => acc.append("*="),
        Tok::StarStarEq(_) => acc.append("**="),
        Tok::SlashEq(_) => acc.append("/="),
        Tok::PercentEq(_) => acc.append("%="),
        Tok::CaretEq(_) => acc.append("^="),
        Tok::AndEq(_) => acc.append("&="),
        Tok::OrEq(_) => acc.append("|="),
        Tok::ShlEq(_) => acc.append("<<="),
        Tok::ShrEq(_) => acc.append(">>="),
        Tok::Eq(_) => acc.append("="),
        Tok::EqEq(_) => acc.append("=="),
        Tok::Ne(_) => acc.append("!="),
        Tok::Gt(_) => acc.append(">"),
        Tok::Lt(_) => acc.append("<"),
        Tok::Ge(_) => acc.append(">="),
        Tok::Le(_) => acc.append("<="),
        Tok::At(_) => acc.append("@"),
        Tok::Underscore(_) => acc.append("_"),
        Tok::Dot(_) => acc.append("."),
        Tok::DotDot(_) => acc.append(".."),
        Tok::DotDotEq(_) => acc.append("..="),
        Tok::Comma(_) => acc.append(","),
        Tok::Semi(_) => acc.append(";"),
        Tok::Colon(_) => acc.append(":"),
        Tok::PathSep(_) => acc.append("::"),
        Tok::RArrow(_) => acc.append("->"),
        Tok::FatArrow(_) => acc.append("=>"),
        Tok::Pound(_) => acc.append("#"),
        Tok::Dollar(_) => acc.append("$"),
        Tok::Question(_) => acc.append("?"),
        Tok::BracketOpen(_) => acc.append("["),
        Tok::BracketClose(_) => acc.append("]"),
        Tok::ParenOpen(_) => acc.append("("),
        Tok::ParenClose(_) => acc.append(")"),
        Tok::BraceOpen(_) => acc.append("{"),
        Tok::BraceClose(_) => acc.append("}"),
        Tok::Ident(i) => acc.append(i.inner.as_str()),
        Tok::Lit(l) => match l {
            Lit::Int(i) => acc.append(i.raw.as_str()),
            Lit::Float(f) => acc.append(f.raw.as_str()),
            Lit::Bool(b) => if b.inner {
                acc.append("true")
            } else {
                acc.append("false")
            },
        },
    }
}

/// The capability every syntax node has: it can reconstitute the exact
/// ordered sequence of lexical tokens that produced it. `tok_spec` is that
/// sequence at the specification level; `to_tokens` materialises it, and
/// `len`, `first` and `last` agree with it by contract.
pub trait ToTokens: Sized {
    spec fn tok_spec(&self) -> Seq<Tok>;

    fn to_tokens(&self) -> (r: Vec<Tok>)
        ensures
            r@ == self.tok_spec(),
    ;

    /// Number of contained tokens; always equal to `to_tokens().len()`.
    fn len(&self) -> (n: usize)
        ensures
            n == self.tok_spec().len(),
    {
        self.to_tokens().len()
    }

    fn first(&self) -> (t: Option<Tok>)
        ensures
            t == (if self.tok_spec().len() == 0 {
                None::<Tok>
            } else {
                Some(self.tok_spec()[0])
            }),
    {
        let v = self.to_tokens();
        if v.len() == 0 {
            None
        } else {
            Some(v[0].dup())
        }
    }

    fn last(&self) -> (t: Option<Tok>)
        ensures
            t == (if self.tok_spec().len() == 0 {
                None::<Tok>
            } else {
                Some(self.tok_spec().last())
            }),
    {
        let v = self.to_tokens();
        if v.len() == 0 {
            None
        } else {
            Some(v[v.len() - 1].dup())
        }
    }
}

impl ToTokens for As {
    open spec fn tok_spec(&self) -> Seq<Tok> {
        seq![Tok::As(*self)]
    }

    fn to_tokens(&self) -> (r: Vec<Tok>) {
        let mut v: Vec<Tok> = Vec::new();
        v.push(Tok::As(*self));
        proof {
            assert(v@ =~= self.tok_spec());
        }
        v
    }
}

impl ToTokens for Break {
    open spec fn tok_spec(&self) -> Seq<Tok> {
        seq![Tok::Break(*self)]
    }

    fn to_tokens(&self) -> (r: Vec<Tok>) {
        let mut v: Vec<Tok> = Vec::new();
        v.push(Tok::Break(*self));
        proof {
            assert(v@ =~= self.tok_spec());
        }
        v
    }
}

impl ToTokens for Const {
    open spec fn tok_spec(&self) -> Seq<Tok> {
        seq![Tok::Const(*self)]
    }

    fn to_tokens(&self) -> (r: Vec<Tok>) {
        let mut v: Vec<Tok> = Vec::new();
        v.push(Tok::Const(*self));
        proof {
            assert(v@ =~= self.tok_spec());
        }
        v
    }
}

impl ToTokens for Continue {
    open spec fn tok_spec(&self) -> Seq<Tok> {
        seq![Tok::Continue(*self)]
    }

    fn to_tokens(&self) -> (r: Vec<Tok>) {
        let mut v: Vec<Tok> = Vec::new();
        v.push(Tok::Continue(*self));
        proof {
            assert(v@ =~= self.tok_spec());
        }
        v
    }
}

impl ToTokens for Crate {
    open spec fn tok_spec(&self) -> Seq<Tok> {
        seq![Tok::Crate(*self)]
    }

    fn to_tokens(&self) -> (r: Vec<Tok>) {
        let mut v: Vec<Tok> = Vec::new();
        v.push(Tok::Crate(*self));
        proof {
            assert(v@ =~= self.tok_spec());
        }
        v
    }
}

impl ToTokens for Else {
    open spec fn tok_spec(&self) -> Seq<Tok> {
        seq![Tok::Else(*self)]
    }

    fn to_tokens(&self) -> (r: Vec<Tok>) {
        let mut v: Vec<Tok> = Vec::new();
        v.push(Tok::Else(*self));
        proof {
            assert(v@ =~= self.tok_spec());
        }
        v
    }
}

impl ToTokens for Enum {
    open spec fn tok_spec(&self) -> Seq<Tok> {
        seq![Tok::Enum(*self)]
    }

    fn to_tokens(&self) -> (r: Vec<Tok>) {
        let mut v: Vec<Tok> = Vec::new();
        v.push(Tok::Enum(*self));
        proof {
            assert(v@ =~= self.tok_spec());
        }
        v
    }
}

impl ToTokens for TokenExtern {
    open spec fn tok_spec(&self) -> Seq<Tok> {
        seq![Tok::Extern(*self)]
    }

    fn to_tokens(&self) -> (r: Vec<Tok>) {
        let mut v: Vec<Tok> = Vec::new();
        v.push(Tok::Extern(*self));
        proof {
            assert(v@ =~= self.tok_spec());
        }
        v
    }
}

impl ToTokens for TokenFn {
    open spec fn tok_spec(&self) -> Seq<Tok> {
        seq![Tok::Fn(*self)]
    }

    fn to_tokens(&self) -> (r: Vec<Tok>) {
        let mut v: Vec<Tok> = Vec::new();
        v.push(Tok::Fn(*self));
        proof {
            assert(v@ =~= self.tok_spec());
        }
        v
    }
}

impl ToTokens for For {
    open spec fn tok_spec(&self) -> Seq<Tok> {
        seq![Tok::For(*self)]
    }

    fn to_tokens(&self) -> (r: Vec<Tok>) {
        let mut v: Vec<Tok> = Vec::new();
        v.push(Tok::For(*self));
        proof {
            assert(v@ =~= self.tok_spec());
        }
        v
    }
}

impl ToTokens for If {
    open spec fn tok_spec(&self) -> Seq<Tok> {
        seq![Tok::If(*self)]
    }

    fn to_tokens(&self) -> (r: Vec<Tok>) {
        let mut v: Vec<Tok> = Vec::new();
        v.push(Tok::If(*self));
        proof {
            assert(v@ =~= self.tok_spec());
        }
        v
    }
}

impl ToTokens for Impl {
    open spec fn tok_spec(&self) -> Seq<Tok> {
        seq![Tok::Impl(*self)]
    }

    fn to_tokens(&self) -> (r: Vec<Tok>) {
        let mut v: Vec<Tok> = Vec::new();
        v.push(Tok::Impl(*self));
        proof {
            assert(v@ =~= self.tok_spec());
        }
        v
    }
}

impl ToTokens for In {
    open spec fn tok_spec(&self) -> Seq<Tok> {
        seq![Tok::In(*self)]
    }

    fn to_tokens(&self) -> (r: Vec<Tok>) {
        let mut v: Vec<Tok> = Vec::new();
        v.push(Tok::In(*self));
        proof {
            assert(v@ =~= self.tok_spec());
        }
        v
    }
}

impl ToTokens for Let {
    open spec fn tok_spec(&self) -> Seq<Tok> {
        seq![Tok::Let(*self)]
    }

    fn to_tokens(&self) -> (r: Vec<Tok>) {
        let mut v: Vec<Tok> = Vec::new();
        v.push(Tok::Let(*self));
        proof {
            assert(v@ =~= self.tok_spec());
        }
        v
    }
}

impl ToTokens for Loop {
    open spec fn tok_spec(&self) -> Seq<Tok> {
        seq![Tok::Loop(*self)]
    }

    fn to_tokens(&self) -> (r: Vec<Tok>) {
        let mut v: Vec<Tok> = Vec::new();
        v.push(Tok::Loop(*self));
        proof {
            assert(v@ =~= self.tok_spec());
        }
        v
    }
}

impl ToTokens for Match {
    open spec fn tok_spec(&self) -> Seq<Tok> {
        seq![Tok::Match(*self)]
    }

    fn to_tokens(&self) -> (r: Vec<Tok>) {
        let mut v: Vec<Tok> = Vec::new();
        v.push(Tok::Match(*self));
        proof {
            assert(v@ =~= self.tok_spec());
        }
        v
    }
}

impl ToTokens for Mod {
    open spec fn tok_spec(&self) -> Seq<Tok> {
        seq![Tok::Mod(*self)]
    }

    fn to_tokens(&self) -> (r: Vec<Tok>) {
        let mut v: Vec<Tok> = Vec::new();
        v.push(Tok::Mod(*self));
        proof {
            assert(v@ =~= self.tok_spec());
        }
        v
    }
}

impl ToTokens for Move {
    open spec fn tok_spec(&self) -> Seq<Tok> {
        seq![Tok::Move(*self)]
    }

    fn to_tokens(&self) -> (r: Vec<Tok>) {
        let mut v: Vec<Tok> = Vec::new();
        v.push(Tok::Move(*self));
        proof {
            assert(v@ =~= self.tok_spec());
        }
        v
    }
}

impl ToTokens for Mut {
    open spec fn tok_spec(&self) -> Seq<Tok> {
        seq![Tok::Mut(*self)]
    }

    fn to_tokens(&self) -> (r: Vec<Tok>) {
        let mut v: Vec<Tok> = Vec::new();
        v.push(Tok::Mut(*self));
        proof {
            assert(v@ =~= self.tok_spec());
        }
        v
    }
}

impl ToTokens for Pub {
    open spec fn tok_spec(&self) -> Seq<Tok> {
        seq![Tok::Pub(*self)]
    }

    fn to_tokens(&self) -> (r: Vec<Tok>) {
        let mut v: Vec<Tok> = Vec::new();
        v.push(Tok::Pub(*self));
        proof {
            assert(v@ =~= self.tok_spec());
        }
        v
    }
}

impl ToTokens for Ref {
    open spec fn tok_spec(&self) -> Seq<Tok> {
        seq![Tok::Ref(*self)]
    }

    fn to_tokens(&self) -> (r: Vec<Tok>) {
        let mut v: Vec<Tok> = Vec::new();
        v.push(Tok::Ref(*self));
        proof {
            assert(v@ =~= self.tok_spec());
        }
        v
    }
}

impl ToTokens for Return {
    open spec fn tok_spec(&self) -> Seq<Tok> {
        seq![Tok::Return(*self)]
    }

    fn to_tokens(&self) -> (r: Vec<Tok>) {
        let mut v: Vec<Tok> = Vec::new();
        v.push(Tok::Return(*self));
        proof {
            assert(v@ =~= self.tok_spec());
        }
        v
    }
}

impl ToTokens for LowerSelf {
    open spec fn tok_spec(&self) -> Seq<Tok> {
        seq![Tok::LowerSelf(*self)]
    }

    fn to_tokens(&self) -> (r: Vec<Tok>) {
        let mut v: Vec<Tok> = Vec::new();
        v.push(Tok::LowerSelf(*self));
        proof {
            assert(v@ =~= self.tok_spec());
        }
        v
    }
}

impl ToTokens for UpperSelf {
    open spec fn tok_spec(&self) -> Seq<Tok> {
        seq![Tok::UpperSelf(*self)]
    }

    fn to_tokens(&self) -> (r: Vec<Tok>) {
        let mut v: Vec<Tok> = Vec::new();
        v.push(Tok::UpperSelf(*self));
        proof {
            assert(v@ =~= self.tok_spec());
        }
        v
    }
}

impl ToTokens for Static {
    open spec fn tok_spec(&self) -> Seq<Tok> {
        seq![Tok::Static(*self)]
    }

    fn to_tokens(&self) -> (r: Vec<Tok>) {
        let mut v: Vec<Tok> = Vec::new();
        v.push(Tok::Static(*self));
        proof {
            assert(v@ =~= self.tok_spec());
        }
        v
    }
}

impl ToTokens for Struct {
    open spec fn tok_spec(&self) -> Seq<Tok> {
        seq![Tok::Struct(*self)]
    }

    fn to_tokens(&self) -> (r: Vec<Tok>) {
        let mut v: Vec<Tok> = Vec::new();
        v.push(Tok::Struct(*self));
        proof {
            assert(v@ =~= self.tok_spec());
        }
        v
    }
}

impl ToTokens for Super {
    open spec fn tok_spec(&self) -> Seq<Tok> {
        seq![Tok::Super(*self)]
    }

    fn to_tokens(&self) -> (r: Vec<Tok>) {
        let mut v: Vec<Tok> = Vec::new();
        v.push(Tok::Super(*self));
        proof {
            assert(v@ =~= self.tok_spec());
        }
        v
    }
}

impl ToTokens for Trait {
    open spec fn tok_spec(&self) -> Seq<Tok> {
        seq![Tok::Trait(*self)]
    }

    fn to_tokens(&self) -> (r: Vec<Tok>) {
        let mut v: Vec<Tok> = Vec::new();
        v.push(Tok::Trait(*self));
        proof {
            assert(v@ =~= self.tok_spec());
        }
        v
    }
}

impl ToTokens for TokenType {
    open spec fn tok_spec(&self) -> Seq<Tok> {
        seq![Tok::TokenType(*self)]
    }

    fn to_tokens(&self) -> (r: Vec<Tok>) {
        let mut v: Vec<Tok> = Vec::new();
        v.push(Tok::TokenType(*self));
        proof {
            assert(v@ =~= self.tok_spec());
        }
        v
    }
}

impl ToTokens for Unsafe {
    open spec fn tok_spec(&self) -> Seq<Tok> {
        seq![Tok::Unsafe(*self)]
    }

    fn to_tokens(&self) -> (r: Vec<Tok>) {
        let mut v: Vec<Tok> = Vec::new();
        v.push(Tok::Unsafe(*self));
        proof {
            assert(v@ =~= self.tok_spec());
        }
        v
    }
}

impl ToTokens for Use {
    open spec fn tok_spec(&self) -> Seq<Tok> {
        seq![Tok::Use(*self)]
    }

    fn to_tokens(&self) -> (r: Vec<Tok>) {
        let mut v: Vec<Tok> = Vec::new();
        v.push(Tok::Use(*self));
        proof {
            assert(v@ =~= self.tok_spec());
        }
        v
    }
}

impl ToTokens for Where {
    open spec fn tok_spec(&self) -> Seq<Tok> {
        seq![Tok::Where(*self)]
    }

    fn to_tokens(&self) -> (r: Vec<Tok>) {
        let mut v: Vec<Tok> = Vec::new();
        v.push(Tok::Where(*self));
        proof {
            assert(v@ =~= self.tok_spec());
        }
        v
    }
}

impl ToTokens for While {
    open spec fn tok_spec(&self) -> Seq<Tok> {
        seq![Tok::While(*self)]
    }

    fn to_tokens(&self) -> (r: Vec<Tok>) {
        let mut v: Vec<Tok> = Vec::new();
        v.push(Tok::While(*self));
        proof {
            assert(v@ =~= self.tok_spec());
        }
        v
    }
}

impl ToTokens for Async {
    open spec fn tok_spec(&self) -> Seq<Tok> {
        seq![Tok::Async(*self)]
    }

    fn to_tokens(&self) -> (r: Vec<Tok>) {
        let mut v: Vec<Tok> = Vec::new();
        v.push(Tok::Async(*self));
        proof {
            assert(v@ =~= self.tok_spec());
        }
        v
    }
}

impl ToTokens for Await {
    open spec fn tok_spec(&self) -> Seq<Tok> {
        seq![Tok::Await(*self)]
    }

    fn to_tokens(&self) -> (r: Vec<Tok>) {
        let mut v: Vec<Tok> = Vec::new();
        v.push(Tok::Await(*self));
        proof {
            assert(v@ =~= self.tok_spec());
        }
        v
    }
}

impl ToTokens for Dyn {
    open spec fn tok_spec(&self) -> Seq<Tok> {
        seq![Tok::Dyn(*self)]
    }

    fn to_tokens(&self) -> (r: Vec<Tok>) {
        let mut v: Vec<Tok> = Vec::new();
        v.push(Tok::Dyn(*self));
        proof {
            assert(v@ =~= self.tok_spec());
        }
        v
    }
}

impl ToTokens for Abstract {
    open spec fn tok_spec(&self) -> Seq<Tok> {
        seq![Tok::Abstract(*self)]
    }

    fn to_tokens(&self) -> (r: Vec<Tok>) {
        let mut v: Vec<Tok> = Vec::new();
        v.push(Tok::Abstract(*self));
        proof {
            assert(v@ =~= self.tok_spec());
        }
        v
    }
}

impl ToTokens for Become {
    open spec fn tok_spec(&self) -> Seq<Tok> {
        seq![Tok::Become(*self)]
    }

    fn to_tokens(&self) -> (r: Vec<Tok>) {
        let mut v: Vec<Tok> = Vec::new();
        v.push(Tok::Become(*self));
        proof {
            assert(v@ =~= self.tok_spec());
        }
        v
    }
}

impl ToTokens for TokenBox {
    open spec fn tok_spec(&self) -> Seq<Tok> {
        seq![Tok::TokenBox(*self)]
    }

    fn to_tokens(&self) -> (r: Vec<Tok>) {
        let mut v: Vec<Tok> = Vec::new();
        v.push(Tok::TokenBox(*self));
        proof {
            assert(v@ =~= self.tok_spec());
        }
        v
    }
}

impl ToTokens for Do {
    open spec fn tok_spec(&self) -> Seq<Tok> {
        seq![Tok::Do(*self)]
    }

    fn to_tokens(&self) -> (r: Vec<Tok>) {
        let mut v: Vec<Tok> = Vec::new();
        v.push(Tok::Do(*self));
        proof {
            assert(v@ =~= self.tok_spec());
        }
        v
    }
}

impl ToTokens for TokenFinal {
    open spec fn tok_spec(&self) -> Seq<Tok> {
        seq![Tok::Final(*self)]
    }

    fn to_tokens(&self) -> (r: Vec<Tok>) {
        let mut v: Vec<Tok> = Vec::new();
        v.push(Tok::Final(*self));
        proof {
            assert(v@ =~= self.tok_spec());
        }
        v
    }
}

impl ToTokens for Macro {
    open spec fn tok_spec(&self) -> Seq<Tok> {
        seq![Tok::Macro(*self)]
    }

    fn to_tokens(&self) -> (r: Vec<Tok>) {
        let mut v: Vec<Tok> = Vec::new();
        v.push(Tok::Macro(*self));
        proof {
            assert(v@ =~= self.tok_spec());
        }
        v
    }
}

impl ToTokens for Override {
    open spec fn tok_spec(&self) -> Seq<Tok> {
        seq![Tok::Override(*self)]
    }

    fn to_tokens(&self) -> (r: Vec<Tok>) {
        let mut v: Vec<Tok> = Vec::new();
        v.push(Tok::Override(*self));
        proof {
            assert(v@ =~= self.tok_spec());
        }
        v
    }
}

impl ToTokens for Priv {
    open spec fn tok_spec(&self) -> Seq<Tok> {
        seq![Tok::Priv(*self)]
    }

    fn to_tokens(&self) -> (r: Vec<Tok>) {
        let mut v: Vec<Tok> = Vec::new();
        v.push(Tok::Priv(*self));
        proof {
            assert(v@ =~= self.tok_spec());
        }
        v
    }
}

impl ToTokens for Typeof {
    open spec fn tok_spec(&self) -> Seq<Tok> {
        seq![Tok::Typeof(*self)]
    }

    fn to_tokens(&self) -> (r: Vec<Tok>) {
        let mut v: Vec<Tok> = Vec::new();
        v.push(Tok::Typeof(*self));
        proof {
            assert(v@ =~= self.tok_spec());
        }
        v
    }
}

impl ToTokens for Unsized {
    open spec fn tok_spec(&self) -> Seq<Tok> {
        seq![Tok::Unsized(*self)]
    }

    fn to_tokens(&self) -> (r: Vec<Tok>) {
        let mut v: Vec<Tok> = Vec::new();
        v.push(Tok::Unsized(*self));
        proof {
            assert(v@ =~= self.tok_spec());
        }
        v
    }
}

impl ToTokens for Virtual {
    open spec fn tok_spec(&self) -> Seq<Tok> {
        seq![Tok::Virtual(*self)]
    }

    fn to_tokens(&self) -> (r: Vec<Tok>) {
        let mut v: Vec<Tok> = Vec::new();
        v.push(Tok::Virtual(*self));
        proof {
            assert(v@ =~= self.tok_spec());
        }
        v
    }
}

impl ToTokens for Yield {
    open spec fn tok_spec(&self) -> Seq<Tok> {
        seq![Tok::Yield(*self)]
    }

    fn to_tokens(&self) -> (r: Vec<Tok>) {
        let mut v: Vec<Tok> = Vec::new();
        v.push(Tok::Yield(*self));
        proof {
            assert(v@ =~= self.tok_spec());
        }
        v
    }
}

impl ToTokens for Try {
    open spec fn tok_spec(&self) -> Seq<Tok> {
        seq![Tok::Try(*self)]
    }

    fn to_tokens(&self) -> (r: Vec<Tok>) {
        let mut v: Vec<Tok> = Vec::new();
        v.push(Tok::Try(*self));
        proof {
            assert(v@ =~= self.tok_spec());
        }
        v
    }
}

impl ToTokens for Union {
    open spec fn tok_spec(&self) -> Seq<Tok> {
        seq![Tok::Union(*self)]
    }

    fn to_tokens(&self) -> (r: Vec<Tok>) {
        let mut v: Vec<Tok> = Vec::new();
        v.push(Tok::Union(*self));
        proof {
            assert(v@ =~= self.tok_spec());
        }
        v
    }
}

impl ToTokens for Entity {
    open spec fn tok_spec(&self) -> Seq<Tok> {
        seq![Tok::Entity(*self)]
    }

    fn to_tokens(&self) -> (r: Vec<Tok>) {
        let mut v: Vec<Tok> = Vec::new();
        v.push(Tok::Entity(*self));
        proof {
            assert(v@ =~= self.tok_spec());
        }
        v
    }
}

impl ToTokens for Bag {
    open spec fn tok_spec(&self) -> Seq<Tok> {
        seq![Tok::Bag(*self)]
    }

    fn to_tokens(&self) -> (r: Vec<Tok>) {
        let mut v: Vec<Tok> = Vec::new();
        v.push(Tok::Bag(*self));
        proof {
            assert(v@ =~= self.tok_spec());
        }
        v
    }
}

impl ToTokens for Ring {
    open spec fn tok_spec(&self) -> Seq<Tok> {
        seq![Tok::Ring(*self)]
    }

    fn to_tokens(&self) -> (r: Vec<Tok>) {
        let mut v: Vec<Tok> = Vec::new();
        v.push(Tok::Ring(*self));
        proof {
            assert(v@ =~= self.tok_spec());
        }
        v
    }
}

impl ToTokens for Arch {
    open spec fn tok_spec(&self) -> Seq<Tok> {
        seq![Tok::Arch(*self)]
    }

    fn to_tokens(&self) -> (r: Vec<Tok>) {
        let mut v: Vec<Tok> = Vec::new();
        v.push(Tok::Arch(*self));
        proof {
            assert(v@ =~= self.tok_spec());
        }
        v
    }
}

impl ToTokens for When {
    open spec fn tok_spec(&self) -> Seq<Tok> {
        seq![Tok::When(*self)]
    }

    fn to_tokens(&self) -> (r: Vec<Tok>) {
        let mut v: Vec<Tok> = Vec::new();
        v.push(Tok::When(*self));
        proof {
            assert(v@ =~= self.tok_spec());
        }
        v
    }
}

impl ToTokens for Out {
    open spec fn tok_spec(&self) -> Seq<Tok> {
        seq![Tok::Out(*self)]
    }

    fn to_tokens(&self) -> (r: Vec<Tok>) {
        let mut v: Vec<Tok> = Vec::new();
        v.push(Tok::Out(*self));
        proof {
            assert(v@ =~= self.tok_spec());
        }
        v
    }
}

impl ToTokens for InOut {
    open spec fn tok_spec(&self) -> Seq<Tok> {
        seq![Tok::InOut(*self)]
    }

    fn to_tokens(&self) -> (r: Vec<Tok>) {
        let mut v: Vec<Tok> = Vec::new();
        v.push(Tok::InOut(*self));
        proof {
            assert(v@ =~= self.tok_spec());
        }
        v
    }
}

impl ToTokens for Plus {
    open spec fn tok_spec(&self) -> Seq<Tok> {
        seq![Tok::Plus(*self)]
    }

    fn to_tokens(&self) -> (r: Vec<Tok>) {
        let mut v: Vec<Tok> = Vec::new();
        v.push(Tok::Plus(*self));
        proof {
            assert(v@ =~= self.tok_spec());
        }
        v
    }
}

impl ToTokens for Minus {
    open spec fn tok_spec(&self) -> Seq<Tok> {
        seq![Tok::Minus(*self)]
    }

    fn to_tokens(&self) -> (r: Vec<Tok>) {
        let mut v: Vec<Tok> = Vec::new();
        v.push(Tok::Minus(*self));
        proof {
            assert(v@ =~= self.tok_spec());
        }
        v
    }
}

impl ToTokens for Star {
    open spec fn tok_spec(&self) -> Seq<Tok> {
        seq![Tok::Star(*self)]
    }

    fn to_tokens(&self) -> (r: Vec<Tok>) {
        let mut v: Vec<Tok> = Vec::new();
        v.push(Tok::Star(*self));
        proof {
            assert(v@ =~= self.tok_spec());
        }
        v
    }
}

impl ToTokens for StarStar {
    open spec fn tok_spec(&self) -> Seq<Tok> {
        seq![Tok::StarStar(*self)]
    }

    fn to_tokens(&self) -> (r: Vec<Tok>) {
        let mut v: Vec<Tok> = Vec::new();
        v.push(Tok::StarStar(*self));
        proof {
            assert(v@ =~= self.tok_spec());
        }
        v
    }
}

impl ToTokens for Slash {
    open spec fn tok_spec(&self) -> Seq<Tok> {
        seq![Tok::Slash(*self)]
    }

    fn to_tokens(&self) -> (r: Vec<Tok>) {
        let mut v: Vec<Tok> = Vec::new();
        v.push(Tok::Slash(*self));
        proof {
            assert(v@ =~= self.tok_spec());
        }
        v
    }
}

impl ToTokens for Percent {
    open spec fn tok_spec(&self) -> Seq<Tok> {
        seq![Tok::Percent(*self)]
    }

    fn to_tokens(&self) -> (r: Vec<Tok>) {
        let mut v: Vec<Tok> = Vec::new();
        v.push(Tok::Percent(*self));
        proof {
            assert(v@ =~= self.tok_spec());
        }
        v
    }
}

impl ToTokens for Caret {
    open spec fn tok_spec(&self) -> Seq<Tok> {
        seq![Tok::Caret(*self)]
    }

    fn to_tokens(&self) -> (r: Vec<Tok>) {
        let mut v: Vec<Tok> = Vec::new();
        v.push(Tok::Caret(*self));
        proof {
            assert(v@ =~= self.tok_spec());
        }
        v
    }
}

impl ToTokens for Not {
    open spec fn tok_spec(&self) -> Seq<Tok> {
        seq![Tok::Not(*self)]
    }

    fn to_tokens(&self) -> (r: Vec<Tok>) {
        let mut v: Vec<Tok> = Vec::new();
        v.push(Tok::Not(*self));
        proof {
            assert(v@ =~= self.tok_spec());
        }
        v
    }
}

impl ToTokens for And {
    open spec fn tok_spec(&self) -> Seq<Tok> {
        seq![Tok::And(*self)]
    }

    fn to_tokens(&self) -> (r: Vec<Tok>) {
        let mut v: Vec<Tok> = Vec::new();
        v.push(Tok::And(*self));
        proof {
            assert(v@ =~= self.tok_spec());
        }
        v
    }
}

impl ToTokens for Or {
    open spec fn tok_spec(&self) -> Seq<Tok> {
        seq![Tok::Or(*self)]
    }

    fn to_tokens(&self) -> (r: Vec<Tok>) {
        let mut v: Vec<Tok> = Vec::new();
        v.push(Tok::Or(*self));
        proof {
            assert(v@ =~= self.tok_spec());
        }
        v
    }
}

impl ToTokens for AndAnd {
    open spec fn tok_spec(&self) -> Seq<Tok> {
        seq![Tok::AndAnd(*self)]
    }

    fn to_tokens(&self) -> (r: Vec<Tok>) {
        let mut v: Vec<Tok> = Vec::new();
        v.push(Tok::AndAnd(*self));
        proof {
            assert(v@ =~= self.tok_spec());
        }
        v
    }
}

impl ToTokens for OrOr {
    open spec fn tok_spec(&self) -> Seq<Tok> {
        seq![Tok::OrOr(*self)]
    }

    fn to_tokens(&self) -> (r: Vec<Tok>) {
        let mut v: Vec<Tok> = Vec::new();
        v.push(Tok::OrOr(*self));
        proof {
            assert(v@ =~= self.tok_spec());
        }
        v
    }
}

impl ToTokens for Shl {
    open spec fn tok_spec(&self) -> Seq<Tok> {
        seq![Tok::Shl(*self)]
    }

    fn to_tokens(&self) -> (r: Vec<Tok>) {
        let mut v: Vec<Tok> = Vec::new();
        v.push(Tok::Shl(*self));
        proof {
            assert(v@ =~= self.tok_spec());
        }
        v
    }
}

impl ToTokens for Shr {
    open spec fn tok_spec(&self) -> Seq<Tok> {
        seq![Tok::Shr(*self)]
    }

    fn to_tokens(&self) -> (r: Vec<Tok>) {
        let mut v: Vec<Tok> = Vec::new();
        v.push(Tok::Shr(*self));
        proof {
            assert(v@ =~= self.tok_spec());
        }
        v
    }
}

impl ToTokens for PlusEq {
    open spec fn tok_spec(&self) -> Seq<Tok> {
        seq![Tok::PlusEq(*self)]
    }

    fn to_tokens(&self) -> (r: Vec<Tok>) {
        let mut v: Vec<Tok> = Vec::new();
        v.push(Tok::PlusEq(*self));
        proof {
            assert(v@ =~= self.tok_spec());
        }
        v
    }
}

impl ToTokens for MinusEq {
    open spec fn tok_spec(&self) -> Seq<Tok> {
        seq![Tok::MinusEq(*self)]
    }

    fn to_tokens(&self) -> (r: Vec<Tok>) {
        let mut v: Vec<Tok> = Vec::new();
        v.push(Tok::MinusEq(*self));
        proof {
            assert(v@ =~= self.tok_spec());
        }
        v
    }
}

impl ToTokens for StarEq {
    open spec fn tok_spec(&self) -> Seq<Tok> {
        seq![Tok::StarEq(*self)]
    }

    fn to_tokens(&self) -> (r: Vec<Tok>) {
        let mut v: Vec<Tok> = Vec::new();
        v.push(Tok::StarEq(*self));
        proof {
            assert(v@ =~= self.tok_spec());
        }
        v
    }
}

impl ToTokens for StarStarEq {
    open spec fn tok_spec(&self) -> Seq<Tok> {
        seq![Tok::StarStarEq(*self)]
    }

    fn to_tokens(&self) -> (r: Vec<Tok>) {
        let mut v: Vec<Tok> = Vec::new();
        v.push(Tok::StarStarEq(*self));
        proof {
            assert(v@ =~= self.tok_spec());
        }
        v
    }
}

impl ToTokens for SlashEq {
    open spec fn tok_spec(&self) -> Seq<Tok> {
        seq![Tok::SlashEq(*self)]
    }

    fn to_tokens(&self) -> (r: Vec<Tok>) {
        let mut v: Vec<Tok> = Vec::new();
        v.push(Tok::SlashEq(*self));
        proof {
            assert(v@ =~= self.tok_spec());
        }
        v
    }
}

impl ToTokens for PercentEq {
    open spec fn tok_spec(&self) -> Seq<Tok> {
        seq![Tok::PercentEq(*self)]
    }

    fn to_tokens(&self) -> (r: Vec<Tok>) {
        let mut v: Vec<Tok> = Vec::new();
        v.push(Tok::PercentEq(*self));
        proof {
            assert(v@ =~= self.tok_spec());
        }
        v
    }
}

impl ToTokens for CaretEq {
    open spec fn tok_spec(&self) -> Seq<Tok> {
        seq![Tok::CaretEq(*self)]
    }

    fn to_tokens(&self) -> (r: Vec<Tok>) {
        let mut v: Vec<Tok> = Vec::new();
        v.push(Tok::CaretEq(*self));
        proof {
            assert(v@ =~= self.tok_spec());
        }
        v
    }
}

impl ToTokens for AndEq {
    open spec fn tok_spec(&self) -> Seq<Tok> {
        seq![Tok::AndEq(*self)]
    }

    fn to_tokens(&self) -> (r: Vec<Tok>) {
        let mut v: Vec<Tok> = Vec::new();
        v.push(Tok::AndEq(*self));
        proof {
            assert(v@ =~= self.tok_spec());
        }
        v
    }
}

impl ToTokens for OrEq {
    open spec fn tok_spec(&self) -> Seq<Tok> {
        seq![Tok::OrEq(*self)]
    }

    fn to_tokens(&self) -> (r: Vec<Tok>) {
        let mut v: Vec<Tok> = Vec::new();
        v.push(Tok::OrEq(*self));
        proof {
            assert(v@ =~= self.tok_spec());
        }
        v
    }
}

impl ToTokens for ShlEq {
    open spec fn tok_spec(&self) -> Seq<Tok> {
        seq![Tok::ShlEq(*self)]
    }

    fn to_tokens(&self) -> (r: Vec<Tok>) {
        let mut v: Vec<Tok> = Vec::new();
        v.push(Tok::ShlEq(*self));
        proof {
            assert(v@ =~= self.tok_spec());
        }
        v
    }
}

impl ToTokens for ShrEq {
    open spec fn tok_spec(&self) -> Seq<Tok> {
        seq![Tok::ShrEq(*self)]
    }

    fn to_tokens(&self) -> (r: Vec<Tok>) {
        let mut v: Vec<Tok> = Vec::new();
        v.push(Tok::ShrEq(*self));
        proof {
            assert(v@ =~= self.tok_spec());
        }
        v
    }
}

impl ToTokens for TokenEq {
    open spec fn tok_spec(&self) -> Seq<Tok> {
        seq![Tok::Eq(*self)]
    }

    fn to_tokens(&self) -> (r: Vec<Tok>) {
        let mut v: Vec<Tok> = Vec::new();
        v.push(Tok::Eq(*self));
        proof {
            assert(v@ =~= self.tok_spec());
        }
        v
    }
}

impl ToTokens for EqEq {
    open spec fn tok_spec(&self) -> Seq<Tok> {
        seq![Tok::EqEq(*self)]
    }

    fn to_tokens(&self) -> (r: Vec<Tok>) {
        let mut v: Vec<Tok> = Vec::new();
        v.push(Tok::EqEq(*self));
        proof {
            assert(v@ =~= self.tok_spec());
        }
        v
    }
}

impl ToTokens for Ne {
    open spec fn tok_spec(&self) -> Seq<Tok> {
        seq![Tok::Ne(*self)]
    }

    fn to_tokens(&self) -> (r: Vec<Tok>) {
        let mut v: Vec<Tok> = Vec::new();
        v.push(Tok::Ne(*self));
        proof {
            assert(v@ =~= self.tok_spec());
        }
        v
    }
}

impl ToTokens for Gt {
    open spec fn tok_spec(&self) -> Seq<Tok> {
        seq![Tok::Gt(*self)]
    }

    fn to_tokens(&self) -> (r: Vec<Tok>) {
        let mut v: Vec<Tok> = Vec::new();
        v.push(Tok::Gt(*self));
        proof {
            assert(v@ =~= self.tok_spec());
        }
        v
    }
}

impl ToTokens for Lt {
    open spec fn tok_spec(&self) -> Seq<Tok> {
        seq![Tok::Lt(*self)]
    }

    fn to_tokens(&self) -> (r: Vec<Tok>) {
        let mut v: Vec<Tok> = Vec::new();
        v.push(Tok::Lt(*self));
        proof {
            assert(v@ =~= self.tok_spec());
        }
        v
    }
}

impl ToTokens for Ge {
    open spec fn tok_spec(&self) -> Seq<Tok> {
        seq![Tok::Ge(*self)]
    }

    fn to_tokens(&self) -> (r: Vec<Tok>) {
        let mut v: Vec<Tok> = Vec::new();
        v.push(Tok::Ge(*self));
        proof {
            assert(v@ =~= self.tok_spec());
        }
        v
    }
}

impl ToTokens for Le {
    open spec fn tok_spec(&self) -> Seq<Tok> {
        seq![Tok::Le(*self)]
    }

    fn to_tokens(&self) -> (r: Vec<Tok>) {
        let mut v: Vec<Tok> = Vec::new();
        v.push(Tok::Le(*self));
        proof {
            assert(v@ =~= self.tok_spec());
        }
        v
    }
}

impl ToTokens for At {
    open spec fn tok_spec(&self) -> Seq<Tok> {
        seq![Tok::At(*self)]
    }

    fn to_tokens(&self) -> (r: Vec<Tok>) {
        let mut v: Vec<Tok> = Vec::new();
        v.push(Tok::At(*self));
        proof {
            assert(v@ =~= self.tok_spec());
        }
        v
    }
}

impl ToTokens for Underscore {
    open spec fn tok_spec(&self) -> Seq<Tok> {
        seq![Tok::Underscore(*self)]
    }

    fn to_tokens(&self) -> (r: Vec<Tok>) {
        let mut v: Vec<Tok> = Vec::new();
        v.push(Tok::Underscore(*self));
        proof {
            assert(v@ =~= self.tok_spec());
        }
        v
    }
}

impl ToTokens for Dot {
    open spec fn tok_spec(&self) -> Seq<Tok> {
        seq![Tok::Dot(*self)]
    }

    fn to_tokens(&self) -> (r: Vec<Tok>) {
        let mut v: Vec<Tok> = Vec::new();
        v.push(Tok::Dot(*self));
        proof {
            assert(v@ =~= self.tok_spec());
        }
        v
    }
}

impl ToTokens for DotDot {
    open spec fn tok_spec(&self) -> Seq<Tok> {
        seq![Tok::DotDot(*self)]
    }

    fn to_tokens(&self) -> (r: Vec<Tok>) {
        let mut v: Vec<Tok> = Vec::new();
        v.push(Tok::DotDot(*self));
        proof {
            assert(v@ =~= self.tok_spec());
        }
        v
    }
}

impl ToTokens for DotDotEq {
    open spec fn tok_spec(&self) -> Seq<Tok> {
        seq![Tok::DotDotEq(*self)]
    }

    fn to_tokens(&self) -> (r: Vec<Tok>) {
        let mut v: Vec<Tok> = Vec::new();
        v.push(Tok::DotDotEq(*self));
        proof {
            assert(v@ =~= self.tok_spec());
        }
        v
    }
}

impl ToTokens for Comma {
    open spec fn tok_spec(&self) -> Seq<Tok> {
        seq![Tok::Comma(*self)]
    }

    fn to_tokens(&self) -> (r: Vec<Tok>) {
        let mut v: Vec<Tok> = Vec::new();
        v.push(Tok::Comma(*self));
        proof {
            assert(v@ =~= self.tok_spec());
        }
        v
    }
}

impl ToTokens for Semi {
    open spec fn tok_spec(&self) -> Seq<Tok> {
        seq![Tok::Semi(*self)]
    }

    fn to_tokens(&self) -> (r: Vec<Tok>) {
        let mut v: Vec<Tok> = Vec::new();
        v.push(Tok::Semi(*self));
        proof {
            assert(v@ =~= self.tok_spec());
        }
        v
    }
}

impl ToTokens for Colon {
    open spec fn tok_spec(&self) -> Seq<Tok> {
        seq![Tok::Colon(*self)]
    }

    fn to_tokens(&self) -> (r: Vec<Tok>) {
        let mut v: Vec<Tok> = Vec::new();
        v.push(Tok::Colon(*self));
        proof {
            assert(v@ =~= self.tok_spec());
        }
        v
    }
}

impl ToTokens for PathSep {
    open spec fn tok_spec(&self) -> Seq<Tok> {
        seq![Tok::PathSep(*self)]
    }

    fn to_tokens(&self) -> (r: Vec<Tok>) {
        let mut v: Vec<Tok> = Vec::new();
        v.push(Tok::PathSep(*self));
        proof {
            assert(v@ =~= self.tok_spec());
        }
        v
    }
}

impl ToTokens for RArrow {
    open spec fn tok_spec(&self) -> Seq<Tok> {
        seq![Tok::RArrow(*self)]
    }

    fn to_tokens(&self) -> (r: Vec<Tok>) {
        let mut v: Vec<Tok> = Vec::new();
        v.push(Tok::RArrow(*self));
        proof {
            assert(v@ =~= self.tok_spec());
        }
        v
    }
}

impl ToTokens for FatArrow {
    open spec fn tok_spec(&self) -> Seq<Tok> {
        seq![Tok::FatArrow(*self)]
    }

    fn to_tokens(&self) -> (r: Vec<Tok>) {
        let mut v: Vec<Tok> = Vec::new();
        v.push(Tok::FatArrow(*self));
        proof {
            assert(v@ =~= self.tok_spec());
        }
        v
    }
}

impl ToTokens for Pound {
    open spec fn tok_spec(&self) -> Seq<Tok> {
        seq![Tok::Pound(*self)]
    }

    fn to_tokens(&self) -> (r: Vec<Tok>) {
        let mut v: Vec<Tok> = Vec::new();
        v.push(Tok::Pound(*self));
        proof {
            assert(v@ =~= self.tok_spec());
        }
        v
    }
}

impl ToTokens for Dollar {
    open spec fn tok_spec(&self) -> Seq<Tok> {
        seq![Tok::Dollar(*self)]
    }

    fn to_tokens(&self) -> (r: Vec<Tok>) {
        let mut v: Vec<Tok> = Vec::new();
        v.push(Tok::Dollar(*self));
        proof {
            assert(v@ =~= self.tok_spec());
        }
        v
    }
}

impl ToTokens for Question {
    open spec fn tok_spec(&self) -> Seq<Tok> {
        seq![Tok::Question(*self)]
    }

    fn to_tokens(&self) -> (r: Vec<Tok>) {
        let mut v: Vec<Tok> = Vec::new();
        v.push(Tok::Question(*self));
        proof {
            assert(v@ =~= self.tok_spec());
        }
        v
    }
}

impl ToTokens for BracketOpen {
    open spec fn tok_spec(&self) -> Seq<Tok> {
        seq![Tok::BracketOpen(*self)]
    }

    fn to_tokens(&self) -> (r: Vec<Tok>) {
        let mut v: Vec<Tok> = Vec::new();
        v.push(Tok::BracketOpen(*self));
        proof {
            assert(v@ =~= self.tok_spec());
        }
        v
    }
}

impl ToTokens for BracketClose {
    open spec fn tok_spec(&self) -> Seq<Tok> {
        seq![Tok::BracketClose(*self)]
    }

    fn to_tokens(&self) -> (r: Vec<Tok>) {
        let mut v: Vec<Tok> = Vec::new();
        v.push(Tok::BracketClose(*self));
        proof {
            assert(v@ =~= self.tok_spec());
        }
        v
    }
}

impl ToTokens for ParenOpen {
    open spec fn tok_spec(&self) -> Seq<Tok> {
        seq![Tok::ParenOpen(*self)]
    }

    fn to_tokens(&self) -> (r: Vec<Tok>) {
        let mut v: Vec<Tok> = Vec::new();
        v.push(Tok::ParenOpen(*self));
        proof {
            assert(v@ =~= self.tok_spec());
        }
        v
    }
}

impl ToTokens for ParenClose {
    open spec fn tok_spec(&self) -> Seq<Tok> {
        seq![Tok::ParenClose(*self)]
    }

    fn to_tokens(&self) -> (r: Vec<Tok>) {
        let mut v: Vec<Tok> = Vec::new();
        v.push(Tok::ParenClose(*self));
        proof {
            assert(v@ =~= self.tok_spec());
        }
        v
    }
}

impl ToTokens for BraceOpen {
    open spec fn tok_spec(&self) -> Seq<Tok> {
        seq![Tok::BraceOpen(*self)]
    }

    fn to_tokens(&self) -> (r: Vec<Tok>) {
        let mut v: Vec<Tok> = Vec::new();
        v.push(Tok::BraceOpen(*self));
        proof {
            assert(v@ =~= self.tok_spec());
        }
        v
    }
}

impl ToTokens for BraceClose {
    open spec fn tok_spec(&self) -> Seq<Tok> {
        seq![Tok::BraceClose(*self)]
    }

    fn to_tokens(&self) -> (r: Vec<Tok>) {
        let mut v: Vec<Tok> = Vec::new();
        v.push(Tok::BraceClose(*self));
        proof {
            assert(v@ =~= self.tok_spec());
        }
        v
    }
}

impl ToTokens for Ident {
    open spec fn tok_spec(&self) -> Seq<Tok> {
        seq![Tok::Ident(*self)]
    }

    fn to_tokens(&self) -> (r: Vec<Tok>) {
        let mut v: Vec<Tok> = Vec::new();
        v.push(Tok::Ident(self.dup()));
        proof {
            assert(v@ =~= self.tok_spec());
        }
        v
    }
}

impl ToTokens for Lit {
    open spec fn tok_spec(&self) -> Seq<Tok> {
        seq![Tok::Lit(*self)]
    }

    fn to_tokens(&self) -> (r: Vec<Tok>) {
        let mut v: Vec<Tok> = Vec::new();
        v.push(Tok::Lit(self.dup()));
        proof {
            assert(v@ =~= self.tok_spec());
        }
        v
    }
}

impl ToTokens for LitInt {
    open spec fn tok_spec(&self) -> Seq<Tok> {
        seq![Tok::Lit(Lit::Int(*self))]
    }

    fn to_tokens(&self) -> (r: Vec<Tok>) {
        let mut v: Vec<Tok> = Vec::new();
        v.push(Tok::Lit(Lit::Int(self.dup())));
        proof {
            assert(v@ =~= self.tok_spec());
        }
        v
    }
}

impl ToTokens for LitFloat {
    open spec fn tok_spec(&self) -> Seq<Tok> {
        seq![Tok::Lit(Lit::Float(*self))]
    }

    fn to_tokens(&self) -> (r: Vec<Tok>) {
        let mut v: Vec<Tok> = Vec::new();
        v.push(Tok::Lit(Lit::Float(self.dup())));
        proof {
            assert(v@ =~= self.tok_spec());
        }
        v
    }
}

impl ToTokens for LitBool {
    open spec fn tok_spec(&self) -> Seq<Tok> {
        seq![Tok::Lit(Lit::Bool(*self))]
    }

    fn to_tokens(&self) -> (r: Vec<Tok>) {
        let mut v: Vec<Tok> = Vec::new();
        v.push(Tok::Lit(Lit::Bool(self.dup())));
        proof {
            assert(v@ =~= self.tok_spec());
        }
        v
    }
}

/// The span of a token sequence: the sentinel empty span for no tokens,
/// otherwise the union of the first and last token's spans. This shortcut is
/// exact only because a conforming parser emits tokens in strict source
/// order.
pub open spec fn span_of_toks(s: Seq<Tok>) -> Span {
    if s.len() == 0 {
        Span(0, 0)
    } else {
        tok_span(s[0]).combine_spec(tok_span(s.last()))
    }
}

pub open spec fn toks_wf(s: Seq<Tok>) -> bool {
    forall|i: int| 0 <= i < s.len() ==> tok_wf(#[trigger] s[i])
}

/// Tokens stand in source order: spans never run backwards along the
/// sequence.
pub open spec fn toks_ordered(s: Seq<Tok>) -> bool {
    forall|i: int, j: int|
        0 <= i <= j < s.len() ==> tok_span(#[trigger] s[i]).0 <= tok_span(#[trigger] s[j]).0
            && tok_span(s[i]).1 <= tok_span(s[j]).1
}

/// Where in the source a construct stands, derived from its tokens.
pub trait Spanned {
    spec fn span_spec(&self) -> Span;

    spec fn span_wf(&self) -> bool;

    fn span(&self) -> (s: Span)
        requires
            self.span_wf(),
        ensures
            s == self.span_spec(),
    ;
}

impl<T: ToTokens> Spanned for T {
    open spec fn span_spec(&self) -> Span {
        span_of_toks(self.tok_spec())
    }

    open spec fn span_wf(&self) -> bool {
        toks_wf(self.tok_spec())
    }

    fn span(&self) -> (s: Span) {
        let n = self.len();
        if n == 0 {
            Span(0, 0)
        } else {
            let f = self.first();
            let l = self.last();
            match (f, l) {
                (Some(a), Some(b)) => tok_span_exec(&a).combine(tok_span_exec(&b)),
                _ => Span(0, 0),
            }
        }
    }
}

impl Spanned for Tok {
    open spec fn span_spec(&self) -> Span {
        tok_span(*self)
    }

    open spec fn span_wf(&self) -> bool {
        tok_wf(*self)
    }

    fn span(&self) -> (s: Span) {
        tok_span_exec(self)
    }
}

/// Law: a well-formed token's span does not run backwards.
pub proof fn lemma_tok_span_bounds(t: Tok)
    requires
        tok_wf(t),
    ensures
        tok_span(t).0 <= tok_span(t).1,
{
}

/// Law: for any node whose tokens are well formed, the start of its span is
/// at or before its end; a node with no tokens has the sentinel empty span.
pub proof fn lemma_span_bounds(s: Seq<Tok>)
    requires
        toks_wf(s),
    ensures
        span_of_toks(s).0 <= span_of_toks(s).1,
{
    if s.len() > 0 {
        assert(tok_wf(s[0]));
        assert(tok_wf(s.last()));
        lemma_tok_span_bounds(s[0]);
        lemma_tok_span_bounds(s.last());
    }
}

/// Law: a parent node whose token sequence is the concatenation of two
/// non-empty children in source order has exactly the combination of its
/// children's spans.
pub proof fn lemma_span_of_concat(a: Seq<Tok>, b: Seq<Tok>)
    requires
        a.len() > 0,
        b.len() > 0,
        toks_wf(a + b),
        toks_ordered(a + b),
    ensures
        span_of_toks(a + b) == span_of_toks(a).combine_spec(span_of_toks(b)),
{
    let c = a + b;
    assert(c[0] == a[0]);
    assert(c.last() == b.last());
    assert(a[0] == c[0] && a.last() == c[a.len() - 1]);
    assert(b[0] == c[a.len() as int] && b.last() == c.last());
    assert(tok_span(c[0]).0 <= tok_span(c[a.len() - 1]).0);
    assert(tok_span(c[a.len() - 1]).1 <= tok_span(c.last()).1);
    assert(tok_span(c[0]).1 <= tok_span(c.last()).1);
    assert(tok_span(c[0]).0 <= tok_span(c[a.len() as int]).0);
}

/// Exact character-for-character equality of two string slices.
pub fn str_eq(a: &str, b: &str) -> (r: bool)
    ensures
        r == (a@ == b@),
{
    let la = a.unicode_len();
    let lb = b.unicode_len();
    if la != lb {
        return false;
    }
    let mut i: usize = 0;
    while i < la
        invariant
            la == a@.len(),
            lb == b@.len(),
            la == lb,
            i <= la,
            forall|j: int| 0 <= j < i ==> a@[j] == b@[j],
        decreases la - i,
    {
        if a.get_char(i) != b.get_char(i) {
            return false;
        }
        i += 1;
    }
    proof {
        assert(a@ =~= b@);
    }
    true
}

} // verus!
