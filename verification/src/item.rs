use vstd::prelude::*;

use crate::ast::{Block, Punctuated, SimplePath, StmtLocal, block_toks, simple_path_toks, stmt_local_toks};
use crate::expr::{Expr, ExprPath, expr_path_toks, expr_toks};
use crate::pat::{PatType, pat_type_toks};
use crate::token::{Arch, As, BraceClose, BraceOpen, Colon, Comma, Const, Crate, Entity, Enum, For, Gt, Ident, Impl, In, InOut, LowerSelf, Lt, Mod, Out, ParenClose, ParenOpen, Plus, Pub, RArrow, Semi, Star, Struct, Super, ToTokens, Tok, TokenEq, TokenFn, TokenType, Trait, Use, When, Where, str_eq};
use crate::types::{Type, TypePath, punct_type_path_plus_toks, type_path_toks, type_toks};

verus! {

pub type UseTreeName = Ident;

pub type UseTreeGlob = Star;

pub type VisPub = Pub;

pub type FnArgReceiver = LowerSelf;

pub type FnArgTyped = PatType;

pub type VariantTypeFields = Fields;

pub type VariantTypeUnit = ();

pub type ImplItemConst = ItemConst;

pub type ImplItemFn = ItemFn;

pub type ImplItemType = ItemType;

pub type ArchItemConst = ItemConst;

pub type ArchItemLet = StmtLocal;

/// A whole source file: its items in order.
#[derive(Debug)]
pub struct File {
    pub items: Vec<Item>,
}

pub open spec fn file_toks(n: File) -> Seq<Tok>
    decreases n,
{
    seq_item_toks(n.items@)
}

impl File {
    #[verifier::rlimit(50)]
    pub(crate) fn toks_vec(&self) -> (r: Vec<Tok>)
        ensures
            r@ == file_toks(*self),
        decreases self,
    {
        let mut acc: Vec<Tok> = Vec::new();
        let mut t80 = vec_item_toks(&self.items);
        acc.append(&mut t80);
        proof {
            assert(acc@ =~= file_toks(*self));
        }
        acc
    }
}

impl ToTokens for File {
    open spec fn tok_spec(&self) -> Seq<Tok> {
        file_toks(*self)
    }

    fn to_tokens(&self) -> (r: Vec<Tok>) {
        self.toks_vec()
    }
}

#[derive(Debug)]
pub struct ItemMod {
    pub vis: Option<Vis>,
    pub mod_token: Mod,
    pub ident: Ident,
    pub content: ModContent,
}

pub open spec fn item_mod_toks(n: ItemMod) -> Seq<Tok>
    decreases n,
{
    (match n.vis {
        Some(x) => vis_toks(x),
        None => Seq::<Tok>::empty(),
    }) + seq![Tok::Mod(n.mod_token)] + seq![Tok::Ident(n.ident)] + mod_content_toks(n.content)
}

impl ItemMod {
    #[verifier::rlimit(50)]
    pub(crate) fn toks_vec(&self) -> (r: Vec<Tok>)
        ensures
            r@ == item_mod_toks(*self),
        decreases self,
    {
        let mut acc: Vec<Tok> = Vec::new();
        match &self.vis {
            Some(x) => {
                let mut t81 = x.toks_vec();
                acc.append(&mut t81);
            },
            None => {},
        }
        acc.push(Tok::Mod(self.mod_token));
        acc.push(Tok::Ident(self.ident.dup()));
        proof {
            assert(decreases_to!(*self => self.content));
        }
        let mut t82 = self.content.toks_vec();
        acc.append(&mut t82);
        proof {
            assert(acc@ =~= item_mod_toks(*self));
        }
        acc
    }
}

impl ToTokens for ItemMod {
    open spec fn tok_spec(&self) -> Seq<Tok> {
        item_mod_toks(*self)
    }

    fn to_tokens(&self) -> (r: Vec<Tok>) {
        self.toks_vec()
    }
}

#[derive(Debug)]
pub struct ItemUse {
    pub vis: Option<Vis>,
    pub use_token: Use,
    pub tree: UseTree,
    pub semi: Semi,
}

pub open spec fn item_use_toks(n: ItemUse) -> Seq<Tok>
    decreases n,
{
    (match n.vis {
        Some(x) => vis_toks(x),
        None => Seq::<Tok>::empty(),
    }) + seq![Tok::Use(n.use_token)] + use_tree_toks(n.tree) + seq![Tok::Semi(n.semi)]
}

impl ItemUse {
    #[verifier::rlimit(50)]
    pub(crate) fn toks_vec(&self) -> (r: Vec<Tok>)
        ensures
            r@ == item_use_toks(*self),
        decreases self,
    {
        let mut acc: Vec<Tok> = Vec::new();
        match &self.vis {
            Some(x) => {
                let mut t83 = x.toks_vec();
                acc.append(&mut t83);
            },
            None => {},
        }
        acc.push(Tok::Use(self.use_token));
        let mut t84 = self.tree.toks_vec();
        acc.append(&mut t84);
        acc.push(Tok::Semi(self.semi));
        proof {
            assert(acc@ =~= item_use_toks(*self));
        }
        acc
    }
}

impl ToTokens for ItemUse {
    open spec fn tok_spec(&self) -> Seq<Tok> {
        item_use_toks(*self)
    }

    fn to_tokens(&self) -> (r: Vec<Tok>) {
        self.toks_vec()
    }
}

#[derive(Debug)]
pub struct ItemConst {
    pub vis: Option<Vis>,
    pub const_token: Const,
    pub ident: Ident,
    pub colon: Colon,
    pub ty: Type,
    pub eq: TokenEq,
    pub expr: Expr,
    pub semi: Semi,
}

pub open spec fn item_const_toks(n: ItemConst) -> Seq<Tok>
    decreases n,
{
    (match n.vis {
        Some(x) => vis_toks(x),
        None => Seq::<Tok>::empty(),
    }) + seq![Tok::Const(n.const_token)] + seq![Tok::Ident(n.ident)] + seq![Tok::Colon(n.colon)] + type_toks(n.ty) + seq![Tok::Eq(n.eq)] + expr_toks(n.expr) + seq![Tok::Semi(n.semi)]
}

impl ItemConst {
    #[verifier::rlimit(50)]
    pub(crate) fn toks_vec(&self) -> (r: Vec<Tok>)
        ensures
            r@ == item_const_toks(*self),
        decreases self,
    {
        let mut acc: Vec<Tok> = Vec::new();
        match &self.vis {
            Some(x) => {
                let mut t85 = x.toks_vec();
                acc.append(&mut t85);
            },
            None => {},
        }
        acc.push(Tok::Const(self.const_token));
        acc.push(Tok::Ident(self.ident.dup()));
        acc.push(Tok::Colon(self.colon));
        proof {
            assert(decreases_to!(*self => self.ty));
        }
        let mut t86 = self.ty.toks_vec();
        acc.append(&mut t86);
        acc.push(Tok::Eq(self.eq));
        proof {
            assert(decreases_to!(*self => self.expr));
        }
        let mut t87 = self.expr.toks_vec();
        acc.append(&mut t87);
        acc.push(Tok::Semi(self.semi));
        proof {
            assert(acc@ =~= item_const_toks(*self));
        }
        acc
    }
}

impl ToTokens for ItemConst {
    open spec fn tok_spec(&self) -> Seq<Tok> {
        item_const_toks(*self)
    }

    fn to_tokens(&self) -> (r: Vec<Tok>) {
        self.toks_vec()
    }
}

#[derive(Debug)]
pub struct ItemFn {
    pub vis: Option<Vis>,
    pub fn_token: TokenFn,
    pub sig: Sig,
    pub block: Block,
}

pub open spec fn item_fn_toks(n: ItemFn) -> Seq<Tok>
    decreases n,
{
    (match n.vis {
        Some(x) => vis_toks(x),
        None => Seq::<Tok>::empty(),
    }) + seq![Tok::Fn(n.fn_token)] + sig_toks(n.sig) + block_toks(n.block)
}

impl ItemFn {
    #[verifier::rlimit(50)]
    pub(crate) fn toks_vec(&self) -> (r: Vec<Tok>)
        ensures
            r@ == item_fn_toks(*self),
        decreases self,
    {
        let mut acc: Vec<Tok> = Vec::new();
        match &self.vis {
            Some(x) => {
                let mut t88 = x.toks_vec();
                acc.append(&mut t88);
            },
            None => {},
        }
        acc.push(Tok::Fn(self.fn_token));
        proof {
            assert(decreases_to!(*self => self.sig));
        }
        let mut t89 = self.sig.toks_vec();
        acc.append(&mut t89);
        proof {
            assert(decreases_to!(*self => self.block));
        }
        let mut t90 = self.block.toks_vec();
        acc.append(&mut t90);
        proof {
            assert(acc@ =~= item_fn_toks(*self));
        }
        acc
    }
}

impl ToTokens for ItemFn {
    open spec fn tok_spec(&self) -> Seq<Tok> {
        item_fn_toks(*self)
    }

    fn to_tokens(&self) -> (r: Vec<Tok>) {
        self.toks_vec()
    }
}

#[derive(Debug)]
pub struct ItemType {
    pub vis: Option<Vis>,
    pub type_token: TokenType,
    pub ident: Ident,
    pub generics: Option<Generics>,
    pub eq: TokenEq,
    pub ty: Type,
    pub semi: Semi,
}

pub open spec fn item_type_toks(n: ItemType) -> Seq<Tok>
    decreases n,
{
    (match n.vis {
        Some(x) => vis_toks(x),
        None => Seq::<Tok>::empty(),
    }) + seq![Tok::TokenType(n.type_token)] + seq![Tok::Ident(n.ident)] + (match n.generics {
        Some(x) => generics_toks(x),
        None => Seq::<Tok>::empty(),
    }) + seq![Tok::Eq(n.eq)] + type_toks(n.ty) + seq![Tok::Semi(n.semi)]
}

impl ItemType {
    #[verifier::rlimit(50)]
    pub(crate) fn toks_vec(&self) -> (r: Vec<Tok>)
        ensures
            r@ == item_type_toks(*self),
        decreases self,
    {
        let mut acc: Vec<Tok> = Vec::new();
        match &self.vis {
            Some(x) => {
                let mut t91 = x.toks_vec();
                acc.append(&mut t91);
            },
            None => {},
        }
        acc.push(Tok::TokenType(self.type_token));
        acc.push(Tok::Ident(self.ident.dup()));
        match &self.generics {
            Some(x) => {
                proof {
                    assert(decreases_to!(*self => *x));
                }
                let mut t92 = x.toks_vec();
                acc.append(&mut t92);
            },
            None => {},
        }
        acc.push(Tok::Eq(self.eq));
        proof {
            assert(decreases_to!(*self => self.ty));
        }
        let mut t93 = self.ty.toks_vec();
        acc.append(&mut t93);
        acc.push(Tok::Semi(self.semi));
        proof {
            assert(acc@ =~= item_type_toks(*self));
        }
        acc
    }
}

impl ToTokens for ItemType {
    open spec fn tok_spec(&self) -> Seq<Tok> {
        item_type_toks(*self)
    }

    fn to_tokens(&self) -> (r: Vec<Tok>) {
        self.toks_vec()
    }
}

#[derive(Debug)]
pub struct ItemStruct {
    pub vis: Option<Vis>,
    pub struct_token: Struct,
    pub ident: Ident,
    pub generics: Option<Generics>,
    pub fields: Fields,
    pub semi: Option<Semi>,
}

pub open spec fn item_struct_toks(n: ItemStruct) -> Seq<Tok>
    decreases n,
{
    (match n.vis {
        Some(x) => vis_toks(x),
        None => Seq::<Tok>::empty(),
    }) + seq![Tok::Struct(n.struct_token)] + seq![Tok::Ident(n.ident)] + (match n.generics {
        Some(x) => generics_toks(x),
        None => Seq::<Tok>::empty(),
    }) + fields_toks(n.fields) + (match n.semi {
        Some(x) => seq![Tok::Semi(x)],
        None => Seq::<Tok>::empty(),
    })
}

impl ItemStruct {
    #[verifier::rlimit(50)]
    pub(crate) fn toks_vec(&self) -> (r: Vec<Tok>)
        ensures
            r@ == item_struct_toks(*self),
        decreases self,
    {
        let mut acc: Vec<Tok> = Vec::new();
        match &self.vis {
            Some(x) => {
                let mut t94 = x.toks_vec();
                acc.append(&mut t94);
            },
            None => {},
        }
        acc.push(Tok::Struct(self.struct_token));
        acc.push(Tok::Ident(self.ident.dup()));
        match &self.generics {
            Some(x) => {
                proof {
                    assert(decreases_to!(*self => *x));
                }
                let mut t95 = x.toks_vec();
                acc.append(&mut t95);
            },
            None => {},
        }
        proof {
            assert(decreases_to!(*self => self.fields));
        }
        let mut t96 = self.fields.toks_vec();
        acc.append(&mut t96);
        match &self.semi {
            Some(x) => {
                acc.push(Tok::Semi(*x));
            },
            None => {},
        }
        proof {
            assert(acc@ =~= item_struct_toks(*self));
        }
        acc
    }
}

impl ToTokens for ItemStruct {
    open spec fn tok_spec(&self) -> Seq<Tok> {
        item_struct_toks(*self)
    }

    fn to_tokens(&self) -> (r: Vec<Tok>) {
        self.toks_vec()
    }
}

#[derive(Debug)]
pub struct ItemEnum {
    pub vis: Option<Vis>,
    pub enum_token: Enum,
    pub ident: Ident,
    pub generics: Option<Generics>,
    pub brace_open: BraceOpen,
    pub variants: Punctuated<Variant, Comma>,
    pub brace_close: BraceClose,
}

pub open spec fn item_enum_toks(n: ItemEnum) -> Seq<Tok>
    decreases n,
{
    (match n.vis {
        Some(x) => vis_toks(x),
        None => Seq::<Tok>::empty(),
    }) + seq![Tok::Enum(n.enum_token)] + seq![Tok::Ident(n.ident)] + (match n.generics {
        Some(x) => generics_toks(x),
        None => Seq::<Tok>::empty(),
    }) + seq![Tok::BraceOpen(n.brace_open)] + punct_variant_comma_toks(n.variants) + seq![Tok::BraceClose(n.brace_close)]
}

impl ItemEnum {
    #[verifier::rlimit(50)]
    pub(crate) fn toks_vec(&self) -> (r: Vec<Tok>)
        ensures
            r@ == item_enum_toks(*self),
        decreases self,
    {
        let mut acc: Vec<Tok> = Vec::new();
        match &self.vis {
            Some(x) => {
                let mut t97 = x.toks_vec();
                acc.append(&mut t97);
            },
            None => {},
        }
        acc.push(Tok::Enum(self.enum_token));
        acc.push(Tok::Ident(self.ident.dup()));
        match &self.generics {
            Some(x) => {
                proof {
                    assert(decreases_to!(*self => *x));
                }
                let mut t98 = x.toks_vec();
                acc.append(&mut t98);
            },
            None => {},
        }
        acc.push(Tok::BraceOpen(self.brace_open));
        proof {
            assert(decreases_to!(*self => self.variants));
        }
        let mut t99 = self.variants.toks_vec();
        acc.append(&mut t99);
        acc.push(Tok::BraceClose(self.brace_close));
        proof {
            assert(acc@ =~= item_enum_toks(*self));
        }
        acc
    }
}

impl ToTokens for ItemEnum {
    open spec fn tok_spec(&self) -> Seq<Tok> {
        item_enum_toks(*self)
    }

    fn to_tokens(&self) -> (r: Vec<Tok>) {
        self.toks_vec()
    }
}

#[derive(Debug)]
pub struct ItemTrait {
    pub vis: Option<Vis>,
    pub trait_token: Trait,
    pub ident: Ident,
    pub generics: Option<Generics>,
    pub super_traits: Option<(Colon, Punctuated<TypePath, Plus>)>,
    pub brace_open: BraceOpen,
    pub items: Vec<TraitItem>,
    pub brace_close: BraceClose,
}

pub open spec fn item_trait_toks(n: ItemTrait) -> Seq<Tok>
    decreases n,
{
    (match n.vis {
        Some(x) => vis_toks(x),
        None => Seq::<Tok>::empty(),
    }) + seq![Tok::Trait(n.trait_token)] + seq![Tok::Ident(n.ident)] + (match n.generics {
        Some(x) => generics_toks(x),
        None => Seq::<Tok>::empty(),
    }) + (match n.super_traits {
        Some(pr) => seq![Tok::Colon(pr.0)] + punct_type_path_plus_toks(pr.1),
        None => Seq::<Tok>::empty(),
    }) + seq![Tok::BraceOpen(n.brace_open)] + seq_trait_item_toks(n.items@) + seq![Tok::BraceClose(n.brace_close)]
}

impl ItemTrait {
    #[verifier::rlimit(50)]
    pub(crate) fn toks_vec(&self) -> (r: Vec<Tok>)
        ensures
            r@ == item_trait_toks(*self),
        decreases self,
    {
        let mut acc: Vec<Tok> = Vec::new();
        match &self.vis {
            Some(x) => {
                let mut t100 = x.toks_vec();
                acc.append(&mut t100);
            },
            None => {},
        }
        acc.push(Tok::Trait(self.trait_token));
        acc.push(Tok::Ident(self.ident.dup()));
        match &self.generics {
            Some(x) => {
                proof {
                    assert(decreases_to!(*self => *x));
                }
                let mut t101 = x.toks_vec();
                acc.append(&mut t101);
            },
            None => {},
        }
        match &self.super_traits {
            Some((a, b)) => {
                acc.push(Tok::Colon(*a));
                proof {
                    assert(decreases_to!(*self => *b));
                }
                let mut t102 = b.toks_vec();
                acc.append(&mut t102);
            },
            None => {},
        }
        acc.push(Tok::BraceOpen(self.brace_open));
        proof {
            assert(decreases_to!(*self => self.items@));
        }
        let mut t103 = vec_trait_item_toks(&self.items);
        acc.append(&mut t103);
        acc.push(Tok::BraceClose(self.brace_close));
        proof {
            assert(acc@ =~= item_trait_toks(*self));
        }
        acc
    }
}

impl ToTokens for ItemTrait {
    open spec fn tok_spec(&self) -> Seq<Tok> {
        item_trait_toks(*self)
    }

    fn to_tokens(&self) -> (r: Vec<Tok>) {
        self.toks_vec()
    }
}

#[derive(Debug)]
pub struct ItemTraitAlias {
    pub vis: Option<Vis>,
    pub trait_token: Trait,
    pub ident: Ident,
    pub generics: Option<Generics>,
    pub eq: TokenEq,
    pub bounds: Punctuated<TypePath, Plus>,
    pub semi: Semi,
}

pub open spec fn item_trait_alias_toks(n: ItemTraitAlias) -> Seq<Tok>
    decreases n,
{
    (match n.vis {
        Some(x) => vis_toks(x),
        None => Seq::<Tok>::empty(),
    }) + seq![Tok::Trait(n.trait_token)] + seq![Tok::Ident(n.ident)] + (match n.generics {
        Some(x) => generics_toks(x),
        None => Seq::<Tok>::empty(),
    }) + seq![Tok::Eq(n.eq)] + punct_type_path_plus_toks(n.bounds) + seq![Tok::Semi(n.semi)]
}

impl ItemTraitAlias {
    #[verifier::rlimit(50)]
    pub(crate) fn toks_vec(&self) -> (r: Vec<Tok>)
        ensures
            r@ == item_trait_alias_toks(*self),
        decreases self,
    {
        let mut acc: Vec<Tok> = Vec::new();
        match &self.vis {
            Some(x) => {
                let mut t104 = x.toks_vec();
                acc.append(&mut t104);
            },
            None => {},
        }
        acc.push(Tok::Trait(self.trait_token));
        acc.push(Tok::Ident(self.ident.dup()));
        match &self.generics {
            Some(x) => {
                proof {
                    assert(decreases_to!(*self => *x));
                }
                let mut t105 = x.toks_vec();
                acc.append(&mut t105);
            },
            None => {},
        }
        acc.push(Tok::Eq(self.eq));
        proof {
            assert(decreases_to!(*self => self.bounds));
        }
        let mut t106 = self.bounds.toks_vec();
        acc.append(&mut t106);
        acc.push(Tok::Semi(self.semi));
        proof {
            assert(acc@ =~= item_trait_alias_toks(*self));
        }
        acc
    }
}

impl ToTokens for ItemTraitAlias {
    open spec fn tok_spec(&self) -> Seq<Tok> {
        item_trait_alias_toks(*self)
    }

    fn to_tokens(&self) -> (r: Vec<Tok>) {
        self.toks_vec()
    }
}

#[derive(Debug)]
pub struct ItemImpl {
    pub impl_token: Impl,
    pub generics: Option<Generics>,
    pub of: Option<(TypePath, For)>,
    pub ty: Box<Type>,
    pub brace_open: BraceOpen,
    pub items: Vec<ImplItem>,
    pub brace_close: BraceClose,
}

pub open spec fn item_impl_toks(n: ItemImpl) -> Seq<Tok>
    decreases n,
{
    seq![Tok::Impl(n.impl_token)] + (match n.generics {
        Some(x) => generics_toks(x),
        None => Seq::<Tok>::empty(),
    }) + (match n.of {
        Some(pr) => type_path_toks(pr.0) + seq![Tok::For(pr.1)],
        None => Seq::<Tok>::empty(),
    }) + type_toks(*n.ty) + seq![Tok::BraceOpen(n.brace_open)] + seq_impl_item_toks(n.items@) + seq![Tok::BraceClose(n.brace_close)]
}

impl ItemImpl {
    #[verifier::rlimit(50)]
    pub(crate) fn toks_vec(&self) -> (r: Vec<Tok>)
        ensures
            r@ == item_impl_toks(*self),
        decreases self,
    {
        let mut acc: Vec<Tok> = Vec::new();
        acc.push(Tok::Impl(self.impl_token));
        match &self.generics {
            Some(x) => {
                proof {
                    assert(decreases_to!(*self => *x));
                }
                let mut t107 = x.toks_vec();
                acc.append(&mut t107);
            },
            None => {},
        }
        match &self.of {
            Some((a, b)) => {
                proof {
                    assert(decreases_to!(*self => *a));
                }
                let mut t108 = a.toks_vec();
                acc.append(&mut t108);
                acc.push(Tok::For(*b));
            },
            None => {},
        }
        proof {
            assert(decreases_to!(*self => *self.ty));
        }
        let mut t109 = self.ty.toks_vec();
        acc.append(&mut t109);
        acc.push(Tok::BraceOpen(self.brace_open));
        proof {
            assert(decreases_to!(*self => self.items@));
        }
        let mut t110 = vec_impl_item_toks(&self.items);
        acc.append(&mut t110);
        acc.push(Tok::BraceClose(self.brace_close));
        proof {
            assert(acc@ =~= item_impl_toks(*self));
        }
        acc
    }
}

impl ToTokens for ItemImpl {
    open spec fn tok_spec(&self) -> Seq<Tok> {
        item_impl_toks(*self)
    }

    fn to_tokens(&self) -> (r: Vec<Tok>) {
        self.toks_vec()
    }
}

#[derive(Debug)]
pub struct ItemEntity {
    pub vis: Option<Vis>,
    pub entity: Entity,
    pub ident: Ident,
    pub generics: Option<Generics>,
    pub brace_open: BraceOpen,
    pub ports: Punctuated<Port, Comma>,
    pub brace_close: BraceClose,
}

pub open spec fn item_entity_toks(n: ItemEntity) -> Seq<Tok>
    decreases n,
{
    (match n.vis {
        Some(x) => vis_toks(x),
        None => Seq::<Tok>::empty(),
    }) + seq![Tok::Entity(n.entity)] + seq![Tok::Ident(n.ident)] + (match n.generics {
        Some(x) => generics_toks(x),
        None => Seq::<Tok>::empty(),
    }) + seq![Tok::BraceOpen(n.brace_open)] + punct_port_comma_toks(n.ports) + seq![Tok::BraceClose(n.brace_close)]
}

impl ItemEntity {
    #[verifier::rlimit(50)]
    pub(crate) fn toks_vec(&self) -> (r: Vec<Tok>)
        ensures
            r@ == item_entity_toks(*self),
        decreases self,
    {
        let mut acc: Vec<Tok> = Vec::new();
        match &self.vis {
            Some(x) => {
                let mut t111 = x.toks_vec();
                acc.append(&mut t111);
            },
            None => {},
        }
        acc.push(Tok::Entity(self.entity));
        acc.push(Tok::Ident(self.ident.dup()));
        match &self.generics {
            Some(x) => {
                proof {
                    assert(decreases_to!(*self => *x));
                }
                let mut t112 = x.toks_vec();
                acc.append(&mut t112);
            },
            None => {},
        }
        acc.push(Tok::BraceOpen(self.brace_open));
        proof {
            assert(decreases_to!(*self => self.ports));
        }
        let mut t113 = self.ports.toks_vec();
        acc.append(&mut t113);
        acc.push(Tok::BraceClose(self.brace_close));
        proof {
            assert(acc@ =~= item_entity_toks(*self));
        }
        acc
    }
}

impl ToTokens for ItemEntity {
    open spec fn tok_spec(&self) -> Seq<Tok> {
        item_entity_toks(*self)
    }

    fn to_tokens(&self) -> (r: Vec<Tok>) {
        self.toks_vec()
    }
}

#[derive(Debug)]
pub struct ItemArch {
    pub arch: Arch,
    pub generics: Option<Generics>,
    pub entity: SimplePath,
    pub brace_open: BraceOpen,
    pub items: Vec<ArchItem>,
    pub brace_close: BraceClose,
}

pub open spec fn item_arch_toks(n: ItemArch) -> Seq<Tok>
    decreases n,
{
    seq![Tok::Arch(n.arch)] + (match n.generics {
        Some(x) => generics_toks(x),
        None => Seq::<Tok>::empty(),
    }) + simple_path_toks(n.entity) + seq![Tok::BraceOpen(n.brace_open)] + seq_arch_item_toks(n.items@) + seq![Tok::BraceClose(n.brace_close)]
}

impl ItemArch {
    #[verifier::rlimit(50)]
    pub(crate) fn toks_vec(&self) -> (r: Vec<Tok>)
        ensures
            r@ == item_arch_toks(*self),
        decreases self,
    {
        let mut acc: Vec<Tok> = Vec::new();
        acc.push(Tok::Arch(self.arch));
        match &self.generics {
            Some(x) => {
                proof {
                    assert(decreases_to!(*self => *x));
                }
                let mut t114 = x.toks_vec();
                acc.append(&mut t114);
            },
            None => {},
        }
        let mut t115 = self.entity.toks_vec();
        acc.append(&mut t115);
        acc.push(Tok::BraceOpen(self.brace_open));
        proof {
            assert(decreases_to!(*self => self.items@));
        }
        let mut t116 = vec_arch_item_toks(&self.items);
        acc.append(&mut t116);
        acc.push(Tok::BraceClose(self.brace_close));
        proof {
            assert(acc@ =~= item_arch_toks(*self));
        }
        acc
    }
}

impl ToTokens for ItemArch {
    open spec fn tok_spec(&self) -> Seq<Tok> {
        item_arch_toks(*self)
    }

    fn to_tokens(&self) -> (r: Vec<Tok>) {
        self.toks_vec()
    }
}

#[derive(Debug)]
pub struct UseTreePath {
    pub path: SimplePath,
    pub tree: Box<UseTree>,
}

pub open spec fn use_tree_path_toks(n: UseTreePath) -> Seq<Tok>
    decreases n,
{
    simple_path_toks(n.path) + use_tree_toks(*n.tree)
}

impl UseTreePath {
    #[verifier::rlimit(50)]
    pub(crate) fn toks_vec(&self) -> (r: Vec<Tok>)
        ensures
            r@ == use_tree_path_toks(*self),
        decreases self,
    {
        let mut acc: Vec<Tok> = Vec::new();
        let mut t117 = self.path.toks_vec();
        acc.append(&mut t117);
        proof {
            assert(decreases_to!(*self => *self.tree));
        }
        let mut t118 = self.tree.toks_vec();
        acc.append(&mut t118);
        proof {
            assert(acc@ =~= use_tree_path_toks(*self));
        }
        acc
    }
}

impl ToTokens for UseTreePath {
    open spec fn tok_spec(&self) -> Seq<Tok> {
        use_tree_path_toks(*self)
    }

    fn to_tokens(&self) -> (r: Vec<Tok>) {
        self.toks_vec()
    }
}

#[derive(Debug)]
pub struct UseTreeRename {
    pub name: Ident,
    pub as_token: As,
    pub rename: Ident,
}

pub open spec fn use_tree_rename_toks(n: UseTreeRename) -> Seq<Tok>
    decreases n,
{
    seq![Tok::Ident(n.name)] + seq![Tok::As(n.as_token)] + seq![Tok::Ident(n.rename)]
}

impl UseTreeRename {
    #[verifier::rlimit(50)]
    pub(crate) fn toks_vec(&self) -> (r: Vec<Tok>)
        ensures
            r@ == use_tree_rename_toks(*self),
        decreases self,
    {
        let mut acc: Vec<Tok> = Vec::new();
        acc.push(Tok::Ident(self.name.dup()));
        acc.push(Tok::As(self.as_token));
        acc.push(Tok::Ident(self.rename.dup()));
        proof {
            assert(acc@ =~= use_tree_rename_toks(*self));
        }
        acc
    }
}

impl ToTokens for UseTreeRename {
    open spec fn tok_spec(&self) -> Seq<Tok> {
        use_tree_rename_toks(*self)
    }

    fn to_tokens(&self) -> (r: Vec<Tok>) {
        self.toks_vec()
    }
}

#[derive(Debug)]
pub struct UseTreeGroup {
    pub brace_open: BraceOpen,
    pub trees: Punctuated<UseTree, Comma>,
    pub brace_close: BraceClose,
}

pub open spec fn use_tree_group_toks(n: UseTreeGroup) -> Seq<Tok>
    decreases n,
{
    seq![Tok::BraceOpen(n.brace_open)] + punct_use_tree_comma_toks(n.trees) + seq![Tok::BraceClose(n.brace_close)]
}

impl UseTreeGroup {
    #[verifier::rlimit(50)]
    pub(crate) fn toks_vec(&self) -> (r: Vec<Tok>)
        ensures
            r@ == use_tree_group_toks(*self),
        decreases self,
    {
        let mut acc: Vec<Tok> = Vec::new();
        acc.push(Tok::BraceOpen(self.brace_open));
        proof {
            assert(decreases_to!(*self => self.trees));
        }
        let mut t119 = self.trees.toks_vec();
        acc.append(&mut t119);
        acc.push(Tok::BraceClose(self.brace_close));
        proof {
            assert(acc@ =~= use_tree_group_toks(*self));
        }
        acc
    }
}

impl ToTokens for UseTreeGroup {
    open spec fn tok_spec(&self) -> Seq<Tok> {
        use_tree_group_toks(*self)
    }

    fn to_tokens(&self) -> (r: Vec<Tok>) {
        self.toks_vec()
    }
}

#[derive(Debug)]
pub struct ModContentFile {
    pub semi: Semi,
}

pub open spec fn mod_content_file_toks(n: ModContentFile) -> Seq<Tok>
    decreases n,
{
    seq![Tok::Semi(n.semi)]
}

impl ModContentFile {
    #[verifier::rlimit(50)]
    pub(crate) fn toks_vec(&self) -> (r: Vec<Tok>)
        ensures
            r@ == mod_content_file_toks(*self),
        decreases self,
    {
        let mut acc: Vec<Tok> = Vec::new();
        acc.push(Tok::Semi(self.semi));
        proof {
            assert(acc@ =~= mod_content_file_toks(*self));
        }
        acc
    }
}

impl ToTokens for ModContentFile {
    open spec fn tok_spec(&self) -> Seq<Tok> {
        mod_content_file_toks(*self)
    }

    fn to_tokens(&self) -> (r: Vec<Tok>) {
        self.toks_vec()
    }
}

#[derive(Debug)]
pub struct ModContentHere {
    pub brace_open: BraceOpen,
    pub items: Vec<Item>,
    pub brace_close: BraceClose,
}

pub open spec fn mod_content_here_toks(n: ModContentHere) -> Seq<Tok>
    decreases n,
{
    seq![Tok::BraceOpen(n.brace_open)] + seq_item_toks(n.items@) + seq![Tok::BraceClose(n.brace_close)]
}

impl ModContentHere {
    #[verifier::rlimit(50)]
    pub(crate) fn toks_vec(&self) -> (r: Vec<Tok>)
        ensures
            r@ == mod_content_here_toks(*self),
        decreases self,
    {
        let mut acc: Vec<Tok> = Vec::new();
        acc.push(Tok::BraceOpen(self.brace_open));
        proof {
            assert(decreases_to!(*self => self.items@));
        }
        let mut t120 = vec_item_toks(&self.items);
        acc.append(&mut t120);
        acc.push(Tok::BraceClose(self.brace_close));
        proof {
            assert(acc@ =~= mod_content_here_toks(*self));
        }
        acc
    }
}

impl ToTokens for ModContentHere {
    open spec fn tok_spec(&self) -> Seq<Tok> {
        mod_content_here_toks(*self)
    }

    fn to_tokens(&self) -> (r: Vec<Tok>) {
        self.toks_vec()
    }
}

#[derive(Debug)]
pub struct VisCrate {
    pub pub_token: Pub,
    pub paren_open: ParenOpen,
    pub crate_token: Crate,
    pub paren_close: ParenClose,
}

pub open spec fn vis_crate_toks(n: VisCrate) -> Seq<Tok>
    decreases n,
{
    seq![Tok::Pub(n.pub_token)] + seq![Tok::ParenOpen(n.paren_open)] + seq![Tok::Crate(n.crate_token)] + seq![Tok::ParenClose(n.paren_close)]
}

impl VisCrate {
    #[verifier::rlimit(50)]
    pub(crate) fn toks_vec(&self) -> (r: Vec<Tok>)
        ensures
            r@ == vis_crate_toks(*self),
        decreases self,
    {
        let mut acc: Vec<Tok> = Vec::new();
        acc.push(Tok::Pub(self.pub_token));
        acc.push(Tok::ParenOpen(self.paren_open));
        acc.push(Tok::Crate(self.crate_token));
        acc.push(Tok::ParenClose(self.paren_close));
        proof {
            assert(acc@ =~= vis_crate_toks(*self));
        }
        acc
    }
}

impl ToTokens for VisCrate {
    open spec fn tok_spec(&self) -> Seq<Tok> {
        vis_crate_toks(*self)
    }

    fn to_tokens(&self) -> (r: Vec<Tok>) {
        self.toks_vec()
    }
}

#[derive(Debug)]
pub struct VisSuper {
    pub pub_token: Pub,
    pub paren_open: ParenOpen,
    pub super_token: Super,
    pub paren_close: ParenClose,
}

pub open spec fn vis_super_toks(n: VisSuper) -> Seq<Tok>
    decreases n,
{
    seq![Tok::Pub(n.pub_token)] + seq![Tok::ParenOpen(n.paren_open)] + seq![Tok::Super(n.super_token)] + seq![Tok::ParenClose(n.paren_close)]
}

impl VisSuper {
    #[verifier::rlimit(50)]
    pub(crate) fn toks_vec(&self) -> (r: Vec<Tok>)
        ensures
            r@ == vis_super_toks(*self),
        decreases self,
    {
        let mut acc: Vec<Tok> = Vec::new();
        acc.push(Tok::Pub(self.pub_token));
        acc.push(Tok::ParenOpen(self.paren_open));
        acc.push(Tok::Super(self.super_token));
        acc.push(Tok::ParenClose(self.paren_close));
        proof {
            assert(acc@ =~= vis_super_toks(*self));
        }
        acc
    }
}

impl ToTokens for VisSuper {
    open spec fn tok_spec(&self) -> Seq<Tok> {
        vis_super_toks(*self)
    }

    fn to_tokens(&self) -> (r: Vec<Tok>) {
        self.toks_vec()
    }
}

#[derive(Debug)]
pub struct VisExplicitInherited {
    pub pub_token: Pub,
    pub paren_open: ParenOpen,
    pub self_token: LowerSelf,
    pub paren_close: ParenClose,
}

pub open spec fn vis_explicit_inherited_toks(n: VisExplicitInherited) -> Seq<Tok>
    decreases n,
{
    seq![Tok::Pub(n.pub_token)] + seq![Tok::ParenOpen(n.paren_open)] + seq![Tok::LowerSelf(n.self_token)] + seq![Tok::ParenClose(n.paren_close)]
}

impl VisExplicitInherited {
    #[verifier::rlimit(50)]
    pub(crate) fn toks_vec(&self) -> (r: Vec<Tok>)
        ensures
            r@ == vis_explicit_inherited_toks(*self),
        decreases self,
    {
        let mut acc: Vec<Tok> = Vec::new();
        acc.push(Tok::Pub(self.pub_token));
        acc.push(Tok::ParenOpen(self.paren_open));
        acc.push(Tok::LowerSelf(self.self_token));
        acc.push(Tok::ParenClose(self.paren_close));
        proof {
            assert(acc@ =~= vis_explicit_inherited_toks(*self));
        }
        acc
    }
}

impl ToTokens for VisExplicitInherited {
    open spec fn tok_spec(&self) -> Seq<Tok> {
        vis_explicit_inherited_toks(*self)
    }

    fn to_tokens(&self) -> (r: Vec<Tok>) {
        self.toks_vec()
    }
}

#[derive(Debug)]
pub struct VisRestricted {
    pub pub_token: Pub,
    pub paren_open: ParenOpen,
    pub in_token: In,
    pub path: SimplePath,
    pub paren_close: ParenClose,
}

pub open spec fn vis_restricted_toks(n: VisRestricted) -> Seq<Tok>
    decreases n,
{
    seq![Tok::Pub(n.pub_token)] + seq![Tok::ParenOpen(n.paren_open)] + seq![Tok::In(n.in_token)] + simple_path_toks(n.path) + seq![Tok::ParenClose(n.paren_close)]
}

impl VisRestricted {
    #[verifier::rlimit(50)]
    pub(crate) fn toks_vec(&self) -> (r: Vec<Tok>)
        ensures
            r@ == vis_restricted_toks(*self),
        decreases self,
    {
        let mut acc: Vec<Tok> = Vec::new();
        acc.push(Tok::Pub(self.pub_token));
        acc.push(Tok::ParenOpen(self.paren_open));
        acc.push(Tok::In(self.in_token));
        let mut t121 = self.path.toks_vec();
        acc.append(&mut t121);
        acc.push(Tok::ParenClose(self.paren_close));
        proof {
            assert(acc@ =~= vis_restricted_toks(*self));
        }
        acc
    }
}

impl ToTokens for VisRestricted {
    open spec fn tok_spec(&self) -> Seq<Tok> {
        vis_restricted_toks(*self)
    }

    fn to_tokens(&self) -> (r: Vec<Tok>) {
        self.toks_vec()
    }
}

#[derive(Debug)]
pub struct Sig {
    pub ident: Ident,
    pub generics: Option<Generics>,
    pub paren_open: ParenOpen,
    pub inputs: Punctuated<FnArg, Comma>,
    pub paren_close: ParenClose,
    pub output: Option<(RArrow, Type)>,
}

pub open spec fn sig_toks(n: Sig) -> Seq<Tok>
    decreases n,
{
    seq![Tok::Ident(n.ident)] + (match n.generics {
        Some(x) => generics_toks(x),
        None => Seq::<Tok>::empty(),
    }) + seq![Tok::ParenOpen(n.paren_open)] + punct_fn_arg_comma_toks(n.inputs) + seq![Tok::ParenClose(n.paren_close)] + (match n.output {
        Some(pr) => seq![Tok::RArrow(pr.0)] + type_toks(pr.1),
        None => Seq::<Tok>::empty(),
    })
}

impl Sig {
    #[verifier::rlimit(50)]
    pub(crate) fn toks_vec(&self) -> (r: Vec<Tok>)
        ensures
            r@ == sig_toks(*self),
        decreases self,
    {
        let mut acc: Vec<Tok> = Vec::new();
        acc.push(Tok::Ident(self.ident.dup()));
        match &self.generics {
            Some(x) => {
                proof {
                    assert(decreases_to!(*self => *x));
                }
                let mut t122 = x.toks_vec();
                acc.append(&mut t122);
            },
            None => {},
        }
        acc.push(Tok::ParenOpen(self.paren_open));
        proof {
            assert(decreases_to!(*self => self.inputs));
        }
        let mut t123 = self.inputs.toks_vec();
        acc.append(&mut t123);
        acc.push(Tok::ParenClose(self.paren_close));
        match &self.output {
            Some((a, b)) => {
                acc.push(Tok::RArrow(*a));
                proof {
                    assert(decreases_to!(*self => *b));
                }
                let mut t124 = b.toks_vec();
                acc.append(&mut t124);
            },
            None => {},
        }
        proof {
            assert(acc@ =~= sig_toks(*self));
        }
        acc
    }
}

impl ToTokens for Sig {
    open spec fn tok_spec(&self) -> Seq<Tok> {
        sig_toks(*self)
    }

    fn to_tokens(&self) -> (r: Vec<Tok>) {
        self.toks_vec()
    }
}

#[derive(Debug)]
pub struct Generics {
    pub lt: Lt,
    pub params: Punctuated<GenericParam, Comma>,
    pub gt: Gt,
}

pub open spec fn generics_toks(n: Generics) -> Seq<Tok>
    decreases n,
{
    seq![Tok::Lt(n.lt)] + punct_generic_param_comma_toks(n.params) + seq![Tok::Gt(n.gt)]
}

impl Generics {
    #[verifier::rlimit(50)]
    pub(crate) fn toks_vec(&self) -> (r: Vec<Tok>)
        ensures
            r@ == generics_toks(*self),
        decreases self,
    {
        let mut acc: Vec<Tok> = Vec::new();
        acc.push(Tok::Lt(self.lt));
        proof {
            assert(decreases_to!(*self => self.params));
        }
        let mut t125 = self.params.toks_vec();
        acc.append(&mut t125);
        acc.push(Tok::Gt(self.gt));
        proof {
            assert(acc@ =~= generics_toks(*self));
        }
        acc
    }
}

impl ToTokens for Generics {
    open spec fn tok_spec(&self) -> Seq<Tok> {
        generics_toks(*self)
    }

    fn to_tokens(&self) -> (r: Vec<Tok>) {
        self.toks_vec()
    }
}

#[derive(Debug)]
pub struct WherePredicate {
    pub where_token: Where,
    pub params: Punctuated<GenericParam, Comma>,
}

pub open spec fn where_predicate_toks(n: WherePredicate) -> Seq<Tok>
    decreases n,
{
    seq![Tok::Where(n.where_token)] + punct_generic_param_comma_toks(n.params)
}

impl WherePredicate {
    #[verifier::rlimit(50)]
    pub(crate) fn toks_vec(&self) -> (r: Vec<Tok>)
        ensures
            r@ == where_predicate_toks(*self),
        decreases self,
    {
        let mut acc: Vec<Tok> = Vec::new();
        acc.push(Tok::Where(self.where_token));
        let mut t126 = self.params.toks_vec();
        acc.append(&mut t126);
        proof {
            assert(acc@ =~= where_predicate_toks(*self));
        }
        acc
    }
}

impl ToTokens for WherePredicate {
    open spec fn tok_spec(&self) -> Seq<Tok> {
        where_predicate_toks(*self)
    }

    fn to_tokens(&self) -> (r: Vec<Tok>) {
        self.toks_vec()
    }
}

#[derive(Debug)]
pub struct GenericParamType {
    pub ident: Ident,
    pub bounds: Option<(Colon, Punctuated<TypePath, Plus>)>,
    pub eq: Option<(TokenEq, Type)>,
}

pub open spec fn generic_param_type_toks(n: GenericParamType) -> Seq<Tok>
    decreases n,
{
    seq![Tok::Ident(n.ident)] + (match n.bounds {
        Some(pr) => seq![Tok::Colon(pr.0)] + punct_type_path_plus_toks(pr.1),
        None => Seq::<Tok>::empty(),
    }) + (match n.eq {
        Some(pr) => seq![Tok::Eq(pr.0)] + type_toks(pr.1),
        None => Seq::<Tok>::empty(),
    })
}

impl GenericParamType {
    #[verifier::rlimit(50)]
    pub(crate) fn toks_vec(&self) -> (r: Vec<Tok>)
        ensures
            r@ == generic_param_type_toks(*self),
        decreases self,
    {
        let mut acc: Vec<Tok> = Vec::new();
        acc.push(Tok::Ident(self.ident.dup()));
        match &self.bounds {
            Some((a, b)) => {
                acc.push(Tok::Colon(*a));
                proof {
                    assert(decreases_to!(*self => *b));
                }
                let mut t127 = b.toks_vec();
                acc.append(&mut t127);
            },
            None => {},
        }
        match &self.eq {
            Some((a, b)) => {
                acc.push(Tok::Eq(*a));
                proof {
                    assert(decreases_to!(*self => *b));
                }
                let mut t128 = b.toks_vec();
                acc.append(&mut t128);
            },
            None => {},
        }
        proof {
            assert(acc@ =~= generic_param_type_toks(*self));
        }
        acc
    }
}

impl ToTokens for GenericParamType {
    open spec fn tok_spec(&self) -> Seq<Tok> {
        generic_param_type_toks(*self)
    }

    fn to_tokens(&self) -> (r: Vec<Tok>) {
        self.toks_vec()
    }
}

#[derive(Debug)]
pub struct GenericParamConst {
    pub const_token: Const,
    pub ident: Ident,
    pub colon: Colon,
    pub ty: Type,
    pub default: Option<(TokenEq, Expr)>,
}

pub open spec fn generic_param_const_toks(n: GenericParamConst) -> Seq<Tok>
    decreases n,
{
    seq![Tok::Const(n.const_token)] + seq![Tok::Ident(n.ident)] + seq![Tok::Colon(n.colon)] + type_toks(n.ty) + (match n.default {
        Some(pr) => seq![Tok::Eq(pr.0)] + expr_toks(pr.1),
        None => Seq::<Tok>::empty(),
    })
}

impl GenericParamConst {
    #[verifier::rlimit(50)]
    pub(crate) fn toks_vec(&self) -> (r: Vec<Tok>)
        ensures
            r@ == generic_param_const_toks(*self),
        decreases self,
    {
        let mut acc: Vec<Tok> = Vec::new();
        acc.push(Tok::Const(self.const_token));
        acc.push(Tok::Ident(self.ident.dup()));
        acc.push(Tok::Colon(self.colon));
        proof {
            assert(decreases_to!(*self => self.ty));
        }
        let mut t129 = self.ty.toks_vec();
        acc.append(&mut t129);
        match &self.default {
            Some((a, b)) => {
                acc.push(Tok::Eq(*a));
                proof {
                    assert(decreases_to!(*self => *b));
                }
                let mut t130 = b.toks_vec();
                acc.append(&mut t130);
            },
            None => {},
        }
        proof {
            assert(acc@ =~= generic_param_const_toks(*self));
        }
        acc
    }
}

impl ToTokens for GenericParamConst {
    open spec fn tok_spec(&self) -> Seq<Tok> {
        generic_param_const_toks(*self)
    }

    fn to_tokens(&self) -> (r: Vec<Tok>) {
        self.toks_vec()
    }
}

#[derive(Debug)]
pub struct FieldsNamed {
    pub brace_open: BraceOpen,
    pub inner: Punctuated<NamedField, Comma>,
    pub brace_close: BraceClose,
}

pub open spec fn fields_named_toks(n: FieldsNamed) -> Seq<Tok>
    decreases n,
{
    seq![Tok::BraceOpen(n.brace_open)] + punct_named_field_comma_toks(n.inner) + seq![Tok::BraceClose(n.brace_close)]
}

impl FieldsNamed {
    #[verifier::rlimit(50)]
    pub(crate) fn toks_vec(&self) -> (r: Vec<Tok>)
        ensures
            r@ == fields_named_toks(*self),
        decreases self,
    {
        let mut acc: Vec<Tok> = Vec::new();
        acc.push(Tok::BraceOpen(self.brace_open));
        proof {
            assert(decreases_to!(*self => self.inner));
        }
        let mut t131 = self.inner.toks_vec();
        acc.append(&mut t131);
        acc.push(Tok::BraceClose(self.brace_close));
        proof {
            assert(acc@ =~= fields_named_toks(*self));
        }
        acc
    }
}

impl ToTokens for FieldsNamed {
    open spec fn tok_spec(&self) -> Seq<Tok> {
        fields_named_toks(*self)
    }

    fn to_tokens(&self) -> (r: Vec<Tok>) {
        self.toks_vec()
    }
}

#[derive(Debug)]
pub struct FieldsUnnamed {
    pub paren_open: ParenOpen,
    pub inner: Punctuated<UnnamedField, Comma>,
    pub paren_close: ParenClose,
}

pub open spec fn fields_unnamed_toks(n: FieldsUnnamed) -> Seq<Tok>
    decreases n,
{
    seq![Tok::ParenOpen(n.paren_open)] + punct_unnamed_field_comma_toks(n.inner) + seq![Tok::ParenClose(n.paren_close)]
}

impl FieldsUnnamed {
    #[verifier::rlimit(50)]
    pub(crate) fn toks_vec(&self) -> (r: Vec<Tok>)
        ensures
            r@ == fields_unnamed_toks(*self),
        decreases self,
    {
        let mut acc: Vec<Tok> = Vec::new();
        acc.push(Tok::ParenOpen(self.paren_open));
        proof {
            assert(decreases_to!(*self => self.inner));
        }
        let mut t132 = self.inner.toks_vec();
        acc.append(&mut t132);
        acc.push(Tok::ParenClose(self.paren_close));
        proof {
            assert(acc@ =~= fields_unnamed_toks(*self));
        }
        acc
    }
}

impl ToTokens for FieldsUnnamed {
    open spec fn tok_spec(&self) -> Seq<Tok> {
        fields_unnamed_toks(*self)
    }

    fn to_tokens(&self) -> (r: Vec<Tok>) {
        self.toks_vec()
    }
}

#[derive(Debug)]
pub struct NamedField {
    pub vis: Option<Vis>,
    pub ident: Ident,
    pub colon: Colon,
    pub ty: Type,
}

pub open spec fn named_field_toks(n: NamedField) -> Seq<Tok>
    decreases n,
{
    (match n.vis {
        Some(x) => vis_toks(x),
        None => Seq::<Tok>::empty(),
    }) + seq![Tok::Ident(n.ident)] + seq![Tok::Colon(n.colon)] + type_toks(n.ty)
}

impl NamedField {
    #[verifier::rlimit(50)]
    pub(crate) fn toks_vec(&self) -> (r: Vec<Tok>)
        ensures
            r@ == named_field_toks(*self),
        decreases self,
    {
        let mut acc: Vec<Tok> = Vec::new();
        match &self.vis {
            Some(x) => {
                let mut t133 = x.toks_vec();
                acc.append(&mut t133);
            },
            None => {},
        }
        acc.push(Tok::Ident(self.ident.dup()));
        acc.push(Tok::Colon(self.colon));
        proof {
            assert(decreases_to!(*self => self.ty));
        }
        let mut t134 = self.ty.toks_vec();
        acc.append(&mut t134);
        proof {
            assert(acc@ =~= named_field_toks(*self));
        }
        acc
    }
}

impl ToTokens for NamedField {
    open spec fn tok_spec(&self) -> Seq<Tok> {
        named_field_toks(*self)
    }

    fn to_tokens(&self) -> (r: Vec<Tok>) {
        self.toks_vec()
    }
}

#[derive(Debug)]
pub struct UnnamedField {
    pub vis: Option<Vis>,
    pub ty: Type,
}

pub open spec fn unnamed_field_toks(n: UnnamedField) -> Seq<Tok>
    decreases n,
{
    (match n.vis {
        Some(x) => vis_toks(x),
        None => Seq::<Tok>::empty(),
    }) + type_toks(n.ty)
}

impl UnnamedField {
    #[verifier::rlimit(50)]
    pub(crate) fn toks_vec(&self) -> (r: Vec<Tok>)
        ensures
            r@ == unnamed_field_toks(*self),
        decreases self,
    {
        let mut acc: Vec<Tok> = Vec::new();
        match &self.vis {
            Some(x) => {
                let mut t135 = x.toks_vec();
                acc.append(&mut t135);
            },
            None => {},
        }
        proof {
            assert(decreases_to!(*self => self.ty));
        }
        let mut t136 = self.ty.toks_vec();
        acc.append(&mut t136);
        proof {
            assert(acc@ =~= unnamed_field_toks(*self));
        }
        acc
    }
}

impl ToTokens for UnnamedField {
    open spec fn tok_spec(&self) -> Seq<Tok> {
        unnamed_field_toks(*self)
    }

    fn to_tokens(&self) -> (r: Vec<Tok>) {
        self.toks_vec()
    }
}

#[derive(Debug)]
pub struct Variant {
    pub ident: Ident,
    pub variant_type: VariantType,
}

pub open spec fn variant_toks(n: Variant) -> Seq<Tok>
    decreases n,
{
    seq![Tok::Ident(n.ident)] + variant_type_toks(n.variant_type)
}

impl Variant {
    #[verifier::rlimit(50)]
    pub(crate) fn toks_vec(&self) -> (r: Vec<Tok>)
        ensures
            r@ == variant_toks(*self),
        decreases self,
    {
        let mut acc: Vec<Tok> = Vec::new();
        acc.push(Tok::Ident(self.ident.dup()));
        proof {
            assert(decreases_to!(*self => self.variant_type));
        }
        let mut t137 = self.variant_type.toks_vec();
        acc.append(&mut t137);
        proof {
            assert(acc@ =~= variant_toks(*self));
        }
        acc
    }
}

impl ToTokens for Variant {
    open spec fn tok_spec(&self) -> Seq<Tok> {
        variant_toks(*self)
    }

    fn to_tokens(&self) -> (r: Vec<Tok>) {
        self.toks_vec()
    }
}

#[derive(Debug)]
pub struct VariantTypeDiscrim {
    pub eq: TokenEq,
    pub expr: Expr,
}

pub open spec fn variant_type_discrim_toks(n: VariantTypeDiscrim) -> Seq<Tok>
    decreases n,
{
    seq![Tok::Eq(n.eq)] + expr_toks(n.expr)
}

impl VariantTypeDiscrim {
    #[verifier::rlimit(50)]
    pub(crate) fn toks_vec(&self) -> (r: Vec<Tok>)
        ensures
            r@ == variant_type_discrim_toks(*self),
        decreases self,
    {
        let mut acc: Vec<Tok> = Vec::new();
        acc.push(Tok::Eq(self.eq));
        proof {
            assert(decreases_to!(*self => self.expr));
        }
        let mut t138 = self.expr.toks_vec();
        acc.append(&mut t138);
        proof {
            assert(acc@ =~= variant_type_discrim_toks(*self));
        }
        acc
    }
}

impl ToTokens for VariantTypeDiscrim {
    open spec fn tok_spec(&self) -> Seq<Tok> {
        variant_type_discrim_toks(*self)
    }

    fn to_tokens(&self) -> (r: Vec<Tok>) {
        self.toks_vec()
    }
}

#[derive(Debug)]
pub struct TraitItemConst {
    pub vis: Option<Vis>,
    pub const_token: Const,
    pub ident: Ident,
    pub colon: Colon,
    pub ty: Type,
    pub default: Option<(TokenEq, Expr)>,
    pub semi: Semi,
}

pub open spec fn trait_item_const_toks(n: TraitItemConst) -> Seq<Tok>
    decreases n,
{
    (match n.vis {
        Some(x) => vis_toks(x),
        None => Seq::<Tok>::empty(),
    }) + seq![Tok::Const(n.const_token)] + seq![Tok::Ident(n.ident)] + seq![Tok::Colon(n.colon)] + type_toks(n.ty) + (match n.default {
        Some(pr) => seq![Tok::Eq(pr.0)] + expr_toks(pr.1),
        None => Seq::<Tok>::empty(),
    }) + seq![Tok::Semi(n.semi)]
}

impl TraitItemConst {
    #[verifier::rlimit(50)]
    pub(crate) fn toks_vec(&self) -> (r: Vec<Tok>)
        ensures
            r@ == trait_item_const_toks(*self),
        decreases self,
    {
        let mut acc: Vec<Tok> = Vec::new();
        match &self.vis {
            Some(x) => {
                let mut t139 = x.toks_vec();
                acc.append(&mut t139);
            },
            None => {},
        }
        acc.push(Tok::Const(self.const_token));
        acc.push(Tok::Ident(self.ident.dup()));
        acc.push(Tok::Colon(self.colon));
        proof {
            assert(decreases_to!(*self => self.ty));
        }
        let mut t140 = self.ty.toks_vec();
        acc.append(&mut t140);
        match &self.default {
            Some((a, b)) => {
                acc.push(Tok::Eq(*a));
                proof {
                    assert(decreases_to!(*self => *b));
                }
                let mut t141 = b.toks_vec();
                acc.append(&mut t141);
            },
            None => {},
        }
        acc.push(Tok::Semi(self.semi));
        proof {
            assert(acc@ =~= trait_item_const_toks(*self));
        }
        acc
    }
}

impl ToTokens for TraitItemConst {
    open spec fn tok_spec(&self) -> Seq<Tok> {
        trait_item_const_toks(*self)
    }

    fn to_tokens(&self) -> (r: Vec<Tok>) {
        self.toks_vec()
    }
}

#[derive(Debug)]
pub struct TraitItemFn {
    pub vis: Option<Vis>,
    pub fn_token: TokenFn,
    pub sig: Sig,
    pub block: Option<Block>,
    pub semi: Option<Semi>,
}

pub open spec fn trait_item_fn_toks(n: TraitItemFn) -> Seq<Tok>
    decreases n,
{
    (match n.vis {
        Some(x) => vis_toks(x),
        None => Seq::<Tok>::empty(),
    }) + seq![Tok::Fn(n.fn_token)] + sig_toks(n.sig) + (match n.block {
        Some(x) => block_toks(x),
        None => Seq::<Tok>::empty(),
    }) + (match n.semi {
        Some(x) => seq![Tok::Semi(x)],
        None => Seq::<Tok>::empty(),
    })
}

impl TraitItemFn {
    #[verifier::rlimit(50)]
    pub(crate) fn toks_vec(&self) -> (r: Vec<Tok>)
        ensures
            r@ == trait_item_fn_toks(*self),
        decreases self,
    {
        let mut acc: Vec<Tok> = Vec::new();
        match &self.vis {
            Some(x) => {
                let mut t142 = x.toks_vec();
                acc.append(&mut t142);
            },
            None => {},
        }
        acc.push(Tok::Fn(self.fn_token));
        proof {
            assert(decreases_to!(*self => self.sig));
        }
        let mut t143 = self.sig.toks_vec();
        acc.append(&mut t143);
        match &self.block {
            Some(x) => {
                proof {
                    assert(decreases_to!(*self => *x));
                }
                let mut t144 = x.toks_vec();
                acc.append(&mut t144);
            },
            None => {},
        }
        match &self.semi {
            Some(x) => {
                acc.push(Tok::Semi(*x));
            },
            None => {},
        }
        proof {
            assert(acc@ =~= trait_item_fn_toks(*self));
        }
        acc
    }
}

impl ToTokens for TraitItemFn {
    open spec fn tok_spec(&self) -> Seq<Tok> {
        trait_item_fn_toks(*self)
    }

    fn to_tokens(&self) -> (r: Vec<Tok>) {
        self.toks_vec()
    }
}

#[derive(Debug)]
pub struct TraitItemType {
    pub vis: Option<Vis>,
    pub type_token: TokenType,
    pub ident: Ident,
    pub bounds: Option<(Colon, Punctuated<TypePath, Plus>)>,
    pub default: Option<(TokenEq, Type)>,
    pub semi: Semi,
}

pub open spec fn trait_item_type_toks(n: TraitItemType) -> Seq<Tok>
    decreases n,
{
    (match n.vis {
        Some(x) => vis_toks(x),
        None => Seq::<Tok>::empty(),
    }) + seq![Tok::TokenType(n.type_token)] + seq![Tok::Ident(n.ident)] + (match n.bounds {
        Some(pr) => seq![Tok::Colon(pr.0)] + punct_type_path_plus_toks(pr.1),
        None => Seq::<Tok>::empty(),
    }) + (match n.default {
        Some(pr) => seq![Tok::Eq(pr.0)] + type_toks(pr.1),
        None => Seq::<Tok>::empty(),
    }) + seq![Tok::Semi(n.semi)]
}

impl TraitItemType {
    #[verifier::rlimit(50)]
    pub(crate) fn toks_vec(&self) -> (r: Vec<Tok>)
        ensures
            r@ == trait_item_type_toks(*self),
        decreases self,
    {
        let mut acc: Vec<Tok> = Vec::new();
        match &self.vis {
            Some(x) => {
                let mut t145 = x.toks_vec();
                acc.append(&mut t145);
            },
            None => {},
        }
        acc.push(Tok::TokenType(self.type_token));
        acc.push(Tok::Ident(self.ident.dup()));
        match &self.bounds {
            Some((a, b)) => {
                acc.push(Tok::Colon(*a));
                proof {
                    assert(decreases_to!(*self => *b));
                }
                let mut t147 = b.toks_vec();
                acc.append(&mut t147);
            },
            None => {},
        }
        match &self.default {
            Some((a, b)) => {
                acc.push(Tok::Eq(*a));
                proof {
                    assert(decreases_to!(*self => *b));
                }
                let mut t148 = b.toks_vec();
                acc.append(&mut t148);
            },
            None => {},
        }
        acc.push(Tok::Semi(self.semi));
        proof {
            assert(acc@ =~= trait_item_type_toks(*self));
        }
        acc
    }
}

impl ToTokens for TraitItemType {
    open spec fn tok_spec(&self) -> Seq<Tok> {
        trait_item_type_toks(*self)
    }

    fn to_tokens(&self) -> (r: Vec<Tok>) {
        self.toks_vec()
    }
}

#[derive(Debug)]
pub struct Port {
    pub port_type: PortType,
    pub ident: Ident,
    pub colon: Colon,
    pub ty: Type,
    pub expr: Option<(TokenEq, Expr)>,
}

pub open spec fn port_toks(n: Port) -> Seq<Tok>
    decreases n,
{
    port_type_toks(n.port_type) + seq![Tok::Ident(n.ident)] + seq![Tok::Colon(n.colon)] + type_toks(n.ty) + (match n.expr {
        Some(pr) => seq![Tok::Eq(pr.0)] + expr_toks(pr.1),
        None => Seq::<Tok>::empty(),
    })
}

impl Port {
    #[verifier::rlimit(50)]
    pub(crate) fn toks_vec(&self) -> (r: Vec<Tok>)
        ensures
            r@ == port_toks(*self),
        decreases self,
    {
        let mut acc: Vec<Tok> = Vec::new();
        let mut t149 = self.port_type.toks_vec();
        acc.append(&mut t149);
        acc.push(Tok::Ident(self.ident.dup()));
        acc.push(Tok::Colon(self.colon));
        proof {
            assert(decreases_to!(*self => self.ty));
        }
        let mut t150 = self.ty.toks_vec();
        acc.append(&mut t150);
        match &self.expr {
            Some((a, b)) => {
                acc.push(Tok::Eq(*a));
                proof {
                    assert(decreases_to!(*self => *b));
                }
                let mut t151 = b.toks_vec();
                acc.append(&mut t151);
            },
            None => {},
        }
        proof {
            assert(acc@ =~= port_toks(*self));
        }
        acc
    }
}

impl ToTokens for Port {
    open spec fn tok_spec(&self) -> Seq<Tok> {
        port_toks(*self)
    }

    fn to_tokens(&self) -> (r: Vec<Tok>) {
        self.toks_vec()
    }
}

#[derive(Debug)]
pub struct ArchItemWhen {
    pub when: When,
    pub expr: Expr,
    pub block: Block,
}

pub open spec fn arch_item_when_toks(n: ArchItemWhen) -> Seq<Tok>
    decreases n,
{
    seq![Tok::When(n.when)] + expr_toks(n.expr) + block_toks(n.block)
}

impl ArchItemWhen {
    #[verifier::rlimit(50)]
    pub(crate) fn toks_vec(&self) -> (r: Vec<Tok>)
        ensures
            r@ == arch_item_when_toks(*self),
        decreases self,
    {
        let mut acc: Vec<Tok> = Vec::new();
        acc.push(Tok::When(self.when));
        proof {
            assert(decreases_to!(*self => self.expr));
        }
        let mut t152 = self.expr.toks_vec();
        acc.append(&mut t152);
        proof {
            assert(decreases_to!(*self => self.block));
        }
        let mut t153 = self.block.toks_vec();
        acc.append(&mut t153);
        proof {
            assert(acc@ =~= arch_item_when_toks(*self));
        }
        acc
    }
}

impl ToTokens for ArchItemWhen {
    open spec fn tok_spec(&self) -> Seq<Tok> {
        arch_item_when_toks(*self)
    }

    fn to_tokens(&self) -> (r: Vec<Tok>) {
        self.toks_vec()
    }
}

#[derive(Debug)]
pub struct ArchItemEntityExpression {
    pub path: ExprPath,
    pub brace_open: BraceOpen,
    pub fields: Punctuated<EntityFieldValue, Comma>,
    pub brace_close: BraceClose,
}

pub open spec fn arch_item_entity_expression_toks(n: ArchItemEntityExpression) -> Seq<Tok>
    decreases n,
{
    expr_path_toks(n.path) + seq![Tok::BraceOpen(n.brace_open)] + punct_entity_field_value_comma_toks(n.fields) + seq![Tok::BraceClose(n.brace_close)]
}

impl ArchItemEntityExpression {
    #[verifier::rlimit(50)]
    pub(crate) fn toks_vec(&self) -> (r: Vec<Tok>)
        ensures
            r@ == arch_item_entity_expression_toks(*self),
        decreases self,
    {
        let mut acc: Vec<Tok> = Vec::new();
        proof {
            assert(decreases_to!(*self => self.path));
        }
        let mut t154 = self.path.toks_vec();
        acc.append(&mut t154);
        acc.push(Tok::BraceOpen(self.brace_open));
        proof {
            assert(decreases_to!(*self => self.fields));
        }
        let mut t155 = self.fields.toks_vec();
        acc.append(&mut t155);
        acc.push(Tok::BraceClose(self.brace_close));
        proof {
            assert(acc@ =~= arch_item_entity_expression_toks(*self));
        }
        acc
    }
}

impl ToTokens for ArchItemEntityExpression {
    open spec fn tok_spec(&self) -> Seq<Tok> {
        arch_item_entity_expression_toks(*self)
    }

    fn to_tokens(&self) -> (r: Vec<Tok>) {
        self.toks_vec()
    }
}

#[derive(Debug)]
pub struct EntityFieldValue {
    pub ident: Ident,
    pub expr: Option<(Colon, Expr)>,
}

pub open spec fn entity_field_value_toks(n: EntityFieldValue) -> Seq<Tok>
    decreases n,
{
    seq![Tok::Ident(n.ident)] + (match n.expr {
        Some(pr) => seq![Tok::Colon(pr.0)] + expr_toks(pr.1),
        None => Seq::<Tok>::empty(),
    })
}

impl EntityFieldValue {
    #[verifier::rlimit(50)]
    pub(crate) fn toks_vec(&self) -> (r: Vec<Tok>)
        ensures
            r@ == entity_field_value_toks(*self),
        decreases self,
    {
        let mut acc: Vec<Tok> = Vec::new();
        acc.push(Tok::Ident(self.ident.dup()));
        match &self.expr {
            Some((a, b)) => {
                acc.push(Tok::Colon(*a));
                proof {
                    assert(decreases_to!(*self => *b));
                }
                let mut t156 = b.toks_vec();
                acc.append(&mut t156);
            },
            None => {},
        }
        proof {
            assert(acc@ =~= entity_field_value_toks(*self));
        }
        acc
    }
}

impl ToTokens for EntityFieldValue {
    open spec fn tok_spec(&self) -> Seq<Tok> {
        entity_field_value_toks(*self)
    }

    fn to_tokens(&self) -> (r: Vec<Tok>) {
        self.toks_vec()
    }
}

/// An item: the closed sum of everything that can stand at the top level
/// of a file, hardware entities and architectures included.
#[derive(Debug)]
pub enum Item {
    Mod(ItemMod),
    Use(ItemUse),
    Const(ItemConst),
    Fn(ItemFn),
    Type(ItemType),
    Struct(ItemStruct),
    Enum(ItemEnum),
    Trait(ItemTrait),
    TraitAlias(ItemTraitAlias),
    Impl(ItemImpl),
    Entity(ItemEntity),
    Arch(ItemArch),
}

pub open spec fn item_toks(n: Item) -> Seq<Tok>
    decreases n,
{
    match n {
        Item::Mod(x) => item_mod_toks(x),
        Item::Use(x) => item_use_toks(x),
        Item::Const(x) => item_const_toks(x),
        Item::Fn(x) => item_fn_toks(x),
        Item::Type(x) => item_type_toks(x),
        Item::Struct(x) => item_struct_toks(x),
        Item::Enum(x) => item_enum_toks(x),
        Item::Trait(x) => item_trait_toks(x),
        Item::TraitAlias(x) => item_trait_alias_toks(x),
        Item::Impl(x) => item_impl_toks(x),
        Item::Entity(x) => item_entity_toks(x),
        Item::Arch(x) => item_arch_toks(x),
    }
}

impl Item {
    #[verifier::rlimit(50)]
    pub(crate) fn toks_vec(&self) -> (r: Vec<Tok>)
        ensures
            r@ == item_toks(*self),
        decreases self,
    {
        match self {
            Item::Mod(x) => {
                proof {
                    assert(decreases_to!(*self => *x));
                }
                x.toks_vec()
            },
            Item::Use(x) => {
                x.toks_vec()
            },
            Item::Const(x) => {
                proof {
                    assert(decreases_to!(*self => *x));
                }
                x.toks_vec()
            },
            Item::Fn(x) => {
                proof {
                    assert(decreases_to!(*self => *x));
                }
                x.toks_vec()
            },
            Item::Type(x) => {
                proof {
                    assert(decreases_to!(*self => *x));
                }
                x.toks_vec()
            },
            Item::Struct(x) => {
                proof {
                    assert(decreases_to!(*self => *x));
                }
                x.toks_vec()
            },
            Item::Enum(x) => {
                proof {
                    assert(decreases_to!(*self => *x));
                }
                x.toks_vec()
            },
            Item::Trait(x) => {
                proof {
                    assert(decreases_to!(*self => *x));
                }
                x.toks_vec()
            },
            Item::TraitAlias(x) => {
                proof {
                    assert(decreases_to!(*self => *x));
                }
                x.toks_vec()
            },
            Item::Impl(x) => {
                proof {
                    assert(decreases_to!(*self => *x));
                }
                x.toks_vec()
            },
            Item::Entity(x) => {
                proof {
                    assert(decreases_to!(*self => *x));
                }
                x.toks_vec()
            },
            Item::Arch(x) => {
                proof {
                    assert(decreases_to!(*self => *x));
                }
                x.toks_vec()
            },
        }
    }
}

impl ToTokens for Item {
    open spec fn tok_spec(&self) -> Seq<Tok> {
        item_toks(*self)
    }

    fn to_tokens(&self) -> (r: Vec<Tok>) {
        self.toks_vec()
    }
}

#[derive(Debug)]
pub enum UseTree {
    Path(UseTreePath),
    Name(UseTreeName),
    Rename(UseTreeRename),
    Glob(UseTreeGlob),
    Group(UseTreeGroup),
}

pub open spec fn use_tree_toks(n: UseTree) -> Seq<Tok>
    decreases n,
{
    match n {
        UseTree::Path(x) => use_tree_path_toks(x),
        UseTree::Name(x) => seq![Tok::Ident(x)],
        UseTree::Rename(x) => use_tree_rename_toks(x),
        UseTree::Glob(x) => seq![Tok::Star(x)],
        UseTree::Group(x) => use_tree_group_toks(x),
    }
}

impl UseTree {
    #[verifier::rlimit(50)]
    pub(crate) fn toks_vec(&self) -> (r: Vec<Tok>)
        ensures
            r@ == use_tree_toks(*self),
        decreases self,
    {
        match self {
            UseTree::Path(x) => {
                proof {
                    assert(decreases_to!(*self => *x));
                }
                x.toks_vec()
            },
            UseTree::Name(x) => {
                let mut acc: Vec<Tok> = Vec::new();
                acc.push(Tok::Ident(x.dup()));
                proof {
                    assert(acc@ =~= use_tree_toks(*self));
                }
                acc
            },
            UseTree::Rename(x) => {
                x.toks_vec()
            },
            UseTree::Glob(x) => {
                let mut acc: Vec<Tok> = Vec::new();
                acc.push(Tok::Star(*x));
                proof {
                    assert(acc@ =~= use_tree_toks(*self));
                }
                acc
            },
            UseTree::Group(x) => {
                proof {
                    assert(decreases_to!(*self => *x));
                }
                x.toks_vec()
            },
        }
    }
}

impl ToTokens for UseTree {
    open spec fn tok_spec(&self) -> Seq<Tok> {
        use_tree_toks(*self)
    }

    fn to_tokens(&self) -> (r: Vec<Tok>) {
        self.toks_vec()
    }
}

#[derive(Debug)]
pub enum ModContent {
    File(ModContentFile),
    Here(ModContentHere),
}

pub open spec fn mod_content_toks(n: ModContent) -> Seq<Tok>
    decreases n,
{
    match n {
        ModContent::File(x) => mod_content_file_toks(x),
        ModContent::Here(x) => mod_content_here_toks(x),
    }
}

impl ModContent {
    #[verifier::rlimit(50)]
    pub(crate) fn toks_vec(&self) -> (r: Vec<Tok>)
        ensures
            r@ == mod_content_toks(*self),
        decreases self,
    {
        match self {
            ModContent::File(x) => {
                x.toks_vec()
            },
            ModContent::Here(x) => {
                proof {
                    assert(decreases_to!(*self => *x));
                }
                x.toks_vec()
            },
        }
    }
}

impl ToTokens for ModContent {
    open spec fn tok_spec(&self) -> Seq<Tok> {
        mod_content_toks(*self)
    }

    fn to_tokens(&self) -> (r: Vec<Tok>) {
        self.toks_vec()
    }
}

/// A visibility marker on an item.
#[derive(Debug)]
pub enum Vis {
    Pub(VisPub),
    Crate(VisCrate),
    Super(VisSuper),
    ExplicitInherited(VisExplicitInherited),
    Restricted(VisRestricted),
}

pub open spec fn vis_toks(n: Vis) -> Seq<Tok>
    decreases n,
{
    match n {
        Vis::Pub(x) => seq![Tok::Pub(x)],
        Vis::Crate(x) => vis_crate_toks(x),
        Vis::Super(x) => vis_super_toks(x),
        Vis::ExplicitInherited(x) => vis_explicit_inherited_toks(x),
        Vis::Restricted(x) => vis_restricted_toks(x),
    }
}

impl Vis {
    #[verifier::rlimit(50)]
    pub(crate) fn toks_vec(&self) -> (r: Vec<Tok>)
        ensures
            r@ == vis_toks(*self),
        decreases self,
    {
        match self {
            Vis::Pub(x) => {
                let mut acc: Vec<Tok> = Vec::new();
                acc.push(Tok::Pub(*x));
                proof {
                    assert(acc@ =~= vis_toks(*self));
                }
                acc
            },
            Vis::Crate(x) => {
                x.toks_vec()
            },
            Vis::Super(x) => {
                x.toks_vec()
            },
            Vis::ExplicitInherited(x) => {
                x.toks_vec()
            },
            Vis::Restricted(x) => {
                x.toks_vec()
            },
        }
    }
}

impl ToTokens for Vis {
    open spec fn tok_spec(&self) -> Seq<Tok> {
        vis_toks(*self)
    }

    fn to_tokens(&self) -> (r: Vec<Tok>) {
        self.toks_vec()
    }
}

#[derive(Debug)]
pub enum FnArg {
    Receiver(FnArgReceiver),
    Typed(FnArgTyped),
}

pub open spec fn fn_arg_toks(n: FnArg) -> Seq<Tok>
    decreases n,
{
    match n {
        FnArg::Receiver(x) => seq![Tok::LowerSelf(x)],
        FnArg::Typed(x) => pat_type_toks(x),
    }
}

impl FnArg {
    #[verifier::rlimit(50)]
    pub(crate) fn toks_vec(&self) -> (r: Vec<Tok>)
        ensures
            r@ == fn_arg_toks(*self),
        decreases self,
    {
        match self {
            FnArg::Receiver(x) => {
                let mut acc: Vec<Tok> = Vec::new();
                acc.push(Tok::LowerSelf(*x));
                proof {
                    assert(acc@ =~= fn_arg_toks(*self));
                }
                acc
            },
            FnArg::Typed(x) => {
                proof {
                    assert(decreases_to!(*self => *x));
                }
                x.toks_vec()
            },
        }
    }
}

impl ToTokens for FnArg {
    open spec fn tok_spec(&self) -> Seq<Tok> {
        fn_arg_toks(*self)
    }

    fn to_tokens(&self) -> (r: Vec<Tok>) {
        self.toks_vec()
    }
}

#[derive(Debug)]
pub enum GenericParam {
    Type(GenericParamType),
    Const(GenericParamConst),
}

pub open spec fn generic_param_toks(n: GenericParam) -> Seq<Tok>
    decreases n,
{
    match n {
        GenericParam::Type(x) => generic_param_type_toks(x),
        GenericParam::Const(x) => generic_param_const_toks(x),
    }
}

impl GenericParam {
    #[verifier::rlimit(50)]
    pub(crate) fn toks_vec(&self) -> (r: Vec<Tok>)
        ensures
            r@ == generic_param_toks(*self),
        decreases self,
    {
        match self {
            GenericParam::Type(x) => {
                proof {
                    assert(decreases_to!(*self => *x));
                }
                x.toks_vec()
            },
            GenericParam::Const(x) => {
                proof {
                    assert(decreases_to!(*self => *x));
                }
                x.toks_vec()
            },
        }
    }
}

impl ToTokens for GenericParam {
    open spec fn tok_spec(&self) -> Seq<Tok> {
        generic_param_toks(*self)
    }

    fn to_tokens(&self) -> (r: Vec<Tok>) {
        self.toks_vec()
    }
}

#[derive(Debug)]
pub enum Fields {
    Named(FieldsNamed),
    Unnamed(FieldsUnnamed),
}

pub open spec fn fields_toks(n: Fields) -> Seq<Tok>
    decreases n,
{
    match n {
        Fields::Named(x) => fields_named_toks(x),
        Fields::Unnamed(x) => fields_unnamed_toks(x),
    }
}

impl Fields {
    #[verifier::rlimit(50)]
    pub(crate) fn toks_vec(&self) -> (r: Vec<Tok>)
        ensures
            r@ == fields_toks(*self),
        decreases self,
    {
        match self {
            Fields::Named(x) => {
                proof {
                    assert(decreases_to!(*self => *x));
                }
                x.toks_vec()
            },
            Fields::Unnamed(x) => {
                proof {
                    assert(decreases_to!(*self => *x));
                }
                x.toks_vec()
            },
        }
    }
}

impl ToTokens for Fields {
    open spec fn tok_spec(&self) -> Seq<Tok> {
        fields_toks(*self)
    }

    fn to_tokens(&self) -> (r: Vec<Tok>) {
        self.toks_vec()
    }
}

#[derive(Debug)]
pub enum VariantType {
    Fields(VariantTypeFields),
    Unit(VariantTypeUnit),
    Discrim(VariantTypeDiscrim),
}

pub open spec fn variant_type_toks(n: VariantType) -> Seq<Tok>
    decreases n,
{
    match n {
        VariantType::Fields(x) => fields_toks(x),
        VariantType::Unit(_) => Seq::<Tok>::empty(),
        VariantType::Discrim(x) => variant_type_discrim_toks(x),
    }
}

impl VariantType {
    #[verifier::rlimit(50)]
    pub(crate) fn toks_vec(&self) -> (r: Vec<Tok>)
        ensures
            r@ == variant_type_toks(*self),
        decreases self,
    {
        match self {
            VariantType::Fields(x) => {
                proof {
                    assert(decreases_to!(*self => *x));
                }
                x.toks_vec()
            },
            VariantType::Unit(_) => {
                let acc: Vec<Tok> = Vec::new();
                proof {
                    assert(acc@ =~= variant_type_toks(*self));
                }
                acc
            },
            VariantType::Discrim(x) => {
                proof {
                    assert(decreases_to!(*self => *x));
                }
                x.toks_vec()
            },
        }
    }
}

impl ToTokens for VariantType {
    open spec fn tok_spec(&self) -> Seq<Tok> {
        variant_type_toks(*self)
    }

    fn to_tokens(&self) -> (r: Vec<Tok>) {
        self.toks_vec()
    }
}

#[derive(Debug)]
pub enum TraitItem {
    Const(TraitItemConst),
    Fn(TraitItemFn),
    Type(TraitItemType),
}

pub open spec fn trait_item_toks(n: TraitItem) -> Seq<Tok>
    decreases n,
{
    match n {
        TraitItem::Const(x) => trait_item_const_toks(x),
        TraitItem::Fn(x) => trait_item_fn_toks(x),
        TraitItem::Type(x) => trait_item_type_toks(x),
    }
}

impl TraitItem {
    #[verifier::rlimit(50)]
    pub(crate) fn toks_vec(&self) -> (r: Vec<Tok>)
        ensures
            r@ == trait_item_toks(*self),
        decreases self,
    {
        match self {
            TraitItem::Const(x) => {
                proof {
                    assert(decreases_to!(*self => *x));
                }
                x.toks_vec()
            },
            TraitItem::Fn(x) => {
                proof {
                    assert(decreases_to!(*self => *x));
                }
                x.toks_vec()
            },
            TraitItem::Type(x) => {
                proof {
                    assert(decreases_to!(*self => *x));
                }
                x.toks_vec()
            },
        }
    }
}

impl ToTokens for TraitItem {
    open spec fn tok_spec(&self) -> Seq<Tok> {
        trait_item_toks(*self)
    }

    fn to_tokens(&self) -> (r: Vec<Tok>) {
        self.toks_vec()
    }
}

#[derive(Debug)]
pub enum ImplItem {
    Const(ImplItemConst),
    Fn(ImplItemFn),
    Type(ImplItemType),
}

pub open spec fn impl_item_toks(n: ImplItem) -> Seq<Tok>
    decreases n,
{
    match n {
        ImplItem::Const(x) => item_const_toks(x),
        ImplItem::Fn(x) => item_fn_toks(x),
        ImplItem::Type(x) => item_type_toks(x),
    }
}

impl ImplItem {
    #[verifier::rlimit(50)]
    pub(crate) fn toks_vec(&self) -> (r: Vec<Tok>)
        ensures
            r@ == impl_item_toks(*self),
        decreases self,
    {
        match self {
            ImplItem::Const(x) => {
                proof {
                    assert(decreases_to!(*self => *x));
                }
                x.toks_vec()
            },
            ImplItem::Fn(x) => {
                proof {
                    assert(decreases_to!(*self => *x));
                }
                x.toks_vec()
            },
            ImplItem::Type(x) => {
                proof {
                    assert(decreases_to!(*self => *x));
                }
                x.toks_vec()
            },
        }
    }
}

impl ToTokens for ImplItem {
    open spec fn tok_spec(&self) -> Seq<Tok> {
        impl_item_toks(*self)
    }

    fn to_tokens(&self) -> (r: Vec<Tok>) {
        self.toks_vec()
    }
}

#[derive(Debug)]
pub enum ArchItem {
    Const(ArchItemConst),
    Let(ArchItemLet),
    When(ArchItemWhen),
    EntityExpression(ArchItemEntityExpression),
}

pub open spec fn arch_item_toks(n: ArchItem) -> Seq<Tok>
    decreases n,
{
    match n {
        ArchItem::Const(x) => item_const_toks(x),
        ArchItem::Let(x) => stmt_local_toks(x),
        ArchItem::When(x) => arch_item_when_toks(x),
        ArchItem::EntityExpression(x) => arch_item_entity_expression_toks(x),
    }
}

impl ArchItem {
    #[verifier::rlimit(50)]
    pub(crate) fn toks_vec(&self) -> (r: Vec<Tok>)
        ensures
            r@ == arch_item_toks(*self),
        decreases self,
    {
        match self {
            ArchItem::Const(x) => {
                proof {
                    assert(decreases_to!(*self => *x));
                }
                x.toks_vec()
            },
            ArchItem::Let(x) => {
                proof {
                    assert(decreases_to!(*self => *x));
                }
                x.toks_vec()
            },
            ArchItem::When(x) => {
                proof {
                    assert(decreases_to!(*self => *x));
                }
                x.toks_vec()
            },
            ArchItem::EntityExpression(x) => {
                proof {
                    assert(decreases_to!(*self => *x));
                }
                x.toks_vec()
            },
        }
    }
}

impl ToTokens for ArchItem {
    open spec fn tok_spec(&self) -> Seq<Tok> {
        arch_item_toks(*self)
    }

    fn to_tokens(&self) -> (r: Vec<Tok>) {
        self.toks_vec()
    }
}

/// The direction of an entity port.
#[derive(PartialEq, Eq, Structural, Debug)]
pub enum PortType {
    In(In),
    Out(Out),
    InOut(InOut),
}

pub open spec fn port_type_toks(n: PortType) -> Seq<Tok> {
    match n {
        PortType::In(x) => seq![Tok::In(x)],
        PortType::Out(x) => seq![Tok::Out(x)],
        PortType::InOut(x) => seq![Tok::InOut(x)],
    }
}

/// The canonical spelling of each operator.
pub open spec fn port_type_text(n: PortType) -> Seq<char> {
    match n {
        PortType::In(_) => "in"@,
        PortType::Out(_) => "out"@,
        PortType::InOut(_) => "inout"@,
    }
}

/// Every operator of the table, in table order, at the zero offset.
pub open spec fn port_type_variants() -> Seq<PortType> {
    seq![
        PortType::In(In { left: 0 }),
        PortType::Out(Out { left: 0 }),
        PortType::InOut(InOut { left: 0 }),
    ]
}

/// Exact, case-sensitive lookup of an operator by its spelling.
pub open spec fn port_type_from_str_spec(s: Seq<char>) -> Option<PortType> {
    if s == "in"@ {
        Some(PortType::In(In { left: 0 }))
    } else if s == "out"@ {
        Some(PortType::Out(Out { left: 0 }))
    } else if s == "inout"@ {
        Some(PortType::InOut(InOut { left: 0 }))
    } else {
        None
    }
}

impl PortType {
    #[verifier::rlimit(50)]
    pub(crate) fn toks_vec(&self) -> (r: Vec<Tok>)
        ensures
            r@ == port_type_toks(*self),
    {
        let mut acc: Vec<Tok> = Vec::new();
        match self {
            PortType::In(x) => acc.push(Tok::In(*x)),
            PortType::Out(x) => acc.push(Tok::Out(*x)),
            PortType::InOut(x) => acc.push(Tok::InOut(*x)),
        }
        proof {
            assert(acc@ =~= port_type_toks(*self));
        }
        acc
    }

    /// Every operator of the table, in table order.
    pub fn variants() -> (r: Vec<PortType>)
        ensures
            r@ == port_type_variants(),
    {
        let mut r: Vec<PortType> = Vec::new();
        r.push(PortType::In(In { left: 0 }));
        r.push(PortType::Out(Out { left: 0 }));
        r.push(PortType::InOut(InOut { left: 0 }));
        proof {
            assert(r@ =~= port_type_variants());
        }
        r
    }

    /// The canonical spelling of this operator.
    pub fn display(&self) -> (r: String)
        ensures
            r@ == port_type_text(*self),
    {
        match self {
            PortType::In(_) => "in".to_owned(),
            PortType::Out(_) => "out".to_owned(),
            PortType::InOut(_) => "inout".to_owned(),
        }
    }

    /// Parse-from-text lookup: exact match against the canonical
    /// spelling, case-sensitive, no partial matches.
    pub fn from_str(s: &str) -> (r: Result<PortType, ()>)
        ensures
            r == (match port_type_from_str_spec(s@) {
                Some(op) => Ok::<PortType, ()>(op),
                None => Err::<PortType, ()>(()),
            }),
    {
        if str_eq(s, "in") {
            Ok(PortType::In(In { left: 0 }))
        } else if str_eq(s, "out") {
            Ok(PortType::Out(Out { left: 0 }))
        } else if str_eq(s, "inout") {
            Ok(PortType::InOut(InOut { left: 0 }))
        } else {
            Err(())
        }
    }
}

impl ToTokens for PortType {
    open spec fn tok_spec(&self) -> Seq<Tok> {
        port_type_toks(*self)
    }

    fn to_tokens(&self) -> (r: Vec<Tok>) {
        self.toks_vec()
    }
}

/// Law: for every operator in the table, looking its canonical
/// spelling back up returns exactly that operator.
#[verifier::rlimit(60)]
pub proof fn lemma_port_type_from_str_display()
    ensures
        forall|i: int|
            0 <= i < port_type_variants().len() ==> port_type_from_str_spec(
                port_type_text(#[trigger] port_type_variants()[i]),
            ) == Some(port_type_variants()[i]),
{
    reveal_strlit("in");
    reveal_strlit("inout");
    reveal_strlit("out");
    assert forall|i: int| 0 <= i < port_type_variants().len() implies port_type_from_str_spec(
        port_type_text(#[trigger] port_type_variants()[i]),
    ) == Some(port_type_variants()[i]) by {
        if i == 0 {
            assert(port_type_variants()[0] == PortType::In(In { left: 0 }));
            assert(port_type_from_str_spec(port_type_text(port_type_variants()[0])) == Some(
                port_type_variants()[0],
            ));
        } else if i == 1 {
            assert(port_type_variants()[1] == PortType::Out(Out { left: 0 }));
            assert("out"@ != "in"@) by {
                assert(("out"@).len() == 3);
                assert(("in"@).len() == 2);
            }
            assert(port_type_from_str_spec(port_type_text(port_type_variants()[1])) == Some(
                port_type_variants()[1],
            ));
        } else if i == 2 {
            assert(port_type_variants()[2] == PortType::InOut(InOut { left: 0 }));
            assert("inout"@ != "in"@) by {
                assert(("inout"@).len() == 5);
                assert(("in"@).len() == 2);
            }
            assert("inout"@ != "out"@) by {
                assert(("inout"@).len() == 5);
                assert(("out"@).len() == 3);
            }
            assert(port_type_from_str_spec(port_type_text(port_type_variants()[2])) == Some(
                port_type_variants()[2],
            ));
        } else {
        }
    }
}

pub open spec fn pairs_entity_field_value_comma_toks(s: Seq<(EntityFieldValue, Comma)>) -> Seq<Tok>
    decreases s,
{
    if s.len() == 0 {
        Seq::<Tok>::empty()
    } else {
        entity_field_value_toks(s[0].0) + seq![Tok::Comma(s[0].1)] + pairs_entity_field_value_comma_toks(s.subrange(1, s.len() as int))
    }
}

pub open spec fn punct_entity_field_value_comma_toks(p: Punctuated<EntityFieldValue, Comma>) -> Seq<Tok>
    decreases p,
{
    pairs_entity_field_value_comma_toks(p.inner@) + match p.last {
        Some(t) => entity_field_value_toks(*t),
        None => Seq::<Tok>::empty(),
    }
}

proof fn lemma_pairs_entity_field_value_comma_push(s: Seq<(EntityFieldValue, Comma)>)
    requires
        s.len() > 0,
    ensures
        pairs_entity_field_value_comma_toks(s) == pairs_entity_field_value_comma_toks(s.drop_last()) + entity_field_value_toks(s.last().0) + seq![Tok::Comma(s.last().1)],
    decreases s.len(),
{
    if s.len() == 1 {
        assert(s.drop_last() =~= Seq::<(EntityFieldValue, Comma)>::empty());
        assert(s.subrange(1, 1) =~= Seq::<(EntityFieldValue, Comma)>::empty());
        assert(pairs_entity_field_value_comma_toks(Seq::<(EntityFieldValue, Comma)>::empty()) =~= Seq::<Tok>::empty());
        assert(pairs_entity_field_value_comma_toks(s) =~= entity_field_value_toks(s[0].0) + seq![Tok::Comma(s[0].1)]);
    } else {
        let tail = s.subrange(1, s.len() as int);
        lemma_pairs_entity_field_value_comma_push(tail);
        assert(tail.drop_last() =~= s.drop_last().subrange(1, s.drop_last().len() as int));
        assert(tail.last() == s.last());
        assert(pairs_entity_field_value_comma_toks(s) =~= pairs_entity_field_value_comma_toks(s.drop_last()) + entity_field_value_toks(s.last().0) + seq![Tok::Comma(s.last().1)]);
    }
}

impl Punctuated<EntityFieldValue, Comma> {
    #[verifier::rlimit(100)]
    #[verifier::spinoff_prover]
    pub(crate) fn toks_vec(&self) -> (r: Vec<Tok>)
        ensures
            r@ == punct_entity_field_value_comma_toks(*self),
        decreases self,
    {
        let mut acc: Vec<Tok> = Vec::new();
        let mut i: usize = 0;
        proof {
            assert(self.inner@.subrange(0, 0) =~= Seq::<(EntityFieldValue, Comma)>::empty());
        }
        while i < self.inner.len()
            invariant
                i <= self.inner@.len(),
                acc@ == pairs_entity_field_value_comma_toks(self.inner@.subrange(0, i as int)),
            decreases self.inner@.len() - i,
        {
            proof {
                assert(decreases_to!(*self => self.inner@[i as int].0));
            }
            let mut t = self.inner[i].0.toks_vec();
            acc.append(&mut t);
            acc.push(Tok::Comma(self.inner[i].1));
            i += 1;
            proof {
                lemma_pairs_entity_field_value_comma_push(self.inner@.subrange(0, i as int));
                assert(self.inner@.subrange(0, i as int).drop_last() =~= self.inner@.subrange(
                    0,
                    i - 1,
                ));
            }
        }
        proof {
            assert(self.inner@.subrange(0, self.inner@.len() as int) =~= self.inner@);
        }
        match &self.last {
            Some(t) => {
                proof {
                    assert(decreases_to!(*self => **t));
                }
                let mut tt = t.toks_vec();
                acc.append(&mut tt);
            },
            None => {},
        }
        acc
    }
}

impl ToTokens for Punctuated<EntityFieldValue, Comma> {
    open spec fn tok_spec(&self) -> Seq<Tok> {
        punct_entity_field_value_comma_toks(*self)
    }

    fn to_tokens(&self) -> (r: Vec<Tok>) {
        self.toks_vec()
    }
}

pub open spec fn pairs_fn_arg_comma_toks(s: Seq<(FnArg, Comma)>) -> Seq<Tok>
    decreases s,
{
    if s.len() == 0 {
        Seq::<Tok>::empty()
    } else {
        fn_arg_toks(s[0].0) + seq![Tok::Comma(s[0].1)] + pairs_fn_arg_comma_toks(s.subrange(1, s.len() as int))
    }
}

pub open spec fn punct_fn_arg_comma_toks(p: Punctuated<FnArg, Comma>) -> Seq<Tok>
    decreases p,
{
    pairs_fn_arg_comma_toks(p.inner@) + match p.last {
        Some(t) => fn_arg_toks(*t),
        None => Seq::<Tok>::empty(),
    }
}

proof fn lemma_pairs_fn_arg_comma_push(s: Seq<(FnArg, Comma)>)
    requires
        s.len() > 0,
    ensures
        pairs_fn_arg_comma_toks(s) == pairs_fn_arg_comma_toks(s.drop_last()) + fn_arg_toks(s.last().0) + seq![Tok::Comma(s.last().1)],
    decreases s.len(),
{
    if s.len() == 1 {
        assert(s.drop_last() =~= Seq::<(FnArg, Comma)>::empty());
        assert(s.subrange(1, 1) =~= Seq::<(FnArg, Comma)>::empty());
        assert(pairs_fn_arg_comma_toks(Seq::<(FnArg, Comma)>::empty()) =~= Seq::<Tok>::empty());
        assert(pairs_fn_arg_comma_toks(s) =~= fn_arg_toks(s[0].0) + seq![Tok::Comma(s[0].1)]);
    } else {
        let tail = s.subrange(1, s.len() as int);
        lemma_pairs_fn_arg_comma_push(tail);
        assert(tail.drop_last() =~= s.drop_last().subrange(1, s.drop_last().len() as int));
        assert(tail.last() == s.last());
        assert(pairs_fn_arg_comma_toks(s) =~= pairs_fn_arg_comma_toks(s.drop_last()) + fn_arg_toks(s.last().0) + seq![Tok::Comma(s.last().1)]);
    }
}

impl Punctuated<FnArg, Comma> {
    #[verifier::rlimit(100)]
    #[verifier::spinoff_prover]
    pub(crate) fn toks_vec(&self) -> (r: Vec<Tok>)
        ensures
            r@ == punct_fn_arg_comma_toks(*self),
        decreases self,
    {
        let mut acc: Vec<Tok> = Vec::new();
        let mut i: usize = 0;
        proof {
            assert(self.inner@.subrange(0, 0) =~= Seq::<(FnArg, Comma)>::empty());
        }
        while i < self.inner.len()
            invariant
                i <= self.inner@.len(),
                acc@ == pairs_fn_arg_comma_toks(self.inner@.subrange(0, i as int)),
            decreases self.inner@.len() - i,
        {
            proof {
                assert(decreases_to!(*self => self.inner@[i as int].0));
            }
            let mut t = self.inner[i].0.toks_vec();
            acc.append(&mut t);
            acc.push(Tok::Comma(self.inner[i].1));
            i += 1;
            proof {
                lemma_pairs_fn_arg_comma_push(self.inner@.subrange(0, i as int));
                assert(self.inner@.subrange(0, i as int).drop_last() =~= self.inner@.subrange(
                    0,
                    i - 1,
                ));
            }
        }
        proof {
            assert(self.inner@.subrange(0, self.inner@.len() as int) =~= self.inner@);
        }
        match &self.last {
            Some(t) => {
                proof {
                    assert(decreases_to!(*self => **t));
                }
                let mut tt = t.toks_vec();
                acc.append(&mut tt);
            },
            None => {},
        }
        acc
    }
}

impl ToTokens for Punctuated<FnArg, Comma> {
    open spec fn tok_spec(&self) -> Seq<Tok> {
        punct_fn_arg_comma_toks(*self)
    }

    fn to_tokens(&self) -> (r: Vec<Tok>) {
        self.toks_vec()
    }
}

pub open spec fn pairs_generic_param_comma_toks(s: Seq<(GenericParam, Comma)>) -> Seq<Tok>
    decreases s,
{
    if s.len() == 0 {
        Seq::<Tok>::empty()
    } else {
        generic_param_toks(s[0].0) + seq![Tok::Comma(s[0].1)] + pairs_generic_param_comma_toks(s.subrange(1, s.len() as int))
    }
}

pub open spec fn punct_generic_param_comma_toks(p: Punctuated<GenericParam, Comma>) -> Seq<Tok>
    decreases p,
{
    pairs_generic_param_comma_toks(p.inner@) + match p.last {
        Some(t) => generic_param_toks(*t),
        None => Seq::<Tok>::empty(),
    }
}

proof fn lemma_pairs_generic_param_comma_push(s: Seq<(GenericParam, Comma)>)
    requires
        s.len() > 0,
    ensures
        pairs_generic_param_comma_toks(s) == pairs_generic_param_comma_toks(s.drop_last()) + generic_param_toks(s.last().0) + seq![Tok::Comma(s.last().1)],
    decreases s.len(),
{
    if s.len() == 1 {
        assert(s.drop_last() =~= Seq::<(GenericParam, Comma)>::empty());
        assert(s.subrange(1, 1) =~= Seq::<(GenericParam, Comma)>::empty());
        assert(pairs_generic_param_comma_toks(Seq::<(GenericParam, Comma)>::empty()) =~= Seq::<Tok>::empty());
        assert(pairs_generic_param_comma_toks(s) =~= generic_param_toks(s[0].0) + seq![Tok::Comma(s[0].1)]);
    } else {
        let tail = s.subrange(1, s.len() as int);
        lemma_pairs_generic_param_comma_push(tail);
        assert(tail.drop_last() =~= s.drop_last().subrange(1, s.drop_last().len() as int));
        assert(tail.last() == s.last());
        assert(pairs_generic_param_comma_toks(s) =~= pairs_generic_param_comma_toks(s.drop_last()) + generic_param_toks(s.last().0) + seq![Tok::Comma(s.last().1)]);
    }
}

impl Punctuated<GenericParam, Comma> {
    #[verifier::rlimit(100)]
    #[verifier::spinoff_prover]
    pub(crate) fn toks_vec(&self) -> (r: Vec<Tok>)
        ensures
            r@ == punct_generic_param_comma_toks(*self),
        decreases self,
    {
        let mut acc: Vec<Tok> = Vec::new();
        let mut i: usize = 0;
        proof {
            assert(self.inner@.subrange(0, 0) =~= Seq::<(GenericParam, Comma)>::empty());
        }
        while i < self.inner.len()
            invariant
                i <= self.inner@.len(),
                acc@ == pairs_generic_param_comma_toks(self.inner@.subrange(0, i as int)),
            decreases self.inner@.len() - i,
        {
            proof {
                assert(decreases_to!(*self => self.inner@[i as int].0));
            }
            let mut t = self.inner[i].0.toks_vec();
            acc.append(&mut t);
            acc.push(Tok::Comma(self.inner[i].1));
            i += 1;
            proof {
                lemma_pairs_generic_param_comma_push(self.inner@.subrange(0, i as int));
                assert(self.inner@.subrange(0, i as int).drop_last() =~= self.inner@.subrange(
                    0,
                    i - 1,
                ));
            }
        }
        proof {
            assert(self.inner@.subrange(0, self.inner@.len() as int) =~= self.inner@);
        }
        match &self.last {
            Some(t) => {
                proof {
                    assert(decreases_to!(*self => **t));
                }
                let mut tt = t.toks_vec();
                acc.append(&mut tt);
            },
            None => {},
        }
        acc
    }
}

impl ToTokens for Punctuated<GenericParam, Comma> {
    open spec fn tok_spec(&self) -> Seq<Tok> {
        punct_generic_param_comma_toks(*self)
    }

    fn to_tokens(&self) -> (r: Vec<Tok>) {
        self.toks_vec()
    }
}

pub open spec fn pairs_named_field_comma_toks(s: Seq<(NamedField, Comma)>) -> Seq<Tok>
    decreases s,
{
    if s.len() == 0 {
        Seq::<Tok>::empty()
    } else {
        named_field_toks(s[0].0) + seq![Tok::Comma(s[0].1)] + pairs_named_field_comma_toks(s.subrange(1, s.len() as int))
    }
}

pub open spec fn punct_named_field_comma_toks(p: Punctuated<NamedField, Comma>) -> Seq<Tok>
    decreases p,
{
    pairs_named_field_comma_toks(p.inner@) + match p.last {
        Some(t) => named_field_toks(*t),
        None => Seq::<Tok>::empty(),
    }
}

proof fn lemma_pairs_named_field_comma_push(s: Seq<(NamedField, Comma)>)
    requires
        s.len() > 0,
    ensures
        pairs_named_field_comma_toks(s) == pairs_named_field_comma_toks(s.drop_last()) + named_field_toks(s.last().0) + seq![Tok::Comma(s.last().1)],
    decreases s.len(),
{
    if s.len() == 1 {
        assert(s.drop_last() =~= Seq::<(NamedField, Comma)>::empty());
        assert(s.subrange(1, 1) =~= Seq::<(NamedField, Comma)>::empty());
        assert(pairs_named_field_comma_toks(Seq::<(NamedField, Comma)>::empty()) =~= Seq::<Tok>::empty());
        assert(pairs_named_field_comma_toks(s) =~= named_field_toks(s[0].0) + seq![Tok::Comma(s[0].1)]);
    } else {
        let tail = s.subrange(1, s.len() as int);
        lemma_pairs_named_field_comma_push(tail);
        assert(tail.drop_last() =~= s.drop_last().subrange(1, s.drop_last().len() as int));
        assert(tail.last() == s.last());
        assert(pairs_named_field_comma_toks(s) =~= pairs_named_field_comma_toks(s.drop_last()) + named_field_toks(s.last().0) + seq![Tok::Comma(s.last().1)]);
    }
}

impl Punctuated<NamedField, Comma> {
    #[verifier::rlimit(100)]
    #[verifier::spinoff_prover]
    pub(crate) fn toks_vec(&self) -> (r: Vec<Tok>)
        ensures
            r@ == punct_named_field_comma_toks(*self),
        decreases self,
    {
        let mut acc: Vec<Tok> = Vec::new();
        let mut i: usize = 0;
        proof {
            assert(self.inner@.subrange(0, 0) =~= Seq::<(NamedField, Comma)>::empty());
        }
        while i < self.inner.len()
            invariant
                i <= self.inner@.len(),
                acc@ == pairs_named_field_comma_toks(self.inner@.subrange(0, i as int)),
            decreases self.inner@.len() - i,
        {
            proof {
                assert(decreases_to!(*self => self.inner@[i as int].0));
            }
            let mut t = self.inner[i].0.toks_vec();
            acc.append(&mut t);
            acc.push(Tok::Comma(self.inner[i].1));
            i += 1;
            proof {
                lemma_pairs_named_field_comma_push(self.inner@.subrange(0, i as int));
                assert(self.inner@.subrange(0, i as int).drop_last() =~= self.inner@.subrange(
                    0,
                    i - 1,
                ));
            }
        }
        proof {
            assert(self.inner@.subrange(0, self.inner@.len() as int) =~= self.inner@);
        }
        match &self.last {
            Some(t) => {
                proof {
                    assert(decreases_to!(*self => **t));
                }
                let mut tt = t.toks_vec();
                acc.append(&mut tt);
            },
            None => {},
        }
        acc
    }
}

impl ToTokens for Punctuated<NamedField, Comma> {
    open spec fn tok_spec(&self) -> Seq<Tok> {
        punct_named_field_comma_toks(*self)
    }

    fn to_tokens(&self) -> (r: Vec<Tok>) {
        self.toks_vec()
    }
}

pub open spec fn pairs_port_comma_toks(s: Seq<(Port, Comma)>) -> Seq<Tok>
    decreases s,
{
    if s.len() == 0 {
        Seq::<Tok>::empty()
    } else {
        port_toks(s[0].0) + seq![Tok::Comma(s[0].1)] + pairs_port_comma_toks(s.subrange(1, s.len() as int))
    }
}

pub open spec fn punct_port_comma_toks(p: Punctuated<Port, Comma>) -> Seq<Tok>
    decreases p,
{
    pairs_port_comma_toks(p.inner@) + match p.last {
        Some(t) => port_toks(*t),
        None => Seq::<Tok>::empty(),
    }
}

proof fn lemma_pairs_port_comma_push(s: Seq<(Port, Comma)>)
    requires
        s.len() > 0,
    ensures
        pairs_port_comma_toks(s) == pairs_port_comma_toks(s.drop_last()) + port_toks(s.last().0) + seq![Tok::Comma(s.last().1)],
    decreases s.len(),
{
    if s.len() == 1 {
        assert(s.drop_last() =~= Seq::<(Port, Comma)>::empty());
        assert(s.subrange(1, 1) =~= Seq::<(Port, Comma)>::empty());
        assert(pairs_port_comma_toks(Seq::<(Port, Comma)>::empty()) =~= Seq::<Tok>::empty());
        assert(pairs_port_comma_toks(s) =~= port_toks(s[0].0) + seq![Tok::Comma(s[0].1)]);
    } else {
        let tail = s.subrange(1, s.len() as int);
        lemma_pairs_port_comma_push(tail);
        assert(tail.drop_last() =~= s.drop_last().subrange(1, s.drop_last().len() as int));
        assert(tail.last() == s.last());
        assert(pairs_port_comma_toks(s) =~= pairs_port_comma_toks(s.drop_last()) + port_toks(s.last().0) + seq![Tok::Comma(s.last().1)]);
    }
}

impl Punctuated<Port, Comma> {
    #[verifier::rlimit(100)]
    #[verifier::spinoff_prover]
    pub(crate) fn toks_vec(&self) -> (r: Vec<Tok>)
        ensures
            r@ == punct_port_comma_toks(*self),
        decreases self,
    {
        let mut acc: Vec<Tok> = Vec::new();
        let mut i: usize = 0;
        proof {
            assert(self.inner@.subrange(0, 0) =~= Seq::<(Port, Comma)>::empty());
        }
        while i < self.inner.len()
            invariant
                i <= self.inner@.len(),
                acc@ == pairs_port_comma_toks(self.inner@.subrange(0, i as int)),
            decreases self.inner@.len() - i,
        {
            proof {
                assert(decreases_to!(*self => self.inner@[i as int].0));
            }
            let mut t = self.inner[i].0.toks_vec();
            acc.append(&mut t);
            acc.push(Tok::Comma(self.inner[i].1));
            i += 1;
            proof {
                lemma_pairs_port_comma_push(self.inner@.subrange(0, i as int));
                assert(self.inner@.subrange(0, i as int).drop_last() =~= self.inner@.subrange(
                    0,
                    i - 1,
                ));
            }
        }
        proof {
            assert(self.inner@.subrange(0, self.inner@.len() as int) =~= self.inner@);
        }
        match &self.last {
            Some(t) => {
                proof {
                    assert(decreases_to!(*self => **t));
                }
                let mut tt = t.toks_vec();
                acc.append(&mut tt);
            },
            None => {},
        }
        acc
    }
}

impl ToTokens for Punctuated<Port, Comma> {
    open spec fn tok_spec(&self) -> Seq<Tok> {
        punct_port_comma_toks(*self)
    }

    fn to_tokens(&self) -> (r: Vec<Tok>) {
        self.toks_vec()
    }
}

pub open spec fn pairs_unnamed_field_comma_toks(s: Seq<(UnnamedField, Comma)>) -> Seq<Tok>
    decreases s,
{
    if s.len() == 0 {
        Seq::<Tok>::empty()
    } else {
        unnamed_field_toks(s[0].0) + seq![Tok::Comma(s[0].1)] + pairs_unnamed_field_comma_toks(s.subrange(1, s.len() as int))
    }
}

pub open spec fn punct_unnamed_field_comma_toks(p: Punctuated<UnnamedField, Comma>) -> Seq<Tok>
    decreases p,
{
    pairs_unnamed_field_comma_toks(p.inner@) + match p.last {
        Some(t) => unnamed_field_toks(*t),
        None => Seq::<Tok>::empty(),
    }
}

proof fn lemma_pairs_unnamed_field_comma_push(s: Seq<(UnnamedField, Comma)>)
    requires
        s.len() > 0,
    ensures
        pairs_unnamed_field_comma_toks(s) == pairs_unnamed_field_comma_toks(s.drop_last()) + unnamed_field_toks(s.last().0) + seq![Tok::Comma(s.last().1)],
    decreases s.len(),
{
    if s.len() == 1 {
        assert(s.drop_last() =~= Seq::<(UnnamedField, Comma)>::empty());
        assert(s.subrange(1, 1) =~= Seq::<(UnnamedField, Comma)>::empty());
        assert(pairs_unnamed_field_comma_toks(Seq::<(UnnamedField, Comma)>::empty()) =~= Seq::<Tok>::empty());
        assert(pairs_unnamed_field_comma_toks(s) =~= unnamed_field_toks(s[0].0) + seq![Tok::Comma(s[0].1)]);
    } else {
        let tail = s.subrange(1, s.len() as int);
        lemma_pairs_unnamed_field_comma_push(tail);
        assert(tail.drop_last() =~= s.drop_last().subrange(1, s.drop_last().len() as int));
        assert(tail.last() == s.last());
        assert(pairs_unnamed_field_comma_toks(s) =~= pairs_unnamed_field_comma_toks(s.drop_last()) + unnamed_field_toks(s.last().0) + seq![Tok::Comma(s.last().1)]);
    }
}

impl Punctuated<UnnamedField, Comma> {
    #[verifier::rlimit(100)]
    #[verifier::spinoff_prover]
    pub(crate) fn toks_vec(&self) -> (r: Vec<Tok>)
        ensures
            r@ == punct_unnamed_field_comma_toks(*self),
        decreases self,
    {
        let mut acc: Vec<Tok> = Vec::new();
        let mut i: usize = 0;
        proof {
            assert(self.inner@.subrange(0, 0) =~= Seq::<(UnnamedField, Comma)>::empty());
        }
        while i < self.inner.len()
            invariant
                i <= self.inner@.len(),
                acc@ == pairs_unnamed_field_comma_toks(self.inner@.subrange(0, i as int)),
            decreases self.inner@.len() - i,
        {
            proof {
                assert(decreases_to!(*self => self.inner@[i as int].0));
            }
            let mut t = self.inner[i].0.toks_vec();
            acc.append(&mut t);
            acc.push(Tok::Comma(self.inner[i].1));
            i += 1;
            proof {
                lemma_pairs_unnamed_field_comma_push(self.inner@.subrange(0, i as int));
                assert(self.inner@.subrange(0, i as int).drop_last() =~= self.inner@.subrange(
                    0,
                    i - 1,
                ));
            }
        }
        proof {
            assert(self.inner@.subrange(0, self.inner@.len() as int) =~= self.inner@);
        }
        match &self.last {
            Some(t) => {
                proof {
                    assert(decreases_to!(*self => **t));
                }
                let mut tt = t.toks_vec();
                acc.append(&mut tt);
            },
            None => {},
        }
        acc
    }
}

impl ToTokens for Punctuated<UnnamedField, Comma> {
    open spec fn tok_spec(&self) -> Seq<Tok> {
        punct_unnamed_field_comma_toks(*self)
    }

    fn to_tokens(&self) -> (r: Vec<Tok>) {
        self.toks_vec()
    }
}

pub open spec fn pairs_use_tree_comma_toks(s: Seq<(UseTree, Comma)>) -> Seq<Tok>
    decreases s,
{
    if s.len() == 0 {
        Seq::<Tok>::empty()
    } else {
        use_tree_toks(s[0].0) + seq![Tok::Comma(s[0].1)] + pairs_use_tree_comma_toks(s.subrange(1, s.len() as int))
    }
}

pub open spec fn punct_use_tree_comma_toks(p: Punctuated<UseTree, Comma>) -> Seq<Tok>
    decreases p,
{
    pairs_use_tree_comma_toks(p.inner@) + match p.last {
        Some(t) => use_tree_toks(*t),
        None => Seq::<Tok>::empty(),
    }
}

proof fn lemma_pairs_use_tree_comma_push(s: Seq<(UseTree, Comma)>)
    requires
        s.len() > 0,
    ensures
        pairs_use_tree_comma_toks(s) == pairs_use_tree_comma_toks(s.drop_last()) + use_tree_toks(s.last().0) + seq![Tok::Comma(s.last().1)],
    decreases s.len(),
{
    if s.len() == 1 {
        assert(s.drop_last() =~= Seq::<(UseTree, Comma)>::empty());
        assert(s.subrange(1, 1) =~= Seq::<(UseTree, Comma)>::empty());
        assert(pairs_use_tree_comma_toks(Seq::<(UseTree, Comma)>::empty()) =~= Seq::<Tok>::empty());
        assert(pairs_use_tree_comma_toks(s) =~= use_tree_toks(s[0].0) + seq![Tok::Comma(s[0].1)]);
    } else {
        let tail = s.subrange(1, s.len() as int);
        lemma_pairs_use_tree_comma_push(tail);
        assert(tail.drop_last() =~= s.drop_last().subrange(1, s.drop_last().len() as int));
        assert(tail.last() == s.last());
        assert(pairs_use_tree_comma_toks(s) =~= pairs_use_tree_comma_toks(s.drop_last()) + use_tree_toks(s.last().0) + seq![Tok::Comma(s.last().1)]);
    }
}

impl Punctuated<UseTree, Comma> {
    #[verifier::rlimit(100)]
    #[verifier::spinoff_prover]
    pub(crate) fn toks_vec(&self) -> (r: Vec<Tok>)
        ensures
            r@ == punct_use_tree_comma_toks(*self),
        decreases self,
    {
        let mut acc: Vec<Tok> = Vec::new();
        let mut i: usize = 0;
        proof {
            assert(self.inner@.subrange(0, 0) =~= Seq::<(UseTree, Comma)>::empty());
        }
        while i < self.inner.len()
            invariant
                i <= self.inner@.len(),
                acc@ == pairs_use_tree_comma_toks(self.inner@.subrange(0, i as int)),
            decreases self.inner@.len() - i,
        {
            proof {
                assert(decreases_to!(*self => self.inner@[i as int].0));
            }
            let mut t = self.inner[i].0.toks_vec();
            acc.append(&mut t);
            acc.push(Tok::Comma(self.inner[i].1));
            i += 1;
            proof {
                lemma_pairs_use_tree_comma_push(self.inner@.subrange(0, i as int));
                assert(self.inner@.subrange(0, i as int).drop_last() =~= self.inner@.subrange(
                    0,
                    i - 1,
                ));
            }
        }
        proof {
            assert(self.inner@.subrange(0, self.inner@.len() as int) =~= self.inner@);
        }
        match &self.last {
            Some(t) => {
                proof {
                    assert(decreases_to!(*self => **t));
                }
                let mut tt = t.toks_vec();
                acc.append(&mut tt);
            },
            None => {},
        }
        acc
    }
}

impl ToTokens for Punctuated<UseTree, Comma> {
    open spec fn tok_spec(&self) -> Seq<Tok> {
        punct_use_tree_comma_toks(*self)
    }

    fn to_tokens(&self) -> (r: Vec<Tok>) {
        self.toks_vec()
    }
}

pub open spec fn pairs_variant_comma_toks(s: Seq<(Variant, Comma)>) -> Seq<Tok>
    decreases s,
{
    if s.len() == 0 {
        Seq::<Tok>::empty()
    } else {
        variant_toks(s[0].0) + seq![Tok::Comma(s[0].1)] + pairs_variant_comma_toks(s.subrange(1, s.len() as int))
    }
}

pub open spec fn punct_variant_comma_toks(p: Punctuated<Variant, Comma>) -> Seq<Tok>
    decreases p,
{
    pairs_variant_comma_toks(p.inner@) + match p.last {
        Some(t) => variant_toks(*t),
        None => Seq::<Tok>::empty(),
    }
}

proof fn lemma_pairs_variant_comma_push(s: Seq<(Variant, Comma)>)
    requires
        s.len() > 0,
    ensures
        pairs_variant_comma_toks(s) == pairs_variant_comma_toks(s.drop_last()) + variant_toks(s.last().0) + seq![Tok::Comma(s.last().1)],
    decreases s.len(),
{
    if s.len() == 1 {
        assert(s.drop_last() =~= Seq::<(Variant, Comma)>::empty());
        assert(s.subrange(1, 1) =~= Seq::<(Variant, Comma)>::empty());
        assert(pairs_variant_comma_toks(Seq::<(Variant, Comma)>::empty()) =~= Seq::<Tok>::empty());
        assert(pairs_variant_comma_toks(s) =~= variant_toks(s[0].0) + seq![Tok::Comma(s[0].1)]);
    } else {
        let tail = s.subrange(1, s.len() as int);
        lemma_pairs_variant_comma_push(tail);
        assert(tail.drop_last() =~= s.drop_last().subrange(1, s.drop_last().len() as int));
        assert(tail.last() == s.last());
        assert(pairs_variant_comma_toks(s) =~= pairs_variant_comma_toks(s.drop_last()) + variant_toks(s.last().0) + seq![Tok::Comma(s.last().1)]);
    }
}

impl Punctuated<Variant, Comma> {
    #[verifier::rlimit(100)]
    #[verifier::spinoff_prover]
    pub(crate) fn toks_vec(&self) -> (r: Vec<Tok>)
        ensures
            r@ == punct_variant_comma_toks(*self),
        decreases self,
    {
        let mut acc: Vec<Tok> = Vec::new();
        let mut i: usize = 0;
        proof {
            assert(self.inner@.subrange(0, 0) =~= Seq::<(Variant, Comma)>::empty());
        }
        while i < self.inner.len()
            invariant
                i <= self.inner@.len(),
                acc@ == pairs_variant_comma_toks(self.inner@.subrange(0, i as int)),
            decreases self.inner@.len() - i,
        {
            proof {
                assert(decreases_to!(*self => self.inner@[i as int].0));
            }
            let mut t = self.inner[i].0.toks_vec();
            acc.append(&mut t);
            acc.push(Tok::Comma(self.inner[i].1));
            i += 1;
            proof {
                lemma_pairs_variant_comma_push(self.inner@.subrange(0, i as int));
                assert(self.inner@.subrange(0, i as int).drop_last() =~= self.inner@.subrange(
                    0,
                    i - 1,
                ));
            }
        }
        proof {
            assert(self.inner@.subrange(0, self.inner@.len() as int) =~= self.inner@);
        }
        match &self.last {
            Some(t) => {
                proof {
                    assert(decreases_to!(*self => **t));
                }
                let mut tt = t.toks_vec();
                acc.append(&mut tt);
            },
            None => {},
        }
        acc
    }
}

impl ToTokens for Punctuated<Variant, Comma> {
    open spec fn tok_spec(&self) -> Seq<Tok> {
        punct_variant_comma_toks(*self)
    }

    fn to_tokens(&self) -> (r: Vec<Tok>) {
        self.toks_vec()
    }
}

pub open spec fn seq_arch_item_toks(s: Seq<ArchItem>) -> Seq<Tok>
    decreases s,
{
    if s.len() == 0 {
        Seq::<Tok>::empty()
    } else {
        arch_item_toks(s[0]) + seq_arch_item_toks(s.subrange(1, s.len() as int))
    }
}

proof fn lemma_seq_arch_item_push(s: Seq<ArchItem>)
    requires
        s.len() > 0,
    ensures
        seq_arch_item_toks(s) == seq_arch_item_toks(s.drop_last()) + arch_item_toks(s.last()),
    decreases s.len(),
{
    if s.len() == 1 {
        assert(s.drop_last() =~= Seq::<ArchItem>::empty());
        assert(s.subrange(1, 1) =~= Seq::<ArchItem>::empty());
        assert(seq_arch_item_toks(Seq::<ArchItem>::empty()) =~= Seq::<Tok>::empty());
        assert(seq_arch_item_toks(s) =~= arch_item_toks(s[0]));
    } else {
        let tail = s.subrange(1, s.len() as int);
        lemma_seq_arch_item_push(tail);
        assert(tail.drop_last() =~= s.drop_last().subrange(1, s.drop_last().len() as int));
        assert(tail.last() == s.last());
        assert(seq_arch_item_toks(s) =~= seq_arch_item_toks(s.drop_last()) + arch_item_toks(s.last()));
    }
}

fn vec_arch_item_toks(v: &Vec<ArchItem>) -> (r: Vec<Tok>)
    ensures
        r@ == seq_arch_item_toks(v@),
    decreases v@,
{
    let mut acc: Vec<Tok> = Vec::new();
    let mut i: usize = 0;
    proof {
        assert(v@.subrange(0, 0) =~= Seq::<ArchItem>::empty());
    }
    while i < v.len()
        invariant
            i <= v@.len(),
            acc@ == seq_arch_item_toks(v@.subrange(0, i as int)),
        decreases v@.len() - i,
    {
        proof {
            assert(decreases_to!(v@ => v@[i as int]));
        }
        let mut t = v[i].toks_vec();
        acc.append(&mut t);
        i += 1;
        proof {
            lemma_seq_arch_item_push(v@.subrange(0, i as int));
            assert(v@.subrange(0, i as int).drop_last() =~= v@.subrange(0, i - 1));
        }
    }
    proof {
        assert(v@.subrange(0, v@.len() as int) =~= v@);
    }
    acc
}

pub open spec fn seq_impl_item_toks(s: Seq<ImplItem>) -> Seq<Tok>
    decreases s,
{
    if s.len() == 0 {
        Seq::<Tok>::empty()
    } else {
        impl_item_toks(s[0]) + seq_impl_item_toks(s.subrange(1, s.len() as int))
    }
}

proof fn lemma_seq_impl_item_push(s: Seq<ImplItem>)
    requires
        s.len() > 0,
    ensures
        seq_impl_item_toks(s) == seq_impl_item_toks(s.drop_last()) + impl_item_toks(s.last()),
    decreases s.len(),
{
    if s.len() == 1 {
        assert(s.drop_last() =~= Seq::<ImplItem>::empty());
        assert(s.subrange(1, 1) =~= Seq::<ImplItem>::empty());
        assert(seq_impl_item_toks(Seq::<ImplItem>::empty()) =~= Seq::<Tok>::empty());
        assert(seq_impl_item_toks(s) =~= impl_item_toks(s[0]));
    } else {
        let tail = s.subrange(1, s.len() as int);
        lemma_seq_impl_item_push(tail);
        assert(tail.drop_last() =~= s.drop_last().subrange(1, s.drop_last().len() as int));
        assert(tail.last() == s.last());
        assert(seq_impl_item_toks(s) =~= seq_impl_item_toks(s.drop_last()) + impl_item_toks(s.last()));
    }
}

fn vec_impl_item_toks(v: &Vec<ImplItem>) -> (r: Vec<Tok>)
    ensures
        r@ == seq_impl_item_toks(v@),
    decreases v@,
{
    let mut acc: Vec<Tok> = Vec::new();
    let mut i: usize = 0;
    proof {
        assert(v@.subrange(0, 0) =~= Seq::<ImplItem>::empty());
    }
    while i < v.len()
        invariant
            i <= v@.len(),
            acc@ == seq_impl_item_toks(v@.subrange(0, i as int)),
        decreases v@.len() - i,
    {
        proof {
            assert(decreases_to!(v@ => v@[i as int]));
        }
        let mut t = v[i].toks_vec();
        acc.append(&mut t);
        i += 1;
        proof {
            lemma_seq_impl_item_push(v@.subrange(0, i as int));
            assert(v@.subrange(0, i as int).drop_last() =~= v@.subrange(0, i - 1));
        }
    }
    proof {
        assert(v@.subrange(0, v@.len() as int) =~= v@);
    }
    acc
}

pub open spec fn seq_item_toks(s: Seq<Item>) -> Seq<Tok>
    decreases s,
{
    if s.len() == 0 {
        Seq::<Tok>::empty()
    } else {
        item_toks(s[0]) + seq_item_toks(s.subrange(1, s.len() as int))
    }
}

proof fn lemma_seq_item_push(s: Seq<Item>)
    requires
        s.len() > 0,
    ensures
        seq_item_toks(s) == seq_item_toks(s.drop_last()) + item_toks(s.last()),
    decreases s.len(),
{
    if s.len() == 1 {
        assert(s.drop_last() =~= Seq::<Item>::empty());
        assert(s.subrange(1, 1) =~= Seq::<Item>::empty());
        assert(seq_item_toks(Seq::<Item>::empty()) =~= Seq::<Tok>::empty());
        assert(seq_item_toks(s) =~= item_toks(s[0]));
    } else {
        let tail = s.subrange(1, s.len() as int);
        lemma_seq_item_push(tail);
        assert(tail.drop_last() =~= s.drop_last().subrange(1, s.drop_last().len() as int));
        assert(tail.last() == s.last());
        assert(seq_item_toks(s) =~= seq_item_toks(s.drop_last()) + item_toks(s.last()));
    }
}

fn vec_item_toks(v: &Vec<Item>) -> (r: Vec<Tok>)
    ensures
        r@ == seq_item_toks(v@),
    decreases v@,
{
    let mut acc: Vec<Tok> = Vec::new();
    let mut i: usize = 0;
    proof {
        assert(v@.subrange(0, 0) =~= Seq::<Item>::empty());
    }
    while i < v.len()
        invariant
            i <= v@.len(),
            acc@ == seq_item_toks(v@.subrange(0, i as int)),
        decreases v@.len() - i,
    {
        proof {
            assert(decreases_to!(v@ => v@[i as int]));
        }
        let mut t = v[i].toks_vec();
        acc.append(&mut t);
        i += 1;
        proof {
            lemma_seq_item_push(v@.subrange(0, i as int));
            assert(v@.subrange(0, i as int).drop_last() =~= v@.subrange(0, i - 1));
        }
    }
    proof {
        assert(v@.subrange(0, v@.len() as int) =~= v@);
    }
    acc
}

pub open spec fn seq_trait_item_toks(s: Seq<TraitItem>) -> Seq<Tok>
    decreases s,
{
    if s.len() == 0 {
        Seq::<Tok>::empty()
    } else {
        trait_item_toks(s[0]) + seq_trait_item_toks(s.subrange(1, s.len() as int))
    }
}

proof fn lemma_seq_trait_item_push(s: Seq<TraitItem>)
    requires
        s.len() > 0,
    ensures
        seq_trait_item_toks(s) == seq_trait_item_toks(s.drop_last()) + trait_item_toks(s.last()),
    decreases s.len(),
{
    if s.len() == 1 {
        assert(s.drop_last() =~= Seq::<TraitItem>::empty());
        assert(s.subrange(1, 1) =~= Seq::<TraitItem>::empty());
        assert(seq_trait_item_toks(Seq::<TraitItem>::empty()) =~= Seq::<Tok>::empty());
        assert(seq_trait_item_toks(s) =~= trait_item_toks(s[0]));
    } else {
        let tail = s.subrange(1, s.len() as int);
        lemma_seq_trait_item_push(tail);
        assert(tail.drop_last() =~= s.drop_last().subrange(1, s.drop_last().len() as int));
        assert(tail.last() == s.last());
        assert(seq_trait_item_toks(s) =~= seq_trait_item_toks(s.drop_last()) + trait_item_toks(s.last()));
    }
}

fn vec_trait_item_toks(v: &Vec<TraitItem>) -> (r: Vec<Tok>)
    ensures
        r@ == seq_trait_item_toks(v@),
    decreases v@,
{
    let mut acc: Vec<Tok> = Vec::new();
    let mut i: usize = 0;
    proof {
        assert(v@.subrange(0, 0) =~= Seq::<TraitItem>::empty());
    }
    while i < v.len()
        invariant
            i <= v@.len(),
            acc@ == seq_trait_item_toks(v@.subrange(0, i as int)),
        decreases v@.len() - i,
    {
        proof {
            assert(decreases_to!(v@ => v@[i as int]));
        }
        let mut t = v[i].toks_vec();
        acc.append(&mut t);
        i += 1;
        proof {
            lemma_seq_trait_item_push(v@.subrange(0, i as int));
            assert(v@.subrange(0, i as int).drop_last() =~= v@.subrange(0, i - 1));
        }
    }
    proof {
        assert(v@.subrange(0, v@.len() as int) =~= v@);
    }
    acc
}

impl ModContent {
    /// Whether the module's content stands in another file (`mod m;`)
    /// rather than inline in braces.
    pub fn is_file(&self) -> (r: bool)
        ensures
            r == (*self is File),
    {
        match self {
            ModContent::File(_) => true,
            _ => false,
        }
    }
}

} // verus!
