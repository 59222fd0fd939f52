use rhdl_ast::ast::{Block, Punctuated, SimplePath, Stmt, StmtExpr, StmtLocal};
use rhdl_ast::expr::{
    BinOp, Expr, ExprAssign, ExprBinary, ExprField, ExprPath, FieldValue, Member, PathSegment,
    AssOp,
};
use rhdl_ast::item::{
    ArchItem, ArchItemEntityExpression, ArchItemWhen, EntityFieldValue, Fields, FieldsNamed,
    FieldsUnnamed, File, FnArg, Item, ItemArch, ItemConst, ItemEntity, ItemEnum, ItemFn,
    ItemMod, ItemStruct, ItemType, ItemUse, ModContent, ModContentFile, ModContentHere,
    NamedField, Port, PortType, Sig, UnnamedField, UseTree, UseTreeGroup, UseTreePath,
    UseTreeRename, Variant, VariantType, VariantTypeDiscrim, Vis, VisRestricted,
};
use rhdl_ast::lits::parse_int_literal;
use rhdl_ast::pat::{Pat, PatType};
use rhdl_ast::token::{
    Arch, BraceClose, BraceOpen, BracketClose, BracketOpen, Colon, Comma, Const, Dot, Entity,
    Enum, Ident, In, Lit, LitBool, Mod, Out, ParenClose, ParenOpen, PathSep, Pub, RArrow, Semi,
    Span, Star, Struct, ToTokens, TokenEq, TokenFn, TokenType, Use, When,
};
use rhdl_ast::types::{Type, TypeArray, TypeFn, TypeParenthesized, TypePath, TypeSlice, TypeTuple};
use rhdl_ast::token::Underscore;

fn ident(s: &str) -> Ident {
    Ident { inner: s.to_string(), span: Span(0, 0) }
}

fn seg(s: &str) -> PathSegment {
    PathSegment { ident: ident(s), generic_args: None }
}

fn plist<T, P>(mut items: Vec<T>, mut seps: Vec<P>) -> Punctuated<T, P> {
    let last = items.pop().map(Box::new);
    seps.truncate(items.len());
    let inner = items.into_iter().zip(seps).collect();
    Punctuated { inner, last }
}

fn commas(n: usize) -> Vec<Comma> {
    (0..n).map(|_| Comma { left: 0 }).collect()
}

fn simple_path(segs: &[&str]) -> SimplePath {
    let inner = segs[..segs.len() - 1]
        .iter()
        .map(|s| (ident(s), PathSep { left: 0 }))
        .collect();
    SimplePath {
        leading_sep: None,
        segments: Punctuated {
            inner,
            last: Some(Box::new(ident(segs[segs.len() - 1]))),
        },
    }
}

fn tpath(s: &str) -> Type {
    Type::Path(TypePath {
        leading_sep: None,
        segments: Punctuated { inner: vec![], last: Some(Box::new(seg(s))) },
    })
}

fn epath(s: &str) -> Expr {
    Expr::Path(ExprPath {
        leading_sep: None,
        segments: Punctuated { inner: vec![], last: Some(Box::new(seg(s))) },
    })
}

fn eint(raw: &str) -> Expr {
    Expr::Lit(Lit::Int(parse_int_literal(raw).unwrap()))
}

fn ebool(b: bool) -> Expr {
    Expr::Lit(Lit::Bool(LitBool { inner: b, span: Span(0, 0) }))
}

fn ebin(l: Expr, op: BinOp, r: Expr) -> Expr {
    Expr::Binary(ExprBinary { left: Box::new(l), op, right: Box::new(r) })
}

fn use_name(s: &str) -> UseTree {
    UseTree::Name(ident(s))
}

fn use_prefix(root: &str) -> SimplePath {
    SimplePath {
        leading_sep: None,
        segments: Punctuated {
            inner: vec![(ident(root), PathSep { left: 0 })],
            last: None,
        },
    }
}

fn use_path(root: &str, rest: UseTree) -> UseTree {
    UseTree::Path(UseTreePath { path: use_prefix(root), tree: Box::new(rest) })
}

fn item_use(tree: UseTree) -> Item {
    Item::Use(ItemUse {
        vis: None,
        use_token: Use { left: 0 },
        tree,
        semi: Semi { left: 0 },
    })
}

fn item_const(vis: Option<Vis>, name: &str, ty: Type, expr: Expr) -> Item {
    Item::Const(ItemConst {
        vis,
        const_token: Const { left: 0 },
        ident: ident(name),
        colon: Colon { left: 0 },
        ty,
        eq: TokenEq { left: 0 },
        expr,
        semi: Semi { left: 0 },
    })
}

fn vis_pub() -> Vis {
    Vis::Pub(Pub { left: 0 })
}

fn vis_in(segs: &[&str]) -> Vis {
    Vis::Restricted(VisRestricted {
        pub_token: Pub { left: 0 },
        paren_open: ParenOpen { left: 0 },
        in_token: In { left: 0 },
        path: simple_path(segs),
        paren_close: ParenClose { left: 0 },
    })
}

fn named_field(name: &str, ty: Type) -> NamedField {
    NamedField { vis: None, ident: ident(name), colon: Colon { left: 0 }, ty }
}

fn unit_variant(name: &str) -> Variant {
    Variant { ident: ident(name), variant_type: VariantType::Unit(()) }
}

fn tuple_variant(name: &str, ty: Type) -> Variant {
    Variant {
        ident: ident(name),
        variant_type: VariantType::Fields(Fields::Unnamed(FieldsUnnamed {
            paren_open: ParenOpen { left: 0 },
            inner: plist(vec![UnnamedField { vis: None, ty }], vec![]),
            paren_close: ParenClose { left: 0 },
        })),
    }
}

fn discrim_variant(name: &str, raw: &str) -> Variant {
    Variant {
        ident: ident(name),
        variant_type: VariantType::Discrim(VariantTypeDiscrim {
            eq: TokenEq { left: 0 },
            expr: eint(raw),
        }),
    }
}

fn fn_arg(name: &str, ty: Type) -> FnArg {
    FnArg::Typed(PatType {
        pat: Pat::Ident(ident(name)),
        colon: Colon { left: 0 },
        ty,
    })
}

fn empty_block() -> Block {
    Block {
        brace_open: BraceOpen { left: 0 },
        statements: vec![],
        brace_close: BraceClose { left: 0 },
    }
}

fn item_fn(name: &str, inputs: Vec<FnArg>) -> Item {
    let n = inputs.len().saturating_sub(1);
    Item::Fn(ItemFn {
        vis: None,
        fn_token: TokenFn { left: 0 },
        sig: Sig {
            ident: ident(name),
            generics: None,
            paren_open: ParenOpen { left: 0 },
            inputs: plist(inputs, commas(n)),
            paren_close: ParenClose { left: 0 },
            output: None,
        },
        block: empty_block(),
    })
}

fn port(pt: PortType, name: &str, ty: Type, init: Option<Expr>) -> Port {
    Port {
        port_type: pt,
        ident: ident(name),
        colon: Colon { left: 0 },
        ty,
        expr: init.map(|e| (TokenEq { left: 0 }, e)),
    }
}

fn efield(on: Expr, member: &str) -> Expr {
    Expr::Field(ExprField {
        on: Box::new(on),
        dot: Dot { left: 0 },
        member: Member::Named(ident(member)),
    })
}

#[test]
fn file_parser() {
    let items: Vec<Item> = vec![
        item_use(use_path("super", use_name("X"))),
        item_use(use_path("crate", use_name("Y"))),
        item_use(use_path(
            "crate",
            UseTree::Group(UseTreeGroup {
                brace_open: BraceOpen { left: 0 },
                trees: plist(
                    vec![
                        use_path(
                            "first",
                            UseTree::Group(UseTreeGroup {
                                brace_open: BraceOpen { left: 0 },
                                trees: plist(
                                    vec![use_name("self"), use_name("Type")],
                                    commas(1),
                                ),
                                brace_close: BraceClose { left: 0 },
                            }),
                        ),
                        use_path(
                            "second",
                            UseTree::Rename(UseTreeRename {
                                name: ident("Type"),
                                as_token: rhdl_ast::token::As { left: 0 },
                                rename: ident("AnotherType"),
                            }),
                        ),
                    ],
                    commas(1),
                ),
                brace_close: BraceClose { left: 0 },
            }),
        )),
        item_const(
            Some(vis_pub()),
            "ROM_SIZE",
            tpath("uint"),
            ebin(
                ebin(eint("64"), BinOp::Star(Star { left: 0 }), eint("1024")),
                BinOp::Star(Star { left: 0 }),
                eint("1024"),
            ),
        ),
        item_const(None, "TRUE", tpath("bool"), ebool(true)),
        item_const(None, "FALSE", tpath("bool"), ebool(false)),
        Item::Mod(ItemMod {
            vis: None,
            mod_token: Mod { left: 0 },
            ident: ident("in_another_file"),
            content: ModContent::File(ModContentFile { semi: Semi { left: 0 } }),
        }),
        Item::Mod(ItemMod {
            vis: None,
            mod_token: Mod { left: 0 },
            ident: ident("in_this_file"),
            content: ModContent::Here(ModContentHere {
                brace_open: BraceOpen { left: 0 },
                items: vec![],
                brace_close: BraceClose { left: 0 },
            }),
        }),
        item_fn("x", vec![fn_arg("x", tpath("X"))]),
        Item::Type(ItemType {
            vis: None,
            type_token: TokenType { left: 0 },
            ident: ident("AliasForX"),
            generics: None,
            eq: TokenEq { left: 0 },
            ty: tpath("X"),
            semi: Semi { left: 0 },
        }),
        Item::Struct(ItemStruct {
            vis: Some(vis_in(&["super"])),
            struct_token: Struct { left: 0 },
            ident: ident("NamedWrapper"),
            generics: None,
            fields: Fields::Named(FieldsNamed {
                brace_open: BraceOpen { left: 0 },
                inner: plist(vec![named_field("x", tpath("X"))], vec![]),
                brace_close: BraceClose { left: 0 },
            }),
            semi: None,
        }),
        Item::Struct(ItemStruct {
            vis: Some(vis_in(&["crate"])),
            struct_token: Struct { left: 0 },
            ident: ident("UnnamedWrapper"),
            generics: None,
            fields: Fields::Unnamed(FieldsUnnamed {
                paren_open: ParenOpen { left: 0 },
                inner: plist(vec![UnnamedField { vis: None, ty: tpath("X") }], vec![]),
                paren_close: ParenClose { left: 0 },
            }),
            semi: Some(Semi { left: 0 }),
        }),
        Item::Enum(ItemEnum {
            vis: Some(vis_in(&["super", "super"])),
            enum_token: Enum { left: 0 },
            ident: ident("Z"),
            generics: None,
            brace_open: BraceOpen { left: 0 },
            variants: plist(
                vec![
                    tuple_variant("A", tpath("X")),
                    tuple_variant("B", tpath("Y")),
                    tuple_variant("C", tpath("u12")),
                ],
                commas(2),
            ),
            brace_close: BraceClose { left: 0 },
        }),
        Item::Enum(ItemEnum {
            vis: None,
            enum_token: Enum { left: 0 },
            ident: ident("GrayU2"),
            generics: None,
            brace_open: BraceOpen { left: 0 },
            variants: plist(
                vec![
                    discrim_variant("Zero", "0b00"),
                    discrim_variant("One", "0b01"),
                    discrim_variant("Two", "0b11"),
                    discrim_variant("Three", "0b10"),
                ],
                commas(3),
            ),
            brace_close: BraceClose { left: 0 },
        }),
        Item::Enum(ItemEnum {
            vis: None,
            enum_token: Enum { left: 0 },
            ident: ident("States"),
            generics: None,
            brace_open: BraceOpen { left: 0 },
            variants: plist(
                vec![
                    unit_variant("Uninitialized"),
                    unit_variant("Ready"),
                    unit_variant("Busy"),
                    unit_variant("Error"),
                ],
                commas(3),
            ),
            brace_close: BraceClose { left: 0 },
        }),
        item_fn(
            "everything",
            vec![
                fn_arg(
                    "parenthesized",
                    Type::Parenthesized(TypeParenthesized {
                        paren_open: ParenOpen { left: 0 },
                        inner: Box::new(tpath("Type")),
                        paren_close: ParenClose { left: 0 },
                    }),
                ),
                fn_arg("typePath", tpath("Type")),
                fn_arg(
                    "tuple1",
                    Type::Tuple(TypeTuple {
                        paren_open: ParenOpen { left: 0 },
                        tys: Punctuated { inner: vec![], last: None },
                        paren_close: ParenClose { left: 0 },
                    }),
                ),
                fn_arg(
                    "tuple2",
                    Type::Tuple(TypeTuple {
                        paren_open: ParenOpen { left: 0 },
                        tys: plist(vec![tpath("u9"), tpath("i9")], commas(1)),
                        paren_close: ParenClose { left: 0 },
                    }),
                ),
                fn_arg(
                    "array",
                    Type::Array(TypeArray {
                        bracket_open: BracketOpen { left: 0 },
                        ty: Box::new(tpath("u4")),
                        semi: Semi { left: 0 },
                        lit: parse_int_literal("32").unwrap(),
                        bracket_close: BracketClose { left: 0 },
                    }),
                ),
                fn_arg(
                    "slice",
                    Type::Slice(TypeSlice {
                        bracket_open: BracketOpen { left: 0 },
                        ty: Box::new(tpath("u8")),
                        bracket_close: BracketClose { left: 0 },
                    }),
                ),
                fn_arg("infer", Type::Infer(Underscore { left: 0 })),
                fn_arg(
                    "function",
                    Type::Fn(TypeFn {
                        fn_token: TokenFn { left: 0 },
                        paren_open: ParenOpen { left: 0 },
                        args: plist(vec![tpath("u8")], vec![]),
                        paren_close: ParenClose { left: 0 },
                        ret: None,
                    }),
                ),
                fn_arg(
                    "function_ret",
                    Type::Fn(TypeFn {
                        fn_token: TokenFn { left: 0 },
                        paren_open: ParenOpen { left: 0 },
                        args: plist(vec![tpath("u10")], vec![]),
                        paren_close: ParenClose { left: 0 },
                        ret: Some((RArrow { left: 0 }, Box::new(tpath("u16")))),
                    }),
                ),
            ],
        ),
        Item::Entity(ItemEntity {
            vis: None,
            entity: Entity { left: 0 },
            ident: ident("Top"),
            generics: None,
            brace_open: BraceOpen { left: 0 },
            ports: plist(
                vec![
                    port(
                        PortType::In(In { left: 0 }),
                        "clk",
                        tpath("bit"),
                        None,
                    ),
                    port(
                        PortType::Out(Out { left: 0 }),
                        "audio",
                        tpath("u24"),
                        Some(eint("0")),
                    ),
                ],
                commas(1),
            ),
            brace_close: BraceClose { left: 0 },
        }),
        Item::Arch(ItemArch {
            arch: Arch { left: 0 },
            generics: None,
            entity: simple_path(&["Top"]),
            brace_open: BraceOpen { left: 0 },
            items: vec![
                ArchItem::Let(StmtLocal {
                    let_token: rhdl_ast::token::Let { left: 0 },
                    pat: Pat::Ident(ident("level")),
                    ty: None,
                    init: None,
                    semi: Semi { left: 0 },
                }),
                ArchItem::EntityExpression(ArchItemEntityExpression {
                    path: ExprPath {
                        leading_sep: None,
                        segments: Punctuated {
                            inner: vec![],
                            last: Some(Box::new(seg("Sawtooth"))),
                        },
                    },
                    brace_open: BraceOpen { left: 0 },
                    fields: plist(
                        vec![
                            EntityFieldValue {
                                ident: ident("clk"),
                                expr: Some((
                                    Colon { left: 0 },
                                    efield(epath("self"), "clk"),
                                )),
                            },
                            EntityFieldValue { ident: ident("level"), expr: None },
                        ],
                        commas(1),
                    ),
                    brace_close: BraceClose { left: 0 },
                }),
                ArchItem::When(ArchItemWhen {
                    when: When { left: 0 },
                    expr: efield(epath("clk"), "posedge"),
                    block: Block {
                        brace_open: BraceOpen { left: 0 },
                        statements: vec![Stmt::Expr(StmtExpr {
                            expr: Expr::Assign(ExprAssign {
                                lhs: Box::new(efield(epath("self"), "audio")),
                                op: AssOp::Eq(TokenEq { left: 0 }),
                                rhs: Box::new(ebin(
                                    epath("level"),
                                    BinOp::Shr(rhdl_ast::token::Shr { left: 0 }),
                                    eint("8"),
                                )),
                            }),
                            semi: None,
                        })],
                        brace_close: BraceClose { left: 0 },
                    },
                }),
            ],
            brace_close: BraceClose { left: 0 },
        }),
    ];
    let file = File { items };
    let expected = "use super::X;
use crate::Y;
use crate::{ first::{ self, Type }, second::Type as AnotherType };
pub const ROM_SIZE: uint = 64 * 1024 * 1024;
const TRUE: bool = true;
const FALSE: bool = false;
mod in_another_file;
mod in_this_file { }
fn x(x: X) { }
type AliasForX = X;
pub(in super) struct NamedWrapper { x: X }
pub(in crate) struct UnnamedWrapper(X);
pub(in super::super) enum Z { A(X), B(Y), C(u12) }
enum GrayU2 { Zero = 0b00, One = 0b01, Two = 0b11, Three = 0b10 }
enum States { Uninitialized, Ready, Busy, Error }
fn everything(parenthesized: (Type), typePath: Type, tuple1: (), tuple2: (u9, i9), array: [u4; 32], slice: [u8], infer: _, function: fn(u8), function_ret: fn(u10) -> u16) { }
entity Top { in clk: bit, out audio: u24 = 0 }
arch Top { let level; Sawtooth { clk: self.clk, level }
when clk.posedge { self.audio = level >> 8 } }";
    assert_eq!(rhdl_ast::display::format(file.to_tokens()), expected);
}
