use variants_core::ast::{
    Arm, AssocItem, Attr, BinOp, Block, Case, Expr, Field, FieldValue, FieldsKind, Item, Lit,
    Pat, Span, Stmt, Token, Ty,
};
use variants_core::context::{AttributeRemover, Context};
use variants_core::errors::DiagKind;
use variants_core::expand::expand;
use variants_core::words::{key_keep_text, key_drop_text, key_retype_text, key_vary_type_text};

fn sp() -> Span {
    Span { lo: 0, hi: 0 }
}

fn s(t: &str) -> String {
    t.to_string()
}

fn ident_tok(t: &str) -> Token {
    Token::Ident { text: s(t), span: sp() }
}

fn punct(c: char) -> Token {
    Token::Punct { ch: c, span: sp() }
}

fn group(tokens: Vec<Token>) -> Token {
    Token::Group { tokens, span: sp() }
}

fn str_tok(v: &str) -> Token {
    Token::Literal { lit: Lit::Str(s(v)), span: sp() }
}

fn marker(tokens: Vec<Token>) -> Attr {
    Attr { path: vec![s("variants")], tokens, span: sp() }
}

/// A marker keeping the member in the named variants.
fn keep_attr(names: &[&str]) -> Attr {
    let mut inner = Vec::new();
    for (i, n) in names.iter().enumerate() {
        if i > 0 {
            inner.push(punct(','));
        }
        inner.push(ident_tok(n));
    }
    marker(vec![ident_tok(&key_keep_text()), group(inner)])
}

/// A marker keeping the member in the named variants, with a template.
fn keep_retype_attr(names: &[&str], tpl: &str) -> Attr {
    let mut inner = Vec::new();
    for (i, n) in names.iter().enumerate() {
        if i > 0 {
            inner.push(punct(','));
        }
        inner.push(ident_tok(n));
    }
    marker(vec![
        ident_tok(&key_keep_text()),
        group(inner),
        punct(','),
        ident_tok(&key_retype_text()),
        punct('='),
        str_tok(tpl),
    ])
}

/// A marker dropping the statement from the named variants.
fn drop_attr(names: &[&str]) -> Attr {
    let mut inner = Vec::new();
    for (i, n) in names.iter().enumerate() {
        if i > 0 {
            inner.push(punct(','));
        }
        inner.push(ident_tok(n));
    }
    marker(vec![ident_tok(&key_drop_text()), group(inner)])
}

fn derived_attr() -> Attr {
    Attr { path: vec![s("automatically_derived")], tokens: vec![], span: sp() }
}

fn foreign_attr() -> Attr {
    Attr {
        path: vec![s("some")],
        tokens: vec![ident_tok("other"), punct('='), str_tok("stuff")],
        span: sp(),
    }
}

fn ty(seg: &str) -> Ty {
    Ty::Path { segments: vec![s(seg)], args: vec![] }
}

fn ty_gen(seg: &str, args: Vec<Ty>) -> Ty {
    Ty::Path { segments: vec![s(seg)], args }
}

fn field(name: &str, t: Ty, attrs: Vec<Attr>) -> Field {
    Field { attrs, settings: vec![], name: Some(s(name)), ty: t }
}

fn bare_field(t: Ty, attrs: Vec<Attr>) -> Field {
    Field { attrs, settings: vec![], name: None, ty: t }
}

fn ctx(names: &[&str]) -> Context {
    Context::new(names.iter().map(|n| s(n)).collect())
}

#[test]
fn expand_named_structs() {
    let input = Item::Struct {
        attrs: vec![],
        name: s("Foo"),
        fields: FieldsKind::Named(vec![
            field(
                "bar",
                ty("usize"),
                vec![keep_attr(&["Bar"]), keep_retype_attr(&["Baz"], "Option<{}>")],
            ),
            field(
                "baz",
                ty("f64"),
                vec![keep_retype_attr(&["Baz"], "Option<{}>"), foreign_attr()],
            ),
            field("bat", ty("String"), vec![]),
            field(
                "recurse",
                ty_gen("Option", vec![ty("Foo")]),
                vec![keep_retype_attr(&["Bar", "Baz"], "Option<{b}{v}>")],
            ),
        ]),
    };

    let out = expand(&ctx(&["Bar", "Baz"]), &input);
    assert!(out.diags.is_empty());
    assert_eq!(out.items.len(), 3);

    let expect_base = Item::Struct {
        attrs: vec![],
        name: s("Foo"),
        fields: FieldsKind::Named(vec![
            field("bar", ty("usize"), vec![]),
            field("baz", ty("f64"), vec![foreign_attr()]),
            field("bat", ty("String"), vec![]),
            field("recurse", ty_gen("Option", vec![ty("Foo")]), vec![]),
        ]),
    };
    assert_eq!(out.items[0], expect_base);

    let expect_bar = Item::Struct {
        attrs: vec![derived_attr()],
        name: s("FooBar"),
        fields: FieldsKind::Named(vec![
            field("bar", ty("usize"), vec![]),
            field("recurse", ty_gen("Option", vec![ty("FooBar")]), vec![]),
        ]),
    };
    assert_eq!(out.items[1], expect_bar);

    let expect_baz = Item::Struct {
        attrs: vec![derived_attr()],
        name: s("FooBaz"),
        fields: FieldsKind::Named(vec![
            field("bar", ty_gen("Option", vec![ty("usize")]), vec![]),
            field("baz", ty_gen("Option", vec![ty("f64")]), vec![foreign_attr()]),
            field("recurse", ty_gen("Option", vec![ty("FooBaz")]), vec![]),
        ]),
    };
    assert_eq!(out.items[2], expect_baz);
}

#[test]
fn expand_unnamed_structs() {
    let input = Item::Struct {
        attrs: vec![],
        name: s("Foo"),
        fields: FieldsKind::Unnamed(vec![
            bare_field(
                ty("usize"),
                vec![keep_attr(&["Bar"]), keep_retype_attr(&["Baz"], "Option<{}>")],
            ),
            bare_field(
                ty("f64"),
                vec![keep_retype_attr(&["Baz"], "Option<{}>"), foreign_attr()],
            ),
            bare_field(ty("String"), vec![]),
            bare_field(
                ty_gen("Option", vec![ty("Foo")]),
                vec![keep_retype_attr(&["Bar", "Baz"], "Option<{b}{v}>")],
            ),
        ]),
    };

    let out = expand(&ctx(&["Bar", "Baz"]), &input);
    assert!(out.diags.is_empty());
    assert_eq!(out.items.len(), 3);

    let expect_base = Item::Struct {
        attrs: vec![],
        name: s("Foo"),
        fields: FieldsKind::Unnamed(vec![
            bare_field(ty("usize"), vec![]),
            bare_field(ty("f64"), vec![foreign_attr()]),
            bare_field(ty("String"), vec![]),
            bare_field(ty_gen("Option", vec![ty("Foo")]), vec![]),
        ]),
    };
    assert_eq!(out.items[0], expect_base);

    let expect_bar = Item::Struct {
        attrs: vec![derived_attr()],
        name: s("FooBar"),
        fields: FieldsKind::Unnamed(vec![
            bare_field(ty("usize"), vec![]),
            bare_field(ty_gen("Option", vec![ty("FooBar")]), vec![]),
        ]),
    };
    assert_eq!(out.items[1], expect_bar);

    let expect_baz = Item::Struct {
        attrs: vec![derived_attr()],
        name: s("FooBaz"),
        fields: FieldsKind::Unnamed(vec![
            bare_field(ty_gen("Option", vec![ty("usize")]), vec![]),
            bare_field(ty_gen("Option", vec![ty("f64")]), vec![foreign_attr()]),
            bare_field(ty_gen("Option", vec![ty("FooBaz")]), vec![]),
        ]),
    };
    assert_eq!(out.items[2], expect_baz);
}

#[test]
fn expand_enum() {
    let input = Item::Enum {
        attrs: vec![],
        name: s("Foo"),
        cases: vec![
            Case {
                attrs: vec![],
                name: s("Struct"),
                fields: FieldsKind::Named(vec![
                    field("id", ty("usize"), vec![keep_attr(&["Bar", "Baz"])]),
                    field(
                        "name",
                        ty("String"),
                        vec![keep_retype_attr(&["Bar"], "Box<{t}>")],
                    ),
                ]),
            },
            Case {
                attrs: vec![],
                name: s("Tuple"),
                fields: FieldsKind::Unnamed(vec![
                    bare_field(ty("u64"), vec![keep_attr(&["Bar"])]),
                    bare_field(
                        ty("String"),
                        vec![keep_retype_attr(&["Baz"], "Option<{t}>")],
                    ),
                ]),
            },
            Case { attrs: vec![], name: s("Empty"), fields: FieldsKind::Unit },
        ],
    };

    let out = expand(&ctx(&["Bar", "Baz"]), &input);
    assert!(out.diags.is_empty());
    assert_eq!(out.items.len(), 3);

    let expect_base = Item::Enum {
        attrs: vec![],
        name: s("Foo"),
        cases: vec![
            Case {
                attrs: vec![],
                name: s("Struct"),
                fields: FieldsKind::Named(vec![
                    field("id", ty("usize"), vec![]),
                    field("name", ty("String"), vec![]),
                ]),
            },
            Case {
                attrs: vec![],
                name: s("Tuple"),
                fields: FieldsKind::Unnamed(vec![
                    bare_field(ty("u64"), vec![]),
                    bare_field(ty("String"), vec![]),
                ]),
            },
            Case { attrs: vec![], name: s("Empty"), fields: FieldsKind::Unit },
        ],
    };
    assert_eq!(out.items[0], expect_base);

    let expect_bar = Item::Enum {
        attrs: vec![derived_attr()],
        name: s("FooBar"),
        cases: vec![
            Case {
                attrs: vec![],
                name: s("Struct"),
                fields: FieldsKind::Named(vec![
                    field("id", ty("usize"), vec![]),
                    field("name", ty_gen("Box", vec![ty("String")]), vec![]),
                ]),
            },
            Case {
                attrs: vec![],
                name: s("Tuple"),
                fields: FieldsKind::Unnamed(vec![bare_field(ty("u64"), vec![])]),
            },
            Case { attrs: vec![], name: s("Empty"), fields: FieldsKind::Unit },
        ],
    };
    assert_eq!(out.items[1], expect_bar);

    let expect_baz = Item::Enum {
        attrs: vec![derived_attr()],
        name: s("FooBaz"),
        cases: vec![
            Case {
                attrs: vec![],
                name: s("Struct"),
                fields: FieldsKind::Named(vec![field("id", ty("usize"), vec![])]),
            },
            Case {
                attrs: vec![],
                name: s("Tuple"),
                fields: FieldsKind::Unnamed(vec![bare_field(
                    ty_gen("Option", vec![ty("String")]),
                    vec![],
                )]),
            },
            Case { attrs: vec![], name: s("Empty"), fields: FieldsKind::Unit },
        ],
    };
    assert_eq!(out.items[2], expect_baz);
}

fn wild_local(init: Expr, attrs: Vec<Attr>) -> Stmt {
    Stmt::Local { attrs, settings: vec![], pat: Pat::Wild, ty: None, init: Some(init) }
}

fn lit_str(v: &str) -> Expr {
    Expr::Lit { lit: Lit::Str(s(v)) }
}

fn mac(name: &str) -> Expr {
    Expr::MacroCall { name: s(name), span: sp() }
}

fn impl_input_for_expand_impls() -> Item {
    Item::Impl {
        attrs: vec![],
        self_ty: ty("Foo"),
        trait_path: None,
        items: vec![
            AssocItem::Const {
                attrs: vec![],
                name: s("NAME"),
                ty: Ty::Ref { lifetime: Some(s("static")), inner: Box::new(ty("str")) },
                value: mac("type_str"),
            },
            AssocItem::Method {
                attrs: vec![],
                name: s("new"),
                params: vec![],
                ret: Some(ty("Self")),
                body: Block {
                    stmts: vec![
                        wild_local(lit_str("Expression in all variants"), vec![]),
                        wild_local(mac("type_str"), vec![]),
                        Stmt::ExprStmt {
                            expr: Expr::Match {
                                scrutinee: Box::new(mac("variant_str")),
                                arms: vec![
                                    Arm {
                                        pat: Pat::Lit(Lit::Str(s("Bar"))),
                                        body: Block {
                                            stmts: vec![wild_local(
                                                lit_str("Block only in FooBar"),
                                                vec![],
                                            )],
                                        },
                                    },
                                    Arm {
                                        pat: Pat::Wild,
                                        body: Block {
                                            stmts: vec![wild_local(
                                                lit_str("Block not in FooBar"),
                                                vec![],
                                            )],
                                        },
                                    },
                                ],
                            },
                            semi: false,
                        },
                        Stmt::ExprStmt {
                            expr: Expr::If {
                                cond: Box::new(Expr::Binary {
                                    op: BinOp::Eq,
                                    left: Box::new(mac("variant_str")),
                                    right: Box::new(lit_str("Bar")),
                                }),
                                then_branch: Block {
                                    stmts: vec![wild_local(
                                        lit_str("Expression only in FooBar"),
                                        vec![],
                                    )],
                                },
                                else_branch: None,
                            },
                            semi: false,
                        },
                        wild_local(lit_str("Expression only in Foo"), vec![drop_attr(&["Bar"])]),
                        Stmt::ExprStmt {
                            expr: Expr::Call {
                                callee: Box::new(Expr::Path {
                                    segments: vec![s("Self"), s("hi")],
                                }),
                                args: vec![],
                            },
                            semi: true,
                        },
                        Stmt::ExprStmt {
                            expr: Expr::StructLit {
                                segments: vec![s("Self")],
                                fields: vec![
                                    FieldValue {
                                        attrs: vec![keep_attr(&["Bar"])],
                                        settings: vec![],
                                        member: s("bar"),
                                        value: Expr::Lit { lit: Lit::Int(s("123")) },
                                    },
                                    FieldValue {
                                        attrs: vec![keep_attr(&["Bar"])],
                                        settings: vec![],
                                        member: s("baz"),
                                        value: Expr::Lit { lit: Lit::Float(s("0.")) },
                                    },
                                    FieldValue {
                                        attrs: vec![],
                                        settings: vec![],
                                        member: s("bat"),
                                        value: Expr::MethodCall {
                                            receiver: Box::new(lit_str("\u{a1}hola, mundo!")),
                                            method: s("into"),
                                            args: vec![],
                                        },
                                    },
                                ],
                            },
                            semi: false,
                        },
                    ],
                },
            },
            AssocItem::Method {
                attrs: vec![],
                name: s("hi"),
                params: vec![],
                ret: None,
                body: Block {
                    stmts: vec![Stmt::ExprStmt {
                        expr: Expr::Call {
                            callee: Box::new(Expr::Path { segments: vec![s("println")] }),
                            args: vec![
                                lit_str("Hi, {}!"),
                                Expr::Path { segments: vec![s("Self"), s("NAME")] },
                            ],
                        },
                        semi: true,
                    }],
                },
            },
        ],
    }
}

fn expected_impl(name_lit: &str, variant_lit: &str, self_name: &str, for_variant: bool) -> Item {
    let mut new_stmts = vec![
        wild_local(lit_str("Expression in all variants"), vec![]),
        wild_local(lit_str(name_lit), vec![]),
        Stmt::ExprStmt {
            expr: Expr::Match {
                scrutinee: Box::new(lit_str(variant_lit)),
                arms: vec![
                    Arm {
                        pat: Pat::Lit(Lit::Str(s("Bar"))),
                        body: Block {
                            stmts: vec![wild_local(lit_str("Block only in FooBar"), vec![])],
                        },
                    },
                    Arm {
                        pat: Pat::Wild,
                        body: Block {
                            stmts: vec![wild_local(lit_str("Block not in FooBar"), vec![])],
                        },
                    },
                ],
            },
            semi: false,
        },
        Stmt::ExprStmt {
            expr: Expr::If {
                cond: Box::new(Expr::Binary {
                    op: BinOp::Eq,
                    left: Box::new(lit_str(variant_lit)),
                    right: Box::new(lit_str("Bar")),
                }),
                then_branch: Block {
                    stmts: vec![wild_local(lit_str("Expression only in FooBar"), vec![])],
                },
                else_branch: None,
            },
            semi: false,
        },
    ];
    if !for_variant {
        new_stmts.push(wild_local(lit_str("Expression only in Foo"), vec![]));
    }
    new_stmts.push(Stmt::ExprStmt {
        expr: Expr::Call {
            callee: Box::new(Expr::Path { segments: vec![s("Self"), s("hi")] }),
            args: vec![],
        },
        semi: true,
    });
    let mut lit_fields = vec![
        FieldValue {
            attrs: vec![],
            settings: vec![],
            member: s("bar"),
            value: Expr::Lit { lit: Lit::Int(s("123")) },
        },
        FieldValue {
            attrs: vec![],
            settings: vec![],
            member: s("baz"),
            value: Expr::Lit { lit: Lit::Float(s("0.")) },
        },
    ];
    if !for_variant {
        lit_fields.push(FieldValue {
            attrs: vec![],
            settings: vec![],
            member: s("bat"),
            value: Expr::MethodCall {
                receiver: Box::new(lit_str("\u{a1}hola, mundo!")),
                method: s("into"),
                args: vec![],
            },
        });
    }
    new_stmts.push(Stmt::ExprStmt {
        expr: Expr::StructLit { segments: vec![s("Self")], fields: lit_fields },
        semi: false,
    });
    Item::Impl {
        attrs: if for_variant { vec![derived_attr()] } else { vec![] },
        self_ty: ty(self_name),
        trait_path: None,
        items: vec![
            AssocItem::Const {
                attrs: vec![],
                name: s("NAME"),
                ty: Ty::Ref { lifetime: Some(s("static")), inner: Box::new(ty("str")) },
                value: lit_str(name_lit),
            },
            AssocItem::Method {
                attrs: vec![],
                name: s("new"),
                params: vec![],
                ret: Some(ty("Self")),
                body: Block { stmts: new_stmts },
            },
            AssocItem::Method {
                attrs: vec![],
                name: s("hi"),
                params: vec![],
                ret: None,
                body: Block {
                    stmts: vec![Stmt::ExprStmt {
                        expr: Expr::Call {
                            callee: Box::new(Expr::Path { segments: vec![s("println")] }),
                            args: vec![
                                lit_str("Hi, {}!"),
                                Expr::Path { segments: vec![s("Self"), s("NAME")] },
                            ],
                        },
                        semi: true,
                    }],
                },
            },
        ],
    }
}

#[test]
fn expand_impls() {
    let input = impl_input_for_expand_impls();
    let out = expand(&ctx(&["Bar"]), &input);
    assert!(out.diags.is_empty());
    assert_eq!(out.items.len(), 2);
    assert_eq!(out.items[0], expected_impl("Foo", "", "Foo", false));
    assert_eq!(out.items[1], expected_impl("FooBar", "Bar", "FooBar", true));
}

#[test]
fn lib_generate_impls() {
    // The same impl input expanded for two variants at once: every copy
    // comes out, all diagnostics stay empty.
    let input = impl_input_for_expand_impls();
    let out = expand(&ctx(&["Bar", "Baz"]), &input);
    assert!(out.diags.is_empty());
    assert_eq!(out.items.len(), 3);
    assert_eq!(out.items[0], expected_impl("Foo", "", "Foo", false));
    assert_eq!(out.items[1], expected_impl("FooBar", "Bar", "FooBar", true));
    match &out.items[2] {
        Item::Impl { self_ty, .. } => assert_eq!(*self_ty, ty("FooBaz")),
        _ => panic!("expected an impl output"),
    }
}

#[test]
fn lib_generate_structs() {
    // A struct whose own attribute list carries a marker: the marker is
    // consumed, unannotated members survive only in the base copy.
    let input = Item::Struct {
        attrs: vec![marker(vec![ident_tok("Test")])],
        name: s("Foo"),
        fields: FieldsKind::Named(vec![
            field("bar", ty("usize"), vec![keep_attr(&["Test"])]),
            field("baz", ty("f64"), vec![keep_retype_attr(&["Test"], "Option<{}>")]),
            field("bat", ty("String"), vec![foreign_attr()]),
            field("recurse", ty("Foo"), vec![]),
            field("recurse_vec", ty_gen("Vec", vec![ty("Foo")]), vec![]),
        ]),
    };
    let out = expand(&ctx(&["Test"]), &input);
    assert!(out.diags.is_empty());
    assert_eq!(out.items.len(), 2);
    let expect_base = Item::Struct {
        attrs: vec![],
        name: s("Foo"),
        fields: FieldsKind::Named(vec![
            field("bar", ty("usize"), vec![]),
            field("baz", ty("f64"), vec![]),
            field("bat", ty("String"), vec![foreign_attr()]),
            field("recurse", ty("Foo"), vec![]),
            field("recurse_vec", ty_gen("Vec", vec![ty("Foo")]), vec![]),
        ]),
    };
    assert_eq!(out.items[0], expect_base);
    let expect_test = Item::Struct {
        attrs: vec![derived_attr()],
        name: s("FooTest"),
        fields: FieldsKind::Named(vec![
            field("bar", ty("usize"), vec![]),
            field("baz", ty_gen("Option", vec![ty("f64")]), vec![]),
        ]),
    };
    assert_eq!(out.items[1], expect_test);
}

#[test]
fn round_trip_three_structs() {
    // Struct Foo with variants [Bar, Baz]: bar only in Bar, baz in Baz
    // behind an Option template, bat nowhere.
    let input = Item::Struct {
        attrs: vec![],
        name: s("Foo"),
        fields: FieldsKind::Named(vec![
            field("bar", ty("usize"), vec![keep_attr(&["Bar"])]),
            field("baz", ty("f64"), vec![keep_retype_attr(&["Baz"], "Option<{}>")]),
            field("bat", ty("String"), vec![]),
        ]),
    };
    let out = expand(&ctx(&["Bar", "Baz"]), &input);
    assert!(out.diags.is_empty());
    assert_eq!(out.items.len(), 3);
    assert_eq!(
        out.items[0],
        Item::Struct {
            attrs: vec![],
            name: s("Foo"),
            fields: FieldsKind::Named(vec![
                field("bar", ty("usize"), vec![]),
                field("baz", ty("f64"), vec![]),
                field("bat", ty("String"), vec![]),
            ]),
        }
    );
    assert_eq!(
        out.items[1],
        Item::Struct {
            attrs: vec![derived_attr()],
            name: s("FooBar"),
            fields: FieldsKind::Named(vec![field("bar", ty("usize"), vec![])]),
        }
    );
    assert_eq!(
        out.items[2],
        Item::Struct {
            attrs: vec![derived_attr()],
            name: s("FooBaz"),
            fields: FieldsKind::Named(vec![field(
                "baz",
                ty_gen("Option", vec![ty("f64")]),
                vec![]
            )]),
        }
    );
}

#[test]
fn undeclared_variant_reported_and_expansion_completes() {
    let input = Item::Struct {
        attrs: vec![],
        name: s("Foo"),
        fields: FieldsKind::Named(vec![field(
            "bar",
            ty("usize"),
            vec![keep_attr(&["Bogus", "Bar"])],
        )]),
    };
    let out = expand(&ctx(&["Bar"]), &input);
    assert_eq!(out.diags.len(), 1);
    assert_eq!(
        out.diags[0].kind,
        DiagKind::UndeclaredVariant { variant: s("Bogus") }
    );
    assert_eq!(
        out.diags[0].message(),
        "`Bogus` has not been declared as a variant"
    );
    // the valid reference still works
    assert_eq!(out.items.len(), 2);
    assert_eq!(
        out.items[1],
        Item::Struct {
            attrs: vec![derived_attr()],
            name: s("FooBar"),
            fields: FieldsKind::Named(vec![field("bar", ty("usize"), vec![])]),
        }
    );
}

#[test]
fn duplicate_settings_keep_first() {
    let input = Item::Struct {
        attrs: vec![],
        name: s("Foo"),
        fields: FieldsKind::Named(vec![field(
            "bar",
            ty("usize"),
            vec![
                keep_retype_attr(&["Bar"], "Option<{}>"),
                keep_retype_attr(&["Bar"], "Vec<{}>"),
            ],
        )]),
    };
    let out = expand(&ctx(&["Bar"]), &input);
    assert_eq!(out.diags.len(), 1);
    assert_eq!(
        out.diags[0].kind,
        DiagKind::DuplicateSettings { variant: s("Bar") }
    );
    assert_eq!(out.diags[0].message(), "duplicate settings for variant `Bar`");
    // the first template stands
    assert_eq!(
        out.items[1],
        Item::Struct {
            attrs: vec![derived_attr()],
            name: s("FooBar"),
            fields: FieldsKind::Named(vec![field(
                "bar",
                ty_gen("Option", vec![ty("usize")]),
                vec![]
            )]),
        }
    );
}

#[test]
fn misplaced_placeholders_are_reported() {
    // A string placeholder in statement position, and a type placeholder
    // in expression position.
    let input = Item::Impl {
        attrs: vec![],
        self_ty: ty("Foo"),
        trait_path: None,
        items: vec![AssocItem::Method {
            attrs: vec![],
            name: s("go"),
            params: vec![],
            ret: None,
            body: Block {
                stmts: vec![
                    Stmt::MacroStmt { name: s("variant_str"), span: sp() },
                    wild_local(mac("variant_type"), vec![]),
                ],
            },
        }],
    };
    let out = expand(&ctx(&["Bar"]), &input);
    // each of the two expansions (base and Bar) reports both misuses
    assert_eq!(out.diags.len(), 4);
    assert_eq!(
        out.diags[0].kind,
        DiagKind::ExprMacroMisused { name: s("variant_str") }
    );
    assert_eq!(
        out.diags[0].message(),
        "`variant_str!()` may only be used in expressions"
    );
    assert_eq!(
        out.diags[1].kind,
        DiagKind::TypeMacroMisused { name: s("variant_type") }
    );
    assert_eq!(
        out.diags[1].message(),
        "`variant_type!()` may only be used in types"
    );
}

#[test]
fn type_placeholder_rejected_in_base_types() {
    // `ty!()` in a type annotation: substituted for the variant, an error
    // for the base declaration.
    let input = Item::Impl {
        attrs: vec![],
        self_ty: ty("Foo"),
        trait_path: None,
        items: vec![AssocItem::Method {
            attrs: vec![],
            name: s("go"),
            params: vec![],
            ret: None,
            body: Block {
                stmts: vec![Stmt::Local {
                    attrs: vec![],
                    settings: vec![],
                    pat: Pat::Wild,
                    ty: Some(Ty::Macro { name: s("ty"), span: sp(), arg: None }),
                    init: None,
                }],
            },
        }],
    };
    let out = expand(&ctx(&["Bar"]), &input);
    assert_eq!(out.diags.len(), 1);
    assert_eq!(out.diags[0].kind, DiagKind::MacroInBaseType { name: s("ty") });
    assert_eq!(out.diags[0].message(), "`ty!()` cannot be used in base types");
    match &out.items[1] {
        Item::Impl { items, .. } => match &items[0] {
            AssocItem::Method { body, .. } => match &body.stmts[0] {
                Stmt::Local { ty: Some(t), .. } => assert_eq!(*t, ty("FooBar")),
                _ => panic!("expected a typed binding"),
            },
            _ => panic!("expected a method"),
        },
        _ => panic!("expected an impl output"),
    }
}

#[test]
fn vary_type_renames_first_constructor_path() {
    let input = Item::Impl {
        attrs: vec![],
        self_ty: ty("Foo"),
        trait_path: None,
        items: vec![AssocItem::Method {
            attrs: vec![],
            name: s("go"),
            params: vec![],
            ret: None,
            body: Block {
                stmts: vec![Stmt::Local {
                    attrs: vec![marker(vec![
                        ident_tok(&key_keep_text()),
                        group(vec![ident_tok("Bar")]),
                        punct(','),
                        ident_tok(&key_vary_type_text()),
                    ])],
                    settings: vec![],
                    pat: Pat::Bind(s("w")),
                    ty: None,
                    init: Some(Expr::StructLit { segments: vec![s("Widget")], fields: vec![] }),
                }],
            },
        }],
    };
    let out = expand(&ctx(&["Bar"]), &input);
    assert!(out.diags.is_empty());
    match &out.items[1] {
        Item::Impl { items, .. } => match &items[0] {
            AssocItem::Method { body, .. } => match &body.stmts[0] {
                Stmt::Local { init: Some(Expr::StructLit { segments, .. }), .. } => {
                    assert_eq!(segments, &vec![s("WidgetBar")]);
                },
                _ => panic!("expected a binding with a constructor"),
            },
            _ => panic!("expected a method"),
        },
        _ => panic!("expected an impl output"),
    }
}

#[test]
fn statements_default_to_every_variant() {
    // A statement with no annotation stays everywhere; one excluded from
    // Bar disappears only there.
    let input = Item::Impl {
        attrs: vec![],
        self_ty: ty("Foo"),
        trait_path: None,
        items: vec![AssocItem::Method {
            attrs: vec![],
            name: s("go"),
            params: vec![],
            ret: None,
            body: Block {
                stmts: vec![
                    wild_local(lit_str("always"), vec![]),
                    wild_local(lit_str("not in Bar"), vec![drop_attr(&["Bar"])]),
                ],
            },
        }],
    };
    let out = expand(&ctx(&["Bar", "Baz"]), &input);
    assert!(out.diags.is_empty());
    let stmt_count = |item: &Item| -> usize {
        match item {
            Item::Impl { items, .. } => match &items[0] {
                AssocItem::Method { body, .. } => body.stmts.len(),
                _ => panic!("expected a method"),
            },
            _ => panic!("expected an impl output"),
        }
    };
    assert_eq!(stmt_count(&out.items[0]), 2);
    assert_eq!(stmt_count(&out.items[1]), 1);
    assert_eq!(stmt_count(&out.items[2]), 2);
}

#[test]
fn failing_template_reports_and_keeps_the_type() {
    let input = Item::Struct {
        attrs: vec![],
        name: s("Foo"),
        fields: FieldsKind::Named(vec![field(
            "bar",
            ty("usize"),
            vec![keep_retype_attr(&["Bar"], "Option<")],
        )]),
    };
    let out = expand(&ctx(&["Bar"]), &input);
    assert_eq!(out.diags.len(), 1);
    assert_eq!(out.diags[0].kind, DiagKind::TemplateParse);
    assert_eq!(
        out.diags[0].message(),
        "substituted retype template does not parse as a type"
    );
    assert_eq!(
        out.items[1],
        Item::Struct {
            attrs: vec![derived_attr()],
            name: s("FooBar"),
            fields: FieldsKind::Named(vec![field("bar", ty("usize"), vec![])]),
        }
    );
}

#[test]
fn impl_target_must_be_a_type_path() {
    let input = Item::Impl {
        attrs: vec![],
        self_ty: Ty::Ref { lifetime: None, inner: Box::new(ty("Foo")) },
        trait_path: None,
        items: vec![],
    };
    let out = expand(&ctx(&["Bar"]), &input);
    // both expansions stop at the malformed target
    assert_eq!(out.diags.len(), 2);
    assert_eq!(out.diags[0].kind, DiagKind::ImplTargetNotPath);
    assert_eq!(out.diags[0].message(), "implemented type must be a type path");
    assert_eq!(out.items.len(), 2);
}

#[test]
fn base_placeholder_names_the_implemented_type() {
    let input = Item::Impl {
        attrs: vec![],
        self_ty: Ty::Macro {
            name: s("base"),
            span: sp(),
            arg: Some(Box::new(ty("Foo"))),
        },
        trait_path: None,
        items: vec![],
    };
    let out = expand(&ctx(&["Bar"]), &input);
    assert!(out.diags.is_empty());
    match &out.items[0] {
        Item::Impl { self_ty, .. } => assert_eq!(*self_ty, ty("Foo")),
        _ => panic!("expected an impl output"),
    }
    match &out.items[1] {
        Item::Impl { self_ty, .. } => assert_eq!(*self_ty, ty("FooBar")),
        _ => panic!("expected an impl output"),
    }
}

#[test]
fn attribute_remover_keeps_foreign_attributes() {
    let remover = AttributeRemover::new();
    let kept = remover.strip(&vec![keep_attr(&["Bar"]), foreign_attr()]);
    assert_eq!(kept, vec![foreign_attr()]);
}

#[test]
fn impl_targets_keep_their_generic_arguments() {
    let input = Item::Impl {
        attrs: vec![],
        self_ty: ty_gen("Foo", vec![ty("u8")]),
        trait_path: None,
        items: vec![AssocItem::Method {
            attrs: vec![],
            name: s("go"),
            params: vec![],
            ret: None,
            body: Block { stmts: vec![] },
        }],
    };
    let out = expand(&ctx(&["Bar"]), &input);
    assert!(out.diags.is_empty());
    match &out.items[0] {
        Item::Impl { self_ty, .. } => assert_eq!(*self_ty, ty_gen("Foo", vec![ty("u8")])),
        _ => panic!("expected an impl output"),
    }
    match &out.items[1] {
        Item::Impl { self_ty, .. } => assert_eq!(*self_ty, ty_gen("FooBar", vec![ty("u8")])),
        _ => panic!("expected an impl output"),
    }
}
