use variants_core::ast::{Lit, Span, Token, Ty};
use variants_core::context::parse_variant_list;
use variants_core::errors::{combined_report, Diag, DiagKind, Expectation};
use variants_core::parsers::{
    member_annotation_from, parse_values, stmt_annotation_from, Value,
};
use variants_core::typetext::{parse_type_text, subst_template};
use variants_core::words::{key_keep_text, key_retype_text};

fn sp() -> Span {
    Span { lo: 0, hi: 0 }
}

fn s(t: &str) -> String {
    t.to_string()
}

fn id(t: &str) -> Token {
    Token::Ident { text: s(t), span: sp() }
}

fn punct(c: char) -> Token {
    Token::Punct { ch: c, span: sp() }
}

fn group(tokens: Vec<Token>) -> Token {
    Token::Group { tokens, span: sp() }
}

fn str_tok(v: &str) -> Token {
    Token::Literal { lit: Lit::Str(s(v)), span: sp() }
}

fn int_tok(v: &str) -> Token {
    Token::Literal { lit: Lit::Int(s(v)), span: sp() }
}

fn bool_tok(v: bool) -> Token {
    Token::Literal { lit: Lit::Bool(v), span: sp() }
}

fn one_value(tokens: Vec<Token>) -> Value {
    let mut vs = parse_values(&tokens).expect("payload must parse");
    assert_eq!(vs.len(), 1);
    vs.remove(0)
}

#[test]
fn parse_expr() {
    let value = one_value(vec![id("accept"), punct('='), bool_tok(true)]);
    match value {
        Value::Expr { name, value, .. } => {
            assert_eq!(name, s("accept"));
            match *value {
                Value::Lit { lit: Lit::Bool(b), .. } => assert_eq!(b, true),
                _ => panic!("input is not an ident"),
            }
        },
        _ => panic!("input is not an expression"),
    }
}

#[test]
fn parse_ident() {
    let value = one_value(vec![id("ident")]);
    match value {
        Value::Ident { name, .. } => assert_eq!(name, s("ident")),
        _ => panic!("input is not an ident"),
    }
}

#[test]
fn parse_list_of_string_literals() {
    let value = one_value(vec![id("list"), group(vec![str_tok("lit"), punct(','), str_tok("lit2")])]);
    match value {
        Value::List { name, values, .. } => {
            assert_eq!(name, s("list"));
            match &values[0] {
                Value::Lit { lit: Lit::Str(v), .. } => assert_eq!(v, "lit"),
                _ => panic!("list item 0 is not a string literal"),
            }
            match &values[1] {
                Value::Lit { lit: Lit::Str(v), .. } => assert_eq!(v, "lit2"),
                _ => panic!("list item 1 is not a string literal"),
            }
        },
        _ => panic!("parsed value is not a list"),
    }
}

#[test]
fn parse_list_of_idents() {
    let value = one_value(vec![id("list"), group(vec![id("id"), punct(','), id("id2")])]);
    match value {
        Value::List { name, values, .. } => {
            assert_eq!(name, s("list"));
            match &values[0] {
                Value::Ident { name, .. } => assert_eq!(name, "id"),
                _ => panic!("list item 0 is not an ident"),
            }
            match &values[1] {
                Value::Ident { name, .. } => assert_eq!(name, "id2"),
                _ => panic!("list item 1 is not an ident"),
            }
        },
        _ => panic!("parsed value is not a list"),
    }
}

#[test]
fn parse_list_of_mixed_types() {
    let value = one_value(vec![
        id("list"),
        group(vec![
            id("id"),
            punct(','),
            str_tok("lit"),
            punct(','),
            id("list2"),
            group(vec![int_tok("123")]),
        ]),
    ]);
    match value {
        Value::List { name, values, .. } => {
            assert_eq!(name, s("list"));
            match &values[0] {
                Value::Ident { name, .. } => assert_eq!(name, "id"),
                _ => panic!("list item 0 is not an ident"),
            }
            match &values[1] {
                Value::Lit { lit: Lit::Str(v), .. } => assert_eq!(v, "lit"),
                _ => panic!("list item 1 is not a string literal"),
            }
            match &values[2] {
                Value::List { name, values, .. } => {
                    assert_eq!(name, "list2");
                    match &values[0] {
                        Value::Lit { lit: Lit::Int(v), .. } => assert_eq!(v, "123"),
                        _ => panic!("list2 item 0 is not an integer"),
                    }
                },
                _ => panic!("parsed value is not a list"),
            }
        },
        _ => panic!("parsed value is not a list"),
    }
}

#[test]
fn test_simple_types() {
    // Every shape of the annotation value grammar in one payload.
    let vs = parse_values(&vec![
        id("some_list"),
        group(vec![str_tok("lit1"), punct(','), str_tok("lit2")]),
        punct(','),
        id("some_ident_list"),
        group(vec![id("id1"), punct(','), id("id2")]),
        punct(','),
        id("some_bool"),
        punct(','),
        id("some_expr"),
        punct('='),
        str_tok("foo"),
        punct(','),
        id("some_ident"),
        punct(','),
        id("some_lit"),
        punct('='),
        int_tok("123"),
        punct(','),
        id("some_sub_attr"),
        group(vec![id("some_sub_bool"), punct('='), bool_tok(false)]),
        punct(','),
    ])
    .expect("payload must parse");
    assert_eq!(vs.len(), 7);
    assert!(matches!(&vs[0], Value::List { values, .. } if values.len() == 2));
    assert!(matches!(&vs[1], Value::List { values, .. } if values.len() == 2));
    assert!(matches!(&vs[2], Value::Ident { name, .. } if name == "some_bool"));
    assert!(matches!(&vs[3], Value::Expr { name, .. } if name == "some_expr"));
    assert!(matches!(&vs[4], Value::Ident { name, .. } if name == "some_ident"));
    assert!(matches!(&vs[5], Value::Expr { name, .. } if name == "some_lit"));
    match &vs[6] {
        Value::List { name, values, .. } => {
            assert_eq!(name, "some_sub_attr");
            assert!(matches!(&values[0], Value::Expr { name, .. } if name == "some_sub_bool"));
        },
        _ => panic!("parsed value is not a list"),
    }
}

#[test]
fn retype_template_textual_then_reparse() {
    // `Option<{}>` around `f64` gives `Option<f64>`.
    let text = subst_template("Option<{}>", "f64", "Foo", "Baz");
    assert_eq!(text, s("Option<f64>"));
    let t = parse_type_text(&text).expect("substituted template must parse");
    assert_eq!(
        t,
        Ty::Path {
            segments: vec![s("Option")],
            args: vec![Ty::Path { segments: vec![s("f64")], args: vec![] }],
        }
    );
    // `Option<Box<{b}{v}>>` for base Foo and variant Baz gives
    // `Option<Box<FooBaz>>`.
    let text2 = subst_template("Option<Box<{b}{v}>>", "f64", "Foo", "Baz");
    assert_eq!(text2, s("Option<Box<FooBaz>>"));
    let t2 = parse_type_text(&text2).expect("substituted template must parse");
    assert_eq!(
        t2,
        Ty::Path {
            segments: vec![s("Option")],
            args: vec![Ty::Path {
                segments: vec![s("Box")],
                args: vec![Ty::Path { segments: vec![s("FooBaz")], args: vec![] }],
            }],
        }
    );
}

#[test]
fn type_texts_parse_and_reject() {
    assert_eq!(parse_type_text(""), None);
    assert_eq!(parse_type_text("Option<"), None);
    assert_eq!(parse_type_text("Option<>"), None);
    assert_eq!(
        parse_type_text("&'static str"),
        Some(Ty::Ref {
            lifetime: Some(s("static")),
            inner: Box::new(Ty::Path { segments: vec![s("str")], args: vec![] }),
        })
    );
    assert_eq!(
        parse_type_text("a::b::C<D, E>"),
        Some(Ty::Path {
            segments: vec![s("a"), s("b"), s("C")],
            args: vec![
                Ty::Path { segments: vec![s("D")], args: vec![] },
                Ty::Path { segments: vec![s("E")], args: vec![] },
            ],
        })
    );
}

#[test]
fn variant_list_parses_or_reports() {
    let ok = parse_variant_list(&vec![id("Bar"), punct(','), id("Baz")]).expect("list parses");
    assert_eq!(ok.variants, vec![s("Bar"), s("Baz")]);
    let empty = parse_variant_list(&vec![]).expect("empty list parses");
    assert_eq!(empty.variants, Vec::<String>::new());
    let bad = parse_variant_list(&vec![punct(',')]);
    match bad {
        Err(d) => {
            assert_eq!(d.kind, DiagKind::VariantListParse);
            assert_eq!(d.message(), "expected a comma-separated list of variant names");
        },
        Ok(_) => panic!("a bare comma is no variant list"),
    }
    // the declared set must hold distinct names
    let dup = parse_variant_list(&vec![id("Bar"), punct(','), id("Baz"), punct(','), id("Bar")]);
    match dup {
        Err(d) => {
            assert_eq!(d.kind, DiagKind::DuplicateVariant { variant: s("Bar") });
            assert_eq!(d.message(), "duplicate declaration of variant `Bar`");
        },
        Ok(_) => panic!("a duplicated variant list is no variant set"),
    }
}

#[test]
fn member_annotation_requires_the_keep_list() {
    // `variants(retype = "Vec<{}>")` alone misses its required key.
    let vs = parse_values(&vec![id(&key_retype_text()), punct('='), str_tok("Vec<{}>")])
        .expect("payload must parse");
    let mut diags: Vec<Diag> = Vec::new();
    let ann = member_annotation_from(&vs, sp(), &mut diags);
    assert_eq!(ann.keep.len(), 0);
    assert_eq!(ann.retype.as_ref().map(|r| r.template.clone()), Some(s("Vec<{}>")));
    assert_eq!(diags.len(), 1);
    assert_eq!(diags[0].kind, DiagKind::MissingKey { key: key_keep_text() });
}

#[test]
fn unrecognized_and_mistyped_entries_are_reported() {
    let vs = parse_values(&vec![
        id("bogus"),
        punct(','),
        id(&key_keep_text()),
        punct('='),
        str_tok("nope"),
    ])
    .expect("payload must parse");
    let mut diags: Vec<Diag> = Vec::new();
    let ann = stmt_annotation_from(&vs, &mut diags);
    assert_eq!(ann.keep.len(), 0);
    assert_eq!(diags.len(), 2);
    assert_eq!(diags[0].kind, DiagKind::UnrecognizedEntry { key: s("bogus") });
    assert_eq!(diags[0].message(), "unrecognized entry `bogus`");
    assert_eq!(
        diags[1].kind,
        DiagKind::EntryExpects { key: key_keep_text(), expected: Expectation::IdentList }
    );
}

#[test]
fn duplicate_entries_are_reported() {
    let vs = parse_values(&vec![
        id(&key_retype_text()),
        punct('='),
        str_tok("A"),
        punct(','),
        id(&key_keep_text()),
        group(vec![id("Bar")]),
        punct(','),
        id(&key_retype_text()),
        punct('='),
        str_tok("B"),
    ])
    .expect("payload must parse");
    let mut diags: Vec<Diag> = Vec::new();
    let ann = member_annotation_from(&vs, sp(), &mut diags);
    assert_eq!(ann.retype.as_ref().map(|r| r.template.clone()), Some(s("A")));
    assert_eq!(diags.len(), 1);
    assert_eq!(diags[0].kind, DiagKind::DuplicateEntry { key: key_retype_text() });
    assert_eq!(diags[0].message(), "duplicate entry for `retype`");
}

#[test]
fn unreadable_payloads_are_one_diagnostic() {
    // A payload beginning with a stray punct matches no value form.
    assert_eq!(parse_values(&vec![punct('=')]), None);
    let d = Diag { span: sp(), kind: DiagKind::ValueUnreadable };
    assert_eq!(
        d.message(),
        "failed to parse attribute value: type of value cannot be determined"
    );
}

#[test]
fn combined_report_keeps_every_message() {
    let diags = vec![
        Diag { span: sp(), kind: DiagKind::UndeclaredVariant { variant: s("Bogus") } },
        Diag { span: sp(), kind: DiagKind::TemplateParse },
    ];
    assert_eq!(
        combined_report(&diags),
        "`Bogus` has not been declared as a variant\nsubstituted retype template does not parse as a type"
    );
    assert_eq!(combined_report(&vec![]), "");
}

#[test]
fn value_accessors_follow_the_shape() {
    let v = one_value(vec![id("key"), punct('='), str_tok("x")]);
    assert!(v.expr().is_some());
    assert!(v.ident().is_none());
    assert!(v.list().is_none());
    assert!(v.lit().is_none());
    assert_eq!(v.identifier(), Some(s("key")));
    let w = one_value(vec![id("flag")]);
    assert_eq!(w.ident().map(|n| n.clone()), Some(s("flag")));
    let l = one_value(vec![id("names"), group(vec![id("a")])]);
    assert_eq!(l.list().map(|vs| vs.len()), Some(1));
    let t = one_value(vec![int_tok("7")]);
    assert!(t.lit().is_some());
    assert_eq!(t.identifier(), None);
}
