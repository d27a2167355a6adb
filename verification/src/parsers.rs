//! The annotation value grammar.
//!
//! The payload of one annotation marker is a comma-separated list of
//! values; a value is a keyed expression `name = value`, a named list
//! `name(value, ...)`, a literal, or a bare identifier, tried in that
//! order.  Parsing never throws: a payload that matches no form yields
//! `None` and the caller reports one diagnostic for the whole payload.

use vstd::prelude::*;

use crate::ast::{Lit, Retype, Span, SpecLit, SpecRetype, SpecToken, Token};
use crate::errors::{Diag, DiagKind, Expectation, SpecDiag, SpecDiagKind};
use crate::words::{key_drop_text, key_keep_text, key_retype_text, key_vary_type_text, spec_key_drop, spec_key_keep, spec_key_retype, spec_key_vary_type, text_eq};

verus! {

broadcast use vstd::std_specs::vec::group_vec_axioms;

/// One parsed annotation value.
#[derive(Debug, PartialEq, Eq)]
pub enum Value {
    /// `name = value`
    Expr { name: String, span: Span, value: Box<Value> },
    /// A bare identifier, an implicitly true flag.
    Ident { name: String, span: Span },
    /// `name(value, ...)`
    List { name: String, span: Span, values: Vec<Value> },
    /// A literal.
    Lit { lit: Lit, span: Span },
}

pub enum SpecValue {
    Expr { name: Seq<char>, span: Span, value: Box<SpecValue> },
    Ident { name: Seq<char>, span: Span },
    List { name: Seq<char>, span: Span, values: Seq<SpecValue> },
    Lit { lit: SpecLit, span: Span },
}

impl Value {
    /// The ghost mirror of this value.
    pub open spec fn spec_view(&self) -> SpecValue
        decreases self,
    {
        match self {
            Value::Expr { name, span, value } => SpecValue::Expr {
                name: name.deep_view(),
                span: *span,
                value: Box::new((**value).spec_view()),
            },
            Value::Ident { name, span } => SpecValue::Ident { name: name.deep_view(), span: *span },
            Value::List { name, span, values } => SpecValue::List {
                name: name.deep_view(),
                span: *span,
                values: Seq::new(
                    values.len() as nat,
                    |i: int|
                        if 0 <= i < values.len() {
                            values[i].spec_view()
                        } else {
                            arbitrary()
                        },
                ),
            },
            Value::Lit { lit, span } => SpecValue::Lit { lit: lit.deep_view(), span: *span },
        }
    }
}

impl DeepView for Value {
    type V = SpecValue;

    open spec fn deep_view(&self) -> SpecValue {
        self.spec_view()
    }
}

impl SpecValue {
    /// The identifier a value is keyed by, if it has one.
    pub open spec fn spec_identifier(&self) -> Option<Seq<char>> {
        match self {
            SpecValue::Expr { name, .. } => Some(*name),
            SpecValue::Ident { name, .. } => Some(*name),
            SpecValue::List { name, .. } => Some(*name),
            SpecValue::Lit { .. } => None,
        }
    }

    /// The source span of a value.
    pub open spec fn spec_span(&self) -> Span {
        match self {
            SpecValue::Expr { span, .. } => *span,
            SpecValue::Ident { span, .. } => *span,
            SpecValue::List { span, .. } => *span,
            SpecValue::Lit { span, .. } => *span,
        }
    }
}

impl Value {
    /// The identifier this value is keyed by: the left-hand name of a
    /// keyed expression, a bare identifier itself, or a list's name.  A
    /// literal has none.
    pub fn identifier(&self) -> (r: Option<String>)
        ensures
            r.deep_view() == self.spec_view().spec_identifier(),
    {
        match self {
            Value::Expr { name, .. } => Some(name.clone()),
            Value::Ident { name, .. } => Some(name.clone()),
            Value::List { name, .. } => Some(name.clone()),
            Value::Lit { .. } => None,
        }
    }

    /// The source span of this value.
    pub fn span(&self) -> (r: Span)
        ensures
            r == self.spec_view().spec_span(),
    {
        match self {
            Value::Expr { span, .. } => *span,
            Value::Ident { span, .. } => *span,
            Value::List { span, .. } => *span,
            Value::Lit { span, .. } => *span,
        }
    }
}

/// One value starting at token `i`: a keyed expression if `name =` leads,
/// a named list if a group follows the name, a literal, or a bare
/// identifier.
pub open spec fn spec_parse_value(toks: Seq<SpecToken>, i: int) -> Option<(SpecValue, int)>
    decreases toks, toks.len() - i, 0int,
{
    if 0 <= i < toks.len() {
        match toks[i] {
            SpecToken::Ident { text, span } => {
                if i + 1 < toks.len() && (toks[i + 1] matches SpecToken::Punct { ch: '=', .. }) {
                    match spec_parse_value(toks, i + 2) {
                        Some((v, j)) => Some(
                            (SpecValue::Expr { name: text, span, value: Box::new(v) }, j),
                        ),
                        None => None,
                    }
                } else if i + 1 < toks.len() && (toks[i + 1] matches SpecToken::Group { .. }) {
                    match toks[i + 1] {
                        SpecToken::Group { tokens: g, .. } => {
                            match spec_parse_values_from(g, 0) {
                                Some(vs) => Some(
                                    (SpecValue::List { name: text, span, values: vs }, i + 2),
                                ),
                                None => None,
                            }
                        },
                        _ => None,
                    }
                } else {
                    Some((SpecValue::Ident { name: text, span }, i + 1))
                }
            },
            SpecToken::Literal { lit, span } => Some((SpecValue::Lit { lit, span }, i + 1)),
            _ => None,
        }
    } else {
        None
    }
}

/// The comma-separated values from token `i` to the end of the payload.
pub open spec fn spec_parse_values_from(toks: Seq<SpecToken>, i: int) -> Option<Seq<SpecValue>>
    decreases toks, toks.len() - i, 1int,
{
    if i >= toks.len() {
        Some(Seq::empty())
    } else {
        match spec_parse_value(toks, i) {
            Some((v, j)) => {
                let j2 = if i + 1 <= j && j <= toks.len() {
                    j
                } else {
                    i + 1
                };
                if j2 == toks.len() {
                    Some(seq![v])
                } else if toks[j2] matches SpecToken::Punct { ch: ',', .. } {
                    match spec_parse_values_from(toks, j2 + 1) {
                        Some(rest) => Some(seq![v] + rest),
                        None => None,
                    }
                } else {
                    None
                }
            },
            None => None,
        }
    }
}

/// A whole annotation payload as a value list.
pub open spec fn spec_parse_values(toks: Seq<SpecToken>) -> Option<Seq<SpecValue>> {
    spec_parse_values_from(toks, 0)
}

pub open spec fn spec_opt_value_view(r: Option<(Value, usize)>) -> Option<(SpecValue, int)> {
    match r {
        Some((v, j)) => Some((v.spec_view(), j as int)),
        None => None,
    }
}

pub open spec fn spec_opt_values_view(r: Option<Vec<Value>>) -> Option<Seq<SpecValue>> {
    match r {
        Some(vs) => Some(vs.deep_view()),
        None => None,
    }
}

fn parse_value(toks: &Vec<Token>, i: usize) -> (r: Option<(Value, usize)>)
    ensures
        spec_opt_value_view(r) == spec_parse_value(toks.deep_view(), i as int),
        r matches Some((v, j)) ==> i < j <= toks.len(),
    decreases toks, toks.len() - i, 0int,
{
    proof {
        assert(toks.deep_view().len() == toks@.len());
    }
    if i < toks.len() {
        proof {
            assert(toks.deep_view()[i as int] == toks[i as int].deep_view());
        }
        match &toks[i] {
            Token::Ident { text, span } => {
                let next_is_eq = if i + 1 < toks.len() {
                    proof {
                        assert(toks.deep_view()[i + 1] == toks[i + 1].deep_view());
                    }
                    match &toks[i + 1] {
                        Token::Punct { ch, .. } => *ch == '=',
                        _ => false,
                    }
                } else {
                    false
                };
                if next_is_eq {
                    match parse_value(toks, i + 2) {
                        Some((v, j)) => Some(
                            (
                                Value::Expr {
                                    name: text.clone(),
                                    span: *span,
                                    value: Box::new(v),
                                },
                                j,
                            ),
                        ),
                        None => None,
                    }
                } else {
                    let next_group = if i + 1 < toks.len() {
                        match &toks[i + 1] {
                            Token::Group { .. } => true,
                            _ => false,
                        }
                    } else {
                        false
                    };
                    if next_group {
                        match &toks[i + 1] {
                            Token::Group { tokens: g, .. } => {
                                proof {
                                    assert(toks[i + 1].spec_view()->Group_tokens =~= g.deep_view());
                                }
                                match parse_values_from(g, 0) {
                                    Some(vs) => {
                                        let ghost gvs = vs.deep_view();
                                        let r = Value::List {
                                            name: text.clone(),
                                            span: *span,
                                            values: vs,
                                        };
                                        proof {
                                            assert(r.spec_view()->List_values =~= gvs);
                                        }
                                        Some((r, i + 2))
                                    },
                                    None => None,
                                }
                            },
                            _ => None,
                        }
                    } else {
                        Some((Value::Ident { name: text.clone(), span: *span }, i + 1))
                    }
                }
            },
            Token::Literal { lit, span } => Some(
                (Value::Lit { lit: lit.duplicate(), span: *span }, i + 1),
            ),
            _ => None,
        }
    } else {
        None
    }
}

fn parse_values_from(toks: &Vec<Token>, i: usize) -> (r: Option<Vec<Value>>)
    ensures
        spec_opt_values_view(r) == spec_parse_values_from(toks.deep_view(), i as int),
    decreases toks, toks.len() - i, 1int,
{
    proof {
        assert(toks.deep_view().len() == toks@.len());
    }
    if i >= toks.len() {
        let r: Vec<Value> = Vec::new();
        proof {
            assert(r.deep_view() =~= Seq::<SpecValue>::empty());
        }
        Some(r)
    } else {
        match parse_value(toks, i) {
            Some((v, j)) => {
                let j2 = if i + 1 <= j && j <= toks.len() {
                    j
                } else {
                    i + 1
                };
                if j2 == toks.len() {
                    let ghost gv = v.spec_view();
                    let mut out: Vec<Value> = Vec::new();
                    out.push(v);
                    proof {
                        assert(out.deep_view() =~= seq![gv]);
                    }
                    Some(out)
                } else {
                    proof {
                        assert(toks.deep_view()[j2 as int] == toks[j2 as int].deep_view());
                    }
                    let is_comma = match &toks[j2] {
                        Token::Punct { ch, .. } => *ch == ',',
                        _ => false,
                    };
                    if is_comma {
                        match parse_values_from(toks, j2 + 1) {
                            Some(rest) => {
                                let ghost gv = v.spec_view();
                                let ghost grest = rest.deep_view();
                                let mut out: Vec<Value> = Vec::new();
                                out.push(v);
                                let mut q: usize = 0;
                                while q < rest.len()
                                    invariant
                                        q <= rest.len(),
                                        out.len() == q + 1,
                                        out[0].spec_view() == gv,
                                        grest == rest.deep_view(),
                                        forall|x: int|
                                            0 <= x < q ==> out[x + 1].deep_view() == grest[x],
                                    decreases rest.len() - q,
                                {
                                    proof {
                                        assert(grest[q as int] == rest[q as int].deep_view());
                                    }
                                    out.push(clone_value(&rest[q]));
                                    q += 1;
                                }
                                proof {
                                    assert(out.deep_view() =~= seq![gv] + grest);
                                }
                                Some(out)
                            },
                            None => None,
                        }
                    } else {
                        None
                    }
                }
            },
            None => None,
        }
    }
}

/// An exact copy of a parsed value.
#[verifier::loop_isolation(false)]
pub fn clone_value(v: &Value) -> (r: Value)
    ensures
        r.spec_view() == v.spec_view(),
    decreases v,
{
    match v {
        Value::Expr { name, span, value } => Value::Expr {
            name: name.clone(),
            span: *span,
            value: Box::new(clone_value(value)),
        },
        Value::Ident { name, span } => Value::Ident { name: name.clone(), span: *span },
        Value::List { name, span, values } => {
            let mut out: Vec<Value> = Vec::new();
            let mut i: usize = 0;
            while i < values.len()
                invariant
                    i <= values.len(),
                    out.len() == i,
                    forall|k: int| 0 <= k < i ==> out[k].spec_view() == values[k].spec_view(),
                decreases values.len() - i,
            {
                out.push(clone_value(&values[i]));
                i += 1;
            }
            let r = Value::List { name: name.clone(), span: *span, values: out };
            proof {
                assert(r.spec_view()->List_values =~= v.spec_view()->List_values);
            }
            r
        },
        Value::Lit { lit, span } => Value::Lit { lit: lit.duplicate(), span: *span },
    }
}

/// Parse a whole annotation payload into its value list.
pub fn parse_values(toks: &Vec<Token>) -> (r: Option<Vec<Value>>)
    ensures
        spec_opt_values_view(r) == spec_parse_values(toks.deep_view()),
{
    parse_values_from(toks, 0)
}

/// The typed record of one member annotation: the variants the member
/// participates in, and an optional replacement-type template.
#[derive(Debug, PartialEq, Eq)]
pub struct MemberAnnotation {
    pub keep: Vec<(String, Span)>,
    pub retype: Option<Retype>,
}

pub struct SpecMemberAnnotation {
    pub keep: Seq<(Seq<char>, Span)>,
    pub retype: Option<SpecRetype>,
}

impl DeepView for MemberAnnotation {
    type V = SpecMemberAnnotation;

    open spec fn deep_view(&self) -> SpecMemberAnnotation {
        SpecMemberAnnotation { keep: self.keep.deep_view(), retype: self.retype.deep_view() }
    }
}

/// The typed record of one statement annotation: kept variants, dropped
/// variants, and the vary-type flag.
#[derive(Debug, PartialEq, Eq)]
pub struct StmtAnnotation {
    pub keep: Vec<(String, Span)>,
    pub drops: Vec<(String, Span)>,
    pub vary_type: bool,
}

pub struct SpecStmtAnnotation {
    pub keep: Seq<(Seq<char>, Span)>,
    pub drops: Seq<(Seq<char>, Span)>,
    pub vary_type: bool,
}

impl DeepView for StmtAnnotation {
    type V = SpecStmtAnnotation;

    open spec fn deep_view(&self) -> SpecStmtAnnotation {
        SpecStmtAnnotation {
            keep: self.keep.deep_view(),
            drops: self.drops.deep_view(),
            vary_type: self.vary_type,
        }
    }
}

/// The typed record of one field-initializer annotation.
#[derive(Debug, PartialEq, Eq)]
pub struct ValueAnnotation {
    pub keep: Vec<(String, Span)>,
    pub drops: Vec<(String, Span)>,
}

pub struct SpecValueAnnotation {
    pub keep: Seq<(Seq<char>, Span)>,
    pub drops: Seq<(Seq<char>, Span)>,
}

impl DeepView for ValueAnnotation {
    type V = SpecValueAnnotation;

    open spec fn deep_view(&self) -> SpecValueAnnotation {
        SpecValueAnnotation { keep: self.keep.deep_view(), drops: self.drops.deep_view() }
    }
}

/// The identifiers of a list's values, with one diagnostic for every
/// element that is no identifier.
pub open spec fn spec_idents_of(vs: Seq<SpecValue>) -> (Seq<(Seq<char>, Span)>, Seq<SpecDiag>)
    decreases vs.len(),
{
    if vs.len() == 0 {
        (Seq::empty(), Seq::empty())
    } else {
        let (t, d) = spec_idents_of(vs.drop_last());
        match vs.last() {
            SpecValue::Ident { name, span } => (t.push((name, span)), d),
            v => (
                t,
                d.push(
                    SpecDiag {
                        span: v.spec_span(),
                        kind: SpecDiagKind::EntryExpects {
                            key: match v.spec_identifier() {
                                Some(k) => k,
                                None => Seq::empty(),
                            },
                            expected: Expectation::Ident,
                        },
                    },
                ),
            ),
        }
    }
}

#[verifier::loop_isolation(false)]
fn idents_of(vs: &Vec<Value>) -> (r: (Vec<(String, Span)>, Vec<Diag>))
    ensures
        (r.0.deep_view(), r.1.deep_view()) == spec_idents_of(vs.deep_view()),
{
    let ghost dvs = vs.deep_view();
    let mut ids: Vec<(String, Span)> = Vec::new();
    let mut ds: Vec<Diag> = Vec::new();
    let mut i: usize = 0;
    while i < vs.len()
        invariant
            i <= vs.len(),
            (ids.deep_view(), ds.deep_view()) == spec_idents_of(dvs.take(i as int)),
        decreases vs.len() - i,
    {
        proof {
            assert(dvs.take(i + 1).drop_last() =~= dvs.take(i as int));
            assert(dvs.take(i + 1).last() == vs[i as int].spec_view());
        }
        match &vs[i] {
            Value::Ident { name, span } => {
                ids.push((name.clone(), *span));
                proof {
                    assert(ids.deep_view() =~= spec_idents_of(dvs.take(i + 1)).0);
                    assert(ds.deep_view() =~= spec_idents_of(dvs.take(i + 1)).1);
                }
            },
            v => {
                let key = match v.identifier() {
                    Some(k) => k,
                    None => String::new(),
                };
                ds.push(
                    Diag {
                        span: v.span(),
                        kind: DiagKind::EntryExpects { key, expected: Expectation::Ident },
                    },
                );
                proof {
                    assert(ids.deep_view() =~= spec_idents_of(dvs.take(i + 1)).0);
                    assert(ds.deep_view() =~= spec_idents_of(dvs.take(i + 1)).1);
                }
            },
        }
        i += 1;
    }
    proof {
        assert(dvs.take(vs.len() as int) =~= dvs);
    }
    (ids, ds)
}

/// One step of folding a member annotation's values into its record: the
/// state is the keep-list seen so far, the template seen so far, and the
/// diagnostics gathered so far.
pub open spec fn spec_member_step(
    st: (Option<Seq<(Seq<char>, Span)>>, Option<SpecRetype>, Seq<SpecDiag>),
    v: SpecValue,
) -> (Option<Seq<(Seq<char>, Span)>>, Option<SpecRetype>, Seq<SpecDiag>) {
    let (keep, retype, diags) = st;
    match v.spec_identifier() {
        None => st,
        Some(key) => {
            if key == spec_key_keep() {
                if keep is Some {
                    (
                        keep,
                        retype,
                        diags.push(
                            SpecDiag {
                                span: v.spec_span(),
                                kind: SpecDiagKind::DuplicateEntry { key },
                            },
                        ),
                    )
                } else {
                    match v {
                        SpecValue::List { values, .. } => {
                            let (ids, d2) = spec_idents_of(values);
                            if d2.len() == 0 {
                                (Some(ids), retype, diags)
                            } else {
                                (keep, retype, diags + d2)
                            }
                        },
                        _ => (
                            keep,
                            retype,
                            diags.push(
                                SpecDiag {
                                    span: v.spec_span(),
                                    kind: SpecDiagKind::EntryExpects {
                                        key,
                                        expected: Expectation::IdentList,
                                    },
                                },
                            ),
                        ),
                    }
                }
            } else if key == spec_key_retype() {
                if retype is Some {
                    (
                        keep,
                        retype,
                        diags.push(
                            SpecDiag {
                                span: v.spec_span(),
                                kind: SpecDiagKind::DuplicateEntry { key },
                            },
                        ),
                    )
                } else {
                    match v {
                        SpecValue::Expr { value, .. } => match *value {
                            SpecValue::Lit { lit: SpecLit::Str(s), span: lspan } => (
                                keep,
                                Some(SpecRetype { template: s, span: lspan }),
                                diags,
                            ),
                            _ => (
                                keep,
                                retype,
                                diags.push(
                                    SpecDiag {
                                        span: v.spec_span(),
                                        kind: SpecDiagKind::EntryExpects {
                                            key,
                                            expected: Expectation::StringLit,
                                        },
                                    },
                                ),
                            ),
                        },
                        _ => (
                            keep,
                            retype,
                            diags.push(
                                SpecDiag {
                                    span: v.spec_span(),
                                    kind: SpecDiagKind::EntryExpects {
                                        key,
                                        expected: Expectation::StringLit,
                                    },
                                },
                            ),
                        ),
                    }
                }
            } else {
                (
                    keep,
                    retype,
                    diags.push(
                        SpecDiag {
                            span: v.spec_span(),
                            kind: SpecDiagKind::UnrecognizedEntry { key },
                        },
                    ),
                )
            }
        },
    }
}

pub open spec fn spec_member_fold(
    vs: Seq<SpecValue>,
    i: int,
    st: (Option<Seq<(Seq<char>, Span)>>, Option<SpecRetype>, Seq<SpecDiag>),
) -> (Option<Seq<(Seq<char>, Span)>>, Option<SpecRetype>, Seq<SpecDiag>)
    decreases vs.len() - i,
{
    if 0 <= i < vs.len() {
        spec_member_fold(vs, i + 1, spec_member_step(st, vs[i]))
    } else {
        st
    }
}

/// The member-annotation record of a value list, together with its
/// diagnostics.  The keep-list key is required; the template is optional.
pub open spec fn spec_member_annotation(vs: Seq<SpecValue>, span: Span) -> (
    SpecMemberAnnotation,
    Seq<SpecDiag>,
) {
    let (keep, retype, diags) = spec_member_fold(vs, 0, (None, None, Seq::empty()));
    match keep {
        Some(k) => (SpecMemberAnnotation { keep: k, retype }, diags),
        None => (
            SpecMemberAnnotation { keep: Seq::empty(), retype },
            diags.push(
                SpecDiag { span, kind: SpecDiagKind::MissingKey { key: spec_key_keep() } },
            ),
        ),
    }
}

pub open spec fn spec_opt_pairs_view(o: Option<Vec<(String, Span)>>) -> Option<
    Seq<(Seq<char>, Span)>,
> {
    match o {
        Some(v) => Some(v.deep_view()),
        None => None,
    }
}

pub open spec fn spec_opt_retype_view(o: Option<Retype>) -> Option<SpecRetype> {
    match o {
        Some(t) => Some(t.deep_view()),
        None => None,
    }
}

/// Convert one member annotation payload, appending its diagnostics.
#[verifier::loop_isolation(false)]
pub fn member_annotation_from(values: &Vec<Value>, span: Span, diags: &mut Vec<Diag>) -> (r:
    MemberAnnotation)
    ensures
        ({
            let (a, d) = spec_member_annotation(values.deep_view(), span);
            r.deep_view() == a && final(diags).deep_view() == old(diags).deep_view() + d
        }),
{
    let ghost dvs = values.deep_view();
    let ghost d0 = diags.deep_view();
    let mut keep: Option<Vec<(String, Span)>> = None;
    let mut retype: Option<Retype> = None;
    let mut newd: Vec<Diag> = Vec::new();
    let mut i: usize = 0;
    proof {
        assert(newd.deep_view() =~= Seq::<SpecDiag>::empty());
    }
    while i < values.len()
        invariant
            i <= values.len(),
            spec_member_fold(dvs, 0, (None, None, Seq::empty())) == spec_member_fold(
                dvs,
                i as int,
                (spec_opt_pairs_view(keep), spec_opt_retype_view(retype), newd.deep_view()),
            ),
        decreases values.len() - i,
    {
        let ghost st_pre = (
            spec_opt_pairs_view(keep),
            spec_opt_retype_view(retype),
            newd.deep_view(),
        );
        proof {
            assert(dvs[i as int] == values[i as int].spec_view());
        }
        let v = &values[i];
        match v.identifier() {
            None => {},
            Some(key) => {
                if text_eq(&key, &key_keep_text()) {
                    if keep.is_some() {
                        newd.push(
                            Diag { span: v.span(), kind: DiagKind::DuplicateEntry { key } },
                        );
                    } else {
                        match v {
                            Value::List { values: lvs, .. } => {
                                let (ids, mut d2) = idents_of(lvs);
                                proof {
                                    assert(v.spec_view()->List_values =~= lvs.deep_view());
                                }
                                if d2.len() == 0 {
                                    proof {
                                        assert(d2.deep_view() =~= Seq::<SpecDiag>::empty());
                                    }
                                    keep = Some(ids);
                                } else {
                                    let ghost nd = newd.deep_view();
                                    let mut q: usize = 0;
                                    while q < d2.len()
                                        invariant
                                            q <= d2.len(),
                                            newd.deep_view() =~= nd + d2.deep_view().take(
                                                q as int,
                                            ),
                                        decreases d2.len() - q,
                                    {
                                        proof {
                                            assert(d2.deep_view()[q as int] == d2[
                                                q as int
                                            ].deep_view());
                                            assert(d2.deep_view().take(q + 1) =~= d2.deep_view()
                                                .take(q as int).push(d2.deep_view()[q as int]));
                                        }
                                        let ghost pre = newd.deep_view();
                                        newd.push(d2[q].duplicate());
                                        proof {
                                            assert(newd.deep_view() =~= pre.push(
                                                d2[q as int].deep_view()));
                                        }
                                        q += 1;
                                    }
                                    proof {
                                        assert(d2.deep_view().take(d2.len() as int) =~= d2
                                            .deep_view());
                                        assert(newd.deep_view() =~= nd + d2.deep_view());
                                    }
                                }
                            },
                            _ => {
                                newd.push(
                                    Diag {
                                        span: v.span(),
                                        kind: DiagKind::EntryExpects {
                                            key,
                                            expected: Expectation::IdentList,
                                        },
                                    },
                                );
                            },
                        }
                    }
                } else if text_eq(&key, &key_retype_text()) {
                    if retype.is_some() {
                        newd.push(
                            Diag { span: v.span(), kind: DiagKind::DuplicateEntry { key } },
                        );
                    } else {
                        let mut set_template: Option<Retype> = None;
                        match v {
                            Value::Expr { value, .. } => match &**value {
                                Value::Lit { lit: Lit::Str(s), span: lspan } => {
                                    proof {
                                        assert((**value).spec_view() == SpecValue::Lit {
                                            lit: SpecLit::Str(s.deep_view()),
                                            span: *lspan,
                                        });
                                    }
                                    set_template = Some(
                                        Retype { template: s.clone(), span: *lspan },
                                    );
                                },
                                _ => {
                                    proof {
                                        assert(!((**value).spec_view() matches SpecValue::Lit {
                                            lit: SpecLit::Str(_),
                                            ..
                                        }));
                                    }
                                    newd.push(
                                        Diag {
                                            span: v.span(),
                                            kind: DiagKind::EntryExpects {
                                                key,
                                                expected: Expectation::StringLit,
                                            },
                                        },
                                    );
                                },
                            },
                            _ => {
                                newd.push(
                                    Diag {
                                        span: v.span(),
                                        kind: DiagKind::EntryExpects {
                                            key,
                                            expected: Expectation::StringLit,
                                        },
                                    },
                                );
                            },
                        }
                        if set_template.is_some() {
                            retype = set_template;
                        }
                    }
                } else {
                    newd.push(
                        Diag { span: v.span(), kind: DiagKind::UnrecognizedEntry { key } },
                    );
                }
            },
        }
        proof {
            let st_post = (
                spec_opt_pairs_view(keep),
                spec_opt_retype_view(retype),
                newd.deep_view(),
            );
            assert(st_post == spec_member_step(st_pre, dvs[i as int]));
        }
        i += 1;
    }
    let r = match keep {
        Some(k) => MemberAnnotation { keep: k, retype },
        None => {
            newd.push(
                Diag { span, kind: DiagKind::MissingKey { key: key_keep_text() } },
            );
            MemberAnnotation { keep: Vec::new(), retype }
        },
    };
    let ghost nd = newd.deep_view();
    let mut q: usize = 0;
    while q < newd.len()
        invariant
            q <= newd.len(),
            nd == newd.deep_view(),
            diags.deep_view() =~= d0 + nd.take(q as int),
        decreases newd.len() - q,
    {
        proof {
            assert(nd.take(q + 1) =~= nd.take(q as int).push(nd[q as int]));
            assert(nd[q as int] == newd[q as int].deep_view());
        }
        let ghost pre = diags.deep_view();
        diags.push(newd[q].duplicate());
        proof {
            assert(diags.deep_view() =~= pre.push(newd[q as int].deep_view()));
        }
        q += 1;
    }
    proof {
        assert(nd.take(newd.len() as int) =~= nd);
        assert(r.deep_view().keep =~= spec_member_annotation(dvs, span).0.keep);
    }
    r
}

/// One step of folding a statement or initializer annotation: the state
/// is the keep-list, drop-list and vary-type flag seen so far, and the
/// diagnostics gathered so far.  `with_vary` says whether the vary-type
/// key is recognized at this node kind.
pub open spec fn spec_stmt_step(
    st: (
        Option<Seq<(Seq<char>, Span)>>,
        Option<Seq<(Seq<char>, Span)>>,
        Option<bool>,
        Seq<SpecDiag>,
    ),
    v: SpecValue,
    with_vary: bool,
) -> (
    Option<Seq<(Seq<char>, Span)>>,
    Option<Seq<(Seq<char>, Span)>>,
    Option<bool>,
    Seq<SpecDiag>,
) {
    let (keep, drops, vary, diags) = st;
    match v.spec_identifier() {
        None => st,
        Some(key) => {
            if key == spec_key_keep() || key == spec_key_drop() {
                let slot = if key == spec_key_keep() {
                    keep
                } else {
                    drops
                };
                if slot is Some {
                    (
                        keep,
                        drops,
                        vary,
                        diags.push(
                            SpecDiag {
                                span: v.spec_span(),
                                kind: SpecDiagKind::DuplicateEntry { key },
                            },
                        ),
                    )
                } else {
                    match v {
                        SpecValue::List { values, .. } => {
                            let (ids, d2) = spec_idents_of(values);
                            if d2.len() == 0 {
                                if key == spec_key_keep() {
                                    (Some(ids), drops, vary, diags)
                                } else {
                                    (keep, Some(ids), vary, diags)
                                }
                            } else {
                                (keep, drops, vary, diags + d2)
                            }
                        },
                        _ => (
                            keep,
                            drops,
                            vary,
                            diags.push(
                                SpecDiag {
                                    span: v.spec_span(),
                                    kind: SpecDiagKind::EntryExpects {
                                        key,
                                        expected: Expectation::IdentList,
                                    },
                                },
                            ),
                        ),
                    }
                }
            } else if with_vary && key == spec_key_vary_type() {
                if vary is Some {
                    (
                        keep,
                        drops,
                        vary,
                        diags.push(
                            SpecDiag {
                                span: v.spec_span(),
                                kind: SpecDiagKind::DuplicateEntry { key },
                            },
                        ),
                    )
                } else {
                    match v {
                        SpecValue::Ident { .. } => (keep, drops, Some(true), diags),
                        SpecValue::Expr { value, .. } => match *value {
                            SpecValue::Lit { lit: SpecLit::Bool(b), .. } => (
                                keep,
                                drops,
                                Some(b),
                                diags,
                            ),
                            _ => (
                                keep,
                                drops,
                                vary,
                                diags.push(
                                    SpecDiag {
                                        span: v.spec_span(),
                                        kind: SpecDiagKind::EntryExpects {
                                            key,
                                            expected: Expectation::BoolFlag,
                                        },
                                    },
                                ),
                            ),
                        },
                        _ => (
                            keep,
                            drops,
                            vary,
                            diags.push(
                                SpecDiag {
                                    span: v.spec_span(),
                                    kind: SpecDiagKind::EntryExpects {
                                        key,
                                        expected: Expectation::BoolFlag,
                                    },
                                },
                            ),
                        ),
                    }
                }
            } else {
                (
                    keep,
                    drops,
                    vary,
                    diags.push(
                        SpecDiag {
                            span: v.spec_span(),
                            kind: SpecDiagKind::UnrecognizedEntry { key },
                        },
                    ),
                )
            }
        },
    }
}

pub open spec fn spec_stmt_fold(
    vs: Seq<SpecValue>,
    i: int,
    st: (
        Option<Seq<(Seq<char>, Span)>>,
        Option<Seq<(Seq<char>, Span)>>,
        Option<bool>,
        Seq<SpecDiag>,
    ),
    with_vary: bool,
) -> (
    Option<Seq<(Seq<char>, Span)>>,
    Option<Seq<(Seq<char>, Span)>>,
    Option<bool>,
    Seq<SpecDiag>,
)
    decreases vs.len() - i,
{
    if 0 <= i < vs.len() {
        spec_stmt_fold(vs, i + 1, spec_stmt_step(st, vs[i], with_vary), with_vary)
    } else {
        st
    }
}

pub open spec fn spec_unwrap_pairs(o: Option<Seq<(Seq<char>, Span)>>) -> Seq<(Seq<char>, Span)> {
    match o {
        Some(s) => s,
        None => Seq::empty(),
    }
}

/// The statement-annotation record of a value list: no key is required.
pub open spec fn spec_stmt_annotation(vs: Seq<SpecValue>) -> (SpecStmtAnnotation, Seq<SpecDiag>) {
    let (keep, drops, vary, diags) = spec_stmt_fold(vs, 0, (None, None, None, Seq::empty()), true);
    (
        SpecStmtAnnotation {
            keep: spec_unwrap_pairs(keep),
            drops: spec_unwrap_pairs(drops),
            vary_type: match vary {
                Some(b) => b,
                None => false,
            },
        },
        diags,
    )
}

/// The initializer-annotation record of a value list: like a statement's,
/// without the vary-type flag.
pub open spec fn spec_value_annotation(vs: Seq<SpecValue>) -> (SpecValueAnnotation, Seq<SpecDiag>) {
    let (keep, drops, vary, diags) = spec_stmt_fold(
        vs,
        0,
        (None, None, None, Seq::empty()),
        false,
    );
    (
        SpecValueAnnotation { keep: spec_unwrap_pairs(keep), drops: spec_unwrap_pairs(drops) },
        diags,
    )
}

pub fn append_diags(diags: &mut Vec<Diag>, newd: &Vec<Diag>)
    ensures
        final(diags).deep_view() == old(diags).deep_view() + newd.deep_view(),
{
    let ghost d0 = diags.deep_view();
    let ghost nd = newd.deep_view();
    let mut q: usize = 0;
    while q < newd.len()
        invariant
            q <= newd.len(),
            nd == newd.deep_view(),
            d0 == old(diags).deep_view(),
            diags.deep_view() =~= d0 + nd.take(q as int),
        decreases newd.len() - q,
    {
        proof {
            assert(nd.take(q + 1) =~= nd.take(q as int).push(nd[q as int]));
            assert(nd[q as int] == newd[q as int].deep_view());
        }
        let ghost pre = diags.deep_view();
        diags.push(newd[q].duplicate());
        proof {
            assert(diags.deep_view() =~= pre.push(newd[q as int].deep_view()));
        }
        q += 1;
    }
    proof {
        assert(nd.take(newd.len() as int) =~= nd);
        assert(d0 + nd =~= diags.deep_view());
    }
}

/// The shared fold behind the statement and initializer converters.
#[verifier::loop_isolation(false)]
fn stmt_fold_exec(values: &Vec<Value>, with_vary: bool, diags: &mut Vec<Diag>) -> (r: (
    Vec<(String, Span)>,
    Vec<(String, Span)>,
    Option<bool>,
))
    ensures
        ({
            let (keep, drops, vary, d) = spec_stmt_fold(
                values.deep_view(),
                0,
                (None, None, None, Seq::empty()),
                with_vary,
            );
            &&& r.0.deep_view() == spec_unwrap_pairs(keep)
            &&& r.1.deep_view() == spec_unwrap_pairs(drops)
            &&& r.2 == vary
            &&& final(diags).deep_view() == old(diags).deep_view() + d
        }),
{
    let ghost dvs = values.deep_view();
    let mut keep: Option<Vec<(String, Span)>> = None;
    let mut drops: Option<Vec<(String, Span)>> = None;
    let mut vary: Option<bool> = None;
    let mut newd: Vec<Diag> = Vec::new();
    let mut i: usize = 0;
    proof {
        assert(newd.deep_view() =~= Seq::<SpecDiag>::empty());
    }
    while i < values.len()
        invariant
            i <= values.len(),
            spec_stmt_fold(dvs, 0, (None, None, None, Seq::empty()), with_vary)
                == spec_stmt_fold(
                dvs,
                i as int,
                (
                    spec_opt_pairs_view(keep),
                    spec_opt_pairs_view(drops),
                    vary,
                    newd.deep_view(),
                ),
                with_vary,
            ),
        decreases values.len() - i,
    {
        let ghost st_pre = (
            spec_opt_pairs_view(keep),
            spec_opt_pairs_view(drops),
            vary,
            newd.deep_view(),
        );
        proof {
            assert(dvs[i as int] == values[i as int].spec_view());
        }
        let v = &values[i];
        match v.identifier() {
            None => {},
            Some(key) => {
                let is_keep = text_eq(&key, &key_keep_text());
                let is_drop = text_eq(&key, &key_drop_text());
                if is_keep || is_drop {
                    let slot_taken = if is_keep {
                        keep.is_some()
                    } else {
                        drops.is_some()
                    };
                    if slot_taken {
                        newd.push(
                            Diag { span: v.span(), kind: DiagKind::DuplicateEntry { key } },
                        );
                    } else {
                        match v {
                            Value::List { values: lvs, .. } => {
                                let (ids, d2) = idents_of(lvs);
                                proof {
                                    assert(v.spec_view()->List_values =~= lvs.deep_view());
                                }
                                if d2.len() == 0 {
                                    proof {
                                        assert(d2.deep_view() =~= Seq::<SpecDiag>::empty());
                                    }
                                    if is_keep {
                                        keep = Some(ids);
                                    } else {
                                        drops = Some(ids);
                                    }
                                } else {
                                    append_diags(&mut newd, &d2);
                                }
                            },
                            _ => {
                                newd.push(
                                    Diag {
                                        span: v.span(),
                                        kind: DiagKind::EntryExpects {
                                            key,
                                            expected: Expectation::IdentList,
                                        },
                                    },
                                );
                            },
                        }
                    }
                } else if with_vary && text_eq(&key, &key_vary_type_text()) {
                    if vary.is_some() {
                        newd.push(
                            Diag { span: v.span(), kind: DiagKind::DuplicateEntry { key } },
                        );
                    } else {
                        match v {
                            Value::Ident { .. } => {
                                vary = Some(true);
                            },
                            Value::Expr { value, .. } => match &**value {
                                Value::Lit { lit: Lit::Bool(b), span: lspan } => {
                                    proof {
                                        assert((**value).spec_view() == SpecValue::Lit {
                                            lit: SpecLit::Bool(*b),
                                            span: *lspan,
                                        });
                                    }
                                    vary = Some(*b);
                                },
                                _ => {
                                    proof {
                                        assert(!((**value).spec_view() matches SpecValue::Lit {
                                            lit: SpecLit::Bool(_),
                                            ..
                                        }));
                                    }
                                    newd.push(
                                        Diag {
                                            span: v.span(),
                                            kind: DiagKind::EntryExpects {
                                                key,
                                                expected: Expectation::BoolFlag,
                                            },
                                        },
                                    );
                                },
                            },
                            _ => {
                                newd.push(
                                    Diag {
                                        span: v.span(),
                                        kind: DiagKind::EntryExpects {
                                            key,
                                            expected: Expectation::BoolFlag,
                                        },
                                    },
                                );
                            },
                        }
                    }
                } else {
                    newd.push(
                        Diag { span: v.span(), kind: DiagKind::UnrecognizedEntry { key } },
                    );
                }
            },
        }
        proof {
            let st_post = (
                spec_opt_pairs_view(keep),
                spec_opt_pairs_view(drops),
                vary,
                newd.deep_view(),
            );
            assert(st_post == spec_stmt_step(st_pre, dvs[i as int], with_vary));
        }
        i += 1;
    }
    append_diags(diags, &newd);
    let ghost gk = spec_opt_pairs_view(keep);
    let ghost gd = spec_opt_pairs_view(drops);
    let kept = match keep {
        Some(k) => k,
        None => Vec::new(),
    };
    let dropped = match drops {
        Some(d) => d,
        None => Vec::new(),
    };
    proof {
        assert(kept.deep_view() =~= spec_unwrap_pairs(gk));
        assert(dropped.deep_view() =~= spec_unwrap_pairs(gd));
    }
    (kept, dropped, vary)
}

/// Convert one statement annotation payload, appending its diagnostics.
pub fn stmt_annotation_from(values: &Vec<Value>, diags: &mut Vec<Diag>) -> (r: StmtAnnotation)
    ensures
        ({
            let (a, d) = spec_stmt_annotation(values.deep_view());
            r.deep_view() == a && final(diags).deep_view() == old(diags).deep_view() + d
        }),
{
    let (keep, drops, vary) = stmt_fold_exec(values, true, diags);
    StmtAnnotation {
        keep,
        drops,
        vary_type: match vary {
            Some(b) => b,
            None => false,
        },
    }
}

/// Convert one field-initializer annotation payload, appending its
/// diagnostics.
pub fn value_annotation_from(values: &Vec<Value>, diags: &mut Vec<Diag>) -> (r: ValueAnnotation)
    ensures
        ({
            let (a, d) = spec_value_annotation(values.deep_view());
            r.deep_view() == a && final(diags).deep_view() == old(diags).deep_view() + d
        }),
{
    let (keep, drops, _vary) = stmt_fold_exec(values, false, diags);
    ValueAnnotation { keep, drops }
}

impl Value {
    /// The keyed expression behind this value, if it is one.
    pub fn expr(&self) -> (r: Option<&Value>)
        ensures
            (r matches Some(v) ==> self.spec_view() matches SpecValue::Expr { value, .. }
                && v.spec_view() == *value),
            r is None <==> !(self.spec_view() is Expr),
    {
        match self {
            Value::Expr { value, .. } => Some(&**value),
            _ => None,
        }
    }

    /// The bare identifier behind this value, if it is one.
    pub fn ident(&self) -> (r: Option<&String>)
        ensures
            (r matches Some(n) ==> self.spec_view() matches SpecValue::Ident { name, .. }
                && n@ == name),
            r is None <==> !(self.spec_view() is Ident),
    {
        match self {
            Value::Ident { name, .. } => Some(name),
            _ => None,
        }
    }

    /// The named list behind this value, if it is one.
    pub fn list(&self) -> (r: Option<&Vec<Value>>)
        ensures
            (r matches Some(vs) ==> self.spec_view() matches SpecValue::List { values, .. }
                && vs.deep_view() =~= values),
            r is None <==> !(self.spec_view() is List),
    {
        match self {
            Value::List { values, .. } => {
                proof {
                    assert(self.spec_view()->List_values =~= values.deep_view());
                }
                Some(values)
            },
            _ => None,
        }
    }

    /// The literal behind this value, if it is one.
    pub fn lit(&self) -> (r: Option<&Lit>)
        ensures
            (r matches Some(l) ==> self.spec_view() matches SpecValue::Lit { lit, .. }
                && l.deep_view() == lit),
            r is None <==> !(self.spec_view() is Lit),
    {
        match self {
            Value::Lit { lit, .. } => Some(lit),
            _ => None,
        }
    }
}

} // verus!
