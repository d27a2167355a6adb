//! Resolving annotations into per-node settings.
//!
//! The builder walks the input declaration once.  At every annotatable
//! node it consumes the annotation markers: their payloads are parsed,
//! converted to typed records, and folded into one settings list per node,
//! keyed by variant name.  A variant referenced twice for the same node is
//! a duplicate-settings error whose second occurrence is discarded; a
//! variant missing from the declared list is an undeclared-variant error
//! and contributes nothing.  Markers are removed as they are consumed, so
//! the resolved declaration carries only foreign attributes, and the
//! settings ride on the nodes themselves into every later pass.

use vstd::prelude::*;

use crate::ast::{
    Arm, AssocItem, Attr, Block, Case, Expr, Field, FieldValue, FieldsKind, Item, Param, Retype,
    Span, SpecArm, SpecAssocItem, SpecAttr, SpecCase, SpecExpr, SpecField, SpecFieldValue,
    SpecFieldsKind, SpecItem, SpecRetype, SpecStmt, SpecStmtSettings, SpecToken,
    SpecValueSettings, SpecVariantSettings, Stmt, StmtSettings, Token, Ty, ValueSettings,
    VariantSettings, duplicate_strings, duplicate_tokens,
};
use crate::errors::{Diag, DiagKind, SpecDiag, SpecDiagKind};
use crate::parsers::{
    append_diags,
    SpecMemberAnnotation, SpecStmtAnnotation, SpecValueAnnotation, member_annotation_from,
    parse_values, spec_member_annotation, spec_parse_values, spec_stmt_annotation,
    spec_value_annotation, stmt_annotation_from, value_annotation_from,
};
use crate::words::{marker_text, spec_marker, text_eq};

verus! {

broadcast use vstd::std_specs::vec::group_vec_axioms;

/// The declared variant list of one transformation unit.
#[derive(Debug, PartialEq, Eq)]
pub struct Context {
    pub variants: Vec<String>,
}

impl Context {
    /// A context over the given variant names, in declaration order.
    pub fn new(variants: Vec<String>) -> (r: Context)
        ensures
            r.variants.deep_view() == variants.deep_view(),
    {
        Context { variants }
    }
}

/// The variant names read from a comma-separated identifier list.
pub open spec fn spec_parse_variant_list_from(toks: Seq<SpecToken>, i: int) -> Option<
    Seq<Seq<char>>,
>
    decreases toks.len() - i,
{
    if i >= toks.len() {
        Some(Seq::empty())
    } else {
        match toks[i] {
            SpecToken::Ident { text, .. } => {
                if i + 1 >= toks.len() {
                    Some(seq![text])
                } else if toks[i + 1] matches SpecToken::Punct { ch: ',', .. } {
                    match spec_parse_variant_list_from(toks, i + 2) {
                        Some(rest) => Some(seq![text] + rest),
                        None => None,
                    }
                } else {
                    None
                }
            },
            _ => None,
        }
    }
}

pub open spec fn spec_parse_variant_list(toks: Seq<SpecToken>) -> Option<Seq<Seq<char>>> {
    spec_parse_variant_list_from(toks, 0)
}

fn parse_variant_list_from(toks: &Vec<Token>, i: usize) -> (r: Option<Vec<String>>)
    ensures
        (match r {
            Some(v) => Some(v.deep_view()),
            None => None,
        }) == spec_parse_variant_list_from(toks.deep_view(), i as int),
    decreases toks.len() - i,
{
    proof {
        assert(toks.deep_view().len() == toks@.len());
    }
    if i >= toks.len() {
        let r: Vec<String> = Vec::new();
        proof {
            assert(r.deep_view() =~= Seq::<Seq<char>>::empty());
        }
        Some(r)
    } else {
        proof {
            assert(toks.deep_view()[i as int] == toks[i as int].deep_view());
        }
        match &toks[i] {
            Token::Ident { text, .. } => {
                if i + 1 >= toks.len() {
                    let mut out: Vec<String> = Vec::new();
                    out.push(text.clone());
                    proof {
                        assert(out.deep_view() =~= seq![text.deep_view()]);
                    }
                    Some(out)
                } else {
                    proof {
                        assert(toks.deep_view()[i + 1] == toks[i + 1].deep_view());
                    }
                    let is_comma = match &toks[i + 1] {
                        Token::Punct { ch, .. } => *ch == ',',
                        _ => false,
                    };
                    if is_comma {
                        match parse_variant_list_from(toks, i + 2) {
                            Some(rest) => {
                                let ghost grest = rest.deep_view();
                                let mut out: Vec<String> = Vec::new();
                                out.push(text.clone());
                                let mut q: usize = 0;
                                while q < rest.len()
                                    invariant
                                        q <= rest.len(),
                                        out.len() == q + 1,
                                        out[0]@ == text@,
                                        grest == rest.deep_view(),
                                        forall|x: int|
                                            0 <= x < q ==> out[x + 1].deep_view() == grest[x],
                                    decreases rest.len() - q,
                                {
                                    proof {
                                        assert(grest[q as int] == rest[q as int].deep_view());
                                    }
                                    out.push(rest[q].clone());
                                    q += 1;
                                }
                                proof {
                                    assert(out.deep_view() =~= seq![text.deep_view()] + grest);
                                }
                                Some(out)
                            },
                            None => None,
                        }
                    } else {
                        None
                    }
                }
            },
            _ => None,
        }
    }
}

/// The first variant name that repeats an earlier declaration, scanning
/// from position `j`.
pub open spec fn spec_first_duplicate(vs: Seq<Seq<char>>, j: int) -> Option<Seq<char>>
    decreases vs.len() - j,
{
    if 0 <= j < vs.len() {
        if spec_vars_contain(vs.take(j), vs[j]) {
            Some(vs[j])
        } else {
            spec_first_duplicate(vs, j + 1)
        }
    } else {
        None
    }
}

#[verifier::loop_isolation(false)]
fn first_duplicate(v: &Vec<String>) -> (r: Option<String>)
    ensures
        (match r {
            Some(n) => Some(n@),
            None => None,
        }) == spec_first_duplicate(v.deep_view(), 0),
{
    let ghost dv = v.deep_view();
    let mut j: usize = 0;
    while j < v.len()
        invariant
            j <= v.len(),
            dv == v.deep_view(),
            spec_first_duplicate(dv, 0) == spec_first_duplicate(dv, j as int),
        decreases v.len() - j,
    {
        proof {
            assert(dv[j as int] == v[j as int]@);
        }
        let mut found = false;
        let mut k: usize = 0;
        proof {
            assert(!spec_vars_contain(dv.take(0), dv[j as int]));
        }
        while k < j
            invariant
                k <= j,
                j < v.len(),
                dv == v.deep_view(),
                found == spec_vars_contain(dv.take(k as int), dv[j as int]),
            decreases j - k,
        {
            proof {
                assert(dv[k as int] == v[k as int]@);
            }
            let ghost pre = found;
            if text_eq(&v[k], &v[j]) {
                found = true;
            }
            proof {
                if found {
                    if pre {
                        let w = choose|w: int|
                            0 <= w < k && dv.take(k as int)[w] == dv[j as int];
                        assert(dv.take(k + 1)[w] == dv[j as int]);
                    } else {
                        assert(dv.take(k + 1)[k as int] == dv[j as int]);
                    }
                    assert(spec_vars_contain(dv.take(k + 1), dv[j as int]));
                } else {
                    assert forall|w: int| 0 <= w < k + 1 implies #[trigger] dv.take(k + 1)[w]
                        != dv[j as int] by {
                        if w < k {
                            assert(dv.take(k as int)[w] == dv.take(k + 1)[w]);
                        }
                    }
                }
            }
            k += 1;
        }
        if found {
            proof {
                assert(spec_first_duplicate(dv, j as int) == Some(dv[j as int]));
            }
            return Some(v[j].clone());
        }
        proof {
            assert(spec_first_duplicate(dv, j as int) == spec_first_duplicate(dv, j + 1));
        }
        j += 1;
    }
    proof {
        assert(spec_first_duplicate(dv, v.len() as int) is None);
    }
    None
}

/// Parse the variant-name list of a transformation unit.  A payload that
/// is not a comma-separated identifier list yields one diagnostic and no
/// context; so does a list declaring the same variant twice, since the
/// declared set must hold distinct names.
pub fn parse_variant_list(toks: &Vec<Token>) -> (r: Result<Context, Diag>)
    ensures
        r is Ok <==> (spec_parse_variant_list(toks.deep_view()) matches Some(vs)
            && spec_first_duplicate(vs, 0) is None),
        r matches Ok(c) ==> spec_parse_variant_list(toks.deep_view()) == Some(
            c.variants.deep_view(),
        ),
        r matches Err(d) ==> d.deep_view() == (match spec_parse_variant_list(toks.deep_view()) {
            Some(vs) => SpecDiag {
                span: Span { lo: 0, hi: 0 },
                kind: SpecDiagKind::DuplicateVariant {
                    variant: spec_first_duplicate(vs, 0)->Some_0,
                },
            },
            None => SpecDiag { span: Span { lo: 0, hi: 0 }, kind: SpecDiagKind::VariantListParse },
        }),
{
    match parse_variant_list_from(toks, 0) {
        Some(v) => match first_duplicate(&v) {
            Some(n) => Err(
                Diag {
                    span: Span { lo: 0, hi: 0 },
                    kind: DiagKind::DuplicateVariant { variant: n },
                },
            ),
            None => Ok(Context { variants: v }),
        },
        None => Err(Diag { span: Span { lo: 0, hi: 0 }, kind: DiagKind::VariantListParse }),
    }
}

/// Whether an attribute is the engine's annotation marker.
pub open spec fn spec_is_marker(a: SpecAttr) -> bool {
    a.path.len() == 1 && a.path[0] == spec_marker()
}

fn is_marker(a: &Attr) -> (r: bool)
    ensures
        r == spec_is_marker(a.deep_view()),
{
    if a.path.len() == 1 {
        proof {
            assert(a.deep_view().path[0] == a.path[0]@);
        }
        text_eq(&a.path[0], &marker_text())
    } else {
        false
    }
}

/// Split an attribute list into the foreign attributes, kept as they are,
/// and the payloads of the annotation markers, in order.
pub open spec fn spec_split_attrs(attrs: Seq<SpecAttr>) -> (
    Seq<SpecAttr>,
    Seq<(Seq<SpecToken>, Span)>,
)
    decreases attrs.len(),
{
    if attrs.len() == 0 {
        (Seq::empty(), Seq::empty())
    } else {
        let (kept, payloads) = spec_split_attrs(attrs.drop_last());
        let a = attrs.last();
        if spec_is_marker(a) {
            (kept, payloads.push((a.tokens, a.span)))
        } else {
            (kept.push(a), payloads)
        }
    }
}

/// Removes the engine's annotation markers from attribute lists, leaving
/// every other attribute in place.
pub struct AttributeRemover {}

impl AttributeRemover {
    pub fn new() -> (r: AttributeRemover) {
        AttributeRemover {}
    }

    /// The attribute list with all annotation markers removed.
    #[verifier::loop_isolation(false)]
    pub fn strip(&self, attrs: &Vec<Attr>) -> (r: Vec<Attr>)
        ensures
            r.deep_view() == spec_split_attrs(attrs.deep_view()).0,
    {
        let (kept, _) = split_attrs(attrs);
        kept
    }
}

/// Split the marker payloads out of an attribute list.
#[verifier::loop_isolation(false)]
pub fn split_attrs(attrs: &Vec<Attr>) -> (r: (Vec<Attr>, Vec<(Vec<Token>, Span)>))
    ensures
        r.0.deep_view() == spec_split_attrs(attrs.deep_view()).0,
        r.1.deep_view() == spec_split_attrs(attrs.deep_view()).1,
{
    let ghost dattrs = attrs.deep_view();
    let mut kept: Vec<Attr> = Vec::new();
    let mut payloads: Vec<(Vec<Token>, Span)> = Vec::new();
    let mut i: usize = 0;
    while i < attrs.len()
        invariant
            i <= attrs.len(),
            kept.deep_view() == spec_split_attrs(dattrs.take(i as int)).0,
            payloads.deep_view() == spec_split_attrs(dattrs.take(i as int)).1,
        decreases attrs.len() - i,
    {
        proof {
            assert(dattrs.take(i + 1).drop_last() =~= dattrs.take(i as int));
            assert(dattrs.take(i + 1).last() == attrs[i as int].deep_view());
        }
        let a = &attrs[i];
        if is_marker(a) {
            let ghost pre = payloads.deep_view();
            payloads.push((duplicate_tokens(&a.tokens), a.span));
            proof {
                assert(payloads.deep_view() =~= pre.push(
                    (attrs[i as int].deep_view().tokens, attrs[i as int].deep_view().span),
                ));
                assert(kept.deep_view() =~= spec_split_attrs(dattrs.take(i + 1)).0);
                assert(payloads.deep_view() =~= spec_split_attrs(dattrs.take(i + 1)).1);
            }
        } else {
            let ghost pre = kept.deep_view();
            kept.push(a.duplicate());
            proof {
                assert(kept.deep_view() =~= pre.push(attrs[i as int].deep_view()));
                assert(kept.deep_view() =~= spec_split_attrs(dattrs.take(i + 1)).0);
                assert(payloads.deep_view() =~= spec_split_attrs(dattrs.take(i + 1)).1);
            }
        }
        i += 1;
    }
    proof {
        assert(dattrs.take(attrs.len() as int) =~= dattrs);
    }
    (kept, payloads)
}

/// Whether a name stands in the declared variant list.
pub open spec fn spec_vars_contain(vars: Seq<Seq<char>>, name: Seq<char>) -> bool {
    exists|k: int| 0 <= k < vars.len() && vars[k] == name
}

fn vars_contain(vars: &Vec<String>, name: &String) -> (r: bool)
    ensures
        r == spec_vars_contain(vars.deep_view(), name@),
{
    let ghost dv = vars.deep_view();
    let mut i: usize = 0;
    while i < vars.len()
        invariant
            i <= vars.len(),
            dv == vars.deep_view(),
            forall|k: int| 0 <= k < i ==> dv[k] != name@,
        decreases vars.len() - i,
    {
        proof {
            assert(dv[i as int] == vars[i as int]@);
        }
        if text_eq(&vars[i], name) {
            return true;
        }
        i += 1;
    }
    false
}

/// The member annotations read from a node's marker payloads, in order,
/// with a diagnostic for every payload that the value grammar rejects.
pub open spec fn spec_member_anns_of(payloads: Seq<(Seq<SpecToken>, Span)>) -> (
    Seq<SpecMemberAnnotation>,
    Seq<SpecDiag>,
)
    decreases payloads.len(),
{
    if payloads.len() == 0 {
        (Seq::empty(), Seq::empty())
    } else {
        let (anns, d) = spec_member_anns_of(payloads.drop_last());
        let (toks, sp) = payloads.last();
        match spec_parse_values(toks) {
            Some(vs) => {
                let (a, d2) = spec_member_annotation(vs, sp);
                (anns.push(a), d + d2)
            },
            None => (anns, d.push(SpecDiag { span: sp, kind: SpecDiagKind::ValueUnreadable })),
        }
    }
}

/// Whether settings for a variant name were already recorded.
pub open spec fn spec_member_has(st: Seq<SpecVariantSettings>, name: Seq<char>) -> bool {
    exists|k: int| 0 <= k < st.len() && st[k].variant == name
}

fn member_has(st: &Vec<VariantSettings>, name: &String) -> (r: bool)
    ensures
        r == spec_member_has(st.deep_view(), name@),
{
    let ghost dv = st.deep_view();
    let mut i: usize = 0;
    while i < st.len()
        invariant
            i <= st.len(),
            dv == st.deep_view(),
            forall|k: int| 0 <= k < i ==> dv[k].variant != name@,
        decreases st.len() - i,
    {
        proof {
            assert(dv[i as int] == st[i as int].deep_view());
        }
        if text_eq(&st[i].variant, name) {
            return true;
        }
        i += 1;
    }
    false
}

/// Record one member keep-entry: an undeclared variant is reported and
/// skipped; a variant already configured is a duplicate whose second
/// occurrence is discarded.
pub open spec fn spec_member_entry_step(
    st: (Seq<SpecVariantSettings>, Seq<SpecDiag>),
    name: Seq<char>,
    span: Span,
    retype: Option<SpecRetype>,
    vars: Seq<Seq<char>>,
) -> (Seq<SpecVariantSettings>, Seq<SpecDiag>) {
    let (settings, diags) = st;
    if !spec_vars_contain(vars, name) {
        (
            settings,
            diags.push(SpecDiag { span, kind: SpecDiagKind::UndeclaredVariant { variant: name } }),
        )
    } else if spec_member_has(settings, name) {
        (
            settings,
            diags.push(SpecDiag { span, kind: SpecDiagKind::DuplicateSettings { variant: name } }),
        )
    } else {
        (settings.push(SpecVariantSettings { variant: name, retype }), diags)
    }
}

pub open spec fn spec_member_entries_fold(
    st: (Seq<SpecVariantSettings>, Seq<SpecDiag>),
    entries: Seq<(Seq<char>, Span)>,
    i: int,
    retype: Option<SpecRetype>,
    vars: Seq<Seq<char>>,
) -> (Seq<SpecVariantSettings>, Seq<SpecDiag>)
    decreases entries.len() - i,
{
    if 0 <= i < entries.len() {
        spec_member_entries_fold(
            spec_member_entry_step(st, entries[i].0, entries[i].1, retype, vars),
            entries,
            i + 1,
            retype,
            vars,
        )
    } else {
        st
    }
}

pub open spec fn spec_member_settings_fold(
    anns: Seq<SpecMemberAnnotation>,
    j: int,
    s: Seq<SpecVariantSettings>,
    vars: Seq<Seq<char>>,
) -> (Seq<SpecVariantSettings>, Seq<SpecDiag>)
    decreases anns.len() - j,
{
    if 0 <= j < anns.len() {
        let (s1, d1) = spec_member_entries_fold(
            (s, Seq::empty()),
            anns[j].keep,
            0,
            anns[j].retype,
            vars,
        );
        let (s2, d2) = spec_member_settings_fold(anns, j + 1, s1, vars);
        (s2, d1 + d2)
    } else {
        (s, Seq::empty())
    }
}

/// The settings of one member, folded from all its annotations.
pub open spec fn spec_member_settings(
    anns: Seq<SpecMemberAnnotation>,
    vars: Seq<Seq<char>>,
) -> (Seq<SpecVariantSettings>, Seq<SpecDiag>) {
    spec_member_settings_fold(anns, 0, Seq::empty(), vars)
}

fn duplicate_retype(r: &Option<Retype>) -> (o: Option<Retype>)
    ensures
        o.deep_view() == r.deep_view(),
{
    match r {
        Some(t) => Some(t.duplicate()),
        None => None,
    }
}

/// Fold one member annotation's keep-entries into the settings.
#[verifier::loop_isolation(false)]
fn member_entries_exec(
    settings: &mut Vec<VariantSettings>,
    diags: &mut Vec<Diag>,
    entries: &Vec<(String, Span)>,
    retype: &Option<Retype>,
    vars: &Vec<String>,
)
    ensures
        ({
            let (s2, d2) = spec_member_entries_fold(
                (old(settings).deep_view(), Seq::empty()),
                entries.deep_view(),
                0,
                retype.deep_view(),
                vars.deep_view(),
            );
            final(settings).deep_view() == s2 && final(diags).deep_view() == old(
                diags,
            ).deep_view() + d2
        }),
{
    let ghost dent = entries.deep_view();
    let ghost dret = retype.deep_view();
    let ghost dvars = vars.deep_view();
    let ghost d0 = diags.deep_view();
    let ghost s0 = settings.deep_view();
    let mut newd: Vec<Diag> = Vec::new();
    let mut i: usize = 0;
    proof {
        assert(newd.deep_view() =~= Seq::<SpecDiag>::empty());
    }
    while i < entries.len()
        invariant
            i <= entries.len(),
            diags.deep_view() == d0,
            spec_member_entries_fold((s0, Seq::empty()), dent, 0, dret, dvars)
                == spec_member_entries_fold(
                (settings.deep_view(), newd.deep_view()),
                dent,
                i as int,
                dret,
                dvars,
            ),
        decreases entries.len() - i,
    {
        let ghost st_pre = (settings.deep_view(), newd.deep_view());
        proof {
            assert(dent[i as int] == entries[i as int].deep_view());
            assert(entries[i as int].deep_view() == (
                entries[i as int].0.deep_view(),
                entries[i as int].1,
            ));
        }
        let name = &entries[i].0;
        let span = entries[i].1;
        if !vars_contain(vars, name) {
            newd.push(
                Diag { span, kind: DiagKind::UndeclaredVariant { variant: name.clone() } },
            );
        } else if member_has(settings, name) {
            newd.push(
                Diag { span, kind: DiagKind::DuplicateSettings { variant: name.clone() } },
            );
        } else {
            settings.push(
                VariantSettings { variant: name.clone(), retype: duplicate_retype(retype) },
            );
        }
        proof {
            let st_post = (settings.deep_view(), newd.deep_view());
            assert(st_post == spec_member_entry_step(
                st_pre,
                dent[i as int].0,
                dent[i as int].1,
                dret,
                dvars,
            ));
        }
        i += 1;
    }
    append_diags(diags, &newd);
}

/// Resolve a member's attribute list: foreign attributes kept, markers
/// consumed into settings, all diagnostics appended.
#[verifier::loop_isolation(false)]
pub fn resolve_member_attrs(attrs: &Vec<Attr>, vars: &Vec<String>, diags: &mut Vec<Diag>) -> (r: (
    Vec<Attr>,
    Vec<VariantSettings>,
))
    ensures
        ({
            let (kept, payloads) = spec_split_attrs(attrs.deep_view());
            let (anns, d1) = spec_member_anns_of(payloads);
            let (st, d2) = spec_member_settings(anns, vars.deep_view());
            &&& r.0.deep_view() == kept
            &&& r.1.deep_view() == st
            &&& final(diags).deep_view() == old(diags).deep_view() + d1 + d2
        }),
{
    let (kept, payloads) = split_attrs(attrs);
    let ghost dpay = payloads.deep_view();
    let ghost d0 = diags.deep_view();
    let mut anns: Vec<crate::parsers::MemberAnnotation> = Vec::new();
    let mut i: usize = 0;
    while i < payloads.len()
        invariant
            i <= payloads.len(),
            dpay == payloads.deep_view(),
            anns.deep_view() == spec_member_anns_of(dpay.take(i as int)).0,
            diags.deep_view() == d0 + spec_member_anns_of(dpay.take(i as int)).1,
        decreases payloads.len() - i,
    {
        proof {
            assert(dpay.take(i + 1).drop_last() =~= dpay.take(i as int));
            assert(dpay.take(i + 1).last() == payloads[i as int].deep_view());
            assert(payloads[i as int].deep_view() == (
                payloads[i as int].0.deep_view(),
                payloads[i as int].1,
            ));
        }
        let toks = &payloads[i].0;
        let sp = payloads[i].1;
        match parse_values(toks) {
            Some(vs) => {
                let a = member_annotation_from(&vs, sp, diags);
                let ghost pre = anns.deep_view();
                anns.push(a);
                proof {
                    assert(anns.deep_view() =~= pre.push(a.deep_view()));
                }
            },
            None => {
                let ghost pre = diags.deep_view();
                diags.push(Diag { span: sp, kind: DiagKind::ValueUnreadable });
                proof {
                    assert(diags.deep_view() =~= pre.push(
                        SpecDiag { span: sp, kind: SpecDiagKind::ValueUnreadable },
                    ));
                }
            },
        }
        i += 1;
    }
    proof {
        assert(dpay.take(payloads.len() as int) =~= dpay);
    }
    let ghost danns = anns.deep_view();
    let ghost dvars = vars.deep_view();
    let ghost dfix = diags.deep_view();
    let mut settings: Vec<VariantSettings> = Vec::new();
    let mut j: usize = 0;
    proof {
        assert(settings.deep_view() =~= Seq::<SpecVariantSettings>::empty());
        assert(diags.deep_view().skip(dfix.len() as int) =~= Seq::<SpecDiag>::empty());
        assert(Seq::<SpecDiag>::empty() + spec_member_settings_fold(danns, 0, Seq::empty(), dvars).1
            =~= spec_member_settings_fold(danns, 0, Seq::empty(), dvars).1);
    }
    while j < anns.len()
        invariant
            j <= anns.len(),
            danns == anns.deep_view(),
            dfix.len() <= diags.deep_view().len(),
            diags.deep_view().take(dfix.len() as int) == dfix,
            spec_member_settings_fold(danns, 0, Seq::empty(), dvars).0
                == spec_member_settings_fold(danns, j as int, settings.deep_view(), dvars).0,
            spec_member_settings_fold(danns, 0, Seq::empty(), dvars).1 == diags.deep_view().skip(
                dfix.len() as int,
            ) + spec_member_settings_fold(danns, j as int, settings.deep_view(), dvars).1,
        decreases anns.len() - j,
    {
        proof {
            assert(danns[j as int] == anns[j as int].deep_view());
        }
        let ghost s_pre = settings.deep_view();
        let ghost x_pre = diags.deep_view().skip(dfix.len() as int);
        member_entries_exec(&mut settings, diags, &anns[j].keep, &anns[j].retype, vars);
        proof {
            let dd1 = spec_member_entries_fold(
                (s_pre, Seq::empty()),
                danns[j as int].keep,
                0,
                danns[j as int].retype,
                dvars,
            ).1;
            let rest = spec_member_settings_fold(
                danns,
                j + 1,
                settings.deep_view(),
                dvars,
            ).1;
            assert(diags.deep_view().skip(dfix.len() as int) =~= x_pre + dd1);
            assert((x_pre + dd1) + rest =~= x_pre + (dd1 + rest));
            assert(diags.deep_view().take(dfix.len() as int) =~= dfix);
        }
        j += 1;
    }
    proof {
        let tail = spec_member_settings_fold(danns, anns.len() as int, settings.deep_view(), dvars).1;
        assert(tail =~= Seq::<SpecDiag>::empty());
        assert(diags.deep_view().skip(dfix.len() as int) + tail =~= diags.deep_view().skip(
            dfix.len() as int,
        ));
        assert(diags.deep_view() =~= diags.deep_view().take(dfix.len() as int)
            + diags.deep_view().skip(dfix.len() as int));
    }
    (kept, settings)
}

/// The statement annotations read from a node's marker payloads.
pub open spec fn spec_stmt_anns_of(payloads: Seq<(Seq<SpecToken>, Span)>) -> (
    Seq<SpecStmtAnnotation>,
    Seq<SpecDiag>,
)
    decreases payloads.len(),
{
    if payloads.len() == 0 {
        (Seq::empty(), Seq::empty())
    } else {
        let (anns, d) = spec_stmt_anns_of(payloads.drop_last());
        let (toks, sp) = payloads.last();
        match spec_parse_values(toks) {
            Some(vs) => {
                let (a, d2) = spec_stmt_annotation(vs);
                (anns.push(a), d + d2)
            },
            None => (anns, d.push(SpecDiag { span: sp, kind: SpecDiagKind::ValueUnreadable })),
        }
    }
}

/// The initializer annotations read from a node's marker payloads.
pub open spec fn spec_value_anns_of(payloads: Seq<(Seq<SpecToken>, Span)>) -> (
    Seq<SpecValueAnnotation>,
    Seq<SpecDiag>,
)
    decreases payloads.len(),
{
    if payloads.len() == 0 {
        (Seq::empty(), Seq::empty())
    } else {
        let (anns, d) = spec_value_anns_of(payloads.drop_last());
        let (toks, sp) = payloads.last();
        match spec_parse_values(toks) {
            Some(vs) => {
                let (a, d2) = spec_value_annotation(vs);
                (anns.push(a), d + d2)
            },
            None => (anns, d.push(SpecDiag { span: sp, kind: SpecDiagKind::ValueUnreadable })),
        }
    }
}

pub open spec fn spec_stmt_has(st: Seq<SpecStmtSettings>, name: Seq<char>) -> bool {
    exists|k: int| 0 <= k < st.len() && st[k].variant == name
}

fn stmt_has(st: &Vec<StmtSettings>, name: &String) -> (r: bool)
    ensures
        r == spec_stmt_has(st.deep_view(), name@),
{
    let ghost dv = st.deep_view();
    let mut i: usize = 0;
    while i < st.len()
        invariant
            i <= st.len(),
            dv == st.deep_view(),
            forall|k: int| 0 <= k < i ==> dv[k].variant != name@,
        decreases st.len() - i,
    {
        proof {
            assert(dv[i as int] == st[i as int].deep_view());
        }
        if text_eq(&st[i].variant, name) {
            return true;
        }
        i += 1;
    }
    false
}

pub open spec fn spec_value_has(st: Seq<SpecValueSettings>, name: Seq<char>) -> bool {
    exists|k: int| 0 <= k < st.len() && st[k].variant == name
}

fn value_has(st: &Vec<ValueSettings>, name: &String) -> (r: bool)
    ensures
        r == spec_value_has(st.deep_view(), name@),
{
    let ghost dv = st.deep_view();
    let mut i: usize = 0;
    while i < st.len()
        invariant
            i <= st.len(),
            dv == st.deep_view(),
            forall|k: int| 0 <= k < i ==> dv[k].variant != name@,
        decreases st.len() - i,
    {
        proof {
            assert(dv[i as int] == st[i as int].deep_view());
        }
        if text_eq(&st[i].variant, name) {
            return true;
        }
        i += 1;
    }
    false
}

/// Record one statement entry, with its participates and vary-type flags.
pub open spec fn spec_stmt_entry_step(
    st: (Seq<SpecStmtSettings>, Seq<SpecDiag>),
    name: Seq<char>,
    span: Span,
    participates: bool,
    vary: bool,
    vars: Seq<Seq<char>>,
) -> (Seq<SpecStmtSettings>, Seq<SpecDiag>) {
    let (settings, diags) = st;
    if !spec_vars_contain(vars, name) {
        (
            settings,
            diags.push(SpecDiag { span, kind: SpecDiagKind::UndeclaredVariant { variant: name } }),
        )
    } else if spec_stmt_has(settings, name) {
        (
            settings,
            diags.push(SpecDiag { span, kind: SpecDiagKind::DuplicateSettings { variant: name } }),
        )
    } else {
        (
            settings.push(SpecStmtSettings { variant: name, participates, vary_type: vary }),
            diags,
        )
    }
}

pub open spec fn spec_stmt_entries_fold(
    st: (Seq<SpecStmtSettings>, Seq<SpecDiag>),
    entries: Seq<(Seq<char>, Span)>,
    i: int,
    participates: bool,
    vary: bool,
    vars: Seq<Seq<char>>,
) -> (Seq<SpecStmtSettings>, Seq<SpecDiag>)
    decreases entries.len() - i,
{
    if 0 <= i < entries.len() {
        spec_stmt_entries_fold(
            spec_stmt_entry_step(st, entries[i].0, entries[i].1, participates, vary, vars),
            entries,
            i + 1,
            participates,
            vary,
            vars,
        )
    } else {
        st
    }
}

/// Record one initializer entry.
pub open spec fn spec_value_entry_step(
    st: (Seq<SpecValueSettings>, Seq<SpecDiag>),
    name: Seq<char>,
    span: Span,
    participates: bool,
    vars: Seq<Seq<char>>,
) -> (Seq<SpecValueSettings>, Seq<SpecDiag>) {
    let (settings, diags) = st;
    if !spec_vars_contain(vars, name) {
        (
            settings,
            diags.push(SpecDiag { span, kind: SpecDiagKind::UndeclaredVariant { variant: name } }),
        )
    } else if spec_value_has(settings, name) {
        (
            settings,
            diags.push(SpecDiag { span, kind: SpecDiagKind::DuplicateSettings { variant: name } }),
        )
    } else {
        (settings.push(SpecValueSettings { variant: name, participates }), diags)
    }
}

pub open spec fn spec_value_entries_fold(
    st: (Seq<SpecValueSettings>, Seq<SpecDiag>),
    entries: Seq<(Seq<char>, Span)>,
    i: int,
    participates: bool,
    vars: Seq<Seq<char>>,
) -> (Seq<SpecValueSettings>, Seq<SpecDiag>)
    decreases entries.len() - i,
{
    if 0 <= i < entries.len() {
        spec_value_entries_fold(
            spec_value_entry_step(st, entries[i].0, entries[i].1, participates, vars),
            entries,
            i + 1,
            participates,
            vars,
        )
    } else {
        st
    }
}

/// One statement annotation folded into the settings: kept variants
/// first, dropped variants second.
pub open spec fn spec_stmt_ann_apply(
    s: Seq<SpecStmtSettings>,
    ann: SpecStmtAnnotation,
    vars: Seq<Seq<char>>,
) -> (Seq<SpecStmtSettings>, Seq<SpecDiag>) {
    let (s1, d1) = spec_stmt_entries_fold((s, Seq::empty()), ann.keep, 0, true, ann.vary_type, vars);
    let (s2, d2) = spec_stmt_entries_fold(
        (s1, Seq::empty()),
        ann.drops,
        0,
        false,
        ann.vary_type,
        vars,
    );
    (s2, d1 + d2)
}

pub open spec fn spec_stmt_settings_fold(
    anns: Seq<SpecStmtAnnotation>,
    j: int,
    s: Seq<SpecStmtSettings>,
    vars: Seq<Seq<char>>,
) -> (Seq<SpecStmtSettings>, Seq<SpecDiag>)
    decreases anns.len() - j,
{
    if 0 <= j < anns.len() {
        let (s1, d1) = spec_stmt_ann_apply(s, anns[j], vars);
        let (s2, d2) = spec_stmt_settings_fold(anns, j + 1, s1, vars);
        (s2, d1 + d2)
    } else {
        (s, Seq::empty())
    }
}

/// One initializer annotation folded into the settings.
pub open spec fn spec_value_ann_apply(
    s: Seq<SpecValueSettings>,
    ann: SpecValueAnnotation,
    vars: Seq<Seq<char>>,
) -> (Seq<SpecValueSettings>, Seq<SpecDiag>) {
    let (s1, d1) = spec_value_entries_fold((s, Seq::empty()), ann.keep, 0, true, vars);
    let (s2, d2) = spec_value_entries_fold((s1, Seq::empty()), ann.drops, 0, false, vars);
    (s2, d1 + d2)
}

pub open spec fn spec_value_settings_fold(
    anns: Seq<SpecValueAnnotation>,
    j: int,
    s: Seq<SpecValueSettings>,
    vars: Seq<Seq<char>>,
) -> (Seq<SpecValueSettings>, Seq<SpecDiag>)
    decreases anns.len() - j,
{
    if 0 <= j < anns.len() {
        let (s1, d1) = spec_value_ann_apply(s, anns[j], vars);
        let (s2, d2) = spec_value_settings_fold(anns, j + 1, s1, vars);
        (s2, d1 + d2)
    } else {
        (s, Seq::empty())
    }
}

#[verifier::loop_isolation(false)]
fn stmt_entries_exec(
    settings: &mut Vec<StmtSettings>,
    diags: &mut Vec<Diag>,
    entries: &Vec<(String, Span)>,
    participates: bool,
    vary: bool,
    vars: &Vec<String>,
)
    ensures
        ({
            let (s2, d2) = spec_stmt_entries_fold(
                (old(settings).deep_view(), Seq::empty()),
                entries.deep_view(),
                0,
                participates,
                vary,
                vars.deep_view(),
            );
            final(settings).deep_view() == s2 && final(diags).deep_view() == old(
                diags,
            ).deep_view() + d2
        }),
{
    let ghost dent = entries.deep_view();
    let ghost dvars = vars.deep_view();
    let ghost d0 = diags.deep_view();
    let ghost s0 = settings.deep_view();
    let mut newd: Vec<Diag> = Vec::new();
    let mut i: usize = 0;
    proof {
        assert(newd.deep_view() =~= Seq::<SpecDiag>::empty());
    }
    while i < entries.len()
        invariant
            i <= entries.len(),
            diags.deep_view() == d0,
            spec_stmt_entries_fold((s0, Seq::empty()), dent, 0, participates, vary, dvars)
                == spec_stmt_entries_fold(
                (settings.deep_view(), newd.deep_view()),
                dent,
                i as int,
                participates,
                vary,
                dvars,
            ),
        decreases entries.len() - i,
    {
        let ghost st_pre = (settings.deep_view(), newd.deep_view());
        proof {
            assert(dent[i as int] == entries[i as int].deep_view());
            assert(entries[i as int].deep_view() == (
                entries[i as int].0.deep_view(),
                entries[i as int].1,
            ));
        }
        let name = &entries[i].0;
        let span = entries[i].1;
        if !vars_contain(vars, name) {
            newd.push(
                Diag { span, kind: DiagKind::UndeclaredVariant { variant: name.clone() } },
            );
        } else if stmt_has(settings, name) {
            newd.push(
                Diag { span, kind: DiagKind::DuplicateSettings { variant: name.clone() } },
            );
        } else {
            settings.push(
                StmtSettings { variant: name.clone(), participates, vary_type: vary },
            );
        }
        proof {
            let st_post = (settings.deep_view(), newd.deep_view());
            assert(st_post == spec_stmt_entry_step(
                st_pre,
                dent[i as int].0,
                dent[i as int].1,
                participates,
                vary,
                dvars,
            ));
        }
        i += 1;
    }
    append_diags(diags, &newd);
}

#[verifier::loop_isolation(false)]
fn value_entries_exec(
    settings: &mut Vec<ValueSettings>,
    diags: &mut Vec<Diag>,
    entries: &Vec<(String, Span)>,
    participates: bool,
    vars: &Vec<String>,
)
    ensures
        ({
            let (s2, d2) = spec_value_entries_fold(
                (old(settings).deep_view(), Seq::empty()),
                entries.deep_view(),
                0,
                participates,
                vars.deep_view(),
            );
            final(settings).deep_view() == s2 && final(diags).deep_view() == old(
                diags,
            ).deep_view() + d2
        }),
{
    let ghost dent = entries.deep_view();
    let ghost dvars = vars.deep_view();
    let ghost d0 = diags.deep_view();
    let ghost s0 = settings.deep_view();
    let mut newd: Vec<Diag> = Vec::new();
    let mut i: usize = 0;
    proof {
        assert(newd.deep_view() =~= Seq::<SpecDiag>::empty());
    }
    while i < entries.len()
        invariant
            i <= entries.len(),
            diags.deep_view() == d0,
            spec_value_entries_fold((s0, Seq::empty()), dent, 0, participates, dvars)
                == spec_value_entries_fold(
                (settings.deep_view(), newd.deep_view()),
                dent,
                i as int,
                participates,
                dvars,
            ),
        decreases entries.len() - i,
    {
        let ghost st_pre = (settings.deep_view(), newd.deep_view());
        proof {
            assert(dent[i as int] == entries[i as int].deep_view());
            assert(entries[i as int].deep_view() == (
                entries[i as int].0.deep_view(),
                entries[i as int].1,
            ));
        }
        let name = &entries[i].0;
        let span = entries[i].1;
        if !vars_contain(vars, name) {
            newd.push(
                Diag { span, kind: DiagKind::UndeclaredVariant { variant: name.clone() } },
            );
        } else if value_has(settings, name) {
            newd.push(
                Diag { span, kind: DiagKind::DuplicateSettings { variant: name.clone() } },
            );
        } else {
            settings.push(ValueSettings { variant: name.clone(), participates });
        }
        proof {
            let st_post = (settings.deep_view(), newd.deep_view());
            assert(st_post == spec_value_entry_step(
                st_pre,
                dent[i as int].0,
                dent[i as int].1,
                participates,
                dvars,
            ));
        }
        i += 1;
    }
    append_diags(diags, &newd);
}

/// Resolve a statement's attribute list.
#[verifier::loop_isolation(false)]
pub fn resolve_stmt_attrs(attrs: &Vec<Attr>, vars: &Vec<String>, diags: &mut Vec<Diag>) -> (r: (
    Vec<Attr>,
    Vec<StmtSettings>,
))
    ensures
        ({
            let (kept, payloads) = spec_split_attrs(attrs.deep_view());
            let (anns, d1) = spec_stmt_anns_of(payloads);
            let (st, d2) = spec_stmt_settings_fold(anns, 0, Seq::empty(), vars.deep_view());
            &&& r.0.deep_view() == kept
            &&& r.1.deep_view() == st
            &&& final(diags).deep_view() == old(diags).deep_view() + d1 + d2
        }),
{
    let (kept, payloads) = split_attrs(attrs);
    let ghost dpay = payloads.deep_view();
    let ghost d0 = diags.deep_view();
    let mut anns: Vec<crate::parsers::StmtAnnotation> = Vec::new();
    let mut i: usize = 0;
    while i < payloads.len()
        invariant
            i <= payloads.len(),
            dpay == payloads.deep_view(),
            anns.deep_view() == spec_stmt_anns_of(dpay.take(i as int)).0,
            diags.deep_view() == d0 + spec_stmt_anns_of(dpay.take(i as int)).1,
        decreases payloads.len() - i,
    {
        proof {
            assert(dpay.take(i + 1).drop_last() =~= dpay.take(i as int));
            assert(dpay.take(i + 1).last() == payloads[i as int].deep_view());
            assert(payloads[i as int].deep_view() == (
                payloads[i as int].0.deep_view(),
                payloads[i as int].1,
            ));
        }
        let toks = &payloads[i].0;
        let sp = payloads[i].1;
        match parse_values(toks) {
            Some(vs) => {
                let a = stmt_annotation_from(&vs, diags);
                let ghost pre = anns.deep_view();
                anns.push(a);
                proof {
                    assert(anns.deep_view() =~= pre.push(a.deep_view()));
                }
            },
            None => {
                let ghost pre = diags.deep_view();
                diags.push(Diag { span: sp, kind: DiagKind::ValueUnreadable });
                proof {
                    assert(diags.deep_view() =~= pre.push(
                        SpecDiag { span: sp, kind: SpecDiagKind::ValueUnreadable },
                    ));
                }
            },
        }
        i += 1;
    }
    proof {
        assert(dpay.take(payloads.len() as int) =~= dpay);
    }
    let ghost danns = anns.deep_view();
    let ghost dvars = vars.deep_view();
    let ghost dfix = diags.deep_view();
    let mut settings: Vec<StmtSettings> = Vec::new();
    let mut j: usize = 0;
    proof {
        assert(settings.deep_view() =~= Seq::<SpecStmtSettings>::empty());
        assert(diags.deep_view().skip(dfix.len() as int) =~= Seq::<SpecDiag>::empty());
        assert(Seq::<SpecDiag>::empty() + spec_stmt_settings_fold(danns, 0, Seq::empty(), dvars).1
            =~= spec_stmt_settings_fold(danns, 0, Seq::empty(), dvars).1);
    }
    while j < anns.len()
        invariant
            j <= anns.len(),
            danns == anns.deep_view(),
            dfix.len() <= diags.deep_view().len(),
            diags.deep_view().take(dfix.len() as int) == dfix,
            spec_stmt_settings_fold(danns, 0, Seq::empty(), dvars).0
                == spec_stmt_settings_fold(danns, j as int, settings.deep_view(), dvars).0,
            spec_stmt_settings_fold(danns, 0, Seq::empty(), dvars).1 == diags.deep_view().skip(
                dfix.len() as int,
            ) + spec_stmt_settings_fold(danns, j as int, settings.deep_view(), dvars).1,
        decreases anns.len() - j,
    {
        proof {
            assert(danns[j as int] == anns[j as int].deep_view());
        }
        let ghost s_pre = settings.deep_view();
        let ghost x_pre = diags.deep_view().skip(dfix.len() as int);
        let ghost dd1 = spec_stmt_entries_fold(
            (s_pre, Seq::empty()),
            danns[j as int].keep,
            0,
            true,
            danns[j as int].vary_type,
            dvars,
        );
        stmt_entries_exec(
            &mut settings,
            diags,
            &anns[j].keep,
            true,
            anns[j].vary_type,
            vars,
        );
        let ghost s_mid = settings.deep_view();
        let ghost dd2 = spec_stmt_entries_fold(
            (s_mid, Seq::empty()),
            danns[j as int].drops,
            0,
            false,
            danns[j as int].vary_type,
            dvars,
        );
        stmt_entries_exec(
            &mut settings,
            diags,
            &anns[j].drops,
            false,
            anns[j].vary_type,
            vars,
        );
        proof {
            let rest = spec_stmt_settings_fold(danns, j + 1, settings.deep_view(), dvars).1;
            assert(diags.deep_view().skip(dfix.len() as int) =~= (x_pre + dd1.1) + dd2.1);
            assert(spec_stmt_ann_apply(s_pre, danns[j as int], dvars).1 == dd1.1 + dd2.1);
            assert(((x_pre + dd1.1) + dd2.1) + rest =~= x_pre + ((dd1.1 + dd2.1) + rest));
            assert(diags.deep_view().take(dfix.len() as int) =~= dfix);
        }
        j += 1;
    }
    proof {
        let tail = spec_stmt_settings_fold(danns, anns.len() as int, settings.deep_view(), dvars).1;
        assert(tail =~= Seq::<SpecDiag>::empty());
        assert(diags.deep_view().skip(dfix.len() as int) + tail =~= diags.deep_view().skip(
            dfix.len() as int,
        ));
        assert(diags.deep_view() =~= diags.deep_view().take(dfix.len() as int)
            + diags.deep_view().skip(dfix.len() as int));
    }
    (kept, settings)
}

/// The settings a member's attributes resolve to, with the surviving
/// attributes and all diagnostics.
pub open spec fn spec_member_resolution(attrs: Seq<SpecAttr>, vars: Seq<Seq<char>>) -> (
    Seq<SpecAttr>,
    Seq<SpecVariantSettings>,
    Seq<SpecDiag>,
) {
    let (kept, payloads) = spec_split_attrs(attrs);
    let (anns, d1) = spec_member_anns_of(payloads);
    let (st, d2) = spec_member_settings(anns, vars);
    (kept, st, d1 + d2)
}

/// The settings a statement's attributes resolve to.
pub open spec fn spec_stmt_resolution(attrs: Seq<SpecAttr>, vars: Seq<Seq<char>>) -> (
    Seq<SpecAttr>,
    Seq<SpecStmtSettings>,
    Seq<SpecDiag>,
) {
    let (kept, payloads) = spec_split_attrs(attrs);
    let (anns, d1) = spec_stmt_anns_of(payloads);
    let (st, d2) = spec_stmt_settings_fold(anns, 0, Seq::empty(), vars);
    (kept, st, d1 + d2)
}

/// The settings a field-initializer's attributes resolve to.
pub open spec fn spec_value_resolution(attrs: Seq<SpecAttr>, vars: Seq<Seq<char>>) -> (
    Seq<SpecAttr>,
    Seq<SpecValueSettings>,
    Seq<SpecDiag>,
) {
    let (kept, payloads) = spec_split_attrs(attrs);
    let (anns, d1) = spec_value_anns_of(payloads);
    let (st, d2) = spec_value_settings_fold(anns, 0, Seq::empty(), vars);
    (kept, st, d1 + d2)
}

/// Resolve a field-initializer's attribute list.
#[verifier::loop_isolation(false)]
pub fn resolve_value_attrs(attrs: &Vec<Attr>, vars: &Vec<String>, diags: &mut Vec<Diag>) -> (r: (
    Vec<Attr>,
    Vec<ValueSettings>,
))
    ensures
        ({
            let (kept, payloads) = spec_split_attrs(attrs.deep_view());
            let (anns, d1) = spec_value_anns_of(payloads);
            let (st, d2) = spec_value_settings_fold(anns, 0, Seq::empty(), vars.deep_view());
            &&& r.0.deep_view() == kept
            &&& r.1.deep_view() == st
            &&& final(diags).deep_view() == old(diags).deep_view() + d1 + d2
        }),
{
    let (kept, payloads) = split_attrs(attrs);
    let ghost dpay = payloads.deep_view();
    let ghost d0 = diags.deep_view();
    let mut anns: Vec<crate::parsers::ValueAnnotation> = Vec::new();
    let mut i: usize = 0;
    while i < payloads.len()
        invariant
            i <= payloads.len(),
            dpay == payloads.deep_view(),
            anns.deep_view() == spec_value_anns_of(dpay.take(i as int)).0,
            diags.deep_view() == d0 + spec_value_anns_of(dpay.take(i as int)).1,
        decreases payloads.len() - i,
    {
        proof {
            assert(dpay.take(i + 1).drop_last() =~= dpay.take(i as int));
            assert(dpay.take(i + 1).last() == payloads[i as int].deep_view());
            assert(payloads[i as int].deep_view() == (
                payloads[i as int].0.deep_view(),
                payloads[i as int].1,
            ));
        }
        let toks = &payloads[i].0;
        let sp = payloads[i].1;
        match parse_values(toks) {
            Some(vs) => {
                let a = value_annotation_from(&vs, diags);
                let ghost pre = anns.deep_view();
                anns.push(a);
                proof {
                    assert(anns.deep_view() =~= pre.push(a.deep_view()));
                }
            },
            None => {
                let ghost pre = diags.deep_view();
                diags.push(Diag { span: sp, kind: DiagKind::ValueUnreadable });
                proof {
                    assert(diags.deep_view() =~= pre.push(
                        SpecDiag { span: sp, kind: SpecDiagKind::ValueUnreadable },
                    ));
                }
            },
        }
        i += 1;
    }
    proof {
        assert(dpay.take(payloads.len() as int) =~= dpay);
    }
    let ghost danns = anns.deep_view();
    let ghost dvars = vars.deep_view();
    let ghost dfix = diags.deep_view();
    let mut settings: Vec<ValueSettings> = Vec::new();
    let mut j: usize = 0;
    proof {
        assert(settings.deep_view() =~= Seq::<SpecValueSettings>::empty());
        assert(diags.deep_view().skip(dfix.len() as int) =~= Seq::<SpecDiag>::empty());
        assert(Seq::<SpecDiag>::empty() + spec_value_settings_fold(danns, 0, Seq::empty(), dvars).1
            =~= spec_value_settings_fold(danns, 0, Seq::empty(), dvars).1);
    }
    while j < anns.len()
        invariant
            j <= anns.len(),
            danns == anns.deep_view(),
            dfix.len() <= diags.deep_view().len(),
            diags.deep_view().take(dfix.len() as int) == dfix,
            spec_value_settings_fold(danns, 0, Seq::empty(), dvars).0
                == spec_value_settings_fold(danns, j as int, settings.deep_view(), dvars).0,
            spec_value_settings_fold(danns, 0, Seq::empty(), dvars).1 == diags.deep_view().skip(
                dfix.len() as int,
            ) + spec_value_settings_fold(danns, j as int, settings.deep_view(), dvars).1,
        decreases anns.len() - j,
    {
        proof {
            assert(danns[j as int] == anns[j as int].deep_view());
        }
        let ghost s_pre = settings.deep_view();
        let ghost x_pre = diags.deep_view().skip(dfix.len() as int);
        let ghost dd1 = spec_value_entries_fold(
            (s_pre, Seq::empty()),
            danns[j as int].keep,
            0,
            true,
            dvars,
        );
        value_entries_exec(&mut settings, diags, &anns[j].keep, true, vars);
        let ghost s_mid = settings.deep_view();
        let ghost dd2 = spec_value_entries_fold(
            (s_mid, Seq::empty()),
            danns[j as int].drops,
            0,
            false,
            dvars,
        );
        value_entries_exec(&mut settings, diags, &anns[j].drops, false, vars);
        proof {
            let rest = spec_value_settings_fold(danns, j + 1, settings.deep_view(), dvars).1;
            assert(diags.deep_view().skip(dfix.len() as int) =~= (x_pre + dd1.1) + dd2.1);
            assert(spec_value_ann_apply(s_pre, danns[j as int], dvars).1 == dd1.1 + dd2.1);
            assert(((x_pre + dd1.1) + dd2.1) + rest =~= x_pre + ((dd1.1 + dd2.1) + rest));
            assert(diags.deep_view().take(dfix.len() as int) =~= dfix);
        }
        j += 1;
    }
    proof {
        let tail = spec_value_settings_fold(danns, anns.len() as int, settings.deep_view(), dvars).1;
        assert(tail =~= Seq::<SpecDiag>::empty());
        assert(diags.deep_view().skip(dfix.len() as int) + tail =~= diags.deep_view().skip(
            dfix.len() as int,
        ));
        assert(diags.deep_view() =~= diags.deep_view().take(dfix.len() as int)
            + diags.deep_view().skip(dfix.len() as int));
    }
    (kept, settings)
}

/// Resolution of one expression: every struct-literal entry inside it
/// gets its settings, and every marker is consumed.
pub open spec fn spec_resolve_expr(e: SpecExpr, vars: Seq<Seq<char>>) -> (SpecExpr, Seq<SpecDiag>)
    decreases e,
{
    match e {
        SpecExpr::Lit { .. } => (e, Seq::empty()),
        SpecExpr::Path { .. } => (e, Seq::empty()),
        SpecExpr::MacroCall { .. } => (e, Seq::empty()),
        SpecExpr::Call { callee, args } => {
            let (c2, d1) = spec_resolve_expr(*callee, vars);
            let (a2, d2) = spec_resolve_exprs(args, vars);
            (SpecExpr::Call { callee: Box::new(c2), args: a2 }, d1 + d2)
        },
        SpecExpr::MethodCall { receiver, method, args } => {
            let (r2, d1) = spec_resolve_expr(*receiver, vars);
            let (a2, d2) = spec_resolve_exprs(args, vars);
            (SpecExpr::MethodCall { receiver: Box::new(r2), method, args: a2 }, d1 + d2)
        },
        SpecExpr::Binary { op, left, right } => {
            let (l2, d1) = spec_resolve_expr(*left, vars);
            let (r2, d2) = spec_resolve_expr(*right, vars);
            (SpecExpr::Binary { op, left: Box::new(l2), right: Box::new(r2) }, d1 + d2)
        },
        SpecExpr::StructLit { segments, fields } => {
            let (f2, d) = spec_resolve_fvs(fields, vars);
            (SpecExpr::StructLit { segments, fields: f2 }, d)
        },
        SpecExpr::If { cond, then_branch, else_branch } => {
            let (c2, d1) = spec_resolve_expr(*cond, vars);
            let (t2, d2) = spec_resolve_stmts(then_branch, vars);
            match else_branch {
                Some(b) => {
                    let (b2, d3) = spec_resolve_stmts(b, vars);
                    (
                        SpecExpr::If {
                            cond: Box::new(c2),
                            then_branch: t2,
                            else_branch: Some(b2),
                        },
                        d1 + d2 + d3,
                    )
                },
                None => (
                    SpecExpr::If { cond: Box::new(c2), then_branch: t2, else_branch: None },
                    d1 + d2,
                ),
            }
        },
        SpecExpr::Match { scrutinee, arms } => {
            let (s2, d1) = spec_resolve_expr(*scrutinee, vars);
            let (a2, d2) = spec_resolve_arms(arms, vars);
            (SpecExpr::Match { scrutinee: Box::new(s2), arms: a2 }, d1 + d2)
        },
    }
}

pub open spec fn spec_resolve_exprs(s: Seq<SpecExpr>, vars: Seq<Seq<char>>) -> (
    Seq<SpecExpr>,
    Seq<SpecDiag>,
)
    decreases s,
{
    if s.len() == 0 {
        (Seq::empty(), Seq::empty())
    } else {
        let (t, d1) = spec_resolve_exprs(s.drop_last(), vars);
        let (e2, d2) = spec_resolve_expr(s.last(), vars);
        (t.push(e2), d1 + d2)
    }
}

pub open spec fn spec_resolve_fv(fv: SpecFieldValue, vars: Seq<Seq<char>>) -> (
    SpecFieldValue,
    Seq<SpecDiag>,
)
    decreases fv,
{
    let (kept, st, d1) = spec_value_resolution(fv.attrs, vars);
    let (v2, d2) = spec_resolve_expr(fv.value, vars);
    (SpecFieldValue { attrs: kept, settings: st, member: fv.member, value: v2 }, d1 + d2)
}

pub open spec fn spec_resolve_fvs(s: Seq<SpecFieldValue>, vars: Seq<Seq<char>>) -> (
    Seq<SpecFieldValue>,
    Seq<SpecDiag>,
)
    decreases s,
{
    if s.len() == 0 {
        (Seq::empty(), Seq::empty())
    } else {
        let (t, d1) = spec_resolve_fvs(s.drop_last(), vars);
        let (f2, d2) = spec_resolve_fv(s.last(), vars);
        (t.push(f2), d1 + d2)
    }
}

pub open spec fn spec_resolve_stmt(st: SpecStmt, vars: Seq<Seq<char>>) -> (SpecStmt, Seq<SpecDiag>)
    decreases st,
{
    match st {
        SpecStmt::Local { attrs, settings, pat, ty, init } => {
            let (kept, sst, d1) = spec_stmt_resolution(attrs, vars);
            match init {
                Some(e) => {
                    let (e2, d2) = spec_resolve_expr(e, vars);
                    (
                        SpecStmt::Local { attrs: kept, settings: sst, pat, ty, init: Some(e2) },
                        d1 + d2,
                    )
                },
                None => (
                    SpecStmt::Local { attrs: kept, settings: sst, pat, ty, init: None },
                    d1,
                ),
            }
        },
        SpecStmt::ExprStmt { expr, semi } => {
            let (e2, d) = spec_resolve_expr(expr, vars);
            (SpecStmt::ExprStmt { expr: e2, semi }, d)
        },
        SpecStmt::MacroStmt { .. } => (st, Seq::empty()),
    }
}

pub open spec fn spec_resolve_stmts(s: Seq<SpecStmt>, vars: Seq<Seq<char>>) -> (
    Seq<SpecStmt>,
    Seq<SpecDiag>,
)
    decreases s,
{
    if s.len() == 0 {
        (Seq::empty(), Seq::empty())
    } else {
        let (t, d1) = spec_resolve_stmts(s.drop_last(), vars);
        let (s2, d2) = spec_resolve_stmt(s.last(), vars);
        (t.push(s2), d1 + d2)
    }
}

pub open spec fn spec_resolve_arm(a: SpecArm, vars: Seq<Seq<char>>) -> (SpecArm, Seq<SpecDiag>)
    decreases a,
{
    let (b2, d) = spec_resolve_stmts(a.body, vars);
    (SpecArm { pat: a.pat, body: b2 }, d)
}

pub open spec fn spec_resolve_arms(s: Seq<SpecArm>, vars: Seq<Seq<char>>) -> (
    Seq<SpecArm>,
    Seq<SpecDiag>,
)
    decreases s,
{
    if s.len() == 0 {
        (Seq::empty(), Seq::empty())
    } else {
        let (t, d1) = spec_resolve_arms(s.drop_last(), vars);
        let (a2, d2) = spec_resolve_arm(s.last(), vars);
        (t.push(a2), d1 + d2)
    }
}

/// Resolution of one member: its markers become its settings.
pub open spec fn spec_resolve_field(f: SpecField, vars: Seq<Seq<char>>) -> (
    SpecField,
    Seq<SpecDiag>,
) {
    let (kept, st, d) = spec_member_resolution(f.attrs, vars);
    (SpecField { attrs: kept, settings: st, name: f.name, ty: f.ty }, d)
}

pub open spec fn spec_resolve_fields_list(fs: Seq<SpecField>, vars: Seq<Seq<char>>) -> (
    Seq<SpecField>,
    Seq<SpecDiag>,
)
    decreases fs.len(),
{
    if fs.len() == 0 {
        (Seq::empty(), Seq::empty())
    } else {
        let (t, d1) = spec_resolve_fields_list(fs.drop_last(), vars);
        let (f2, d2) = spec_resolve_field(fs.last(), vars);
        (t.push(f2), d1 + d2)
    }
}

pub open spec fn spec_resolve_fields_kind(k: SpecFieldsKind, vars: Seq<Seq<char>>) -> (
    SpecFieldsKind,
    Seq<SpecDiag>,
) {
    match k {
        SpecFieldsKind::Named(fs) => {
            let (f2, d) = spec_resolve_fields_list(fs, vars);
            (SpecFieldsKind::Named(f2), d)
        },
        SpecFieldsKind::Unnamed(fs) => {
            let (f2, d) = spec_resolve_fields_list(fs, vars);
            (SpecFieldsKind::Unnamed(f2), d)
        },
        SpecFieldsKind::Unit => (SpecFieldsKind::Unit, Seq::empty()),
    }
}

/// Resolution of one enum case: markers on the case itself are dropped,
/// its members are resolved like struct members.
pub open spec fn spec_resolve_case(c: SpecCase, vars: Seq<Seq<char>>) -> (SpecCase, Seq<SpecDiag>) {
    let (f2, d) = spec_resolve_fields_kind(c.fields, vars);
    (SpecCase { attrs: spec_split_attrs(c.attrs).0, name: c.name, fields: f2 }, d)
}

pub open spec fn spec_resolve_cases(cs: Seq<SpecCase>, vars: Seq<Seq<char>>) -> (
    Seq<SpecCase>,
    Seq<SpecDiag>,
)
    decreases cs.len(),
{
    if cs.len() == 0 {
        (Seq::empty(), Seq::empty())
    } else {
        let (t, d1) = spec_resolve_cases(cs.drop_last(), vars);
        let (c2, d2) = spec_resolve_case(cs.last(), vars);
        (t.push(c2), d1 + d2)
    }
}

/// Resolution of one impl item: markers on the item head are dropped, its
/// body is resolved.
pub open spec fn spec_resolve_assoc(a: SpecAssocItem, vars: Seq<Seq<char>>) -> (
    SpecAssocItem,
    Seq<SpecDiag>,
)
    decreases a,
{
    match a {
        SpecAssocItem::Const { attrs, name, ty, value } => {
            let (v2, d) = spec_resolve_expr(value, vars);
            (
                SpecAssocItem::Const { attrs: spec_split_attrs(attrs).0, name, ty, value: v2 },
                d,
            )
        },
        SpecAssocItem::Method { attrs, name, params, ret, body } => {
            let (b2, d) = spec_resolve_stmts(body, vars);
            (
                SpecAssocItem::Method {
                    attrs: spec_split_attrs(attrs).0,
                    name,
                    params,
                    ret,
                    body: b2,
                },
                d,
            )
        },
    }
}

pub open spec fn spec_resolve_assocs(s: Seq<SpecAssocItem>, vars: Seq<Seq<char>>) -> (
    Seq<SpecAssocItem>,
    Seq<SpecDiag>,
)
    decreases s,
{
    if s.len() == 0 {
        (Seq::empty(), Seq::empty())
    } else {
        let (t, d1) = spec_resolve_assocs(s.drop_last(), vars);
        let (a2, d2) = spec_resolve_assoc(s.last(), vars);
        (t.push(a2), d1 + d2)
    }
}

/// Resolution of a whole declaration: one walk that consumes every
/// annotation marker into per-node settings and keeps all other
/// attributes.
pub open spec fn spec_resolve_item(item: SpecItem, vars: Seq<Seq<char>>) -> (
    SpecItem,
    Seq<SpecDiag>,
) {
    match item {
        SpecItem::Struct { attrs, name, fields } => {
            let (f2, d) = spec_resolve_fields_kind(fields, vars);
            (SpecItem::Struct { attrs: spec_split_attrs(attrs).0, name, fields: f2 }, d)
        },
        SpecItem::Enum { attrs, name, cases } => {
            let (c2, d) = spec_resolve_cases(cases, vars);
            (SpecItem::Enum { attrs: spec_split_attrs(attrs).0, name, cases: c2 }, d)
        },
        SpecItem::Impl { attrs, self_ty, trait_path, items } => {
            let (i2, d) = spec_resolve_assocs(items, vars);
            (
                SpecItem::Impl {
                    attrs: spec_split_attrs(attrs).0,
                    self_ty,
                    trait_path,
                    items: i2,
                },
                d,
            )
        },
    }
}

fn duplicate_opt_string(o: &Option<String>) -> (r: Option<String>)
    ensures
        r.deep_view() == o.deep_view(),
{
    match o {
        Some(s) => Some(s.clone()),
        None => None,
    }
}

fn duplicate_opt_ty(o: &Option<Ty>) -> (r: Option<Ty>)
    ensures
        r.deep_view() == o.deep_view(),
{
    match o {
        Some(t) => Some(t.duplicate()),
        None => None,
    }
}

#[verifier::loop_isolation(false)]
fn resolve_expr(e: &Expr, vars: &Vec<String>, diags: &mut Vec<Diag>) -> (r: Expr)
    ensures
        r.spec_view() == spec_resolve_expr(e.spec_view(), vars.deep_view()).0,
        final(diags).deep_view() == old(diags).deep_view() + spec_resolve_expr(
            e.spec_view(),
            vars.deep_view(),
        ).1,
    decreases e,
{
    let ghost dvars = vars.deep_view();
    let ghost d0 = diags.deep_view();
    match e {
        Expr::Lit { lit } => {
            proof {
                assert(d0 + Seq::<SpecDiag>::empty() =~= d0);
            }
            Expr::Lit { lit: lit.duplicate() }
        },
        Expr::Path { segments } => {
            proof {
                assert(d0 + Seq::<SpecDiag>::empty() =~= d0);
            }
            Expr::Path { segments: duplicate_strings(segments) }
        },
        Expr::MacroCall { name, span } => {
            proof {
                assert(d0 + Seq::<SpecDiag>::empty() =~= d0);
            }
            Expr::MacroCall { name: name.clone(), span: *span }
        },
        Expr::Call { callee, args } => {
            let ghost a = spec_resolve_expr((**callee).spec_view(), dvars).1;
            let ghost b = spec_resolve_exprs(args.deep_view(), dvars).1;
            let c2 = resolve_expr(callee, vars, diags);
            let a2 = resolve_exprs(args, vars, diags);
            let ghost ga = a2.deep_view();
            let r = Expr::Call { callee: Box::new(c2), args: a2 };
            proof {
                assert((d0 + a) + b =~= d0 + (a + b));
                assert(e.spec_view()->Call_args =~= args.deep_view());
                assert(r.spec_view()->Call_args =~= ga);
            }
            r
        },
        Expr::MethodCall { receiver, method, args } => {
            let ghost a = spec_resolve_expr((**receiver).spec_view(), dvars).1;
            let ghost b = spec_resolve_exprs(args.deep_view(), dvars).1;
            let r2 = resolve_expr(receiver, vars, diags);
            let a2 = resolve_exprs(args, vars, diags);
            let ghost ga = a2.deep_view();
            let r = Expr::MethodCall { receiver: Box::new(r2), method: method.clone(), args: a2 };
            proof {
                assert((d0 + a) + b =~= d0 + (a + b));
                assert(e.spec_view()->MethodCall_args =~= args.deep_view());
                assert(r.spec_view()->MethodCall_args =~= ga);
            }
            r
        },
        Expr::Binary { op, left, right } => {
            let ghost a = spec_resolve_expr((**left).spec_view(), dvars).1;
            let ghost b = spec_resolve_expr((**right).spec_view(), dvars).1;
            let l2 = resolve_expr(left, vars, diags);
            let r2 = resolve_expr(right, vars, diags);
            proof {
                assert((d0 + a) + b =~= d0 + (a + b));
            }
            Expr::Binary { op: *op, left: Box::new(l2), right: Box::new(r2) }
        },
        Expr::StructLit { segments, fields } => {
            let f2 = resolve_fvs(fields, vars, diags);
            let ghost gf = f2.deep_view();
            let r = Expr::StructLit { segments: duplicate_strings(segments), fields: f2 };
            proof {
                assert(r.spec_view()->StructLit_fields =~= gf);
                assert(e.spec_view()->StructLit_fields =~= fields.deep_view());
            }
            r
        },
        Expr::If { cond, then_branch, else_branch } => {
            let ghost a = spec_resolve_expr((**cond).spec_view(), dvars).1;
            let ghost b = spec_resolve_stmts(then_branch.spec_view(), dvars).1;
            let c2 = resolve_expr(cond, vars, diags);
            let t2 = resolve_block(then_branch, vars, diags);
            match else_branch {
                Some(bl) => {
                    let ghost c = spec_resolve_stmts(bl.spec_view(), dvars).1;
                    let b2 = resolve_block(bl, vars, diags);
                    proof {
                        assert(((d0 + a) + b) + c =~= d0 + (a + b + c));
                    }
                    Expr::If {
                        cond: Box::new(c2),
                        then_branch: t2,
                        else_branch: Some(b2),
                    }
                },
                None => {
                    proof {
                        assert((d0 + a) + b =~= d0 + (a + b));
                    }
                    Expr::If { cond: Box::new(c2), then_branch: t2, else_branch: None }
                },
            }
        },
        Expr::Match { scrutinee, arms } => {
            let ghost a = spec_resolve_expr((**scrutinee).spec_view(), dvars).1;
            let ghost b = spec_resolve_arms(arms.deep_view(), dvars).1;
            let s2 = resolve_expr(scrutinee, vars, diags);
            let a2 = resolve_arms(arms, vars, diags);
            let ghost ga = a2.deep_view();
            let r = Expr::Match { scrutinee: Box::new(s2), arms: a2 };
            proof {
                assert((d0 + a) + b =~= d0 + (a + b));
                assert(r.spec_view()->Match_arms =~= ga);
                assert(e.spec_view()->Match_arms =~= arms.deep_view());
            }
            r
        },
    }
}

#[verifier::loop_isolation(false)]
fn resolve_exprs(s: &Vec<Expr>, vars: &Vec<String>, diags: &mut Vec<Diag>) -> (r: Vec<Expr>)
    ensures
        r.deep_view() == spec_resolve_exprs(s.deep_view(), vars.deep_view()).0,
        final(diags).deep_view() == old(diags).deep_view() + spec_resolve_exprs(
            s.deep_view(),
            vars.deep_view(),
        ).1,
    decreases s,
{
    let ghost ds = s.deep_view();
    let ghost dvars = vars.deep_view();
    let ghost d0 = diags.deep_view();
    let mut out: Vec<Expr> = Vec::new();
    let mut i: usize = 0;
    proof {
        assert(out.deep_view() =~= Seq::<SpecExpr>::empty());
        assert(d0 + Seq::<SpecDiag>::empty() =~= d0);
    }
    while i < s.len()
        invariant
            i <= s.len(),
            ds == s.deep_view(),
            out.deep_view() == spec_resolve_exprs(ds.take(i as int), dvars).0,
            diags.deep_view() == d0 + spec_resolve_exprs(ds.take(i as int), dvars).1,
        decreases s.len() - i,
    {
        proof {
            assert(ds.take(i + 1).drop_last() =~= ds.take(i as int));
            assert(ds.take(i + 1).last() == s[i as int].spec_view());
        }
        let ghost a = spec_resolve_exprs(ds.take(i as int), dvars).1;
        let ghost b = spec_resolve_expr(ds[i as int], dvars).1;
        let e2 = resolve_expr(&s[i], vars, diags);
        let ghost pre = out.deep_view();
        out.push(e2);
        proof {
            assert(out.deep_view() =~= pre.push(e2.spec_view()));
            assert((d0 + a) + b =~= d0 + (a + b));
        }
        i += 1;
    }
    proof {
        assert(ds.take(s.len() as int) =~= ds);
    }
    out
}

#[verifier::loop_isolation(false)]
fn resolve_fv(fv: &FieldValue, vars: &Vec<String>, diags: &mut Vec<Diag>) -> (r: FieldValue)
    ensures
        r.spec_view() == spec_resolve_fv(fv.spec_view(), vars.deep_view()).0,
        final(diags).deep_view() == old(diags).deep_view() + spec_resolve_fv(
            fv.spec_view(),
            vars.deep_view(),
        ).1,
    decreases fv,
{
    let (kept, st) = resolve_value_attrs(&fv.attrs, vars, diags);
    let v2 = resolve_expr(&fv.value, vars, diags);
    FieldValue { attrs: kept, settings: st, member: fv.member.clone(), value: v2 }
}

#[verifier::loop_isolation(false)]
fn resolve_fvs(s: &Vec<FieldValue>, vars: &Vec<String>, diags: &mut Vec<Diag>) -> (r: Vec<
    FieldValue,
>)
    ensures
        r.deep_view() == spec_resolve_fvs(s.deep_view(), vars.deep_view()).0,
        final(diags).deep_view() == old(diags).deep_view() + spec_resolve_fvs(
            s.deep_view(),
            vars.deep_view(),
        ).1,
    decreases s,
{
    let ghost ds = s.deep_view();
    let ghost dvars = vars.deep_view();
    let ghost d0 = diags.deep_view();
    let mut out: Vec<FieldValue> = Vec::new();
    let mut i: usize = 0;
    proof {
        assert(out.deep_view() =~= Seq::<SpecFieldValue>::empty());
        assert(d0 + Seq::<SpecDiag>::empty() =~= d0);
    }
    while i < s.len()
        invariant
            i <= s.len(),
            ds == s.deep_view(),
            out.deep_view() == spec_resolve_fvs(ds.take(i as int), dvars).0,
            diags.deep_view() == d0 + spec_resolve_fvs(ds.take(i as int), dvars).1,
        decreases s.len() - i,
    {
        proof {
            assert(ds.take(i + 1).drop_last() =~= ds.take(i as int));
            assert(ds.take(i + 1).last() == s[i as int].spec_view());
        }
        let ghost a = spec_resolve_fvs(ds.take(i as int), dvars).1;
        let ghost b = spec_resolve_fv(ds[i as int], dvars).1;
        let f2 = resolve_fv(&s[i], vars, diags);
        let ghost pre = out.deep_view();
        out.push(f2);
        proof {
            assert(out.deep_view() =~= pre.push(f2.spec_view()));
            assert((d0 + a) + b =~= d0 + (a + b));
        }
        i += 1;
    }
    proof {
        assert(ds.take(s.len() as int) =~= ds);
    }
    out
}

#[verifier::loop_isolation(false)]
fn resolve_stmt(st: &Stmt, vars: &Vec<String>, diags: &mut Vec<Diag>) -> (r: Stmt)
    ensures
        r.spec_view() == spec_resolve_stmt(st.spec_view(), vars.deep_view()).0,
        final(diags).deep_view() == old(diags).deep_view() + spec_resolve_stmt(
            st.spec_view(),
            vars.deep_view(),
        ).1,
    decreases st,
{
    match st {
        Stmt::Local { attrs, settings, pat, ty, init } => {
            let (kept, sst) = resolve_stmt_attrs(attrs, vars, diags);
            match init {
                Some(e) => {
                    let e2 = resolve_expr(e, vars, diags);
                    Stmt::Local {
                        attrs: kept,
                        settings: sst,
                        pat: pat.duplicate(),
                        ty: duplicate_opt_ty(ty),
                        init: Some(e2),
                    }
                },
                None => Stmt::Local {
                    attrs: kept,
                    settings: sst,
                    pat: pat.duplicate(),
                    ty: duplicate_opt_ty(ty),
                    init: None,
                },
            }
        },
        Stmt::ExprStmt { expr, semi } => {
            let e2 = resolve_expr(expr, vars, diags);
            Stmt::ExprStmt { expr: e2, semi: *semi }
        },
        Stmt::MacroStmt { name, span } => Stmt::MacroStmt { name: name.clone(), span: *span },
    }
}

#[verifier::loop_isolation(false)]
fn resolve_block(b: &Block, vars: &Vec<String>, diags: &mut Vec<Diag>) -> (r: Block)
    ensures
        r.spec_view() == spec_resolve_stmts(b.spec_view(), vars.deep_view()).0,
        final(diags).deep_view() == old(diags).deep_view() + spec_resolve_stmts(
            b.spec_view(),
            vars.deep_view(),
        ).1,
    decreases b,
{
    let ghost ds = b.spec_view();
    let ghost dvars = vars.deep_view();
    let ghost d0 = diags.deep_view();
    let mut out: Vec<Stmt> = Vec::new();
    let mut i: usize = 0;
    proof {
        assert(out.deep_view() =~= Seq::<SpecStmt>::empty());
        assert(d0 + Seq::<SpecDiag>::empty() =~= d0);
        assert(ds.len() == b.stmts.len());
    }
    while i < b.stmts.len()
        invariant
            i <= b.stmts.len(),
            ds == b.spec_view(),
            out.deep_view() == spec_resolve_stmts(ds.take(i as int), dvars).0,
            diags.deep_view() == d0 + spec_resolve_stmts(ds.take(i as int), dvars).1,
        decreases b.stmts.len() - i,
    {
        proof {
            assert(ds[i as int] == b.stmts[i as int].spec_view());
            assert(ds.take(i + 1).drop_last() =~= ds.take(i as int));
            assert(ds.take(i + 1).last() == b.stmts[i as int].spec_view());
        }
        let ghost a = spec_resolve_stmts(ds.take(i as int), dvars).1;
        let ghost b2 = spec_resolve_stmt(ds[i as int], dvars).1;
        let s2 = resolve_stmt(&b.stmts[i], vars, diags);
        let ghost pre = out.deep_view();
        out.push(s2);
        proof {
            assert(out.deep_view() =~= pre.push(s2.spec_view()));
            assert((d0 + a) + b2 =~= d0 + (a + b2));
        }
        i += 1;
    }
    proof {
        assert(ds.take(b.stmts.len() as int) =~= ds);
    }
    let r = Block { stmts: out };
    proof {
        assert(r.spec_view() =~= spec_resolve_stmts(ds, dvars).0);
    }
    r
}

#[verifier::loop_isolation(false)]
fn resolve_arms(s: &Vec<Arm>, vars: &Vec<String>, diags: &mut Vec<Diag>) -> (r: Vec<Arm>)
    ensures
        r.deep_view() == spec_resolve_arms(s.deep_view(), vars.deep_view()).0,
        final(diags).deep_view() == old(diags).deep_view() + spec_resolve_arms(
            s.deep_view(),
            vars.deep_view(),
        ).1,
    decreases s,
{
    let ghost ds = s.deep_view();
    let ghost dvars = vars.deep_view();
    let ghost d0 = diags.deep_view();
    let mut out: Vec<Arm> = Vec::new();
    let mut i: usize = 0;
    proof {
        assert(out.deep_view() =~= Seq::<SpecArm>::empty());
        assert(d0 + Seq::<SpecDiag>::empty() =~= d0);
    }
    while i < s.len()
        invariant
            i <= s.len(),
            ds == s.deep_view(),
            out.deep_view() == spec_resolve_arms(ds.take(i as int), dvars).0,
            diags.deep_view() == d0 + spec_resolve_arms(ds.take(i as int), dvars).1,
        decreases s.len() - i,
    {
        proof {
            assert(ds.take(i + 1).drop_last() =~= ds.take(i as int));
            assert(ds.take(i + 1).last() == s[i as int].spec_view());
        }
        let ghost a = spec_resolve_arms(ds.take(i as int), dvars).1;
        let ghost b = spec_resolve_arm(ds[i as int], dvars).1;
        let body2 = resolve_block(&s[i].body, vars, diags);
        let a2 = Arm { pat: s[i].pat.duplicate(), body: body2 };
        let ghost pre = out.deep_view();
        out.push(a2);
        proof {
            assert(out.deep_view() =~= pre.push(a2.spec_view()));
            assert((d0 + a) + b =~= d0 + (a + b));
        }
        i += 1;
    }
    proof {
        assert(ds.take(s.len() as int) =~= ds);
    }
    out
}

#[verifier::loop_isolation(false)]
fn resolve_fields_list(fs: &Vec<Field>, vars: &Vec<String>, diags: &mut Vec<Diag>) -> (r: Vec<
    Field,
>)
    ensures
        r.deep_view() == spec_resolve_fields_list(fs.deep_view(), vars.deep_view()).0,
        final(diags).deep_view() == old(diags).deep_view() + spec_resolve_fields_list(
            fs.deep_view(),
            vars.deep_view(),
        ).1,
{
    let ghost ds = fs.deep_view();
    let ghost dvars = vars.deep_view();
    let ghost d0 = diags.deep_view();
    let mut out: Vec<Field> = Vec::new();
    let mut i: usize = 0;
    proof {
        assert(out.deep_view() =~= Seq::<crate::ast::SpecField>::empty());
        assert(d0 + Seq::<SpecDiag>::empty() =~= d0);
    }
    while i < fs.len()
        invariant
            i <= fs.len(),
            ds == fs.deep_view(),
            out.deep_view() == spec_resolve_fields_list(ds.take(i as int), dvars).0,
            diags.deep_view() == d0 + spec_resolve_fields_list(ds.take(i as int), dvars).1,
        decreases fs.len() - i,
    {
        proof {
            assert(ds.take(i + 1).drop_last() =~= ds.take(i as int));
            assert(ds.take(i + 1).last() == fs[i as int].deep_view());
        }
        let ghost a = spec_resolve_fields_list(ds.take(i as int), dvars).1;
        let ghost b = spec_resolve_field(ds[i as int], dvars).1;
        let f = &fs[i];
        let (kept, st) = resolve_member_attrs(&f.attrs, vars, diags);
        let f2 = Field {
            attrs: kept,
            settings: st,
            name: duplicate_opt_string(&f.name),
            ty: f.ty.duplicate(),
        };
        let ghost pre = out.deep_view();
        out.push(f2);
        proof {
            assert(out.deep_view() =~= pre.push(f2.deep_view()));
            assert((d0 + a) + b =~= d0 + (a + b));
        }
        i += 1;
    }
    proof {
        assert(ds.take(fs.len() as int) =~= ds);
    }
    out
}

fn resolve_fields_kind(k: &FieldsKind, vars: &Vec<String>, diags: &mut Vec<Diag>) -> (r:
    FieldsKind)
    ensures
        r.deep_view() == spec_resolve_fields_kind(k.deep_view(), vars.deep_view()).0,
        final(diags).deep_view() == old(diags).deep_view() + spec_resolve_fields_kind(
            k.deep_view(),
            vars.deep_view(),
        ).1,
{
    match k {
        FieldsKind::Named(fs) => FieldsKind::Named(resolve_fields_list(fs, vars, diags)),
        FieldsKind::Unnamed(fs) => FieldsKind::Unnamed(resolve_fields_list(fs, vars, diags)),
        FieldsKind::Unit => {
            proof {
                assert(final(diags).deep_view() =~= old(diags).deep_view()
                    + Seq::<SpecDiag>::empty());
            }
            FieldsKind::Unit
        },
    }
}

#[verifier::loop_isolation(false)]
fn resolve_cases(cs: &Vec<Case>, vars: &Vec<String>, diags: &mut Vec<Diag>) -> (r: Vec<Case>)
    ensures
        r.deep_view() == spec_resolve_cases(cs.deep_view(), vars.deep_view()).0,
        final(diags).deep_view() == old(diags).deep_view() + spec_resolve_cases(
            cs.deep_view(),
            vars.deep_view(),
        ).1,
{
    let ghost ds = cs.deep_view();
    let ghost dvars = vars.deep_view();
    let ghost d0 = diags.deep_view();
    let mut out: Vec<Case> = Vec::new();
    let mut i: usize = 0;
    proof {
        assert(out.deep_view() =~= Seq::<crate::ast::SpecCase>::empty());
        assert(d0 + Seq::<SpecDiag>::empty() =~= d0);
    }
    while i < cs.len()
        invariant
            i <= cs.len(),
            ds == cs.deep_view(),
            out.deep_view() == spec_resolve_cases(ds.take(i as int), dvars).0,
            diags.deep_view() == d0 + spec_resolve_cases(ds.take(i as int), dvars).1,
        decreases cs.len() - i,
    {
        proof {
            assert(ds.take(i + 1).drop_last() =~= ds.take(i as int));
            assert(ds.take(i + 1).last() == cs[i as int].deep_view());
        }
        let ghost a = spec_resolve_cases(ds.take(i as int), dvars).1;
        let ghost b = spec_resolve_case(ds[i as int], dvars).1;
        let c = &cs[i];
        let f2 = resolve_fields_kind(&c.fields, vars, diags);
        let remover = AttributeRemover::new();
        let c2 = Case { attrs: remover.strip(&c.attrs), name: c.name.clone(), fields: f2 };
        let ghost pre = out.deep_view();
        out.push(c2);
        proof {
            assert(out.deep_view() =~= pre.push(c2.deep_view()));
            assert((d0 + a) + b =~= d0 + (a + b));
        }
        i += 1;
    }
    proof {
        assert(ds.take(cs.len() as int) =~= ds);
    }
    out
}

fn duplicate_params(ps: &Vec<Param>) -> (r: Vec<Param>)
    ensures
        r.deep_view() == ps.deep_view(),
{
    let mut out: Vec<Param> = Vec::new();
    let mut i: usize = 0;
    while i < ps.len()
        invariant
            i <= ps.len(),
            out.len() == i,
            forall|k: int| 0 <= k < i ==> out[k].deep_view() == ps[k].deep_view(),
        decreases ps.len() - i,
    {
        out.push(Param { name: ps[i].name.clone(), ty: ps[i].ty.duplicate() });
        i += 1;
    }
    proof {
        assert(out.deep_view() =~= ps.deep_view());
    }
    out
}

#[verifier::loop_isolation(false)]
fn resolve_assoc(a: &AssocItem, vars: &Vec<String>, diags: &mut Vec<Diag>) -> (r: AssocItem)
    ensures
        r.deep_view() == spec_resolve_assoc(a.deep_view(), vars.deep_view()).0,
        final(diags).deep_view() == old(diags).deep_view() + spec_resolve_assoc(
            a.deep_view(),
            vars.deep_view(),
        ).1,
    decreases a,
{
    let remover = AttributeRemover::new();
    match a {
        AssocItem::Const { attrs, name, ty, value } => {
            let v2 = resolve_expr(value, vars, diags);
            AssocItem::Const {
                attrs: remover.strip(attrs),
                name: name.clone(),
                ty: ty.duplicate(),
                value: v2,
            }
        },
        AssocItem::Method { attrs, name, params, ret, body } => {
            let b2 = resolve_block(body, vars, diags);
            AssocItem::Method {
                attrs: remover.strip(attrs),
                name: name.clone(),
                params: duplicate_params(params),
                ret: duplicate_opt_ty(ret),
                body: b2,
            }
        },
    }
}

#[verifier::loop_isolation(false)]
fn resolve_assocs(s: &Vec<AssocItem>, vars: &Vec<String>, diags: &mut Vec<Diag>) -> (r: Vec<
    AssocItem,
>)
    ensures
        r.deep_view() == spec_resolve_assocs(s.deep_view(), vars.deep_view()).0,
        final(diags).deep_view() == old(diags).deep_view() + spec_resolve_assocs(
            s.deep_view(),
            vars.deep_view(),
        ).1,
    decreases s,
{
    let ghost ds = s.deep_view();
    let ghost dvars = vars.deep_view();
    let ghost d0 = diags.deep_view();
    let mut out: Vec<AssocItem> = Vec::new();
    let mut i: usize = 0;
    proof {
        assert(out.deep_view() =~= Seq::<crate::ast::SpecAssocItem>::empty());
        assert(d0 + Seq::<SpecDiag>::empty() =~= d0);
    }
    while i < s.len()
        invariant
            i <= s.len(),
            ds == s.deep_view(),
            out.deep_view() == spec_resolve_assocs(ds.take(i as int), dvars).0,
            diags.deep_view() == d0 + spec_resolve_assocs(ds.take(i as int), dvars).1,
        decreases s.len() - i,
    {
        proof {
            assert(ds.take(i + 1).drop_last() =~= ds.take(i as int));
            assert(ds.take(i + 1).last() == s[i as int].deep_view());
        }
        let ghost a = spec_resolve_assocs(ds.take(i as int), dvars).1;
        let ghost b = spec_resolve_assoc(ds[i as int], dvars).1;
        let a2 = resolve_assoc(&s[i], vars, diags);
        let ghost pre = out.deep_view();
        out.push(a2);
        proof {
            assert(out.deep_view() =~= pre.push(a2.deep_view()));
            assert((d0 + a) + b =~= d0 + (a + b));
        }
        i += 1;
    }
    proof {
        assert(ds.take(s.len() as int) =~= ds);
    }
    out
}

/// Resolve a whole declaration against the declared variant list: every
/// annotation marker is consumed into the settings of the node that
/// carried it, every other attribute survives, and every problem found on
/// the way is appended to `diags`.
pub fn resolve_item(item: &Item, ctx: &Context, diags: &mut Vec<Diag>) -> (r: Item)
    ensures
        r.deep_view() == spec_resolve_item(item.deep_view(), ctx.variants.deep_view()).0,
        final(diags).deep_view() == old(diags).deep_view() + spec_resolve_item(
            item.deep_view(),
            ctx.variants.deep_view(),
        ).1,
{
    let remover = AttributeRemover::new();
    match item {
        Item::Struct { attrs, name, fields } => {
            let f2 = resolve_fields_kind(fields, &ctx.variants, diags);
            Item::Struct { attrs: remover.strip(attrs), name: name.clone(), fields: f2 }
        },
        Item::Enum { attrs, name, cases } => {
            let c2 = resolve_cases(cases, &ctx.variants, diags);
            Item::Enum { attrs: remover.strip(attrs), name: name.clone(), cases: c2 }
        },
        Item::Impl { attrs, self_ty, trait_path, items } => {
            let i2 = resolve_assocs(items, &ctx.variants, diags);
            Item::Impl {
                attrs: remover.strip(attrs),
                self_ty: self_ty.duplicate(),
                trait_path: match trait_path {
                    Some(p) => Some(duplicate_strings(p)),
                    None => None,
                },
                items: i2,
            }
        },
    }
}

} // verus!
