//! Structural expansion.
//!
//! For each requested variant the resolved declaration is rewritten into
//! one specialized copy: placeholders are substituted first, then members,
//! statements and initializer entries whose settings exclude the variant
//! are dropped, replacement-type templates are applied, self-referential
//! paths are renamed to the variant-suffixed form, and the declared
//! identifier itself gets the variant appended.  The base declaration is
//! emitted first, unfiltered and unrenamed.  Every copy leaves with empty
//! settings: the annotation markers were consumed during resolution and
//! nothing of them survives into the output.

use vstd::prelude::*;
use vstd::string::StringExecFns;

use crate::ast::{
    Arm, AssocItem, Attr, Block, Case, Expr, Field, FieldValue, FieldsKind, Item, Param, Retype,
    Span, SpecArm, SpecAssocItem, SpecAttr, SpecCase, SpecExpr, SpecField, SpecFieldValue,
    SpecFieldsKind, SpecItem, SpecParam, SpecRetype, SpecStmt, SpecStmtSettings, SpecTy, SpecValueSettings,
    SpecVariantSettings, Stmt, StmtSettings, Ty, ValueSettings, VariantSettings, duplicate_attrs,
    duplicate_strings, duplicate_tys,
};
use crate::context::{Context, spec_resolve_item, resolve_item};
use crate::errors::{Diag, DiagKind, SpecDiag, SpecDiagKind};
use crate::typetext::{parse_type_text, render_ty, spec_parse_type_text, spec_render_ty, spec_subst_template, subst_template};
use crate::subst::{spec_subst_expr, spec_subst_stmts, spec_subst_ty, spec_subst_tys, spec_suffix_last, subst_block, subst_expr, subst_ty, suffix_last};
use crate::words::text_eq;

verus! {

broadcast use vstd::std_specs::vec::group_vec_axioms;

/// Whether a path starts with the base path, segment for segment.
pub open spec fn spec_path_matches(segs: Seq<Seq<char>>, base: Seq<Seq<char>>) -> bool {
    base.len() > 0 && segs.len() >= base.len() && (forall|k: int|
        0 <= k < base.len() ==> segs[k] == base[k])
}

/// A path with the variant appended to the segment standing where the
/// base path ends, when the leading segments match the base path.
pub open spec fn spec_rename_path(
    segs: Seq<Seq<char>>,
    base: Seq<Seq<char>>,
    v: Seq<char>,
) -> Seq<Seq<char>> {
    if spec_path_matches(segs, base) {
        segs.update(base.len() - 1, segs[base.len() - 1] + v)
    } else {
        segs
    }
}

fn path_matches(segs: &Vec<String>, base: &Vec<String>) -> (r: bool)
    ensures
        r == spec_path_matches(segs.deep_view(), base.deep_view()),
{
    let ghost dsegs = segs.deep_view();
    let ghost dbase = base.deep_view();
    if base.len() == 0 || segs.len() < base.len() {
        return false;
    }
    let mut k: usize = 0;
    while k < base.len()
        invariant
            k <= base.len(),
            base.len() <= segs.len(),
            base.len() > 0,
            dsegs == segs.deep_view(),
            dbase == base.deep_view(),
            forall|x: int| 0 <= x < k ==> dsegs[x] == dbase[x],
        decreases base.len() - k,
    {
        proof {
            assert(dsegs[k as int] == segs[k as int]@);
            assert(dbase[k as int] == base[k as int]@);
        }
        if !text_eq(&segs[k], &base[k]) {
            return false;
        }
        k += 1;
    }
    true
}

fn rename_path(segs: &Vec<String>, base: &Vec<String>, v: &String) -> (r: Vec<String>)
    ensures
        r.deep_view() == spec_rename_path(segs.deep_view(), base.deep_view(), v@),
{
    let ghost dsegs = segs.deep_view();
    if path_matches(segs, base) {
        let mut out: Vec<String> = Vec::new();
        let mut i: usize = 0;
        while i < segs.len()
            invariant
                i <= segs.len(),
                out.len() == i,
                dsegs == segs.deep_view(),
                base.len() > 0 && base.len() <= segs.len(),
                forall|x: int|
                    0 <= x < i ==> out[x].deep_view() == (if x == base.len() - 1 {
                        dsegs[x] + v@
                    } else {
                        dsegs[x]
                    }),
            decreases segs.len() - i,
        {
            proof {
                assert(dsegs[i as int] == segs[i as int]@);
            }
            if i == base.len() - 1 {
                let mut s = segs[i].clone();
                s.append(v.as_str());
                out.push(s);
            } else {
                out.push(segs[i].clone());
            }
            i += 1;
        }
        proof {
            assert(out.deep_view() =~= spec_rename_path(dsegs, base.deep_view(), v@));
        }
        out
    } else {
        let r = duplicate_strings(segs);
        r
    }
}

/// The first settings entry recorded for a variant, if any.
pub open spec fn spec_stmt_setting_for(st: Seq<SpecStmtSettings>, v: Seq<char>) -> Option<
    SpecStmtSettings,
>
    decreases st.len(),
{
    if st.len() == 0 {
        None
    } else if st.first().variant == v {
        Some(st.first())
    } else {
        spec_stmt_setting_for(st.drop_first(), v)
    }
}

fn stmt_setting_for(st: &Vec<StmtSettings>, v: &String) -> (r: Option<(bool, bool)>)
    ensures
        (match r {
            Some((participates, vary)) => (spec_stmt_setting_for(st.deep_view(), v@)
                matches Some(s) && s.participates == participates && s.vary_type == vary),
            None => spec_stmt_setting_for(st.deep_view(), v@) is None,
        }),
{
    let ghost dv = st.deep_view();
    let mut i: usize = 0;
    proof {
        assert(dv.skip(0) =~= dv);
    }
    while i < st.len()
        invariant
            i <= st.len(),
            dv == st.deep_view(),
            spec_stmt_setting_for(dv, v@) == spec_stmt_setting_for(dv.skip(i as int), v@),
        decreases st.len() - i,
    {
        proof {
            assert(dv.skip(i as int).first() == dv[i as int]);
            assert(dv[i as int] == st[i as int].deep_view());
            assert(dv.skip(i as int).drop_first() =~= dv.skip(i + 1));
        }
        if text_eq(&st[i].variant, v) {
            return Some((st[i].participates, st[i].vary_type));
        }
        i += 1;
    }
    proof {
        assert(dv.skip(st.len() as int) =~= Seq::<SpecStmtSettings>::empty());
    }
    None
}

pub open spec fn spec_value_setting_for(st: Seq<SpecValueSettings>, v: Seq<char>) -> Option<
    SpecValueSettings,
>
    decreases st.len(),
{
    if st.len() == 0 {
        None
    } else if st.first().variant == v {
        Some(st.first())
    } else {
        spec_value_setting_for(st.drop_first(), v)
    }
}

fn value_setting_for(st: &Vec<ValueSettings>, v: &String) -> (r: Option<bool>)
    ensures
        (match r {
            Some(participates) => (spec_value_setting_for(st.deep_view(), v@) matches Some(s)
                && s.participates == participates),
            None => spec_value_setting_for(st.deep_view(), v@) is None,
        }),
{
    let ghost dv = st.deep_view();
    let mut i: usize = 0;
    proof {
        assert(dv.skip(0) =~= dv);
    }
    while i < st.len()
        invariant
            i <= st.len(),
            dv == st.deep_view(),
            spec_value_setting_for(dv, v@) == spec_value_setting_for(dv.skip(i as int), v@),
        decreases st.len() - i,
    {
        proof {
            assert(dv.skip(i as int).first() == dv[i as int]);
            assert(dv[i as int] == st[i as int].deep_view());
            assert(dv.skip(i as int).drop_first() =~= dv.skip(i + 1));
        }
        if text_eq(&st[i].variant, v) {
            return Some(st[i].participates);
        }
        i += 1;
    }
    proof {
        assert(dv.skip(st.len() as int) =~= Seq::<SpecValueSettings>::empty());
    }
    None
}

pub open spec fn spec_member_setting_for(st: Seq<SpecVariantSettings>, v: Seq<char>) -> Option<
    SpecVariantSettings,
>
    decreases st.len(),
{
    if st.len() == 0 {
        None
    } else if st.first().variant == v {
        Some(st.first())
    } else {
        spec_member_setting_for(st.drop_first(), v)
    }
}

fn member_setting_for(st: &Vec<VariantSettings>, v: &String) -> (r: Option<(bool, Option<
    Retype,
>)>)
    ensures
        (match r {
            Some((found, rt)) => found && (spec_member_setting_for(st.deep_view(), v@)
                matches Some(s) && s.retype == rt.deep_view()),
            None => spec_member_setting_for(st.deep_view(), v@) is None,
        }),
{
    let ghost dv = st.deep_view();
    let mut i: usize = 0;
    proof {
        assert(dv.skip(0) =~= dv);
    }
    while i < st.len()
        invariant
            i <= st.len(),
            dv == st.deep_view(),
            spec_member_setting_for(dv, v@) == spec_member_setting_for(dv.skip(i as int), v@),
        decreases st.len() - i,
    {
        proof {
            assert(dv.skip(i as int).first() == dv[i as int]);
            assert(dv[i as int] == st[i as int].deep_view());
            assert(dv.skip(i as int).drop_first() =~= dv.skip(i + 1));
        }
        if text_eq(&st[i].variant, v) {
            let rt = match &st[i].retype {
                Some(t) => Some(t.duplicate()),
                None => None,
            };
            return Some((true, rt));
        }
        i += 1;
    }
    proof {
        assert(dv.skip(st.len() as int) =~= Seq::<SpecVariantSettings>::empty());
    }
    None
}

/// The variant walk over a type: self-referential paths get the variant
/// suffix; for the base expansion the type is only carried through.
pub open spec fn spec_walk_ty(
    t: SpecTy,
    base: Seq<Seq<char>>,
    variant: Option<Seq<char>>,
) -> SpecTy
    decreases t,
{
    match t {
        SpecTy::Path { segments, args } => SpecTy::Path {
            segments: match variant {
                Some(v) => spec_rename_path(segments, base, v),
                None => segments,
            },
            args: spec_walk_tys(args, base, variant),
        },
        SpecTy::Ref { lifetime, inner } => SpecTy::Ref {
            lifetime,
            inner: Box::new(spec_walk_ty(*inner, base, variant)),
        },
        SpecTy::Macro { .. } => t,
    }
}

pub open spec fn spec_walk_tys(
    s: Seq<SpecTy>,
    base: Seq<Seq<char>>,
    variant: Option<Seq<char>>,
) -> Seq<SpecTy>
    decreases s,
{
    if s.len() == 0 {
        Seq::empty()
    } else {
        spec_walk_tys(s.drop_last(), base, variant).push(
            spec_walk_ty(s.last(), base, variant),
        )
    }
}

/// The variant walk over an expression.  The boolean threads the
/// vary-type state: while it is set, the next path reached gets the
/// variant appended to its final segment and the state clears.
pub open spec fn spec_walk_expr(
    e: SpecExpr,
    base: Seq<Seq<char>>,
    variant: Option<Seq<char>>,
    p: bool,
) -> (SpecExpr, bool)
    decreases e,
{
    match e {
        SpecExpr::Lit { .. } => (e, p),
        SpecExpr::MacroCall { .. } => (e, p),
        SpecExpr::Path { segments } => {
            match variant {
                Some(v) => {
                    if p {
                        (SpecExpr::Path { segments: spec_suffix_last(segments, v) }, false)
                    } else {
                        (SpecExpr::Path { segments: spec_rename_path(segments, base, v) }, p)
                    }
                },
                None => (e, p),
            }
        },
        SpecExpr::Call { callee, args } => {
            let (c2, p1) = spec_walk_expr(*callee, base, variant, p);
            let (a2, p2) = spec_walk_exprs(args, base, variant, p1);
            (SpecExpr::Call { callee: Box::new(c2), args: a2 }, p2)
        },
        SpecExpr::MethodCall { receiver, method, args } => {
            let (r2, p1) = spec_walk_expr(*receiver, base, variant, p);
            let (a2, p2) = spec_walk_exprs(args, base, variant, p1);
            (SpecExpr::MethodCall { receiver: Box::new(r2), method, args: a2 }, p2)
        },
        SpecExpr::Binary { op, left, right } => {
            let (l2, p1) = spec_walk_expr(*left, base, variant, p);
            let (r2, p2) = spec_walk_expr(*right, base, variant, p1);
            (SpecExpr::Binary { op, left: Box::new(l2), right: Box::new(r2) }, p2)
        },
        SpecExpr::StructLit { segments, fields } => {
            let (segs2, p1) = match variant {
                Some(v) => {
                    if p {
                        (spec_suffix_last(segments, v), false)
                    } else {
                        (spec_rename_path(segments, base, v), p)
                    }
                },
                None => (segments, p),
            };
            let (f2, p2) = spec_walk_fvs(fields, base, variant, p1);
            (SpecExpr::StructLit { segments: segs2, fields: f2 }, p2)
        },
        SpecExpr::If { cond, then_branch, else_branch } => {
            let (c2, p1) = spec_walk_expr(*cond, base, variant, p);
            let (t2, p2) = spec_walk_stmts(then_branch, base, variant, p1);
            match else_branch {
                Some(b) => {
                    let (b2, p3) = spec_walk_stmts(b, base, variant, p2);
                    (
                        SpecExpr::If {
                            cond: Box::new(c2),
                            then_branch: t2,
                            else_branch: Some(b2),
                        },
                        p3,
                    )
                },
                None => (
                    SpecExpr::If { cond: Box::new(c2), then_branch: t2, else_branch: None },
                    p2,
                ),
            }
        },
        SpecExpr::Match { scrutinee, arms } => {
            let (s2, p1) = spec_walk_expr(*scrutinee, base, variant, p);
            let (a2, p2) = spec_walk_arms(arms, base, variant, p1);
            (SpecExpr::Match { scrutinee: Box::new(s2), arms: a2 }, p2)
        },
    }
}

pub open spec fn spec_walk_exprs(
    s: Seq<SpecExpr>,
    base: Seq<Seq<char>>,
    variant: Option<Seq<char>>,
    p: bool,
) -> (Seq<SpecExpr>, bool)
    decreases s,
{
    if s.len() == 0 {
        (Seq::empty(), p)
    } else {
        let (h, p1) = spec_walk_expr(s.first(), base, variant, p);
        let (t, p2) = spec_walk_exprs(s.drop_first(), base, variant, p1);
        (seq![h] + t, p2)
    }
}

/// Whether a struct-literal entry stays in this expansion: for a variant,
/// only an entry whose settings name that variant as kept stays; the base
/// expansion keeps them all.  Note the asymmetry with statements, which
/// stay unless excluded: an initializer entry participates in a variant
/// only where its annotations name it.
pub open spec fn spec_fv_kept(fv: SpecFieldValue, variant: Option<Seq<char>>) -> bool {
    match variant {
        None => true,
        Some(v) => match spec_value_setting_for(fv.settings, v) {
            Some(s) => s.participates,
            None => false,
        },
    }
}

pub open spec fn spec_walk_fv(
    fv: SpecFieldValue,
    base: Seq<Seq<char>>,
    variant: Option<Seq<char>>,
    p: bool,
) -> (SpecFieldValue, bool)
    decreases fv,
{
    let (v2, p1) = spec_walk_expr(fv.value, base, variant, p);
    (
        SpecFieldValue {
            attrs: fv.attrs,
            settings: Seq::empty(),
            member: fv.member,
            value: v2,
        },
        p1,
    )
}

pub open spec fn spec_walk_fvs(
    s: Seq<SpecFieldValue>,
    base: Seq<Seq<char>>,
    variant: Option<Seq<char>>,
    p: bool,
) -> (Seq<SpecFieldValue>, bool)
    decreases s,
{
    if s.len() == 0 {
        (Seq::empty(), p)
    } else {
        if spec_fv_kept(s.first(), variant) {
            let (h, p1) = spec_walk_fv(s.first(), base, variant, p);
            let (t, p2) = spec_walk_fvs(s.drop_first(), base, variant, p1);
            (seq![h] + t, p2)
        } else {
            spec_walk_fvs(s.drop_first(), base, variant, p)
        }
    }
}

/// Whether a statement stays, and whether it asks for vary-type
/// renaming: a statement with no entry for the variant stays; an entry
/// decides by its participates flag.  The base expansion keeps them all.
pub open spec fn spec_stmt_choice(st: SpecStmt, variant: Option<Seq<char>>) -> (bool, bool) {
    match st {
        SpecStmt::Local { settings, .. } => match variant {
            Some(v) => match spec_stmt_setting_for(settings, v) {
                Some(s) => (s.participates, s.vary_type),
                None => (true, false),
            },
            None => (true, false),
        },
        _ => (true, false),
    }
}

pub open spec fn spec_walk_stmt(
    st: SpecStmt,
    base: Seq<Seq<char>>,
    variant: Option<Seq<char>>,
    p: bool,
) -> (SpecStmt, bool)
    decreases st,
{
    match st {
        SpecStmt::Local { attrs, settings, pat, ty, init } => {
            let t2 = match ty {
                Some(t) => Some(spec_walk_ty(t, base, variant)),
                None => None,
            };
            let (i2, p1) = match init {
                Some(e) => {
                    let (e2, q) = spec_walk_expr(e, base, variant, p);
                    (Some(e2), q)
                },
                None => (None, p),
            };
            (
                SpecStmt::Local { attrs, settings: Seq::empty(), pat, ty: t2, init: i2 },
                p1,
            )
        },
        SpecStmt::ExprStmt { expr, semi } => {
            let (e2, p1) = spec_walk_expr(expr, base, variant, p);
            (SpecStmt::ExprStmt { expr: e2, semi }, p1)
        },
        SpecStmt::MacroStmt { .. } => (st, p),
    }
}

pub open spec fn spec_walk_stmts(
    s: Seq<SpecStmt>,
    base: Seq<Seq<char>>,
    variant: Option<Seq<char>>,
    p: bool,
) -> (Seq<SpecStmt>, bool)
    decreases s,
{
    if s.len() == 0 {
        (Seq::empty(), p)
    } else {
        let (keep, vary) = spec_stmt_choice(s.first(), variant);
        if keep {
            let (h, p1) = spec_walk_stmt(s.first(), base, variant, p || vary);
            let (t, p2) = spec_walk_stmts(s.drop_first(), base, variant, p1);
            (seq![h] + t, p2)
        } else {
            spec_walk_stmts(s.drop_first(), base, variant, p)
        }
    }
}

pub open spec fn spec_walk_arm(
    a: SpecArm,
    base: Seq<Seq<char>>,
    variant: Option<Seq<char>>,
    p: bool,
) -> (SpecArm, bool)
    decreases a,
{
    let (b2, p1) = spec_walk_stmts(a.body, base, variant, p);
    (SpecArm { pat: a.pat, body: b2 }, p1)
}

pub open spec fn spec_walk_arms(
    s: Seq<SpecArm>,
    base: Seq<Seq<char>>,
    variant: Option<Seq<char>>,
    p: bool,
) -> (Seq<SpecArm>, bool)
    decreases s,
{
    if s.len() == 0 {
        (Seq::empty(), p)
    } else {
        let (h, p1) = spec_walk_arm(s.first(), base, variant, p);
        let (t, p2) = spec_walk_arms(s.drop_first(), base, variant, p1);
        (seq![h] + t, p2)
    }
}

#[verifier::loop_isolation(false)]
fn walk_ty(t: &Ty, base: &Vec<String>, variant: &Option<String>) -> (r: Ty)
    ensures
        r.spec_view() == spec_walk_ty(t.spec_view(), base.deep_view(), variant.deep_view()),
    decreases t,
{
    let ghost db = base.deep_view();
    let ghost dv = variant.deep_view();
    match t {
        Ty::Path { segments, args } => {
            let ghost ds = args.deep_view();
            let segs2 = match variant {
                Some(v) => rename_path(segments, base, v),
                None => duplicate_strings(segments),
            };
            let mut out: Vec<Ty> = Vec::new();
            let mut i: usize = 0;
            proof {
                assert(out.deep_view() =~= Seq::<SpecTy>::empty());
            }
            while i < args.len()
                invariant
                    i <= args.len(),
                    ds == args.deep_view(),
                    out.deep_view() == spec_walk_tys(ds.take(i as int), db, dv),
                decreases args.len() - i,
            {
                proof {
                    assert(ds.take(i + 1).drop_last() =~= ds.take(i as int));
                    assert(ds.take(i + 1).last() == args[i as int].spec_view());
                }
                let t2 = walk_ty(&args[i], base, variant);
                let ghost pre = out.deep_view();
                out.push(t2);
                proof {
                    assert(out.deep_view() =~= pre.push(t2.spec_view()));
                }
                i += 1;
            }
            proof {
                assert(ds.take(args.len() as int) =~= ds);
            }
            let ghost go = out.deep_view();
            let r = Ty::Path { segments: segs2, args: out };
            proof {
                assert(r.spec_view()->Path_args =~= go);
                assert(t.spec_view()->Path_args =~= args.deep_view());
            }
            r
        },
        Ty::Ref { lifetime, inner } => {
            let i2 = walk_ty(inner, base, variant);
            Ty::Ref {
                lifetime: match lifetime {
                    Some(l) => Some(l.clone()),
                    None => None,
                },
                inner: Box::new(i2),
            }
        },
        Ty::Macro { .. } => t.duplicate(),
    }
}

#[verifier::loop_isolation(false)]
#[verifier::rlimit(60)]
fn walk_expr(e: &Expr, base: &Vec<String>, variant: &Option<String>, p: bool) -> (r: (Expr, bool))
    ensures
        (r.0.spec_view(), r.1) == spec_walk_expr(
            e.spec_view(),
            base.deep_view(),
            variant.deep_view(),
            p,
        ),
    decreases e,
{
    let ghost db = base.deep_view();
    let ghost dv = variant.deep_view();
    match e {
        Expr::Lit { lit } => (Expr::Lit { lit: lit.duplicate() }, p),
        Expr::MacroCall { name, span } => (
            Expr::MacroCall { name: name.clone(), span: *span },
            p,
        ),
        Expr::Path { segments } => {
            match variant {
                Some(v) => {
                    if p {
                        (Expr::Path { segments: suffix_last(segments, v) }, false)
                    } else {
                        (Expr::Path { segments: rename_path(segments, base, v) }, p)
                    }
                },
                None => (Expr::Path { segments: duplicate_strings(segments) }, p),
            }
        },
        Expr::Call { callee, args } => {
            let (c2, p1) = walk_expr(callee, base, variant, p);
            let (a2, p2) = walk_exprs(args, base, variant, p1);
            let ghost ga = a2.deep_view();
            let r = Expr::Call { callee: Box::new(c2), args: a2 };
            proof {
                assert(e.spec_view()->Call_args =~= args.deep_view());
                assert(r.spec_view()->Call_args =~= ga);
            }
            (r, p2)
        },
        Expr::MethodCall { receiver, method, args } => {
            let (r2, p1) = walk_expr(receiver, base, variant, p);
            let (a2, p2) = walk_exprs(args, base, variant, p1);
            let ghost ga = a2.deep_view();
            let r = Expr::MethodCall {
                receiver: Box::new(r2),
                method: method.clone(),
                args: a2,
            };
            proof {
                assert(e.spec_view()->MethodCall_args =~= args.deep_view());
                assert(r.spec_view()->MethodCall_args =~= ga);
            }
            (r, p2)
        },
        Expr::Binary { op, left, right } => {
            let (l2, p1) = walk_expr(left, base, variant, p);
            let (r2, p2) = walk_expr(right, base, variant, p1);
            (Expr::Binary { op: *op, left: Box::new(l2), right: Box::new(r2) }, p2)
        },
        Expr::StructLit { segments, fields } => {
            let (segs2, p1) = match variant {
                Some(v) => {
                    if p {
                        (suffix_last(segments, v), false)
                    } else {
                        (rename_path(segments, base, v), p)
                    }
                },
                None => (duplicate_strings(segments), p),
            };
            let (f2, p2) = walk_fvs(fields, base, variant, p1);
            let ghost gf = f2.deep_view();
            let r = Expr::StructLit { segments: segs2, fields: f2 };
            proof {
                assert(e.spec_view()->StructLit_fields =~= fields.deep_view());
                assert(r.spec_view()->StructLit_fields =~= gf);
            }
            (r, p2)
        },
        Expr::If { cond, then_branch, else_branch } => {
            let (c2, p1) = walk_expr(cond, base, variant, p);
            let (t2, p2) = walk_block(then_branch, base, variant, p1);
            match else_branch {
                Some(bl) => {
                    let (b2, p3) = walk_block(bl, base, variant, p2);
                    (
                        Expr::If {
                            cond: Box::new(c2),
                            then_branch: t2,
                            else_branch: Some(b2),
                        },
                        p3,
                    )
                },
                None => (
                    Expr::If { cond: Box::new(c2), then_branch: t2, else_branch: None },
                    p2,
                ),
            }
        },
        Expr::Match { scrutinee, arms } => {
            let (s2, p1) = walk_expr(scrutinee, base, variant, p);
            let (a2, p2) = walk_arms(arms, base, variant, p1);
            let ghost ga = a2.deep_view();
            let r = Expr::Match { scrutinee: Box::new(s2), arms: a2 };
            proof {
                assert(e.spec_view()->Match_arms =~= arms.deep_view());
                assert(r.spec_view()->Match_arms =~= ga);
            }
            (r, p2)
        },
    }
}

#[verifier::loop_isolation(false)]
#[verifier::rlimit(60)]
fn walk_exprs(s: &Vec<Expr>, base: &Vec<String>, variant: &Option<String>, p: bool) -> (r: (
    Vec<Expr>,
    bool,
))
    ensures
        (r.0.deep_view(), r.1) == spec_walk_exprs(
            s.deep_view(),
            base.deep_view(),
            variant.deep_view(),
            p,
        ),
    decreases s,
{
    let ghost ds = s.deep_view();
    let ghost db = base.deep_view();
    let ghost dv = variant.deep_view();
    let mut out: Vec<Expr> = Vec::new();
    let mut cur: bool = p;
    let mut i: usize = 0;
    proof {
        assert(ds.skip(0) =~= ds);
        assert(out.deep_view() =~= Seq::<SpecExpr>::empty());
        assert(Seq::<SpecExpr>::empty() + spec_walk_exprs(ds, db, dv, p).0 =~= spec_walk_exprs(
            ds,
            db,
            dv,
            p,
        ).0);
    }
    while i < s.len()
        invariant
            i <= s.len(),
            ds == s.deep_view(),
            spec_walk_exprs(ds, db, dv, p).0 == out.deep_view() + spec_walk_exprs(
                ds.skip(i as int),
                db,
                dv,
                cur,
            ).0,
            spec_walk_exprs(ds, db, dv, p).1 == spec_walk_exprs(ds.skip(i as int), db, dv, cur).1,
        decreases s.len() - i,
    {
        proof {
            assert(ds.skip(i as int).first() == ds[i as int]);
            assert(ds[i as int] == s[i as int].spec_view());
            assert(ds.skip(i as int).drop_first() =~= ds.skip(i + 1));
        }
        let ghost rest_pre = spec_walk_exprs(ds.skip(i as int), db, dv, cur);
        let (e2, p1) = walk_expr(&s[i], base, variant, cur);
        let ghost pre = out.deep_view();
        out.push(e2);
        cur = p1;
        proof {
            assert(out.deep_view() =~= pre.push(e2.spec_view()));
            let tail = spec_walk_exprs(ds.skip(i + 1), db, dv, cur).0;
            assert(pre + (seq![e2.spec_view()] + tail) =~= out.deep_view() + tail);
        }
        i += 1;
    }
    proof {
        assert(ds.skip(s.len() as int) =~= Seq::<SpecExpr>::empty());
        assert(out.deep_view() + Seq::<SpecExpr>::empty() =~= out.deep_view());
    }
    (out, cur)
}

#[verifier::loop_isolation(false)]
#[verifier::rlimit(60)]
fn walk_fvs(
    s: &Vec<FieldValue>,
    base: &Vec<String>,
    variant: &Option<String>,
    p: bool,
) -> (r: (Vec<FieldValue>, bool))
    ensures
        (r.0.deep_view(), r.1) == spec_walk_fvs(
            s.deep_view(),
            base.deep_view(),
            variant.deep_view(),
            p,
        ),
    decreases s,
{
    let ghost ds = s.deep_view();
    let ghost db = base.deep_view();
    let ghost dv = variant.deep_view();
    let mut out: Vec<FieldValue> = Vec::new();
    let mut cur: bool = p;
    let mut i: usize = 0;
    proof {
        assert(ds.skip(0) =~= ds);
        assert(out.deep_view() =~= Seq::<SpecFieldValue>::empty());
        assert(Seq::<SpecFieldValue>::empty() + spec_walk_fvs(ds, db, dv, p).0 =~= spec_walk_fvs(
            ds,
            db,
            dv,
            p,
        ).0);
    }
    while i < s.len()
        invariant
            i <= s.len(),
            ds == s.deep_view(),
            spec_walk_fvs(ds, db, dv, p).0 == out.deep_view() + spec_walk_fvs(
                ds.skip(i as int),
                db,
                dv,
                cur,
            ).0,
            spec_walk_fvs(ds, db, dv, p).1 == spec_walk_fvs(ds.skip(i as int), db, dv, cur).1,
        decreases s.len() - i,
    {
        proof {
            assert(ds.skip(i as int).first() == ds[i as int]);
            assert(ds[i as int] == s[i as int].spec_view());
            assert(ds.skip(i as int).drop_first() =~= ds.skip(i + 1));
        }
        let fv = &s[i];
        let kept = match variant {
            Some(v) => match value_setting_for(&fv.settings, v) {
                Some(participates) => participates,
                None => false,
            },
            None => true,
        };
        proof {
            assert(fv.spec_view().settings =~= fv.settings.deep_view());
            assert(kept == spec_fv_kept(ds[i as int], dv));
        }
        if kept {
            let ghost cpre = cur;
            let (v2, p1) = walk_expr(&fv.value, base, variant, cur);
            let f2 = FieldValue {
                attrs: duplicate_attrs(&fv.attrs),
                settings: Vec::new(),
                member: fv.member.clone(),
                value: v2,
            };
            let ghost pre = out.deep_view();
            out.push(f2);
            cur = p1;
            proof {
                assert(f2.spec_view().settings =~= Seq::<SpecValueSettings>::empty());
                assert(fv.spec_view().value == ds[i as int].value);
                assert(f2.spec_view() == spec_walk_fv(ds[i as int], db, dv, cpre).0);
                assert(cur == spec_walk_fv(ds[i as int], db, dv, cpre).1);
                assert(out.deep_view() =~= pre.push(f2.spec_view()));
                let tail = spec_walk_fvs(ds.skip(i + 1), db, dv, cur).0;
                assert(pre + (seq![f2.spec_view()] + tail) =~= out.deep_view() + tail);
            }
        }
        i += 1;
    }
    proof {
        assert(ds.skip(s.len() as int) =~= Seq::<SpecFieldValue>::empty());
        assert(out.deep_view() + Seq::<SpecFieldValue>::empty() =~= out.deep_view());
    }
    (out, cur)
}

#[verifier::loop_isolation(false)]
fn walk_stmt(st: &Stmt, base: &Vec<String>, variant: &Option<String>, p: bool) -> (r: (
    Stmt,
    bool,
))
    ensures
        (r.0.spec_view(), r.1) == spec_walk_stmt(
            st.spec_view(),
            base.deep_view(),
            variant.deep_view(),
            p,
        ),
    decreases st,
{
    match st {
        Stmt::Local { attrs, settings, pat, ty, init } => {
            let t2 = match ty {
                Some(t) => Some(walk_ty(t, base, variant)),
                None => None,
            };
            let (i2, p1) = match init {
                Some(e) => {
                    let (e2, q) = walk_expr(e, base, variant, p);
                    (Some(e2), q)
                },
                None => (None, p),
            };
            let r = Stmt::Local {
                attrs: duplicate_attrs(attrs),
                settings: Vec::new(),
                pat: pat.duplicate(),
                ty: t2,
                init: i2,
            };
            proof {
                assert(r.spec_view()->Local_settings =~= Seq::<SpecStmtSettings>::empty());
            }
            (r, p1)
        },
        Stmt::ExprStmt { expr, semi } => {
            let (e2, p1) = walk_expr(expr, base, variant, p);
            (Stmt::ExprStmt { expr: e2, semi: *semi }, p1)
        },
        Stmt::MacroStmt { name, span } => (
            Stmt::MacroStmt { name: name.clone(), span: *span },
            p,
        ),
    }
}

#[verifier::loop_isolation(false)]
#[verifier::rlimit(60)]
pub fn walk_block(b: &Block, base: &Vec<String>, variant: &Option<String>, p: bool) -> (r: (
    Block,
    bool,
))
    ensures
        (r.0.spec_view(), r.1) == spec_walk_stmts(
            b.spec_view(),
            base.deep_view(),
            variant.deep_view(),
            p,
        ),
    decreases b,
{
    let ghost ds = b.spec_view();
    let ghost db = base.deep_view();
    let ghost dv = variant.deep_view();
    let mut out: Vec<Stmt> = Vec::new();
    let mut cur: bool = p;
    let mut i: usize = 0;
    proof {
        assert(ds.skip(0) =~= ds);
        assert(out.deep_view() =~= Seq::<SpecStmt>::empty());
        assert(Seq::<SpecStmt>::empty() + spec_walk_stmts(ds, db, dv, p).0 =~= spec_walk_stmts(
            ds,
            db,
            dv,
            p,
        ).0);
        assert(ds.len() == b.stmts.len());
    }
    while i < b.stmts.len()
        invariant
            i <= b.stmts.len(),
            ds == b.spec_view(),
            spec_walk_stmts(ds, db, dv, p).0 == out.deep_view() + spec_walk_stmts(
                ds.skip(i as int),
                db,
                dv,
                cur,
            ).0,
            spec_walk_stmts(ds, db, dv, p).1 == spec_walk_stmts(ds.skip(i as int), db, dv, cur).1,
        decreases b.stmts.len() - i,
    {
        proof {
            assert(ds[i as int] == b.stmts[i as int].spec_view());
            assert(ds.skip(i as int).first() == ds[i as int]);
            assert(ds.skip(i as int).drop_first() =~= ds.skip(i + 1));
        }
        let stn = &b.stmts[i];
        let (keep, vary) = match stn {
            Stmt::Local { settings, .. } => match variant {
                Some(v) => match stmt_setting_for(settings, v) {
                    Some((participates, vt)) => (participates, vt),
                    None => (true, false),
                },
                None => (true, false),
            },
            _ => (true, false),
        };
        proof {
            if stn is Local {
                assert(stn.spec_view()->Local_settings =~= stn->Local_settings.deep_view());
            }
            assert((keep, vary) == spec_stmt_choice(ds[i as int], dv));
        }
        if keep {
            let (s2, p1) = walk_stmt(stn, base, variant, cur || vary);
            let ghost pre = out.deep_view();
            out.push(s2);
            cur = p1;
            proof {
                assert(out.deep_view() =~= pre.push(s2.spec_view()));
                let tail = spec_walk_stmts(ds.skip(i + 1), db, dv, cur).0;
                assert(pre + (seq![s2.spec_view()] + tail) =~= out.deep_view() + tail);
            }
        }
        i += 1;
    }
    proof {
        assert(ds.skip(b.stmts.len() as int) =~= Seq::<SpecStmt>::empty());
        assert(out.deep_view() + Seq::<SpecStmt>::empty() =~= out.deep_view());
    }
    let r = Block { stmts: out };
    proof {
        assert(r.spec_view() =~= spec_walk_stmts(ds, db, dv, p).0);
    }
    (r, cur)
}

#[verifier::loop_isolation(false)]
#[verifier::rlimit(60)]
fn walk_arms(s: &Vec<Arm>, base: &Vec<String>, variant: &Option<String>, p: bool) -> (r: (
    Vec<Arm>,
    bool,
))
    ensures
        (r.0.deep_view(), r.1) == spec_walk_arms(
            s.deep_view(),
            base.deep_view(),
            variant.deep_view(),
            p,
        ),
    decreases s,
{
    let ghost ds = s.deep_view();
    let ghost db = base.deep_view();
    let ghost dv = variant.deep_view();
    let mut out: Vec<Arm> = Vec::new();
    let mut cur: bool = p;
    let mut i: usize = 0;
    proof {
        assert(ds.skip(0) =~= ds);
        assert(out.deep_view() =~= Seq::<SpecArm>::empty());
        assert(Seq::<SpecArm>::empty() + spec_walk_arms(ds, db, dv, p).0 =~= spec_walk_arms(
            ds,
            db,
            dv,
            p,
        ).0);
    }
    while i < s.len()
        invariant
            i <= s.len(),
            ds == s.deep_view(),
            spec_walk_arms(ds, db, dv, p).0 == out.deep_view() + spec_walk_arms(
                ds.skip(i as int),
                db,
                dv,
                cur,
            ).0,
            spec_walk_arms(ds, db, dv, p).1 == spec_walk_arms(ds.skip(i as int), db, dv, cur).1,
        decreases s.len() - i,
    {
        proof {
            assert(ds.skip(i as int).first() == ds[i as int]);
            assert(ds[i as int] == s[i as int].spec_view());
            assert(ds.skip(i as int).drop_first() =~= ds.skip(i + 1));
        }
        let ghost cpre = cur;
        let (b2, p1) = walk_block(&s[i].body, base, variant, cur);
        let a2 = Arm { pat: s[i].pat.duplicate(), body: b2 };
        let ghost pre = out.deep_view();
        out.push(a2);
        cur = p1;
        proof {
            assert(s[i as int].spec_view().body == ds[i as int].body);
            assert(a2.spec_view() == spec_walk_arm(ds[i as int], db, dv, cpre).0);
            assert(cur == spec_walk_arm(ds[i as int], db, dv, cpre).1);
            assert(out.deep_view() =~= pre.push(a2.spec_view()));
            let tail = spec_walk_arms(ds.skip(i + 1), db, dv, cur).0;
            assert(pre + (seq![a2.spec_view()] + tail) =~= out.deep_view() + tail);
        }
        i += 1;
    }
    proof {
        assert(ds.skip(s.len() as int) =~= Seq::<SpecArm>::empty());
        assert(out.deep_view() + Seq::<SpecArm>::empty() =~= out.deep_view());
    }
    (out, cur)
}

/// A member type after its replacement-type template, if it has one: the
/// type is rendered, spliced into the template, and the result reparsed.
/// A template that does not reparse is reported at its own span and the
/// member keeps its type.
pub open spec fn spec_retyped(
    ty: SpecTy,
    rt: Option<SpecRetype>,
    basename: Seq<char>,
    v: Seq<char>,
) -> (SpecTy, Seq<SpecDiag>) {
    match rt {
        None => (ty, Seq::empty()),
        Some(r) => {
            let text = spec_subst_template(r.template, spec_render_ty(ty), basename, v);
            match spec_parse_type_text(text) {
                Some(t2) => (t2, Seq::empty()),
                None => (ty, seq![SpecDiag { span: r.span, kind: SpecDiagKind::TemplateParse }]),
            }
        },
    }
}

fn retyped(ty: Ty, rt: &Option<Retype>, basename: &String, v: &String, diags: &mut Vec<Diag>) -> (r:
    Ty)
    ensures
        ({
            let (t2, d) = spec_retyped(ty.spec_view(), rt.deep_view(), basename@, v@);
            r.spec_view() == t2 && final(diags).deep_view() == old(diags).deep_view() + d
        }),
{
    let ghost d0 = diags.deep_view();
    match rt {
        None => {
            proof {
                assert(d0 + Seq::<SpecDiag>::empty() =~= d0);
            }
            ty
        },
        Some(r) => {
            let tytext = render_ty(&ty);
            let text = subst_template(r.template.as_str(), tytext.as_str(), basename.as_str(), v.as_str());
            match parse_type_text(text.as_str()) {
                Some(t2) => {
                    proof {
                        assert(d0 + Seq::<SpecDiag>::empty() =~= d0);
                    }
                    t2
                },
                None => {
                    let ghost pre = diags.deep_view();
                    diags.push(Diag { span: r.span, kind: DiagKind::TemplateParse });
                    proof {
                        assert(diags.deep_view() =~= pre + seq![
                            SpecDiag { span: r.span, kind: SpecDiagKind::TemplateParse },
                        ]);
                    }
                    ty
                },
            }
        },
    }
}

/// One member of the expansion: placeholders in its type first, then the
/// keep-or-drop decision, then the template.  The base expansion keeps
/// every member with its type unchanged.
pub open spec fn spec_expand_field(
    f: SpecField,
    base: Seq<Seq<char>>,
    basename: Seq<char>,
    variant: Option<Seq<char>>,
) -> (Option<SpecField>, Seq<SpecDiag>) {
    let (ty_s, d_s) = spec_subst_ty(f.ty, base, variant);
    match variant {
        None => (
            Some(SpecField { attrs: f.attrs, settings: Seq::empty(), name: f.name, ty: ty_s }),
            d_s,
        ),
        Some(v) => match spec_member_setting_for(f.settings, v) {
            None => (None, d_s),
            Some(s) => {
                let (t2, d2) = spec_retyped(ty_s, s.retype, basename, v);
                (
                    Some(
                        SpecField {
                            attrs: f.attrs,
                            settings: Seq::empty(),
                            name: f.name,
                            ty: t2,
                        },
                    ),
                    d_s + d2,
                )
            },
        },
    }
}

pub open spec fn spec_expand_fields_list(
    fs: Seq<SpecField>,
    base: Seq<Seq<char>>,
    basename: Seq<char>,
    variant: Option<Seq<char>>,
) -> (Seq<SpecField>, Seq<SpecDiag>)
    decreases fs.len(),
{
    if fs.len() == 0 {
        (Seq::empty(), Seq::empty())
    } else {
        let (t, d1) = spec_expand_fields_list(fs.drop_last(), base, basename, variant);
        let (f2, d2) = spec_expand_field(fs.last(), base, basename, variant);
        match f2 {
            Some(f) => (t.push(f), d1 + d2),
            None => (t, d1 + d2),
        }
    }
}

#[verifier::loop_isolation(false)]
fn expand_fields_list(
    fs: &Vec<Field>,
    base: &Vec<String>,
    basename: &String,
    variant: &Option<String>,
    diags: &mut Vec<Diag>,
) -> (r: Vec<Field>)
    ensures
        r.deep_view() == spec_expand_fields_list(
            fs.deep_view(),
            base.deep_view(),
            basename@,
            variant.deep_view(),
        ).0,
        final(diags).deep_view() == old(diags).deep_view() + spec_expand_fields_list(
            fs.deep_view(),
            base.deep_view(),
            basename@,
            variant.deep_view(),
        ).1,
{
    let ghost ds = fs.deep_view();
    let ghost db = base.deep_view();
    let ghost dn = basename@;
    let ghost dv = variant.deep_view();
    let ghost d0 = diags.deep_view();
    let mut out: Vec<Field> = Vec::new();
    let mut i: usize = 0;
    proof {
        assert(out.deep_view() =~= Seq::<SpecField>::empty());
        assert(d0 + Seq::<SpecDiag>::empty() =~= d0);
    }
    while i < fs.len()
        invariant
            i <= fs.len(),
            ds == fs.deep_view(),
            out.deep_view() == spec_expand_fields_list(ds.take(i as int), db, dn, dv).0,
            diags.deep_view() == d0 + spec_expand_fields_list(ds.take(i as int), db, dn, dv).1,
        decreases fs.len() - i,
    {
        proof {
            assert(ds.take(i + 1).drop_last() =~= ds.take(i as int));
            assert(ds.take(i + 1).last() == fs[i as int].deep_view());
        }
        let ghost a = spec_expand_fields_list(ds.take(i as int), db, dn, dv).1;
        let ghost b = spec_expand_field(ds[i as int], db, dn, dv).1;
        let f = &fs[i];
        let ghost dsub = spec_subst_ty(f.ty.spec_view(), db, dv).1;
        let ty_s = crate::subst::subst_ty(&f.ty, base, variant, diags);
        match variant {
            Some(v) => {
                match member_setting_for(&f.settings, v) {
                    Some((_found, rt)) => {
                        let t2 = retyped(ty_s, &rt, basename, v, diags);
                        let f2 = Field {
                            attrs: duplicate_attrs(&f.attrs),
                            settings: Vec::new(),
                            name: match &f.name {
                                Some(n) => Some(n.clone()),
                                None => None,
                            },
                            ty: t2,
                        };
                        let ghost pre = out.deep_view();
                        out.push(f2);
                        proof {
                            assert(f2.deep_view().settings
                                =~= Seq::<SpecVariantSettings>::empty());
                            assert(f.deep_view().settings =~= f.settings.deep_view());
                            assert(out.deep_view() =~= pre.push(f2.deep_view()));
                            assert((d0 + a) + (dsub + spec_retyped(
                                ty_s.spec_view(),
                                rt.deep_view(),
                                dn,
                                v@,
                            ).1) =~= d0 + (a + b));
                        }
                    },
                    None => {
                        proof {
                            assert(f.deep_view().settings =~= f.settings.deep_view());
                            assert((d0 + a) + dsub =~= d0 + (a + b));
                        }
                    },
                }
            },
            None => {
                let f2 = Field {
                    attrs: duplicate_attrs(&f.attrs),
                    settings: Vec::new(),
                    name: match &f.name {
                        Some(n) => Some(n.clone()),
                        None => None,
                    },
                    ty: ty_s,
                };
                let ghost pre = out.deep_view();
                out.push(f2);
                proof {
                    assert(f2.deep_view().settings =~= Seq::<SpecVariantSettings>::empty());
                    assert(out.deep_view() =~= pre.push(f2.deep_view()));
                    assert((d0 + a) + dsub =~= d0 + (a + b));
                }
            },
        }
        i += 1;
    }
    proof {
        assert(ds.take(fs.len() as int) =~= ds);
    }
    out
}

pub open spec fn spec_expand_fields_kind(
    k: SpecFieldsKind,
    base: Seq<Seq<char>>,
    basename: Seq<char>,
    variant: Option<Seq<char>>,
) -> (SpecFieldsKind, Seq<SpecDiag>) {
    match k {
        SpecFieldsKind::Named(fs) => {
            let (f2, d) = spec_expand_fields_list(fs, base, basename, variant);
            (SpecFieldsKind::Named(f2), d)
        },
        SpecFieldsKind::Unnamed(fs) => {
            let (f2, d) = spec_expand_fields_list(fs, base, basename, variant);
            (SpecFieldsKind::Unnamed(f2), d)
        },
        SpecFieldsKind::Unit => (SpecFieldsKind::Unit, Seq::empty()),
    }
}

fn expand_fields_kind(
    k: &FieldsKind,
    base: &Vec<String>,
    basename: &String,
    variant: &Option<String>,
    diags: &mut Vec<Diag>,
) -> (r: FieldsKind)
    ensures
        r.deep_view() == spec_expand_fields_kind(
            k.deep_view(),
            base.deep_view(),
            basename@,
            variant.deep_view(),
        ).0,
        final(diags).deep_view() == old(diags).deep_view() + spec_expand_fields_kind(
            k.deep_view(),
            base.deep_view(),
            basename@,
            variant.deep_view(),
        ).1,
{
    match k {
        FieldsKind::Named(fs) => FieldsKind::Named(
            expand_fields_list(fs, base, basename, variant, diags),
        ),
        FieldsKind::Unnamed(fs) => FieldsKind::Unnamed(
            expand_fields_list(fs, base, basename, variant, diags),
        ),
        FieldsKind::Unit => {
            proof {
                assert(final(diags).deep_view() =~= old(diags).deep_view()
                    + Seq::<SpecDiag>::empty());
            }
            FieldsKind::Unit
        },
    }
}

/// One enum case of the expansion: its members are treated exactly like
/// struct members; the case name itself never changes.
pub open spec fn spec_expand_case(
    c: SpecCase,
    base: Seq<Seq<char>>,
    basename: Seq<char>,
    variant: Option<Seq<char>>,
) -> (SpecCase, Seq<SpecDiag>) {
    let (f2, d) = spec_expand_fields_kind(c.fields, base, basename, variant);
    (SpecCase { attrs: c.attrs, name: c.name, fields: f2 }, d)
}

pub open spec fn spec_expand_cases(
    cs: Seq<SpecCase>,
    base: Seq<Seq<char>>,
    basename: Seq<char>,
    variant: Option<Seq<char>>,
) -> (Seq<SpecCase>, Seq<SpecDiag>)
    decreases cs.len(),
{
    if cs.len() == 0 {
        (Seq::empty(), Seq::empty())
    } else {
        let (t, d1) = spec_expand_cases(cs.drop_last(), base, basename, variant);
        let (c2, d2) = spec_expand_case(cs.last(), base, basename, variant);
        (t.push(c2), d1 + d2)
    }
}

#[verifier::loop_isolation(false)]
fn expand_cases(
    cs: &Vec<Case>,
    base: &Vec<String>,
    basename: &String,
    variant: &Option<String>,
    diags: &mut Vec<Diag>,
) -> (r: Vec<Case>)
    ensures
        r.deep_view() == spec_expand_cases(
            cs.deep_view(),
            base.deep_view(),
            basename@,
            variant.deep_view(),
        ).0,
        final(diags).deep_view() == old(diags).deep_view() + spec_expand_cases(
            cs.deep_view(),
            base.deep_view(),
            basename@,
            variant.deep_view(),
        ).1,
{
    let ghost ds = cs.deep_view();
    let ghost db = base.deep_view();
    let ghost dn = basename@;
    let ghost dv = variant.deep_view();
    let ghost d0 = diags.deep_view();
    let mut out: Vec<Case> = Vec::new();
    let mut i: usize = 0;
    proof {
        assert(out.deep_view() =~= Seq::<SpecCase>::empty());
        assert(d0 + Seq::<SpecDiag>::empty() =~= d0);
    }
    while i < cs.len()
        invariant
            i <= cs.len(),
            ds == cs.deep_view(),
            out.deep_view() == spec_expand_cases(ds.take(i as int), db, dn, dv).0,
            diags.deep_view() == d0 + spec_expand_cases(ds.take(i as int), db, dn, dv).1,
        decreases cs.len() - i,
    {
        proof {
            assert(ds.take(i + 1).drop_last() =~= ds.take(i as int));
            assert(ds.take(i + 1).last() == cs[i as int].deep_view());
        }
        let ghost a = spec_expand_cases(ds.take(i as int), db, dn, dv).1;
        let ghost b = spec_expand_case(ds[i as int], db, dn, dv).1;
        let c = &cs[i];
        let f2 = expand_fields_kind(&c.fields, base, basename, variant, diags);
        let c2 = Case { attrs: duplicate_attrs(&c.attrs), name: c.name.clone(), fields: f2 };
        let ghost pre = out.deep_view();
        out.push(c2);
        proof {
            assert(out.deep_view() =~= pre.push(c2.deep_view()));
            assert((d0 + a) + b =~= d0 + (a + b));
        }
        i += 1;
    }
    proof {
        assert(ds.take(cs.len() as int) =~= ds);
    }
    out
}

/// Placeholder substitution over one impl item.
pub open spec fn spec_subst_param(
    p: SpecParam,
    base: Seq<Seq<char>>,
    variant: Option<Seq<char>>,
) -> (SpecParam, Seq<SpecDiag>) {
    let (t2, d) = spec_subst_ty(p.ty, base, variant);
    (SpecParam { name: p.name, ty: t2 }, d)
}

pub open spec fn spec_subst_params(
    s: Seq<SpecParam>,
    base: Seq<Seq<char>>,
    variant: Option<Seq<char>>,
) -> (Seq<SpecParam>, Seq<SpecDiag>)
    decreases s.len(),
{
    if s.len() == 0 {
        (Seq::empty(), Seq::empty())
    } else {
        let (t, d1) = spec_subst_params(s.drop_last(), base, variant);
        let (p2, d2) = spec_subst_param(s.last(), base, variant);
        (t.push(p2), d1 + d2)
    }
}

pub open spec fn spec_subst_assoc(
    a: SpecAssocItem,
    base: Seq<Seq<char>>,
    variant: Option<Seq<char>>,
) -> (SpecAssocItem, Seq<SpecDiag>) {
    match a {
        SpecAssocItem::Const { attrs, name, ty, value } => {
            let (t2, d1) = spec_subst_ty(ty, base, variant);
            let (v2, d2) = spec_subst_expr(value, base, variant);
            (SpecAssocItem::Const { attrs, name, ty: t2, value: v2 }, d1 + d2)
        },
        SpecAssocItem::Method { attrs, name, params, ret, body } => {
            let (p2, d1) = spec_subst_params(params, base, variant);
            let (r2, d2) = match ret {
                Some(t) => {
                    let (t2, d) = spec_subst_ty(t, base, variant);
                    (Some(t2), d)
                },
                None => (None, Seq::empty()),
            };
            let (b2, d3) = spec_subst_stmts(body, base, variant);
            (
                SpecAssocItem::Method { attrs, name, params: p2, ret: r2, body: b2 },
                d1 + d2 + d3,
            )
        },
    }
}

pub open spec fn spec_subst_assocs(
    s: Seq<SpecAssocItem>,
    base: Seq<Seq<char>>,
    variant: Option<Seq<char>>,
) -> (Seq<SpecAssocItem>, Seq<SpecDiag>)
    decreases s.len(),
{
    if s.len() == 0 {
        (Seq::empty(), Seq::empty())
    } else {
        let (t, d1) = spec_subst_assocs(s.drop_last(), base, variant);
        let (a2, d2) = spec_subst_assoc(s.last(), base, variant);
        (t.push(a2), d1 + d2)
    }
}

/// The variant walk over one impl item; each item starts with the
/// vary-type state clear.
pub open spec fn spec_walk_param(
    p: SpecParam,
    base: Seq<Seq<char>>,
    variant: Option<Seq<char>>,
) -> SpecParam {
    SpecParam { name: p.name, ty: spec_walk_ty(p.ty, base, variant) }
}

pub open spec fn spec_walk_params(
    s: Seq<SpecParam>,
    base: Seq<Seq<char>>,
    variant: Option<Seq<char>>,
) -> Seq<SpecParam>
    decreases s.len(),
{
    if s.len() == 0 {
        Seq::empty()
    } else {
        spec_walk_params(s.drop_last(), base, variant).push(
            spec_walk_param(s.last(), base, variant),
        )
    }
}

pub open spec fn spec_walk_assoc(
    a: SpecAssocItem,
    base: Seq<Seq<char>>,
    variant: Option<Seq<char>>,
) -> SpecAssocItem {
    match a {
        SpecAssocItem::Const { attrs, name, ty, value } => SpecAssocItem::Const {
            attrs,
            name,
            ty: spec_walk_ty(ty, base, variant),
            value: spec_walk_expr(value, base, variant, false).0,
        },
        SpecAssocItem::Method { attrs, name, params, ret, body } => SpecAssocItem::Method {
            attrs,
            name,
            params: spec_walk_params(params, base, variant),
            ret: match ret {
                Some(t) => Some(spec_walk_ty(t, base, variant)),
                None => None,
            },
            body: spec_walk_stmts(body, base, variant, false).0,
        },
    }
}

pub open spec fn spec_walk_assocs(
    s: Seq<SpecAssocItem>,
    base: Seq<Seq<char>>,
    variant: Option<Seq<char>>,
) -> Seq<SpecAssocItem>
    decreases s.len(),
{
    if s.len() == 0 {
        Seq::empty()
    } else {
        spec_walk_assocs(s.drop_last(), base, variant).push(
            spec_walk_assoc(s.last(), base, variant),
        )
    }
}

#[verifier::loop_isolation(false)]
fn subst_params(
    ps: &Vec<Param>,
    base: &Vec<String>,
    variant: &Option<String>,
    diags: &mut Vec<Diag>,
) -> (r: Vec<Param>)
    ensures
        r.deep_view() == spec_subst_params(ps.deep_view(), base.deep_view(), variant.deep_view()).0,
        final(diags).deep_view() == old(diags).deep_view() + spec_subst_params(
            ps.deep_view(),
            base.deep_view(),
            variant.deep_view(),
        ).1,
{
    let ghost ds = ps.deep_view();
    let ghost db = base.deep_view();
    let ghost dv = variant.deep_view();
    let ghost d0 = diags.deep_view();
    let mut out: Vec<Param> = Vec::new();
    let mut i: usize = 0;
    proof {
        assert(out.deep_view() =~= Seq::<SpecParam>::empty());
        assert(d0 + Seq::<SpecDiag>::empty() =~= d0);
    }
    while i < ps.len()
        invariant
            i <= ps.len(),
            ds == ps.deep_view(),
            out.deep_view() == spec_subst_params(ds.take(i as int), db, dv).0,
            diags.deep_view() == d0 + spec_subst_params(ds.take(i as int), db, dv).1,
        decreases ps.len() - i,
    {
        proof {
            assert(ds.take(i + 1).drop_last() =~= ds.take(i as int));
            assert(ds.take(i + 1).last() == ps[i as int].deep_view());
        }
        let ghost a = spec_subst_params(ds.take(i as int), db, dv).1;
        let ghost b = spec_subst_param(ds[i as int], db, dv).1;
        let t2 = subst_ty(&ps[i].ty, base, variant, diags);
        let p2 = Param { name: ps[i].name.clone(), ty: t2 };
        let ghost pre = out.deep_view();
        out.push(p2);
        proof {
            assert(out.deep_view() =~= pre.push(p2.deep_view()));
            assert((d0 + a) + b =~= d0 + (a + b));
        }
        i += 1;
    }
    proof {
        assert(ds.take(ps.len() as int) =~= ds);
    }
    out
}

#[verifier::loop_isolation(false)]
fn subst_assoc(
    a: &AssocItem,
    base: &Vec<String>,
    variant: &Option<String>,
    diags: &mut Vec<Diag>,
) -> (r: AssocItem)
    ensures
        r.deep_view() == spec_subst_assoc(a.deep_view(), base.deep_view(), variant.deep_view()).0,
        final(diags).deep_view() == old(diags).deep_view() + spec_subst_assoc(
            a.deep_view(),
            base.deep_view(),
            variant.deep_view(),
        ).1,
{
    let ghost db = base.deep_view();
    let ghost dv = variant.deep_view();
    let ghost d0 = diags.deep_view();
    match a {
        AssocItem::Const { attrs, name, ty, value } => {
            let ghost x = spec_subst_ty(ty.spec_view(), db, dv).1;
            let ghost y = spec_subst_expr(value.spec_view(), db, dv).1;
            let t2 = subst_ty(ty, base, variant, diags);
            let v2 = subst_expr(value, base, variant, diags);
            proof {
                assert((d0 + x) + y =~= d0 + (x + y));
            }
            AssocItem::Const {
                attrs: duplicate_attrs(attrs),
                name: name.clone(),
                ty: t2,
                value: v2,
            }
        },
        AssocItem::Method { attrs, name, params, ret, body } => {
            let ghost x = spec_subst_params(params.deep_view(), db, dv).1;
            let p2 = subst_params(params, base, variant, diags);
            let ghost y = match ret.deep_view() {
                Some(t) => spec_subst_ty(t, db, dv).1,
                None => Seq::empty(),
            };
            let r2 = match ret {
                Some(t) => Some(subst_ty(t, base, variant, diags)),
                None => None,
            };
            let ghost z = spec_subst_stmts(body.spec_view(), db, dv).1;
            let b2 = subst_block(body, base, variant, diags);
            proof {
                assert(((d0 + x) + y) + z =~= d0 + (x + y + z));
            }
            AssocItem::Method {
                attrs: duplicate_attrs(attrs),
                name: name.clone(),
                params: p2,
                ret: r2,
                body: b2,
            }
        },
    }
}

#[verifier::loop_isolation(false)]
fn walk_params(ps: &Vec<Param>, base: &Vec<String>, variant: &Option<String>) -> (r: Vec<Param>)
    ensures
        r.deep_view() == spec_walk_params(ps.deep_view(), base.deep_view(), variant.deep_view()),
{
    let ghost ds = ps.deep_view();
    let ghost db = base.deep_view();
    let ghost dv = variant.deep_view();
    let mut out: Vec<Param> = Vec::new();
    let mut i: usize = 0;
    proof {
        assert(out.deep_view() =~= Seq::<SpecParam>::empty());
    }
    while i < ps.len()
        invariant
            i <= ps.len(),
            ds == ps.deep_view(),
            out.deep_view() == spec_walk_params(ds.take(i as int), db, dv),
        decreases ps.len() - i,
    {
        proof {
            assert(ds.take(i + 1).drop_last() =~= ds.take(i as int));
            assert(ds.take(i + 1).last() == ps[i as int].deep_view());
        }
        let p2 = Param { name: ps[i].name.clone(), ty: walk_ty(&ps[i].ty, base, variant) };
        let ghost pre = out.deep_view();
        out.push(p2);
        proof {
            assert(out.deep_view() =~= pre.push(p2.deep_view()));
        }
        i += 1;
    }
    proof {
        assert(ds.take(ps.len() as int) =~= ds);
    }
    out
}

#[verifier::loop_isolation(false)]
fn walk_assoc(a: &AssocItem, base: &Vec<String>, variant: &Option<String>) -> (r: AssocItem)
    ensures
        r.deep_view() == spec_walk_assoc(a.deep_view(), base.deep_view(), variant.deep_view()),
{
    match a {
        AssocItem::Const { attrs, name, ty, value } => {
            let t2 = walk_ty(ty, base, variant);
            let (v2, _p) = walk_expr(value, base, variant, false);
            AssocItem::Const {
                attrs: duplicate_attrs(attrs),
                name: name.clone(),
                ty: t2,
                value: v2,
            }
        },
        AssocItem::Method { attrs, name, params, ret, body } => {
            let p2 = walk_params(params, base, variant);
            let r2 = match ret {
                Some(t) => Some(walk_ty(t, base, variant)),
                None => None,
            };
            let (b2, _p) = walk_block(body, base, variant, false);
            AssocItem::Method {
                attrs: duplicate_attrs(attrs),
                name: name.clone(),
                params: p2,
                ret: r2,
                body: b2,
            }
        },
    }
}

/// Expand the items of an impl block: substitution first, then the
/// variant walk, item by item.
#[verifier::loop_isolation(false)]
fn expand_impl_items(
    items: &Vec<AssocItem>,
    base: &Vec<String>,
    variant: &Option<String>,
    diags: &mut Vec<Diag>,
) -> (r: Vec<AssocItem>)
    ensures
        r.deep_view() == spec_walk_assocs(
            spec_subst_assocs(items.deep_view(), base.deep_view(), variant.deep_view()).0,
            base.deep_view(),
            variant.deep_view(),
        ),
        final(diags).deep_view() == old(diags).deep_view() + spec_subst_assocs(
            items.deep_view(),
            base.deep_view(),
            variant.deep_view(),
        ).1,
{
    let ghost ds = items.deep_view();
    let ghost db = base.deep_view();
    let ghost dv = variant.deep_view();
    let ghost d0 = diags.deep_view();
    let mut out: Vec<AssocItem> = Vec::new();
    let mut i: usize = 0;
    proof {
        assert(out.deep_view() =~= Seq::<SpecAssocItem>::empty());
        assert(d0 + Seq::<SpecDiag>::empty() =~= d0);
    }
    while i < items.len()
        invariant
            i <= items.len(),
            ds == items.deep_view(),
            out.deep_view() == spec_walk_assocs(
                spec_subst_assocs(ds.take(i as int), db, dv).0,
                db,
                dv,
            ),
            diags.deep_view() == d0 + spec_subst_assocs(ds.take(i as int), db, dv).1,
        decreases items.len() - i,
    {
        proof {
            assert(ds.take(i + 1).drop_last() =~= ds.take(i as int));
            assert(ds.take(i + 1).last() == items[i as int].deep_view());
        }
        let ghost a = spec_subst_assocs(ds.take(i as int), db, dv).1;
        let ghost b = spec_subst_assoc(ds[i as int], db, dv).1;
        let a_s = subst_assoc(&items[i], base, variant, diags);
        let a_w = walk_assoc(&a_s, base, variant);
        let ghost pre = out.deep_view();
        out.push(a_w);
        proof {
            let s_prev = spec_subst_assocs(ds.take(i as int), db, dv).0;
            let s_next = spec_subst_assocs(ds.take(i + 1), db, dv).0;
            assert(s_next.drop_last() =~= s_prev);
            assert(out.deep_view() =~= pre.push(a_w.deep_view()));
            assert((d0 + a) + b =~= d0 + (a + b));
        }
        i += 1;
    }
    proof {
        assert(ds.take(items.len() as int) =~= ds);
    }
    out
}

/// The type path an impl block implements, split into its segments and
/// its generic arguments: a plain type path, or the base placeholder
/// naming one.
pub open spec fn spec_impl_base(self_ty: SpecTy) -> Option<(Seq<Seq<char>>, Seq<SpecTy>)> {
    match self_ty {
        SpecTy::Path { segments, args } => Some((segments, args)),
        SpecTy::Macro { name, arg, .. } => {
            if name == crate::words::spec_macro_base() {
                match arg {
                    Some(t) => match *t {
                        SpecTy::Path { segments, args } => Some((segments, args)),
                        _ => None,
                    },
                    None => None,
                }
            } else {
                None
            }
        },
        _ => None,
    }
}

fn impl_base(self_ty: &Ty) -> (r: Option<(Vec<String>, Vec<Ty>)>)
    ensures
        (match r {
            Some((segs, args)) => Some((segs.deep_view(), args.deep_view())),
            None => None,
        }) == spec_impl_base(self_ty.spec_view()),
{
    match self_ty {
        Ty::Path { segments, args } => {
            let r = (duplicate_strings(segments), duplicate_tys(args));
            proof {
                assert(self_ty.spec_view()->Path_args =~= args.deep_view());
            }
            Some(r)
        },
        Ty::Macro { name, arg, .. } => {
            if text_eq(name, &crate::words::macro_base_text()) {
                match arg {
                    Some(t) => match &**t {
                        Ty::Path { segments, args } => {
                            proof {
                                assert((**t).spec_view()->Path_segments == segments.deep_view());
                                assert((**t).spec_view()->Path_args =~= args.deep_view());
                            }
                            Some((duplicate_strings(segments), duplicate_tys(args)))
                        },
                        _ => {
                            proof {
                                assert(!((**t).spec_view() is Path));
                            }
                            None
                        },
                    },
                    None => None,
                }
            } else {
                None
            }
        },
        _ => None,
    }
}

/// The implemented type's generic arguments through the two per-variant
/// passes: placeholders substituted, then self-referential paths renamed.
#[verifier::loop_isolation(false)]
fn expand_self_args(
    args: &Vec<Ty>,
    base: &Vec<String>,
    variant: &Option<String>,
    diags: &mut Vec<Diag>,
) -> (r: Vec<Ty>)
    ensures
        r.deep_view() == spec_walk_tys(
            spec_subst_tys(args.deep_view(), base.deep_view(), variant.deep_view()).0,
            base.deep_view(),
            variant.deep_view(),
        ),
        final(diags).deep_view() == old(diags).deep_view() + spec_subst_tys(
            args.deep_view(),
            base.deep_view(),
            variant.deep_view(),
        ).1,
{
    let ghost ds = args.deep_view();
    let ghost db = base.deep_view();
    let ghost dv = variant.deep_view();
    let ghost d0 = diags.deep_view();
    let mut out: Vec<Ty> = Vec::new();
    let mut i: usize = 0;
    proof {
        assert(out.deep_view() =~= Seq::<SpecTy>::empty());
        assert(d0 + Seq::<SpecDiag>::empty() =~= d0);
    }
    while i < args.len()
        invariant
            i <= args.len(),
            ds == args.deep_view(),
            out.deep_view() == spec_walk_tys(spec_subst_tys(ds.take(i as int), db, dv).0, db, dv),
            diags.deep_view() == d0 + spec_subst_tys(ds.take(i as int), db, dv).1,
        decreases args.len() - i,
    {
        proof {
            assert(ds.take(i + 1).drop_last() =~= ds.take(i as int));
            assert(ds.take(i + 1).last() == args[i as int].spec_view());
        }
        let ghost a = spec_subst_tys(ds.take(i as int), db, dv).1;
        let ghost b = spec_subst_ty(ds[i as int], db, dv).1;
        let t_s = subst_ty(&args[i], base, variant, diags);
        let t_w = walk_ty(&t_s, base, variant);
        let ghost pre = out.deep_view();
        out.push(t_w);
        proof {
            let s_prev = spec_subst_tys(ds.take(i as int), db, dv).0;
            let s_next = spec_subst_tys(ds.take(i + 1), db, dv).0;
            assert(s_next.drop_last() =~= s_prev);
            assert(out.deep_view() =~= pre.push(t_w.spec_view()));
            assert((d0 + a) + b =~= d0 + (a + b));
        }
        i += 1;
    }
    proof {
        assert(ds.take(args.len() as int) =~= ds);
    }
    out
}

/// One expansion of the resolved declaration: the base copy for `None`,
/// or the copy specialized to the named variant.
pub open spec fn spec_expand_one(resolved: SpecItem, variant: Option<Seq<char>>) -> (
    SpecItem,
    Seq<SpecDiag>,
) {
    match resolved {
        SpecItem::Struct { attrs, name, fields } => {
            let (k2, d) = spec_expand_fields_kind(fields, seq![name], name, variant);
            let name2 = match variant {
                Some(v) => name + v,
                None => name,
            };
            (SpecItem::Struct { attrs, name: name2, fields: k2 }, d)
        },
        SpecItem::Enum { attrs, name, cases } => {
            let (c2, d) = spec_expand_cases(cases, seq![name], name, variant);
            let name2 = match variant {
                Some(v) => name + v,
                None => name,
            };
            (SpecItem::Enum { attrs, name: name2, cases: c2 }, d)
        },
        SpecItem::Impl { attrs, self_ty, trait_path, items } => {
            match spec_impl_base(self_ty) {
                Some((bsegs, bargs)) => {
                    let (args_s, d0) = spec_subst_tys(bargs, bsegs, variant);
                    let args2 = spec_walk_tys(args_s, bsegs, variant);
                    let (s2, d1) = spec_subst_assocs(items, bsegs, variant);
                    let items2 = spec_walk_assocs(s2, bsegs, variant);
                    let self2 = SpecTy::Path {
                        segments: match variant {
                            Some(v) => spec_suffix_last(bsegs, v),
                            None => bsegs,
                        },
                        args: args2,
                    };
                    (
                        SpecItem::Impl { attrs, self_ty: self2, trait_path, items: items2 },
                        d0 + d1,
                    )
                },
                None => (
                    SpecItem::Impl {
                        attrs,
                        self_ty,
                        trait_path,
                        items: spec_walk_assocs(items, Seq::empty(), None),
                    },
                    seq![
                        SpecDiag {
                            span: Span { lo: 0, hi: 0 },
                            kind: SpecDiagKind::ImplTargetNotPath,
                        },
                    ],
                ),
            }
        },
    }
}

/// Expand the resolved declaration once, for the base or for one variant.
#[verifier::loop_isolation(false)]
pub fn expand_one(resolved: &Item, variant: &Option<String>, diags: &mut Vec<Diag>) -> (r: Item)
    ensures
        r.deep_view() == spec_expand_one(resolved.deep_view(), variant.deep_view()).0,
        final(diags).deep_view() == old(diags).deep_view() + spec_expand_one(
            resolved.deep_view(),
            variant.deep_view(),
        ).1,
{
    let ghost dv = variant.deep_view();
    let ghost d0 = diags.deep_view();
    match resolved {
        Item::Struct { attrs, name, fields } => {
            let mut base: Vec<String> = Vec::new();
            base.push(name.clone());
            proof {
                assert(base.deep_view() =~= seq![name@]);
            }
            let k2 = expand_fields_kind(fields, &base, name, variant, diags);
            let name2 = match variant {
                Some(v) => name.clone().concat(v.as_str()),
                None => name.clone(),
            };
            Item::Struct { attrs: duplicate_attrs(attrs), name: name2, fields: k2 }
        },
        Item::Enum { attrs, name, cases } => {
            let mut base: Vec<String> = Vec::new();
            base.push(name.clone());
            proof {
                assert(base.deep_view() =~= seq![name@]);
            }
            let c2 = expand_cases(cases, &base, name, variant, diags);
            let name2 = match variant {
                Some(v) => name.clone().concat(v.as_str()),
                None => name.clone(),
            };
            Item::Enum { attrs: duplicate_attrs(attrs), name: name2, cases: c2 }
        },
        Item::Impl { attrs, self_ty, trait_path, items } => {
            match impl_base(self_ty) {
                Some((bsegs, bargs)) => {
                    let ghost a = spec_subst_tys(
                        bargs.deep_view(),
                        bsegs.deep_view(),
                        dv,
                    ).1;
                    let ghost b = spec_subst_assocs(
                        items.deep_view(),
                        bsegs.deep_view(),
                        dv,
                    ).1;
                    let args2 = expand_self_args(&bargs, &bsegs, variant, diags);
                    let items2 = expand_impl_items(items, &bsegs, variant, diags);
                    let segs2 = match variant {
                        Some(v) => suffix_last(&bsegs, v),
                        None => duplicate_strings(&bsegs),
                    };
                    let ghost ga = args2.deep_view();
                    let self2 = Ty::Path { segments: segs2, args: args2 };
                    let r = Item::Impl {
                        attrs: duplicate_attrs(attrs),
                        self_ty: self2,
                        trait_path: match trait_path {
                            Some(p) => Some(duplicate_strings(p)),
                            None => None,
                        },
                        items: items2,
                    };
                    proof {
                        assert((d0 + a) + b =~= d0 + (a + b));
                        assert(r.deep_view()->Impl_self_ty->Path_args =~= ga);
                    }
                    r
                },
                None => {
                    let empty_base: Vec<String> = Vec::new();
                    let no_variant: Option<String> = None;
                    let mut items2: Vec<AssocItem> = Vec::new();
                    let ghost ds = items.deep_view();
                    let mut i: usize = 0;
                    proof {
                        assert(items2.deep_view() =~= Seq::<SpecAssocItem>::empty());
                        assert(empty_base.deep_view() =~= Seq::<Seq<char>>::empty());
                    }
                    while i < items.len()
                        invariant
                            i <= items.len(),
                            ds == items.deep_view(),
                            empty_base.deep_view() == Seq::<Seq<char>>::empty(),
                            no_variant is None,
                            items2.deep_view() == spec_walk_assocs(
                                ds.take(i as int),
                                Seq::empty(),
                                None,
                            ),
                        decreases items.len() - i,
                    {
                        proof {
                            assert(ds.take(i + 1).drop_last() =~= ds.take(i as int));
                            assert(ds.take(i + 1).last() == items[i as int].deep_view());
                        }
                        let a_w = walk_assoc(&items[i], &empty_base, &no_variant);
                        let ghost pre = items2.deep_view();
                        items2.push(a_w);
                        proof {
                            assert(items2.deep_view() =~= pre.push(a_w.deep_view()));
                        }
                        i += 1;
                    }
                    proof {
                        assert(ds.take(items.len() as int) =~= ds);
                    }
                    let ghost pre = diags.deep_view();
                    diags.push(
                        Diag { span: Span { lo: 0, hi: 0 }, kind: DiagKind::ImplTargetNotPath },
                    );
                    proof {
                        assert(diags.deep_view() =~= pre + seq![
                            SpecDiag {
                                span: Span { lo: 0, hi: 0 },
                                kind: SpecDiagKind::ImplTargetNotPath,
                            },
                        ]);
                    }
                    Item::Impl {
                        attrs: duplicate_attrs(attrs),
                        self_ty: self_ty.duplicate(),
                        trait_path: match trait_path {
                            Some(p) => Some(duplicate_strings(p)),
                            None => None,
                        },
                        items: items2,
                    }
                },
            }
        },
    }
}

/// A variant copy carries this marker for downstream tooling.
pub open spec fn spec_mark_derived(item: SpecItem) -> SpecItem {
    let marker = SpecAttr {
        path: seq![crate::words::spec_derived_marker()],
        tokens: Seq::empty(),
        span: Span { lo: 0, hi: 0 },
    };
    match item {
        SpecItem::Struct { attrs, name, fields } => SpecItem::Struct {
            attrs: seq![marker] + attrs,
            name,
            fields,
        },
        SpecItem::Enum { attrs, name, cases } => SpecItem::Enum {
            attrs: seq![marker] + attrs,
            name,
            cases,
        },
        SpecItem::Impl { attrs, self_ty, trait_path, items } => SpecItem::Impl {
            attrs: seq![marker] + attrs,
            self_ty,
            trait_path,
            items,
        },
    }
}

/// The given attribute list with the derived marker prepended.
#[verifier::loop_isolation(false)]
fn prepend_derived_marker(attrs: Vec<Attr>) -> (r: Vec<Attr>)
    ensures
        r.deep_view() == seq![
            SpecAttr {
                path: seq![crate::words::spec_derived_marker()],
                tokens: Seq::empty(),
                span: Span { lo: 0, hi: 0 },
            },
        ] + attrs.deep_view(),
{
    let marker = Attr {
        path: {
            let mut p: Vec<String> = Vec::new();
            p.push(crate::words::derived_marker_text());
            p
        },
        tokens: Vec::new(),
        span: Span { lo: 0, hi: 0 },
    };
    proof {
        assert(marker.deep_view().path =~= seq![crate::words::spec_derived_marker()]);
        assert(marker.deep_view().tokens =~= Seq::<crate::ast::SpecToken>::empty());
    }
    let ghost da = attrs.deep_view();
    let mut out: Vec<Attr> = Vec::new();
    out.push(marker);
    let ghost m = out.deep_view()[0];
    let mut q: usize = 0;
    while q < attrs.len()
        invariant
            q <= attrs.len(),
            out.len() == q + 1,
            out.deep_view()[0] == m,
            da == attrs.deep_view(),
            forall|x: int| 0 <= x < q ==> out.deep_view()[x + 1] == da[x],
        decreases attrs.len() - q,
    {
        proof {
            assert(da[q as int] == attrs[q as int].deep_view());
        }
        out.push(attrs[q].duplicate());
        q += 1;
    }
    proof {
        assert(out.deep_view() =~= seq![m] + da);
    }
    out
}

#[verifier::loop_isolation(false)]
fn mark_derived(item: Item) -> (r: Item)
    ensures
        r.deep_view() == spec_mark_derived(item.deep_view()),
{
    match item {
        Item::Struct { attrs, name, fields } => Item::Struct {
            attrs: prepend_derived_marker(attrs),
            name,
            fields,
        },
        Item::Enum { attrs, name, cases } => Item::Enum {
            attrs: prepend_derived_marker(attrs),
            name,
            cases,
        },
        Item::Impl { attrs, self_ty, trait_path, items } => Item::Impl {
            attrs: prepend_derived_marker(attrs),
            self_ty,
            trait_path,
            items,
        },
    }
}

/// The variant copies, in declaration order, each carrying the derived
/// marker.
pub open spec fn spec_expand_outputs(
    resolved: SpecItem,
    vars: Seq<Seq<char>>,
    k: int,
) -> (Seq<SpecItem>, Seq<SpecDiag>)
    decreases vars.len() - k,
{
    if 0 <= k < vars.len() {
        let (it, d1) = spec_expand_one(resolved, Some(vars[k]));
        let (rest, d2) = spec_expand_outputs(resolved, vars, k + 1);
        (seq![spec_mark_derived(it)] + rest, d1 + d2)
    } else {
        (Seq::empty(), Seq::empty())
    }
}

/// The whole transformation: one resolution pass, then the base copy,
/// then one copy per declared variant, with every diagnostic of every
/// phase in order.
pub open spec fn spec_expand(item: SpecItem, vars: Seq<Seq<char>>) -> (
    Seq<SpecItem>,
    Seq<SpecDiag>,
) {
    let (resolved, d0) = spec_resolve_item(item, vars);
    let (b, d1) = spec_expand_one(resolved, None);
    let (vs, d2) = spec_expand_outputs(resolved, vars, 0);
    (seq![b] + vs, d0 + d1 + d2)
}

/// The result of one transformation run: the emitted declarations and
/// every diagnostic gathered on the way.
#[derive(Debug, PartialEq, Eq)]
pub struct Expansion {
    pub items: Vec<Item>,
    pub diags: Vec<Diag>,
}

/// Run the whole transformation: the base declaration comes first, then
/// one variant copy per declared variant, in order; no diagnostic is ever
/// dropped, and a failing copy never suppresses the others.
#[verifier::loop_isolation(false)]
pub fn expand(ctx: &Context, item: &Item) -> (r: Expansion)
    ensures
        r.items.deep_view() == spec_expand(item.deep_view(), ctx.variants.deep_view()).0,
        r.diags.deep_view() == spec_expand(item.deep_view(), ctx.variants.deep_view()).1,
{
    let ghost dvars = ctx.variants.deep_view();
    let ghost ditem = item.deep_view();
    let mut diags: Vec<Diag> = Vec::new();
    proof {
        assert(diags.deep_view() =~= Seq::<SpecDiag>::empty());
        assert(Seq::<SpecDiag>::empty() + spec_resolve_item(ditem, dvars).1 =~= spec_resolve_item(
            ditem,
            dvars,
        ).1);
    }
    let resolved = resolve_item(item, ctx, &mut diags);
    let ghost dres = resolved.deep_view();
    let ghost d0 = diags.deep_view();
    let none_variant: Option<String> = None;
    let base_item = expand_one(&resolved, &none_variant, &mut diags);
    let ghost d1 = spec_expand_one(dres, None).1;
    let mut items: Vec<Item> = Vec::new();
    items.push(base_item);
    let mut k: usize = 0;
    proof {
        assert(items.deep_view() =~= seq![spec_expand_one(dres, None).0]);
        assert(diags.deep_view() =~= d0 + d1 + Seq::<SpecDiag>::empty());
    }
    while k < ctx.variants.len()
        invariant
            k <= ctx.variants.len(),
            dvars == ctx.variants.deep_view(),
            dres == resolved.deep_view(),
            spec_expand_outputs(dres, dvars, 0).0 == items.deep_view().skip(1)
                + spec_expand_outputs(dres, dvars, k as int).0,
            spec_expand_outputs(dres, dvars, 0).1 == diags.deep_view().skip(
                (d0.len() + d1.len()) as int,
            ) + spec_expand_outputs(dres, dvars, k as int).1,
            items.deep_view().len() == k + 1,
            items.deep_view()[0] == spec_expand_one(dres, None).0,
            diags.deep_view().len() >= d0.len() + d1.len(),
            diags.deep_view().take((d0.len() + d1.len()) as int) == d0 + d1,
        decreases ctx.variants.len() - k,
    {
        proof {
            assert(dvars[k as int] == ctx.variants[k as int]@);
        }
        let v: Option<String> = Some(ctx.variants[k].clone());
        let ghost x_items = items.deep_view().skip(1);
        let ghost x_diags = diags.deep_view().skip((d0.len() + d1.len()) as int);
        let ghost dd1 = spec_expand_one(dres, Some(dvars[k as int])).1;
        let it = expand_one(&resolved, &v, &mut diags);
        let marked = mark_derived(it);
        let ghost pre = items.deep_view();
        items.push(marked);
        proof {
            let rest_items = spec_expand_outputs(dres, dvars, k + 1).0;
            let rest_diags = spec_expand_outputs(dres, dvars, k + 1).1;
            assert(items.deep_view() =~= pre.push(marked.deep_view()));
            assert(items.deep_view().skip(1) =~= x_items.push(marked.deep_view()));
            assert(x_items + (seq![marked.deep_view()] + rest_items) =~= x_items.push(
                marked.deep_view(),
            ) + rest_items);
            assert(diags.deep_view().skip((d0.len() + d1.len()) as int) =~= x_diags + dd1);
            assert((x_diags + dd1) + rest_diags =~= x_diags + (dd1 + rest_diags));
            assert(diags.deep_view().take((d0.len() + d1.len()) as int) =~= d0 + d1);
        }
        k += 1;
    }
    proof {
        let tail_items = spec_expand_outputs(dres, dvars, ctx.variants.len() as int).0;
        let tail_diags = spec_expand_outputs(dres, dvars, ctx.variants.len() as int).1;
        assert(tail_items =~= Seq::<SpecItem>::empty());
        assert(tail_diags =~= Seq::<SpecDiag>::empty());
        assert(items.deep_view().skip(1) + tail_items =~= items.deep_view().skip(1));
        assert(diags.deep_view().skip((d0.len() + d1.len()) as int) + tail_diags =~= diags
            .deep_view().skip((d0.len() + d1.len()) as int));
        assert(items.deep_view() =~= seq![items.deep_view()[0]] + items.deep_view().skip(1));
        assert(diags.deep_view() =~= diags.deep_view().take((d0.len() + d1.len()) as int)
            + diags.deep_view().skip((d0.len() + d1.len()) as int));
        assert((d0 + d1) + spec_expand_outputs(dres, dvars, 0).1 =~= d0 + (d1
            + spec_expand_outputs(dres, dvars, 0).1));
    }
    Expansion { items, diags }
}

} // verus!
