//! Placeholder substitution.
//!
//! Three zero-argument placeholder macros are recognized by exact name,
//! wherever a macro invocation appears.  In expression position the two
//! string placeholders become string literals: the base type name with
//! the active variant appended, or the bare variant name, each empty-
//! suffixed when the base declaration is being expanded.  In type
//! position the type placeholder becomes the variant-suffixed base type;
//! while expanding the base declaration it has no variant to name and is
//! reported instead.  A placeholder in any other position is reported and
//! left in place.

use vstd::prelude::*;
use vstd::string::StringExecFns;

use crate::ast::{
    Arm, Block, Expr, FieldValue, Lit, SpecArm, SpecExpr, SpecFieldValue, SpecLit, SpecStmt,
    SpecTy, Stmt, Ty, duplicate_attrs, duplicate_stmt_settings, duplicate_strings,
    duplicate_value_settings,
};
use crate::errors::{Diag, DiagKind, SpecDiag, SpecDiagKind};
use crate::words::{
    macro_ty_text, macro_type_str_text, macro_variant_str_text, macro_variant_type_text,
    spec_macro_ty, spec_macro_type_str, spec_macro_variant_str, spec_macro_variant_type, text_eq,
};

verus! {

broadcast use vstd::std_specs::vec::group_vec_axioms;

/// The base type's final path segment with the active variant appended,
/// or alone for the base expansion.
pub open spec fn spec_suffixed_name(base: Seq<Seq<char>>, variant: Option<Seq<char>>) -> Seq<
    char,
> {
    (if base.len() > 0 {
        base.last()
    } else {
        Seq::empty()
    }) + (match variant {
        Some(v) => v,
        None => Seq::empty(),
    })
}

/// The path with the text appended to its final segment.
pub open spec fn spec_suffix_last(segs: Seq<Seq<char>>, v: Seq<char>) -> Seq<Seq<char>> {
    if segs.len() > 0 {
        segs.update(segs.len() - 1, segs.last() + v)
    } else {
        segs
    }
}

/// Executable form of [`spec_suffixed_name`].
pub fn suffixed_name(base: &Vec<String>, variant: &Option<String>) -> (r: String)
    ensures
        r@ == spec_suffixed_name(base.deep_view(), variant.deep_view()),
{
    let mut s = if base.len() > 0 {
        proof {
            assert(base.deep_view().last() == base[base.len() - 1]@);
        }
        base[base.len() - 1].clone()
    } else {
        String::new()
    };
    match variant {
        Some(v) => {
            s.append(v.as_str());
        },
        None => {},
    }
    s
}

/// Executable form of [`spec_suffix_last`].
pub fn suffix_last(segs: &Vec<String>, v: &String) -> (r: Vec<String>)
    ensures
        r.deep_view() == spec_suffix_last(segs.deep_view(), v@),
{
    let ghost ds = segs.deep_view();
    if segs.len() == 0 {
        let r: Vec<String> = Vec::new();
        proof {
            assert(r.deep_view() =~= spec_suffix_last(ds, v@));
        }
        r
    } else {
        let mut out: Vec<String> = Vec::new();
        let mut i: usize = 0;
        while i < segs.len() - 1
            invariant
                i <= segs.len() - 1,
                segs.len() > 0,
                out.len() == i,
                ds == segs.deep_view(),
                forall|k: int| 0 <= k < i ==> out[k].deep_view() == ds[k],
            decreases segs.len() - 1 - i,
        {
            proof {
                assert(ds[i as int] == segs[i as int]@);
            }
            out.push(segs[i].clone());
            i += 1;
        }
        let mut last = segs[segs.len() - 1].clone();
        last.append(v.as_str());
        out.push(last);
        proof {
            assert(ds.last() == segs[segs.len() - 1]@);
            assert(out.deep_view() =~= spec_suffix_last(ds, v@));
        }
        out
    }
}

/// Substitution over a type.  Placeholder macro arguments are left as
/// they stand.
pub open spec fn spec_subst_ty(
    t: SpecTy,
    base: Seq<Seq<char>>,
    variant: Option<Seq<char>>,
) -> (SpecTy, Seq<SpecDiag>)
    decreases t,
{
    match t {
        SpecTy::Path { segments, args } => {
            let (a2, d) = spec_subst_tys(args, base, variant);
            (SpecTy::Path { segments, args: a2 }, d)
        },
        SpecTy::Ref { lifetime, inner } => {
            let (i2, d) = spec_subst_ty(*inner, base, variant);
            (SpecTy::Ref { lifetime, inner: Box::new(i2) }, d)
        },
        SpecTy::Macro { name, span, arg } => {
            if name == spec_macro_ty() || name == spec_macro_variant_type() {
                match variant {
                    Some(v) => (
                        SpecTy::Path { segments: spec_suffix_last(base, v), args: Seq::empty() },
                        Seq::empty(),
                    ),
                    None => (
                        t,
                        seq![SpecDiag { span, kind: SpecDiagKind::MacroInBaseType { name } }],
                    ),
                }
            } else if name == spec_macro_type_str() || name == spec_macro_variant_str() {
                (t, seq![SpecDiag { span, kind: SpecDiagKind::ExprMacroMisused { name } }])
            } else {
                (t, Seq::empty())
            }
        },
    }
}

pub open spec fn spec_subst_tys(
    s: Seq<SpecTy>,
    base: Seq<Seq<char>>,
    variant: Option<Seq<char>>,
) -> (Seq<SpecTy>, Seq<SpecDiag>)
    decreases s,
{
    if s.len() == 0 {
        (Seq::empty(), Seq::empty())
    } else {
        let (t, d1) = spec_subst_tys(s.drop_last(), base, variant);
        let (t2, d2) = spec_subst_ty(s.last(), base, variant);
        (t.push(t2), d1 + d2)
    }
}

/// Substitution over an expression.
pub open spec fn spec_subst_expr(
    e: SpecExpr,
    base: Seq<Seq<char>>,
    variant: Option<Seq<char>>,
) -> (SpecExpr, Seq<SpecDiag>)
    decreases e,
{
    match e {
        SpecExpr::Lit { .. } => (e, Seq::empty()),
        SpecExpr::Path { .. } => (e, Seq::empty()),
        SpecExpr::MacroCall { name, span } => {
            if name == spec_macro_type_str() {
                (
                    SpecExpr::Lit { lit: SpecLit::Str(spec_suffixed_name(base, variant)) },
                    Seq::empty(),
                )
            } else if name == spec_macro_variant_str() {
                (
                    SpecExpr::Lit {
                        lit: SpecLit::Str(
                            match variant {
                                Some(v) => v,
                                None => Seq::empty(),
                            },
                        ),
                    },
                    Seq::empty(),
                )
            } else if name == spec_macro_ty() || name == spec_macro_variant_type() {
                (e, seq![SpecDiag { span, kind: SpecDiagKind::TypeMacroMisused { name } }])
            } else {
                (e, Seq::empty())
            }
        },
        SpecExpr::Call { callee, args } => {
            let (c2, d1) = spec_subst_expr(*callee, base, variant);
            let (a2, d2) = spec_subst_exprs(args, base, variant);
            (SpecExpr::Call { callee: Box::new(c2), args: a2 }, d1 + d2)
        },
        SpecExpr::MethodCall { receiver, method, args } => {
            let (r2, d1) = spec_subst_expr(*receiver, base, variant);
            let (a2, d2) = spec_subst_exprs(args, base, variant);
            (SpecExpr::MethodCall { receiver: Box::new(r2), method, args: a2 }, d1 + d2)
        },
        SpecExpr::Binary { op, left, right } => {
            let (l2, d1) = spec_subst_expr(*left, base, variant);
            let (r2, d2) = spec_subst_expr(*right, base, variant);
            (SpecExpr::Binary { op, left: Box::new(l2), right: Box::new(r2) }, d1 + d2)
        },
        SpecExpr::StructLit { segments, fields } => {
            let (f2, d) = spec_subst_fvs(fields, base, variant);
            (SpecExpr::StructLit { segments, fields: f2 }, d)
        },
        SpecExpr::If { cond, then_branch, else_branch } => {
            let (c2, d1) = spec_subst_expr(*cond, base, variant);
            let (t2, d2) = spec_subst_stmts(then_branch, base, variant);
            match else_branch {
                Some(b) => {
                    let (b2, d3) = spec_subst_stmts(b, base, variant);
                    (
                        SpecExpr::If {
                            cond: Box::new(c2),
                            then_branch: t2,
                            else_branch: Some(b2),
                        },
                        d1 + d2 + d3,
                    )
                },
                None => (
                    SpecExpr::If { cond: Box::new(c2), then_branch: t2, else_branch: None },
                    d1 + d2,
                ),
            }
        },
        SpecExpr::Match { scrutinee, arms } => {
            let (s2, d1) = spec_subst_expr(*scrutinee, base, variant);
            let (a2, d2) = spec_subst_arms(arms, base, variant);
            (SpecExpr::Match { scrutinee: Box::new(s2), arms: a2 }, d1 + d2)
        },
    }
}

pub open spec fn spec_subst_exprs(
    s: Seq<SpecExpr>,
    base: Seq<Seq<char>>,
    variant: Option<Seq<char>>,
) -> (Seq<SpecExpr>, Seq<SpecDiag>)
    decreases s,
{
    if s.len() == 0 {
        (Seq::empty(), Seq::empty())
    } else {
        let (t, d1) = spec_subst_exprs(s.drop_last(), base, variant);
        let (e2, d2) = spec_subst_expr(s.last(), base, variant);
        (t.push(e2), d1 + d2)
    }
}

pub open spec fn spec_subst_fv(
    fv: SpecFieldValue,
    base: Seq<Seq<char>>,
    variant: Option<Seq<char>>,
) -> (SpecFieldValue, Seq<SpecDiag>)
    decreases fv,
{
    let (v2, d) = spec_subst_expr(fv.value, base, variant);
    (
        SpecFieldValue { attrs: fv.attrs, settings: fv.settings, member: fv.member, value: v2 },
        d,
    )
}

pub open spec fn spec_subst_fvs(
    s: Seq<SpecFieldValue>,
    base: Seq<Seq<char>>,
    variant: Option<Seq<char>>,
) -> (Seq<SpecFieldValue>, Seq<SpecDiag>)
    decreases s,
{
    if s.len() == 0 {
        (Seq::empty(), Seq::empty())
    } else {
        let (t, d1) = spec_subst_fvs(s.drop_last(), base, variant);
        let (f2, d2) = spec_subst_fv(s.last(), base, variant);
        (t.push(f2), d1 + d2)
    }
}

pub open spec fn spec_subst_stmt(
    st: SpecStmt,
    base: Seq<Seq<char>>,
    variant: Option<Seq<char>>,
) -> (SpecStmt, Seq<SpecDiag>)
    decreases st,
{
    match st {
        SpecStmt::Local { attrs, settings, pat, ty, init } => {
            let (t2, d1) = match ty {
                Some(t) => {
                    let (t2, d) = spec_subst_ty(t, base, variant);
                    (Some(t2), d)
                },
                None => (None, Seq::empty()),
            };
            let (i2, d2) = match init {
                Some(e) => {
                    let (e2, d) = spec_subst_expr(e, base, variant);
                    (Some(e2), d)
                },
                None => (None, Seq::empty()),
            };
            (SpecStmt::Local { attrs, settings, pat, ty: t2, init: i2 }, d1 + d2)
        },
        SpecStmt::ExprStmt { expr, semi } => {
            let (e2, d) = spec_subst_expr(expr, base, variant);
            (SpecStmt::ExprStmt { expr: e2, semi }, d)
        },
        SpecStmt::MacroStmt { name, span } => {
            if name == spec_macro_type_str() || name == spec_macro_variant_str() {
                (st, seq![SpecDiag { span, kind: SpecDiagKind::ExprMacroMisused { name } }])
            } else if name == spec_macro_ty() || name == spec_macro_variant_type() {
                (st, seq![SpecDiag { span, kind: SpecDiagKind::TypeMacroMisused { name } }])
            } else {
                (st, Seq::empty())
            }
        },
    }
}

pub open spec fn spec_subst_stmts(
    s: Seq<SpecStmt>,
    base: Seq<Seq<char>>,
    variant: Option<Seq<char>>,
) -> (Seq<SpecStmt>, Seq<SpecDiag>)
    decreases s,
{
    if s.len() == 0 {
        (Seq::empty(), Seq::empty())
    } else {
        let (t, d1) = spec_subst_stmts(s.drop_last(), base, variant);
        let (s2, d2) = spec_subst_stmt(s.last(), base, variant);
        (t.push(s2), d1 + d2)
    }
}

pub open spec fn spec_subst_arm(
    a: SpecArm,
    base: Seq<Seq<char>>,
    variant: Option<Seq<char>>,
) -> (SpecArm, Seq<SpecDiag>)
    decreases a,
{
    let (b2, d) = spec_subst_stmts(a.body, base, variant);
    (SpecArm { pat: a.pat, body: b2 }, d)
}

pub open spec fn spec_subst_arms(
    s: Seq<SpecArm>,
    base: Seq<Seq<char>>,
    variant: Option<Seq<char>>,
) -> (Seq<SpecArm>, Seq<SpecDiag>)
    decreases s,
{
    if s.len() == 0 {
        (Seq::empty(), Seq::empty())
    } else {
        let (t, d1) = spec_subst_arms(s.drop_last(), base, variant);
        let (a2, d2) = spec_subst_arm(s.last(), base, variant);
        (t.push(a2), d1 + d2)
    }
}

/// Substitute placeholders in a type.
#[verifier::loop_isolation(false)]
pub fn subst_ty(t: &Ty, base: &Vec<String>, variant: &Option<String>, diags: &mut Vec<Diag>) -> (r:
    Ty)
    ensures
        r.spec_view() == spec_subst_ty(t.spec_view(), base.deep_view(), variant.deep_view()).0,
        final(diags).deep_view() == old(diags).deep_view() + spec_subst_ty(
            t.spec_view(),
            base.deep_view(),
            variant.deep_view(),
        ).1,
    decreases t,
{
    let ghost db = base.deep_view();
    let ghost dv = variant.deep_view();
    let ghost d0 = diags.deep_view();
    match t {
        Ty::Path { segments, args } => {
            let ghost ds = args.deep_view();
            let mut out: Vec<Ty> = Vec::new();
            let mut i: usize = 0;
            proof {
                assert(out.deep_view() =~= Seq::<SpecTy>::empty());
                assert(d0 + Seq::<SpecDiag>::empty() =~= d0);
            }
            while i < args.len()
                invariant
                    i <= args.len(),
                    ds == args.deep_view(),
                    out.deep_view() == spec_subst_tys(ds.take(i as int), db, dv).0,
                    diags.deep_view() == d0 + spec_subst_tys(ds.take(i as int), db, dv).1,
                decreases args.len() - i,
            {
                proof {
                    assert(ds.take(i + 1).drop_last() =~= ds.take(i as int));
                    assert(ds.take(i + 1).last() == args[i as int].spec_view());
                }
                let ghost a = spec_subst_tys(ds.take(i as int), db, dv).1;
                let ghost b = spec_subst_ty(ds[i as int], db, dv).1;
                let t2 = subst_ty(&args[i], base, variant, diags);
                let ghost pre = out.deep_view();
                out.push(t2);
                proof {
                    assert(out.deep_view() =~= pre.push(t2.spec_view()));
                    assert((d0 + a) + b =~= d0 + (a + b));
                }
                i += 1;
            }
            proof {
                assert(ds.take(args.len() as int) =~= ds);
            }
            let ghost go = out.deep_view();
            let r = Ty::Path { segments: duplicate_strings(segments), args: out };
            proof {
                assert(r.spec_view()->Path_args =~= go);
                assert(t.spec_view()->Path_args =~= args.deep_view());
            }
            r
        },
        Ty::Ref { lifetime, inner } => {
            let i2 = subst_ty(inner, base, variant, diags);
            Ty::Ref {
                lifetime: match lifetime {
                    Some(l) => Some(l.clone()),
                    None => None,
                },
                inner: Box::new(i2),
            }
        },
        Ty::Macro { name, span, arg } => {
            let is_ty_macro = text_eq(name, &macro_ty_text()) || text_eq(
                name,
                &macro_variant_type_text(),
            );
            if is_ty_macro {
                match variant {
                    Some(v) => {
                        let r = Ty::Path { segments: suffix_last(base, v), args: Vec::new() };
                        proof {
                            assert(d0 + Seq::<SpecDiag>::empty() =~= d0);
                            assert(r.spec_view()->Path_args =~= Seq::<SpecTy>::empty());
                        }
                        r
                    },
                    None => {
                        let ghost pre = diags.deep_view();
                        diags.push(
                            Diag {
                                span: *span,
                                kind: DiagKind::MacroInBaseType { name: name.clone() },
                            },
                        );
                        proof {
                            assert(diags.deep_view() =~= pre + seq![
                                SpecDiag {
                                    span: *span,
                                    kind: SpecDiagKind::MacroInBaseType { name: name@ },
                                },
                            ]);
                        }
                        t.duplicate()
                    },
                }
            } else {
                let is_str_macro = text_eq(name, &macro_type_str_text()) || text_eq(
                    name,
                    &macro_variant_str_text(),
                );
                if is_str_macro {
                    let ghost pre = diags.deep_view();
                    diags.push(
                        Diag {
                            span: *span,
                            kind: DiagKind::ExprMacroMisused { name: name.clone() },
                        },
                    );
                    proof {
                        assert(diags.deep_view() =~= pre + seq![
                            SpecDiag {
                                span: *span,
                                kind: SpecDiagKind::ExprMacroMisused { name: name@ },
                            },
                        ]);
                    }
                    t.duplicate()
                } else {
                    proof {
                        assert(d0 + Seq::<SpecDiag>::empty() =~= d0);
                    }
                    t.duplicate()
                }
            }
        },
    }
}

/// Substitute placeholders in an expression.
#[verifier::loop_isolation(false)]
pub fn subst_expr(
    e: &Expr,
    base: &Vec<String>,
    variant: &Option<String>,
    diags: &mut Vec<Diag>,
) -> (r: Expr)
    ensures
        r.spec_view() == spec_subst_expr(e.spec_view(), base.deep_view(), variant.deep_view()).0,
        final(diags).deep_view() == old(diags).deep_view() + spec_subst_expr(
            e.spec_view(),
            base.deep_view(),
            variant.deep_view(),
        ).1,
    decreases e,
{
    let ghost db = base.deep_view();
    let ghost dv = variant.deep_view();
    let ghost d0 = diags.deep_view();
    match e {
        Expr::Lit { lit } => {
            proof {
                assert(d0 + Seq::<SpecDiag>::empty() =~= d0);
            }
            Expr::Lit { lit: lit.duplicate() }
        },
        Expr::Path { segments } => {
            proof {
                assert(d0 + Seq::<SpecDiag>::empty() =~= d0);
            }
            Expr::Path { segments: duplicate_strings(segments) }
        },
        Expr::MacroCall { name, span } => {
            proof {
                assert(d0 + Seq::<SpecDiag>::empty() =~= d0);
            }
            if text_eq(name, &macro_type_str_text()) {
                Expr::Lit { lit: Lit::Str(suffixed_name(base, variant)) }
            } else if text_eq(name, &macro_variant_str_text()) {
                let s = match variant {
                    Some(v) => v.clone(),
                    None => String::new(),
                };
                Expr::Lit { lit: Lit::Str(s) }
            } else if text_eq(name, &macro_ty_text()) || text_eq(
                name,
                &macro_variant_type_text(),
            ) {
                let ghost pre = diags.deep_view();
                diags.push(
                    Diag { span: *span, kind: DiagKind::TypeMacroMisused { name: name.clone() } },
                );
                proof {
                    assert(diags.deep_view() =~= pre + seq![
                        SpecDiag {
                            span: *span,
                            kind: SpecDiagKind::TypeMacroMisused { name: name@ },
                        },
                    ]);
                }
                Expr::MacroCall { name: name.clone(), span: *span }
            } else {
                Expr::MacroCall { name: name.clone(), span: *span }
            }
        },
        Expr::Call { callee, args } => {
            let ghost a = spec_subst_expr((**callee).spec_view(), db, dv).1;
            let ghost b = spec_subst_exprs(args.deep_view(), db, dv).1;
            let c2 = subst_expr(callee, base, variant, diags);
            let a2 = subst_exprs(args, base, variant, diags);
            let ghost ga = a2.deep_view();
            let r = Expr::Call { callee: Box::new(c2), args: a2 };
            proof {
                assert((d0 + a) + b =~= d0 + (a + b));
                assert(e.spec_view()->Call_args =~= args.deep_view());
                assert(r.spec_view()->Call_args =~= ga);
            }
            r
        },
        Expr::MethodCall { receiver, method, args } => {
            let ghost a = spec_subst_expr((**receiver).spec_view(), db, dv).1;
            let ghost b = spec_subst_exprs(args.deep_view(), db, dv).1;
            let r2 = subst_expr(receiver, base, variant, diags);
            let a2 = subst_exprs(args, base, variant, diags);
            let ghost ga = a2.deep_view();
            let r = Expr::MethodCall {
                receiver: Box::new(r2),
                method: method.clone(),
                args: a2,
            };
            proof {
                assert((d0 + a) + b =~= d0 + (a + b));
                assert(e.spec_view()->MethodCall_args =~= args.deep_view());
                assert(r.spec_view()->MethodCall_args =~= ga);
            }
            r
        },
        Expr::Binary { op, left, right } => {
            let ghost a = spec_subst_expr((**left).spec_view(), db, dv).1;
            let ghost b = spec_subst_expr((**right).spec_view(), db, dv).1;
            let l2 = subst_expr(left, base, variant, diags);
            let r2 = subst_expr(right, base, variant, diags);
            proof {
                assert((d0 + a) + b =~= d0 + (a + b));
            }
            Expr::Binary { op: *op, left: Box::new(l2), right: Box::new(r2) }
        },
        Expr::StructLit { segments, fields } => {
            let f2 = subst_fvs(fields, base, variant, diags);
            let ghost gf = f2.deep_view();
            let r = Expr::StructLit { segments: duplicate_strings(segments), fields: f2 };
            proof {
                assert(r.spec_view()->StructLit_fields =~= gf);
                assert(e.spec_view()->StructLit_fields =~= fields.deep_view());
            }
            r
        },
        Expr::If { cond, then_branch, else_branch } => {
            let ghost a = spec_subst_expr((**cond).spec_view(), db, dv).1;
            let ghost b = spec_subst_stmts(then_branch.spec_view(), db, dv).1;
            let c2 = subst_expr(cond, base, variant, diags);
            let t2 = subst_block(then_branch, base, variant, diags);
            match else_branch {
                Some(bl) => {
                    let ghost c = spec_subst_stmts(bl.spec_view(), db, dv).1;
                    let b2 = subst_block(bl, base, variant, diags);
                    proof {
                        assert(((d0 + a) + b) + c =~= d0 + (a + b + c));
                    }
                    Expr::If {
                        cond: Box::new(c2),
                        then_branch: t2,
                        else_branch: Some(b2),
                    }
                },
                None => {
                    proof {
                        assert((d0 + a) + b =~= d0 + (a + b));
                    }
                    Expr::If { cond: Box::new(c2), then_branch: t2, else_branch: None }
                },
            }
        },
        Expr::Match { scrutinee, arms } => {
            let ghost a = spec_subst_expr((**scrutinee).spec_view(), db, dv).1;
            let ghost b = spec_subst_arms(arms.deep_view(), db, dv).1;
            let s2 = subst_expr(scrutinee, base, variant, diags);
            let a2 = subst_arms(arms, base, variant, diags);
            let ghost ga = a2.deep_view();
            let r = Expr::Match { scrutinee: Box::new(s2), arms: a2 };
            proof {
                assert((d0 + a) + b =~= d0 + (a + b));
                assert(e.spec_view()->Match_arms =~= arms.deep_view());
                assert(r.spec_view()->Match_arms =~= ga);
            }
            r
        },
    }
}

#[verifier::loop_isolation(false)]
fn subst_exprs(s: &Vec<Expr>, base: &Vec<String>, variant: &Option<String>, diags: &mut Vec<
    Diag,
>) -> (r: Vec<Expr>)
    ensures
        r.deep_view() == spec_subst_exprs(s.deep_view(), base.deep_view(), variant.deep_view()).0,
        final(diags).deep_view() == old(diags).deep_view() + spec_subst_exprs(
            s.deep_view(),
            base.deep_view(),
            variant.deep_view(),
        ).1,
    decreases s,
{
    let ghost ds = s.deep_view();
    let ghost db = base.deep_view();
    let ghost dv = variant.deep_view();
    let ghost d0 = diags.deep_view();
    let mut out: Vec<Expr> = Vec::new();
    let mut i: usize = 0;
    proof {
        assert(out.deep_view() =~= Seq::<SpecExpr>::empty());
        assert(d0 + Seq::<SpecDiag>::empty() =~= d0);
    }
    while i < s.len()
        invariant
            i <= s.len(),
            ds == s.deep_view(),
            out.deep_view() == spec_subst_exprs(ds.take(i as int), db, dv).0,
            diags.deep_view() == d0 + spec_subst_exprs(ds.take(i as int), db, dv).1,
        decreases s.len() - i,
    {
        proof {
            assert(ds.take(i + 1).drop_last() =~= ds.take(i as int));
            assert(ds.take(i + 1).last() == s[i as int].spec_view());
        }
        let ghost a = spec_subst_exprs(ds.take(i as int), db, dv).1;
        let ghost b = spec_subst_expr(ds[i as int], db, dv).1;
        let e2 = subst_expr(&s[i], base, variant, diags);
        let ghost pre = out.deep_view();
        out.push(e2);
        proof {
            assert(out.deep_view() =~= pre.push(e2.spec_view()));
            assert((d0 + a) + b =~= d0 + (a + b));
        }
        i += 1;
    }
    proof {
        assert(ds.take(s.len() as int) =~= ds);
    }
    out
}

#[verifier::loop_isolation(false)]
fn subst_fvs(
    s: &Vec<FieldValue>,
    base: &Vec<String>,
    variant: &Option<String>,
    diags: &mut Vec<Diag>,
) -> (r: Vec<FieldValue>)
    ensures
        r.deep_view() == spec_subst_fvs(s.deep_view(), base.deep_view(), variant.deep_view()).0,
        final(diags).deep_view() == old(diags).deep_view() + spec_subst_fvs(
            s.deep_view(),
            base.deep_view(),
            variant.deep_view(),
        ).1,
    decreases s,
{
    let ghost ds = s.deep_view();
    let ghost db = base.deep_view();
    let ghost dv = variant.deep_view();
    let ghost d0 = diags.deep_view();
    let mut out: Vec<FieldValue> = Vec::new();
    let mut i: usize = 0;
    proof {
        assert(out.deep_view() =~= Seq::<SpecFieldValue>::empty());
        assert(d0 + Seq::<SpecDiag>::empty() =~= d0);
    }
    while i < s.len()
        invariant
            i <= s.len(),
            ds == s.deep_view(),
            out.deep_view() == spec_subst_fvs(ds.take(i as int), db, dv).0,
            diags.deep_view() == d0 + spec_subst_fvs(ds.take(i as int), db, dv).1,
        decreases s.len() - i,
    {
        proof {
            assert(ds.take(i + 1).drop_last() =~= ds.take(i as int));
            assert(ds.take(i + 1).last() == s[i as int].spec_view());
        }
        let ghost a = spec_subst_fvs(ds.take(i as int), db, dv).1;
        let ghost b = spec_subst_fv(ds[i as int], db, dv).1;
        let fv = &s[i];
        let v2 = subst_expr(&fv.value, base, variant, diags);
        let f2 = FieldValue {
            attrs: duplicate_attrs(&fv.attrs),
            settings: duplicate_value_settings(&fv.settings),
            member: fv.member.clone(),
            value: v2,
        };
        let ghost pre = out.deep_view();
        out.push(f2);
        proof {
            assert(out.deep_view() =~= pre.push(f2.spec_view()));
            assert((d0 + a) + b =~= d0 + (a + b));
        }
        i += 1;
    }
    proof {
        assert(ds.take(s.len() as int) =~= ds);
    }
    out
}

/// Substitute placeholders in a statement.
#[verifier::loop_isolation(false)]
pub fn subst_stmt(
    st: &Stmt,
    base: &Vec<String>,
    variant: &Option<String>,
    diags: &mut Vec<Diag>,
) -> (r: Stmt)
    ensures
        r.spec_view() == spec_subst_stmt(st.spec_view(), base.deep_view(), variant.deep_view()).0,
        final(diags).deep_view() == old(diags).deep_view() + spec_subst_stmt(
            st.spec_view(),
            base.deep_view(),
            variant.deep_view(),
        ).1,
    decreases st,
{
    let ghost db = base.deep_view();
    let ghost dv = variant.deep_view();
    let ghost d0 = diags.deep_view();
    match st {
        Stmt::Local { attrs, settings, pat, ty, init } => {
            let ghost a = match ty.deep_view() {
                Some(t) => spec_subst_ty(t, db, dv).1,
                None => Seq::empty(),
            };
            let t2 = match ty {
                Some(t) => Some(subst_ty(t, base, variant, diags)),
                None => None,
            };
            let ghost b = match st.spec_view()->Local_init {
                Some(e) => spec_subst_expr(e, db, dv).1,
                None => Seq::empty(),
            };
            let i2 = match init {
                Some(e) => Some(subst_expr(e, base, variant, diags)),
                None => None,
            };
            proof {
                assert((d0 + a) + b =~= d0 + (a + b));
            }
            Stmt::Local {
                attrs: duplicate_attrs(attrs),
                settings: duplicate_stmt_settings(settings),
                pat: pat.duplicate(),
                ty: t2,
                init: i2,
            }
        },
        Stmt::ExprStmt { expr, semi } => {
            let e2 = subst_expr(expr, base, variant, diags);
            Stmt::ExprStmt { expr: e2, semi: *semi }
        },
        Stmt::MacroStmt { name, span } => {
            let is_str_macro = text_eq(name, &macro_type_str_text()) || text_eq(
                name,
                &macro_variant_str_text(),
            );
            let is_ty_macro = text_eq(name, &macro_ty_text()) || text_eq(
                name,
                &macro_variant_type_text(),
            );
            if is_str_macro {
                let ghost pre = diags.deep_view();
                diags.push(
                    Diag { span: *span, kind: DiagKind::ExprMacroMisused { name: name.clone() } },
                );
                proof {
                    assert(diags.deep_view() =~= pre + seq![
                        SpecDiag {
                            span: *span,
                            kind: SpecDiagKind::ExprMacroMisused { name: name@ },
                        },
                    ]);
                }
            } else if is_ty_macro {
                let ghost pre = diags.deep_view();
                diags.push(
                    Diag { span: *span, kind: DiagKind::TypeMacroMisused { name: name.clone() } },
                );
                proof {
                    assert(diags.deep_view() =~= pre + seq![
                        SpecDiag {
                            span: *span,
                            kind: SpecDiagKind::TypeMacroMisused { name: name@ },
                        },
                    ]);
                }
            } else {
                proof {
                    assert(d0 + Seq::<SpecDiag>::empty() =~= d0);
                }
            }
            Stmt::MacroStmt { name: name.clone(), span: *span }
        },
    }
}

/// Substitute placeholders in a block.
#[verifier::loop_isolation(false)]
pub fn subst_block(
    b: &Block,
    base: &Vec<String>,
    variant: &Option<String>,
    diags: &mut Vec<Diag>,
) -> (r: Block)
    ensures
        r.spec_view() == spec_subst_stmts(b.spec_view(), base.deep_view(), variant.deep_view()).0,
        final(diags).deep_view() == old(diags).deep_view() + spec_subst_stmts(
            b.spec_view(),
            base.deep_view(),
            variant.deep_view(),
        ).1,
    decreases b,
{
    let ghost ds = b.spec_view();
    let ghost db = base.deep_view();
    let ghost dv = variant.deep_view();
    let ghost d0 = diags.deep_view();
    let mut out: Vec<Stmt> = Vec::new();
    let mut i: usize = 0;
    proof {
        assert(out.deep_view() =~= Seq::<SpecStmt>::empty());
        assert(d0 + Seq::<SpecDiag>::empty() =~= d0);
        assert(ds.len() == b.stmts.len());
    }
    while i < b.stmts.len()
        invariant
            i <= b.stmts.len(),
            ds == b.spec_view(),
            out.deep_view() == spec_subst_stmts(ds.take(i as int), db, dv).0,
            diags.deep_view() == d0 + spec_subst_stmts(ds.take(i as int), db, dv).1,
        decreases b.stmts.len() - i,
    {
        proof {
            assert(ds[i as int] == b.stmts[i as int].spec_view());
            assert(ds.take(i + 1).drop_last() =~= ds.take(i as int));
            assert(ds.take(i + 1).last() == b.stmts[i as int].spec_view());
        }
        let ghost a = spec_subst_stmts(ds.take(i as int), db, dv).1;
        let ghost b2 = spec_subst_stmt(ds[i as int], db, dv).1;
        let s2 = subst_stmt(&b.stmts[i], base, variant, diags);
        let ghost pre = out.deep_view();
        out.push(s2);
        proof {
            assert(out.deep_view() =~= pre.push(s2.spec_view()));
            assert((d0 + a) + b2 =~= d0 + (a + b2));
        }
        i += 1;
    }
    proof {
        assert(ds.take(b.stmts.len() as int) =~= ds);
    }
    let r = Block { stmts: out };
    proof {
        assert(r.spec_view() =~= spec_subst_stmts(ds, db, dv).0);
    }
    r
}

#[verifier::loop_isolation(false)]
fn subst_arms(s: &Vec<Arm>, base: &Vec<String>, variant: &Option<String>, diags: &mut Vec<
    Diag,
>) -> (r: Vec<Arm>)
    ensures
        r.deep_view() == spec_subst_arms(s.deep_view(), base.deep_view(), variant.deep_view()).0,
        final(diags).deep_view() == old(diags).deep_view() + spec_subst_arms(
            s.deep_view(),
            base.deep_view(),
            variant.deep_view(),
        ).1,
    decreases s,
{
    let ghost ds = s.deep_view();
    let ghost db = base.deep_view();
    let ghost dv = variant.deep_view();
    let ghost d0 = diags.deep_view();
    let mut out: Vec<Arm> = Vec::new();
    let mut i: usize = 0;
    proof {
        assert(out.deep_view() =~= Seq::<SpecArm>::empty());
        assert(d0 + Seq::<SpecDiag>::empty() =~= d0);
    }
    while i < s.len()
        invariant
            i <= s.len(),
            ds == s.deep_view(),
            out.deep_view() == spec_subst_arms(ds.take(i as int), db, dv).0,
            diags.deep_view() == d0 + spec_subst_arms(ds.take(i as int), db, dv).1,
        decreases s.len() - i,
    {
        proof {
            assert(ds.take(i + 1).drop_last() =~= ds.take(i as int));
            assert(ds.take(i + 1).last() == s[i as int].spec_view());
        }
        let ghost a = spec_subst_arms(ds.take(i as int), db, dv).1;
        let ghost b = spec_subst_arm(ds[i as int], db, dv).1;
        let body2 = subst_block(&s[i].body, base, variant, diags);
        let a2 = Arm { pat: s[i].pat.duplicate(), body: body2 };
        let ghost pre = out.deep_view();
        out.push(a2);
        proof {
            assert(out.deep_view() =~= pre.push(a2.spec_view()));
            assert((d0 + a) + b =~= d0 + (a + b));
        }
        i += 1;
    }
    proof {
        assert(ds.take(s.len() as int) =~= ds);
    }
    out
}

} // verus!
