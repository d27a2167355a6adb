//! The engine's guarantees, stated and proved once and for all inputs.
//!
//! Each proof function here states one law of the transformation over the
//! same spec functions the executable contracts use, so the laws hold of
//! everything `expand` can ever return.

use vstd::prelude::*;

use crate::ast::{
    SpecArm, SpecAssocItem, SpecAttr, SpecCase, SpecExpr, SpecField, SpecFieldValue,
    SpecFieldsKind, SpecItem, SpecLit, SpecRetype, SpecStmt, SpecTy, SpecVariantSettings, Span,
};
use crate::context::{
    spec_is_marker, spec_member_entries_fold, spec_member_entry_step, spec_member_settings,
    spec_member_settings_fold, spec_resolve_arm, spec_resolve_arms, spec_resolve_assoc,
    spec_resolve_assocs, spec_resolve_cases, spec_resolve_expr, spec_resolve_exprs,
    spec_resolve_fields_list, spec_resolve_fv, spec_resolve_fvs, spec_resolve_item,
    spec_resolve_stmt, spec_resolve_stmts, spec_split_attrs, spec_vars_contain,
};
use crate::errors::SpecDiag;
use crate::expand::{
    spec_expand, spec_expand_case, spec_expand_cases, spec_expand_field, spec_expand_fields_list,
    spec_retyped,
    spec_expand_one, spec_expand_outputs, spec_impl_base, spec_mark_derived,
    spec_member_setting_for, spec_path_matches, spec_rename_path, spec_subst_assoc,
    spec_subst_assocs, spec_walk_arm, spec_walk_arms, spec_walk_assoc, spec_walk_assocs,
    spec_walk_expr, spec_walk_exprs, spec_walk_fv, spec_walk_fvs, spec_walk_stmt,
    spec_walk_stmts, spec_walk_ty,
};
use crate::parsers::SpecMemberAnnotation;
use crate::subst::{spec_subst_expr, spec_subst_ty, spec_subst_tys, spec_suffixed_name};
use crate::words::{spec_macro_type_str, spec_macro_variant_str};

verus! {

/// The identifier of a declaration: its name, or for an impl block the
/// final segment of the implemented type path.
pub open spec fn spec_item_identifier(item: SpecItem) -> Seq<char> {
    match item {
        SpecItem::Struct { name, .. } => name,
        SpecItem::Enum { name, .. } => name,
        SpecItem::Impl { self_ty, .. } => match spec_impl_base(self_ty) {
            Some(base) => {
                if base.0.len() > 0 {
                    base.0.last()
                } else {
                    Seq::empty()
                }
            },
            None => Seq::empty(),
        },
    }
}

/// A declaration whose target the engine accepts: an impl must implement
/// a named type path.
pub open spec fn spec_item_target_wf(item: SpecItem) -> bool {
    match item {
        SpecItem::Impl { self_ty, .. } => match spec_impl_base(self_ty) {
            Some(base) => base.0.len() > 0,
            None => false,
        },
        _ => true,
    }
}

proof fn lemma_resolve_keeps_identity(item: SpecItem, vars: Seq<Seq<char>>)
    ensures
        spec_item_identifier(spec_resolve_item(item, vars).0) == spec_item_identifier(item),
        spec_item_target_wf(item) ==> spec_item_target_wf(spec_resolve_item(item, vars).0),
        spec_resolve_item(item, vars).0 is Struct <==> item is Struct,
        spec_resolve_item(item, vars).0 is Enum <==> item is Enum,
        spec_resolve_item(item, vars).0 is Impl <==> item is Impl,
{
    match item {
        SpecItem::Struct { .. } => {
            assert(spec_resolve_item(item, vars).0->Struct_name == item->Struct_name);
        },
        SpecItem::Enum { .. } => {
            assert(spec_resolve_item(item, vars).0->Enum_name == item->Enum_name);
        },
        SpecItem::Impl { .. } => {
            assert(spec_resolve_item(item, vars).0->Impl_self_ty == item->Impl_self_ty);
        },
    }
}

proof fn lemma_expand_one_identifier(resolved: SpecItem, v: Seq<char>)
    requires
        spec_item_target_wf(resolved),
    ensures
        spec_item_identifier(spec_expand_one(resolved, Some(v)).0) == spec_item_identifier(
            resolved,
        ) + v,
        spec_item_identifier(spec_expand_one(resolved, None).0) == spec_item_identifier(resolved),
{
    match resolved {
        SpecItem::Impl { self_ty, .. } => {
            match spec_impl_base(self_ty) {
                Some(base) => {
                    assert(crate::subst::spec_suffix_last(base.0, v).last() == base.0.last() + v);
                    let out = spec_expand_one(resolved, Some(v)).0;
                    assert(out->Impl_self_ty is Path);
                },
                None => {},
            }
        },
        _ => {},
    }
}

proof fn lemma_outputs_identifiers(resolved: SpecItem, vars: Seq<Seq<char>>, k: int)
    requires
        spec_item_target_wf(resolved),
        0 <= k <= vars.len(),
    ensures
        spec_expand_outputs(resolved, vars, k).0.len() == vars.len() - k,
        forall|j: int|
            0 <= j < vars.len() - k ==> spec_item_identifier(
                #[trigger] spec_expand_outputs(resolved, vars, k).0[j],
            ) == spec_item_identifier(resolved) + vars[k + j],
    decreases vars.len() - k,
{
    if k < vars.len() {
        lemma_expand_one_identifier(resolved, vars[k]);
        lemma_outputs_identifiers(resolved, vars, k + 1);
        let it = spec_expand_one(resolved, Some(vars[k])).0;
        assert(spec_item_identifier(spec_mark_derived(it)) == spec_item_identifier(it));
    }
}

/// For every declaration and variant list, the base output keeps the
/// declaration's identifier, and the output for the k-th variant carries
/// the identifier with that variant's name appended.
pub proof fn lemma_output_identifiers(item: SpecItem, vars: Seq<Seq<char>>)
    requires
        spec_item_target_wf(spec_resolve_item(item, vars).0),
    ensures
        spec_expand(item, vars).0.len() == vars.len() + 1,
        spec_item_identifier(spec_expand(item, vars).0[0]) == spec_item_identifier(item),
        forall|k: int|
            0 <= k < vars.len() ==> spec_item_identifier(
                #[trigger] spec_expand(item, vars).0[k + 1],
            ) == spec_item_identifier(item) + vars[k],
{
    let resolved = spec_resolve_item(item, vars).0;
    lemma_resolve_keeps_identity(item, vars);
    lemma_expand_one_identifier(resolved, Seq::empty());
    lemma_outputs_identifiers(resolved, vars, 0);
    assert forall|k: int| 0 <= k < vars.len() implies spec_item_identifier(
        #[trigger] spec_expand(item, vars).0[k + 1],
    ) == spec_item_identifier(item) + vars[k] by {
        assert(spec_expand(item, vars).0[k + 1] == spec_expand_outputs(resolved, vars, 0).0[k]);
    }
}

/// A type that holds no placeholder invocation anywhere.
pub open spec fn spec_ty_plain(t: SpecTy) -> bool
    decreases t,
{
    match t {
        SpecTy::Path { segments, args } => spec_tys_plain(args),
        SpecTy::Ref { lifetime, inner } => spec_ty_plain(*inner),
        SpecTy::Macro { .. } => false,
    }
}

pub open spec fn spec_tys_plain(s: Seq<SpecTy>) -> bool
    decreases s,
{
    if s.len() == 0 {
        true
    } else {
        spec_tys_plain(s.drop_last()) && spec_ty_plain(s.last())
    }
}

proof fn lemma_subst_plain_ty(t: SpecTy, base: Seq<Seq<char>>, variant: Option<Seq<char>>)
    requires
        spec_ty_plain(t),
    ensures
        spec_subst_ty(t, base, variant) == (t, Seq::<crate::errors::SpecDiag>::empty()),
    decreases t,
{
    match t {
        SpecTy::Path { segments, args } => {
            lemma_subst_plain_tys(args, base, variant);
            assert(spec_subst_ty(t, base, variant).0 == t);
        },
        SpecTy::Ref { lifetime, inner } => {
            lemma_subst_plain_ty(*inner, base, variant);
            assert(spec_subst_ty(t, base, variant).0 == t);
        },
        SpecTy::Macro { .. } => {},
    }
}

proof fn lemma_subst_plain_tys(s: Seq<SpecTy>, base: Seq<Seq<char>>, variant: Option<Seq<char>>)
    requires
        spec_tys_plain(s),
    ensures
        spec_subst_tys(s, base, variant) == (s, Seq::<crate::errors::SpecDiag>::empty()),
    decreases s,
{
    if s.len() == 0 {
        assert(spec_subst_tys(s, base, variant).0 =~= s);
        assert(spec_subst_tys(s, base, variant).1 =~= Seq::<crate::errors::SpecDiag>::empty());
    } else {
        lemma_subst_plain_tys(s.drop_last(), base, variant);
        lemma_subst_plain_ty(s.last(), base, variant);
        assert(spec_subst_tys(s, base, variant).0 =~= s);
        assert(spec_subst_tys(s, base, variant).1 =~= Seq::<crate::errors::SpecDiag>::empty());
    }
}

/// A member with no settings entry for a variant is absent from that
/// variant's output; a member whose entry names no template keeps its
/// type, as long as the type holds no placeholder.
pub proof fn lemma_member_filtering(
    f: SpecField,
    base: Seq<Seq<char>>,
    basename: Seq<char>,
    v: Seq<char>,
)
    ensures
        spec_member_setting_for(f.settings, v) is None ==> spec_expand_field(
            f,
            base,
            basename,
            Some(v),
        ).0 is None,
        (spec_member_setting_for(f.settings, v) matches Some(s) && s.retype is None
            && spec_ty_plain(f.ty)) ==> spec_expand_field(f, base, basename, Some(v)).0
            == Some(
            SpecField { attrs: f.attrs, settings: Seq::empty(), name: f.name, ty: f.ty },
        ),
{
    if spec_ty_plain(f.ty) {
        lemma_subst_plain_ty(f.ty, base, Some(v));
    }
}

/// Every member of a variant's output is the expansion of some input
/// member that carries a settings entry for that variant: a member with
/// no matching entry is absent from the output.
pub proof fn lemma_members_only_kept(
    fs: Seq<SpecField>,
    base: Seq<Seq<char>>,
    basename: Seq<char>,
    v: Seq<char>,
)
    ensures
        forall|k: int|
            0 <= k < spec_expand_fields_list(fs, base, basename, Some(v)).0.len()
                ==> exists|j: int|
                0 <= j < fs.len() && spec_member_setting_for(#[trigger] fs[j].settings, v)
                    is Some && Some(
                    #[trigger] spec_expand_fields_list(fs, base, basename, Some(v)).0[k],
                ) == spec_expand_field(fs[j], base, basename, Some(v)).0,
    decreases fs.len(),
{
    if fs.len() > 0 {
        lemma_members_only_kept(fs.drop_last(), base, basename, v);
        let out = spec_expand_fields_list(fs, base, basename, Some(v)).0;
        let prev = spec_expand_fields_list(fs.drop_last(), base, basename, Some(v)).0;
        assert forall|k: int| 0 <= k < out.len() implies exists|j: int|
            0 <= j < fs.len() && spec_member_setting_for(#[trigger] fs[j].settings, v) is Some
                && Some(#[trigger] out[k]) == spec_expand_field(fs[j], base, basename, Some(v)).0 by {
            if k < prev.len() {
                let j0 = choose|j0: int|
                    0 <= j0 < fs.drop_last().len() && spec_member_setting_for(
                        #[trigger] fs.drop_last()[j0].settings,
                        v,
                    ) is Some && Some(prev[k]) == spec_expand_field(
                        fs.drop_last()[j0],
                        base,
                        basename,
                        Some(v),
                    ).0;
                assert(fs.drop_last()[j0] == fs[j0]);
                assert(out[k] == prev[k]);
            } else {
                let j0 = fs.len() - 1;
                assert(fs[j0] == fs.last());
                assert(spec_member_setting_for(fs[j0].settings, v) is Some);
                assert(Some(out[k]) == spec_expand_field(fs[j0], base, basename, Some(v)).0);
            }
        }
    }
}

/// In an expression position, the type-name placeholder becomes a string
/// literal holding the base type's final path segment with the variant
/// appended, and just the segment for the base expansion.
pub proof fn lemma_type_str_substitution(
    span: Span,
    base: Seq<Seq<char>>,
    variant: Option<Seq<char>>,
)
    requires
        base.len() > 0,
    ensures
        spec_subst_expr(
            SpecExpr::MacroCall { name: spec_macro_type_str(), span },
            base,
            variant,
        ).0 == (SpecExpr::Lit {
            lit: SpecLit::Str(
                base.last() + (match variant {
                    Some(v) => v,
                    None => Seq::<char>::empty(),
                }),
            ),
        }),
{
    assert(spec_suffixed_name(base, variant) == base.last() + (match variant {
        Some(v) => v,
        None => Seq::<char>::empty(),
    }));
}

/// In an expression position, the variant-name placeholder becomes the
/// bare variant name, and the empty string for the base expansion.
pub proof fn lemma_variant_str_substitution(
    span: Span,
    base: Seq<Seq<char>>,
    variant: Option<Seq<char>>,
)
    ensures
        spec_subst_expr(
            SpecExpr::MacroCall { name: spec_macro_variant_str(), span },
            base,
            variant,
        ).0 == (SpecExpr::Lit {
            lit: SpecLit::Str(
                match variant {
                    Some(v) => v,
                    None => Seq::<char>::empty(),
                },
            ),
        }),
{
    assert(spec_macro_variant_str() != spec_macro_type_str()) by {
        reveal_strlit("type_str");
        reveal_strlit("variant_str");
        assert(spec_macro_type_str().len() == 8);
        assert(spec_macro_variant_str().len() == 11);
    }
}

/// A self-referential path in an impl body is renamed to the
/// variant-suffixed form in a variant expansion and left untouched in
/// the base expansion.
pub proof fn lemma_self_path_renaming(
    segs: Seq<Seq<char>>,
    base: Seq<Seq<char>>,
    v: Seq<char>,
)
    requires
        spec_path_matches(segs, base),
    ensures
        spec_walk_expr(SpecExpr::Path { segments: segs }, base, Some(v), false).0
            == (SpecExpr::Path {
            segments: segs.update(base.len() - 1, segs[base.len() - 1] + v),
        }),
        spec_walk_expr(SpecExpr::Path { segments: segs }, base, None, false).0 == (SpecExpr::Path {
            segments: segs,
        }),
        spec_walk_ty(
            SpecTy::Path { segments: segs, args: Seq::empty() },
            base,
            Some(v),
        )->Path_segments == segs.update(base.len() - 1, segs[base.len() - 1] + v),
{
    assert(spec_rename_path(segs, base, v) == segs.update(base.len() - 1, segs[base.len() - 1] + v));
}

/// A path that does not lead with the base path is never renamed.
pub proof fn lemma_foreign_path_untouched(
    segs: Seq<Seq<char>>,
    base: Seq<Seq<char>>,
    v: Seq<char>,
)
    requires
        !spec_path_matches(segs, base),
    ensures
        spec_walk_expr(SpecExpr::Path { segments: segs }, base, Some(v), false).0
            == (SpecExpr::Path { segments: segs }),
{
}

/// No attribute of the list is an annotation marker.
pub open spec fn spec_attrs_clean(attrs: Seq<SpecAttr>) -> bool {
    forall|k: int| 0 <= k < attrs.len() ==> !spec_is_marker(#[trigger] attrs[k])
}

/// No annotation marker anywhere in an expression.
pub open spec fn spec_expr_clean(e: SpecExpr) -> bool
    decreases e,
{
    match e {
        SpecExpr::Lit { .. } => true,
        SpecExpr::Path { .. } => true,
        SpecExpr::MacroCall { .. } => true,
        SpecExpr::Call { callee, args } => spec_expr_clean(*callee) && spec_exprs_clean(args),
        SpecExpr::MethodCall { receiver, args, .. } => spec_expr_clean(*receiver)
            && spec_exprs_clean(args),
        SpecExpr::Binary { left, right, .. } => spec_expr_clean(*left) && spec_expr_clean(*right),
        SpecExpr::StructLit { fields, .. } => spec_fvs_clean(fields),
        SpecExpr::If { cond, then_branch, else_branch } => spec_expr_clean(*cond)
            && spec_stmts_clean(then_branch) && (match else_branch {
            Some(b) => spec_stmts_clean(b),
            None => true,
        }),
        SpecExpr::Match { scrutinee, arms } => spec_expr_clean(*scrutinee) && spec_arms_clean(
            arms,
        ),
    }
}

pub open spec fn spec_exprs_clean(s: Seq<SpecExpr>) -> bool
    decreases s,
{
    if s.len() == 0 {
        true
    } else {
        spec_exprs_clean(s.drop_last()) && spec_expr_clean(s.last())
    }
}

pub open spec fn spec_fv_clean(fv: SpecFieldValue) -> bool
    decreases fv,
{
    spec_attrs_clean(fv.attrs) && spec_expr_clean(fv.value)
}

pub open spec fn spec_fvs_clean(s: Seq<SpecFieldValue>) -> bool
    decreases s,
{
    if s.len() == 0 {
        true
    } else {
        spec_fvs_clean(s.drop_last()) && spec_fv_clean(s.last())
    }
}

pub open spec fn spec_stmt_clean(st: SpecStmt) -> bool
    decreases st,
{
    match st {
        SpecStmt::Local { attrs, init, .. } => spec_attrs_clean(attrs) && (match init {
            Some(e) => spec_expr_clean(e),
            None => true,
        }),
        SpecStmt::ExprStmt { expr, .. } => spec_expr_clean(expr),
        SpecStmt::MacroStmt { .. } => true,
    }
}

pub open spec fn spec_stmts_clean(s: Seq<SpecStmt>) -> bool
    decreases s,
{
    if s.len() == 0 {
        true
    } else {
        spec_stmts_clean(s.drop_last()) && spec_stmt_clean(s.last())
    }
}

pub open spec fn spec_arm_clean(a: SpecArm) -> bool
    decreases a,
{
    spec_stmts_clean(a.body)
}

pub open spec fn spec_arms_clean(s: Seq<SpecArm>) -> bool
    decreases s,
{
    if s.len() == 0 {
        true
    } else {
        spec_arms_clean(s.drop_last()) && spec_arm_clean(s.last())
    }
}

pub open spec fn spec_fields_clean(fs: Seq<SpecField>) -> bool {
    forall|k: int| 0 <= k < fs.len() ==> spec_attrs_clean(#[trigger] fs[k].attrs)
}

pub open spec fn spec_fields_kind_clean(k: SpecFieldsKind) -> bool {
    match k {
        SpecFieldsKind::Named(fs) => spec_fields_clean(fs),
        SpecFieldsKind::Unnamed(fs) => spec_fields_clean(fs),
        SpecFieldsKind::Unit => true,
    }
}

pub open spec fn spec_cases_clean(cs: Seq<SpecCase>) -> bool {
    forall|k: int|
        0 <= k < cs.len() ==> spec_attrs_clean(#[trigger] cs[k].attrs) && spec_fields_kind_clean(
            cs[k].fields,
        )
}

pub open spec fn spec_assoc_clean(a: SpecAssocItem) -> bool {
    match a {
        SpecAssocItem::Const { attrs, value, .. } => spec_attrs_clean(attrs) && spec_expr_clean(
            value,
        ),
        SpecAssocItem::Method { attrs, body, .. } => spec_attrs_clean(attrs) && spec_stmts_clean(
            body,
        ),
    }
}

pub open spec fn spec_assocs_clean(s: Seq<SpecAssocItem>) -> bool {
    forall|k: int| 0 <= k < s.len() ==> spec_assoc_clean(#[trigger] s[k])
}

/// No annotation marker anywhere in a declaration.
pub open spec fn spec_item_clean(item: SpecItem) -> bool {
    match item {
        SpecItem::Struct { attrs, fields, .. } => spec_attrs_clean(attrs)
            && spec_fields_kind_clean(fields),
        SpecItem::Enum { attrs, cases, .. } => spec_attrs_clean(attrs) && spec_cases_clean(cases),
        SpecItem::Impl { attrs, items, .. } => spec_attrs_clean(attrs) && spec_assocs_clean(
            items,
        ),
    }
}

proof fn lemma_split_clean(attrs: Seq<SpecAttr>)
    ensures
        spec_attrs_clean(spec_split_attrs(attrs).0),
    decreases attrs.len(),
{
    if attrs.len() > 0 {
        lemma_split_clean(attrs.drop_last());
    }
}

proof fn lemma_resolve_expr_clean(e: SpecExpr, vars: Seq<Seq<char>>)
    ensures
        spec_expr_clean(spec_resolve_expr(e, vars).0),
    decreases e,
{
    match e {
        SpecExpr::Lit { .. } => {},
        SpecExpr::Path { .. } => {},
        SpecExpr::MacroCall { .. } => {},
        SpecExpr::Call { callee, args } => {
            lemma_resolve_expr_clean(*callee, vars);
            lemma_resolve_exprs_clean(args, vars);
        },
        SpecExpr::MethodCall { receiver, args, .. } => {
            lemma_resolve_expr_clean(*receiver, vars);
            lemma_resolve_exprs_clean(args, vars);
        },
        SpecExpr::Binary { left, right, .. } => {
            lemma_resolve_expr_clean(*left, vars);
            lemma_resolve_expr_clean(*right, vars);
        },
        SpecExpr::StructLit { fields, .. } => {
            lemma_resolve_fvs_clean(fields, vars);
        },
        SpecExpr::If { cond, then_branch, else_branch } => {
            lemma_resolve_expr_clean(*cond, vars);
            lemma_resolve_stmts_clean(then_branch, vars);
            match else_branch {
                Some(b) => lemma_resolve_stmts_clean(b, vars),
                None => {},
            }
        },
        SpecExpr::Match { scrutinee, arms } => {
            lemma_resolve_expr_clean(*scrutinee, vars);
            lemma_resolve_arms_clean(arms, vars);
        },
    }
}

proof fn lemma_resolve_exprs_clean(s: Seq<SpecExpr>, vars: Seq<Seq<char>>)
    ensures
        spec_exprs_clean(spec_resolve_exprs(s, vars).0),
    decreases s,
{
    if s.len() > 0 {
        lemma_resolve_exprs_clean(s.drop_last(), vars);
        lemma_resolve_expr_clean(s.last(), vars);
        assert(spec_resolve_exprs(s, vars).0.drop_last() =~= spec_resolve_exprs(
            s.drop_last(),
            vars,
        ).0);
    } else {
        assert(spec_resolve_exprs(s, vars).0.len() == 0);
    }
}

proof fn lemma_resolve_fvs_clean(s: Seq<SpecFieldValue>, vars: Seq<Seq<char>>)
    ensures
        spec_fvs_clean(spec_resolve_fvs(s, vars).0),
    decreases s,
{
    if s.len() > 0 {
        lemma_resolve_fvs_clean(s.drop_last(), vars);
        lemma_split_clean(s.last().attrs);
        lemma_resolve_expr_clean(s.last().value, vars);
        assert(spec_resolve_fvs(s, vars).0.drop_last() =~= spec_resolve_fvs(
            s.drop_last(),
            vars,
        ).0);
        assert(spec_resolve_fvs(s, vars).0.last() == spec_resolve_fv(s.last(), vars).0);
        assert(spec_resolve_fv(s.last(), vars).0.attrs == spec_split_attrs(s.last().attrs).0);
        assert(spec_attrs_clean(spec_resolve_fv(s.last(), vars).0.attrs));
        assert(spec_expr_clean(spec_resolve_fv(s.last(), vars).0.value));
        assert(spec_fv_clean(spec_resolve_fvs(s, vars).0.last()));
        assert(spec_fvs_clean(spec_resolve_fvs(s, vars).0.drop_last()));
        assert(spec_resolve_fvs(s, vars).0.len() > 0);
        assert(spec_fvs_clean(spec_resolve_fvs(s, vars).0));
    } else {
        assert(spec_resolve_fvs(s, vars).0.len() == 0);
    }
}

proof fn lemma_resolve_stmts_clean(s: Seq<SpecStmt>, vars: Seq<Seq<char>>)
    ensures
        spec_stmts_clean(spec_resolve_stmts(s, vars).0),
    decreases s,
{
    if s.len() > 0 {
        lemma_resolve_stmts_clean(s.drop_last(), vars);
        let st = s.last();
        match st {
            SpecStmt::Local { attrs, init, .. } => {
                lemma_split_clean(attrs);
                match init {
                    Some(e) => lemma_resolve_expr_clean(e, vars),
                    None => {},
                }
            },
            SpecStmt::ExprStmt { expr, .. } => {
                lemma_resolve_expr_clean(expr, vars);
            },
            SpecStmt::MacroStmt { .. } => {},
        }
        assert(spec_resolve_stmts(s, vars).0.drop_last() =~= spec_resolve_stmts(
            s.drop_last(),
            vars,
        ).0);
        assert(spec_resolve_stmts(s, vars).0.last() == spec_resolve_stmt(s.last(), vars).0);
        match st {
            SpecStmt::Local { attrs, init, .. } => {
                assert(spec_resolve_stmt(st, vars).0->Local_attrs == spec_split_attrs(attrs).0);
            },
            _ => {},
        }
        assert(spec_stmt_clean(spec_resolve_stmts(s, vars).0.last()));
        assert(spec_stmts_clean(spec_resolve_stmts(s, vars).0.drop_last()));
        assert(spec_resolve_stmts(s, vars).0.len() > 0);
        assert(spec_stmts_clean(spec_resolve_stmts(s, vars).0));
    } else {
        assert(spec_resolve_stmts(s, vars).0.len() == 0);
    }
}

proof fn lemma_resolve_arms_clean(s: Seq<SpecArm>, vars: Seq<Seq<char>>)
    ensures
        spec_arms_clean(spec_resolve_arms(s, vars).0),
    decreases s,
{
    if s.len() > 0 {
        lemma_resolve_arms_clean(s.drop_last(), vars);
        lemma_resolve_stmts_clean(s.last().body, vars);
        assert(spec_resolve_arms(s, vars).0.drop_last() =~= spec_resolve_arms(
            s.drop_last(),
            vars,
        ).0);
        assert(spec_resolve_arms(s, vars).0.last() == spec_resolve_arm(s.last(), vars).0);
        assert(spec_arm_clean(spec_resolve_arms(s, vars).0.last()));
        assert(spec_arms_clean(spec_resolve_arms(s, vars).0.drop_last()));
        assert(spec_resolve_arms(s, vars).0.len() > 0);
        assert(spec_arms_clean(spec_resolve_arms(s, vars).0));
    } else {
        assert(spec_resolve_arms(s, vars).0.len() == 0);
    }
}

proof fn lemma_resolve_fields_clean(fs: Seq<SpecField>, vars: Seq<Seq<char>>)
    ensures
        spec_fields_clean(spec_resolve_fields_list(fs, vars).0),
    decreases fs.len(),
{
    if fs.len() > 0 {
        lemma_resolve_fields_clean(fs.drop_last(), vars);
        lemma_split_clean(fs.last().attrs);
        assert(spec_resolve_fields_list(fs, vars).0.drop_last() =~= spec_resolve_fields_list(
            fs.drop_last(),
            vars,
        ).0);
    }
}

proof fn lemma_resolve_cases_clean(cs: Seq<SpecCase>, vars: Seq<Seq<char>>)
    ensures
        spec_cases_clean(spec_resolve_cases(cs, vars).0),
    decreases cs.len(),
{
    if cs.len() > 0 {
        lemma_resolve_cases_clean(cs.drop_last(), vars);
        lemma_split_clean(cs.last().attrs);
        match cs.last().fields {
            SpecFieldsKind::Named(fs) => lemma_resolve_fields_clean(fs, vars),
            SpecFieldsKind::Unnamed(fs) => lemma_resolve_fields_clean(fs, vars),
            SpecFieldsKind::Unit => {},
        }
        assert(spec_resolve_cases(cs, vars).0.drop_last() =~= spec_resolve_cases(
            cs.drop_last(),
            vars,
        ).0);
    }
}

proof fn lemma_resolve_assocs_clean(s: Seq<SpecAssocItem>, vars: Seq<Seq<char>>)
    ensures
        spec_assocs_clean(spec_resolve_assocs(s, vars).0),
    decreases s,
{
    if s.len() > 0 {
        lemma_resolve_assocs_clean(s.drop_last(), vars);
        match s.last() {
            SpecAssocItem::Const { attrs, value, .. } => {
                lemma_split_clean(attrs);
                lemma_resolve_expr_clean(value, vars);
            },
            SpecAssocItem::Method { attrs, body, .. } => {
                lemma_split_clean(attrs);
                lemma_resolve_stmts_clean(body, vars);
            },
        }
        assert(spec_resolve_assocs(s, vars).0.drop_last() =~= spec_resolve_assocs(
            s.drop_last(),
            vars,
        ).0);
        assert(spec_resolve_assocs(s, vars).0.last() == spec_resolve_assoc(s.last(), vars).0);
        assert(spec_assoc_clean(spec_resolve_assocs(s, vars).0.last()));
        assert(forall|k: int| 0 <= k < spec_resolve_assocs(s, vars).0.len() ==> spec_assoc_clean(
            #[trigger] spec_resolve_assocs(s, vars).0[k],
        ));
    }
}

/// Resolution consumes every annotation marker: the resolved declaration
/// is already marker-free.
pub proof fn lemma_resolve_clean(item: SpecItem, vars: Seq<Seq<char>>)
    ensures
        spec_item_clean(spec_resolve_item(item, vars).0),
{
    match item {
        SpecItem::Struct { attrs, fields, .. } => {
            lemma_split_clean(attrs);
            match fields {
                SpecFieldsKind::Named(fs) => lemma_resolve_fields_clean(fs, vars),
                SpecFieldsKind::Unnamed(fs) => lemma_resolve_fields_clean(fs, vars),
                SpecFieldsKind::Unit => {},
            }
        },
        SpecItem::Enum { attrs, cases, .. } => {
            lemma_split_clean(attrs);
            lemma_resolve_cases_clean(cases, vars);
        },
        SpecItem::Impl { attrs, items, .. } => {
            lemma_split_clean(attrs);
            lemma_resolve_assocs_clean(items, vars);
        },
    }
}

proof fn lemma_subst_expr_clean(e: SpecExpr, base: Seq<Seq<char>>, variant: Option<Seq<char>>)
    requires
        spec_expr_clean(e),
    ensures
        spec_expr_clean(spec_subst_expr(e, base, variant).0),
    decreases e,
{
    match e {
        SpecExpr::Call { callee, args } => {
            lemma_subst_expr_clean(*callee, base, variant);
            lemma_subst_exprs_clean(args, base, variant);
        },
        SpecExpr::MethodCall { receiver, args, .. } => {
            lemma_subst_expr_clean(*receiver, base, variant);
            lemma_subst_exprs_clean(args, base, variant);
        },
        SpecExpr::Binary { left, right, .. } => {
            lemma_subst_expr_clean(*left, base, variant);
            lemma_subst_expr_clean(*right, base, variant);
        },
        SpecExpr::StructLit { fields, .. } => {
            lemma_subst_fvs_clean(fields, base, variant);
        },
        SpecExpr::If { cond, then_branch, else_branch } => {
            lemma_subst_expr_clean(*cond, base, variant);
            lemma_subst_stmts_clean(then_branch, base, variant);
            match else_branch {
                Some(b) => lemma_subst_stmts_clean(b, base, variant),
                None => {},
            }
        },
        SpecExpr::Match { scrutinee, arms } => {
            lemma_subst_expr_clean(*scrutinee, base, variant);
            lemma_subst_arms_clean(arms, base, variant);
        },
        _ => {},
    }
}

proof fn lemma_subst_exprs_clean(s: Seq<SpecExpr>, base: Seq<Seq<char>>, variant: Option<Seq<char>>)
    requires
        spec_exprs_clean(s),
    ensures
        spec_exprs_clean(crate::subst::spec_subst_exprs(s, base, variant).0),
    decreases s,
{
    if s.len() > 0 {
        assert(spec_exprs_clean(s.drop_last()) && spec_expr_clean(s.last()));
        lemma_subst_exprs_clean(s.drop_last(), base, variant);
        lemma_subst_expr_clean(s.last(), base, variant);
        let out = crate::subst::spec_subst_exprs(s, base, variant).0;
        assert(out.drop_last() =~= crate::subst::spec_subst_exprs(s.drop_last(), base, variant).0);
        assert(out.last() == spec_subst_expr(s.last(), base, variant).0);
        assert(spec_exprs_clean(out));
    } else {
        assert(crate::subst::spec_subst_exprs(s, base, variant).0.len() == 0);
    }
}

proof fn lemma_subst_fvs_clean(
    s: Seq<SpecFieldValue>,
    base: Seq<Seq<char>>,
    variant: Option<Seq<char>>,
)
    requires
        spec_fvs_clean(s),
    ensures
        spec_fvs_clean(crate::subst::spec_subst_fvs(s, base, variant).0),
    decreases s,
{
    if s.len() > 0 {
        assert(spec_fvs_clean(s.drop_last()) && spec_fv_clean(s.last()));
        lemma_subst_fvs_clean(s.drop_last(), base, variant);
        lemma_subst_expr_clean(s.last().value, base, variant);
        let out = crate::subst::spec_subst_fvs(s, base, variant).0;
        assert(out.drop_last() =~= crate::subst::spec_subst_fvs(s.drop_last(), base, variant).0);
        assert(out.last() == crate::subst::spec_subst_fv(s.last(), base, variant).0);
        assert(spec_fv_clean(out.last()));
        assert(spec_fvs_clean(out));
    } else {
        assert(crate::subst::spec_subst_fvs(s, base, variant).0.len() == 0);
    }
}

proof fn lemma_subst_stmts_clean(s: Seq<SpecStmt>, base: Seq<Seq<char>>, variant: Option<Seq<char>>)
    requires
        spec_stmts_clean(s),
    ensures
        spec_stmts_clean(crate::subst::spec_subst_stmts(s, base, variant).0),
    decreases s,
{
    if s.len() > 0 {
        assert(spec_stmts_clean(s.drop_last()) && spec_stmt_clean(s.last()));
        lemma_subst_stmts_clean(s.drop_last(), base, variant);
        match s.last() {
            SpecStmt::Local { init, .. } => {
                match init {
                    Some(e) => lemma_subst_expr_clean(e, base, variant),
                    None => {},
                }
            },
            SpecStmt::ExprStmt { expr, .. } => lemma_subst_expr_clean(expr, base, variant),
            SpecStmt::MacroStmt { .. } => {},
        }
        let out = crate::subst::spec_subst_stmts(s, base, variant).0;
        assert(out.drop_last() =~= crate::subst::spec_subst_stmts(s.drop_last(), base, variant).0);
        assert(out.last() == crate::subst::spec_subst_stmt(s.last(), base, variant).0);
        assert(spec_stmt_clean(out.last()));
        assert(spec_stmts_clean(out));
    } else {
        assert(crate::subst::spec_subst_stmts(s, base, variant).0.len() == 0);
    }
}

proof fn lemma_subst_arms_clean(s: Seq<SpecArm>, base: Seq<Seq<char>>, variant: Option<Seq<char>>)
    requires
        spec_arms_clean(s),
    ensures
        spec_arms_clean(crate::subst::spec_subst_arms(s, base, variant).0),
    decreases s,
{
    if s.len() > 0 {
        assert(spec_arms_clean(s.drop_last()) && spec_arm_clean(s.last()));
        lemma_subst_arms_clean(s.drop_last(), base, variant);
        lemma_subst_stmts_clean(s.last().body, base, variant);
        let out = crate::subst::spec_subst_arms(s, base, variant).0;
        assert(out.drop_last() =~= crate::subst::spec_subst_arms(s.drop_last(), base, variant).0);
        assert(out.last() == crate::subst::spec_subst_arm(s.last(), base, variant).0);
        assert(spec_arm_clean(out.last()));
        assert(spec_arms_clean(out));
    } else {
        assert(crate::subst::spec_subst_arms(s, base, variant).0.len() == 0);
    }
}

proof fn lemma_walk_expr_clean(
    e: SpecExpr,
    base: Seq<Seq<char>>,
    variant: Option<Seq<char>>,
    p: bool,
)
    requires
        spec_expr_clean(e),
    ensures
        spec_expr_clean(spec_walk_expr(e, base, variant, p).0),
    decreases e,
{
    match e {
        SpecExpr::Call { callee, args } => {
            lemma_walk_expr_clean(*callee, base, variant, p);
            let p1 = spec_walk_expr(*callee, base, variant, p).1;
            lemma_walk_exprs_clean(args, base, variant, p1);
        },
        SpecExpr::MethodCall { receiver, args, .. } => {
            lemma_walk_expr_clean(*receiver, base, variant, p);
            let p1 = spec_walk_expr(*receiver, base, variant, p).1;
            lemma_walk_exprs_clean(args, base, variant, p1);
        },
        SpecExpr::Binary { left, right, .. } => {
            lemma_walk_expr_clean(*left, base, variant, p);
            let p1 = spec_walk_expr(*left, base, variant, p).1;
            lemma_walk_expr_clean(*right, base, variant, p1);
        },
        SpecExpr::StructLit { segments, fields } => {
            let p1 = match variant {
                Some(v) => if p { false } else { p },
                None => p,
            };
            lemma_walk_fvs_clean(fields, base, variant, p1);
        },
        SpecExpr::If { cond, then_branch, else_branch } => {
            lemma_walk_expr_clean(*cond, base, variant, p);
            let p1 = spec_walk_expr(*cond, base, variant, p).1;
            lemma_walk_stmts_clean(then_branch, base, variant, p1);
            let p2 = spec_walk_stmts(then_branch, base, variant, p1).1;
            match else_branch {
                Some(b) => lemma_walk_stmts_clean(b, base, variant, p2),
                None => {},
            }
        },
        SpecExpr::Match { scrutinee, arms } => {
            lemma_walk_expr_clean(*scrutinee, base, variant, p);
            let p1 = spec_walk_expr(*scrutinee, base, variant, p).1;
            lemma_walk_arms_clean(arms, base, variant, p1);
        },
        _ => {},
    }
}

proof fn lemma_walk_exprs_clean(
    s: Seq<SpecExpr>,
    base: Seq<Seq<char>>,
    variant: Option<Seq<char>>,
    p: bool,
)
    requires
        spec_exprs_clean(s),
    ensures
        spec_exprs_clean(spec_walk_exprs(s, base, variant, p).0),
    decreases s,
{
    if s.len() > 0 {
        assert(spec_exprs_clean(s.drop_first())) by {
            lemma_clean_prefix_exprs(s);
        }
        assert(spec_expr_clean(s.first())) by {
            lemma_clean_prefix_exprs(s);
        }
        lemma_walk_expr_clean(s.first(), base, variant, p);
        let p1 = spec_walk_expr(s.first(), base, variant, p).1;
        lemma_walk_exprs_clean(s.drop_first(), base, variant, p1);
        let h = spec_walk_expr(s.first(), base, variant, p).0;
        let t = spec_walk_exprs(s.drop_first(), base, variant, p1).0;
        lemma_cons_clean_exprs(h, t);
    }
}

/// Element-wise consequences of the tail-built cleanliness predicates.
proof fn lemma_clean_prefix_exprs(s: Seq<SpecExpr>)
    requires
        spec_exprs_clean(s),
        s.len() > 0,
    ensures
        spec_expr_clean(s.first()),
        spec_exprs_clean(s.drop_first()),
    decreases s,
{
    if s.len() == 1 {
        assert(s.drop_last() =~= Seq::<SpecExpr>::empty());
        assert(s.first() == s.last());
        assert(s.drop_first() =~= Seq::<SpecExpr>::empty());
    } else {
        assert(spec_exprs_clean(s.drop_last()) && spec_expr_clean(s.last()));
        lemma_clean_prefix_exprs(s.drop_last());
        assert(s.drop_last().first() == s.first());
        assert(s.drop_first().drop_last() =~= s.drop_last().drop_first());
        assert(s.drop_first().last() == s.last());
        assert(spec_exprs_clean(s.drop_first()));
    }
}

proof fn lemma_cons_clean_exprs(h: SpecExpr, t: Seq<SpecExpr>)
    requires
        spec_expr_clean(h),
        spec_exprs_clean(t),
    ensures
        spec_exprs_clean(seq![h] + t),
    decreases t,
{
    let s = seq![h] + t;
    if t.len() == 0 {
        assert(spec_exprs_clean(Seq::<SpecExpr>::empty()));
        assert(s.drop_last() =~= Seq::<SpecExpr>::empty());
        assert(s.last() == h);
    } else {
        assert(spec_exprs_clean(t.drop_last()) && spec_expr_clean(t.last()));
        lemma_cons_clean_exprs(h, t.drop_last());
        assert(s.drop_last() =~= seq![h] + t.drop_last());
        assert(s.last() == t.last());
        assert(spec_exprs_clean(s));
    }
}

proof fn lemma_clean_prefix_fvs(s: Seq<SpecFieldValue>)
    requires
        spec_fvs_clean(s),
        s.len() > 0,
    ensures
        spec_fv_clean(s.first()),
        spec_fvs_clean(s.drop_first()),
    decreases s,
{
    if s.len() == 1 {
        assert(s.drop_last() =~= Seq::<SpecFieldValue>::empty());
        assert(s.first() == s.last());
        assert(s.drop_first() =~= Seq::<SpecFieldValue>::empty());
    } else {
        assert(spec_fvs_clean(s.drop_last()) && spec_fv_clean(s.last()));
        lemma_clean_prefix_fvs(s.drop_last());
        assert(s.drop_last().first() == s.first());
        assert(s.drop_first().drop_last() =~= s.drop_last().drop_first());
        assert(s.drop_first().last() == s.last());
        assert(spec_fvs_clean(s.drop_first()));
    }
}

proof fn lemma_cons_clean_fvs(h: SpecFieldValue, t: Seq<SpecFieldValue>)
    requires
        spec_fv_clean(h),
        spec_fvs_clean(t),
    ensures
        spec_fvs_clean(seq![h] + t),
    decreases t,
{
    let s = seq![h] + t;
    if t.len() == 0 {
        assert(spec_fvs_clean(Seq::<SpecFieldValue>::empty()));
        assert(s.drop_last() =~= Seq::<SpecFieldValue>::empty());
        assert(s.last() == h);
    } else {
        assert(spec_fvs_clean(t.drop_last()) && spec_fv_clean(t.last()));
        lemma_cons_clean_fvs(h, t.drop_last());
        assert(s.drop_last() =~= seq![h] + t.drop_last());
        assert(s.last() == t.last());
        assert(spec_fvs_clean(s));
    }
}

proof fn lemma_walk_fvs_clean(
    s: Seq<SpecFieldValue>,
    base: Seq<Seq<char>>,
    variant: Option<Seq<char>>,
    p: bool,
)
    requires
        spec_fvs_clean(s),
    ensures
        spec_fvs_clean(spec_walk_fvs(s, base, variant, p).0),
    decreases s,
{
    if s.len() > 0 {
        lemma_clean_prefix_fvs(s);
        if crate::expand::spec_fv_kept(s.first(), variant) {
            lemma_walk_expr_clean(s.first().value, base, variant, p);
            let p1 = spec_walk_fv(s.first(), base, variant, p).1;
            lemma_walk_fvs_clean(s.drop_first(), base, variant, p1);
            let h = spec_walk_fv(s.first(), base, variant, p).0;
            let t = spec_walk_fvs(s.drop_first(), base, variant, p1).0;
            assert(spec_fv_clean(h));
            lemma_cons_clean_fvs(h, t);
        } else {
            lemma_walk_fvs_clean(s.drop_first(), base, variant, p);
        }
    }
}

proof fn lemma_clean_prefix_stmts(s: Seq<SpecStmt>)
    requires
        spec_stmts_clean(s),
        s.len() > 0,
    ensures
        spec_stmt_clean(s.first()),
        spec_stmts_clean(s.drop_first()),
    decreases s,
{
    if s.len() == 1 {
        assert(s.drop_last() =~= Seq::<SpecStmt>::empty());
        assert(s.first() == s.last());
        assert(s.drop_first() =~= Seq::<SpecStmt>::empty());
    } else {
        assert(spec_stmts_clean(s.drop_last()) && spec_stmt_clean(s.last()));
        lemma_clean_prefix_stmts(s.drop_last());
        assert(s.drop_last().first() == s.first());
        assert(s.drop_first().drop_last() =~= s.drop_last().drop_first());
        assert(s.drop_first().last() == s.last());
        assert(spec_stmts_clean(s.drop_first()));
    }
}

proof fn lemma_cons_clean_stmts(h: SpecStmt, t: Seq<SpecStmt>)
    requires
        spec_stmt_clean(h),
        spec_stmts_clean(t),
    ensures
        spec_stmts_clean(seq![h] + t),
    decreases t,
{
    let s = seq![h] + t;
    if t.len() == 0 {
        assert(spec_stmts_clean(Seq::<SpecStmt>::empty()));
        assert(s.drop_last() =~= Seq::<SpecStmt>::empty());
        assert(s.last() == h);
    } else {
        assert(spec_stmts_clean(t.drop_last()) && spec_stmt_clean(t.last()));
        lemma_cons_clean_stmts(h, t.drop_last());
        assert(s.drop_last() =~= seq![h] + t.drop_last());
        assert(s.last() == t.last());
        assert(spec_stmts_clean(s));
    }
}

proof fn lemma_walk_stmts_clean(
    s: Seq<SpecStmt>,
    base: Seq<Seq<char>>,
    variant: Option<Seq<char>>,
    p: bool,
)
    requires
        spec_stmts_clean(s),
    ensures
        spec_stmts_clean(spec_walk_stmts(s, base, variant, p).0),
    decreases s,
{
    if s.len() > 0 {
        lemma_clean_prefix_stmts(s);
        let (keep, vary) = crate::expand::spec_stmt_choice(s.first(), variant);
        if keep {
            match s.first() {
                SpecStmt::Local { init, .. } => {
                    match init {
                        Some(e) => lemma_walk_expr_clean(e, base, variant, p || vary),
                        None => {},
                    }
                },
                SpecStmt::ExprStmt { expr, .. } => lemma_walk_expr_clean(
                    expr,
                    base,
                    variant,
                    p || vary,
                ),
                SpecStmt::MacroStmt { .. } => {},
            }
            let h = spec_walk_stmt(s.first(), base, variant, p || vary).0;
            let p1 = spec_walk_stmt(s.first(), base, variant, p || vary).1;
            lemma_walk_stmts_clean(s.drop_first(), base, variant, p1);
            let t = spec_walk_stmts(s.drop_first(), base, variant, p1).0;
            assert(spec_stmt_clean(h));
            lemma_cons_clean_stmts(h, t);
        } else {
            lemma_walk_stmts_clean(s.drop_first(), base, variant, p);
        }
    }
}

proof fn lemma_clean_prefix_arms(s: Seq<SpecArm>)
    requires
        spec_arms_clean(s),
        s.len() > 0,
    ensures
        spec_arm_clean(s.first()),
        spec_arms_clean(s.drop_first()),
    decreases s,
{
    if s.len() == 1 {
        assert(s.drop_last() =~= Seq::<SpecArm>::empty());
        assert(s.first() == s.last());
        assert(s.drop_first() =~= Seq::<SpecArm>::empty());
    } else {
        assert(spec_arms_clean(s.drop_last()) && spec_arm_clean(s.last()));
        lemma_clean_prefix_arms(s.drop_last());
        assert(s.drop_last().first() == s.first());
        assert(s.drop_first().drop_last() =~= s.drop_last().drop_first());
        assert(s.drop_first().last() == s.last());
        assert(spec_arms_clean(s.drop_first()));
    }
}

proof fn lemma_cons_clean_arms(h: SpecArm, t: Seq<SpecArm>)
    requires
        spec_arm_clean(h),
        spec_arms_clean(t),
    ensures
        spec_arms_clean(seq![h] + t),
    decreases t,
{
    let s = seq![h] + t;
    if t.len() == 0 {
        assert(spec_arms_clean(Seq::<SpecArm>::empty()));
        assert(s.drop_last() =~= Seq::<SpecArm>::empty());
        assert(s.last() == h);
    } else {
        assert(spec_arms_clean(t.drop_last()) && spec_arm_clean(t.last()));
        lemma_cons_clean_arms(h, t.drop_last());
        assert(s.drop_last() =~= seq![h] + t.drop_last());
        assert(s.last() == t.last());
        assert(spec_arms_clean(s));
    }
}

proof fn lemma_walk_arms_clean(
    s: Seq<SpecArm>,
    base: Seq<Seq<char>>,
    variant: Option<Seq<char>>,
    p: bool,
)
    requires
        spec_arms_clean(s),
    ensures
        spec_arms_clean(spec_walk_arms(s, base, variant, p).0),
    decreases s,
{
    if s.len() > 0 {
        lemma_clean_prefix_arms(s);
        lemma_walk_stmts_clean(s.first().body, base, variant, p);
        let h = spec_walk_arm(s.first(), base, variant, p).0;
        let p1 = spec_walk_arm(s.first(), base, variant, p).1;
        lemma_walk_arms_clean(s.drop_first(), base, variant, p1);
        let t = spec_walk_arms(s.drop_first(), base, variant, p1).0;
        assert(spec_arm_clean(h));
        lemma_cons_clean_arms(h, t);
    }
}

proof fn lemma_expand_fields_clean(
    fs: Seq<SpecField>,
    base: Seq<Seq<char>>,
    basename: Seq<char>,
    variant: Option<Seq<char>>,
)
    requires
        spec_fields_clean(fs),
    ensures
        spec_fields_clean(spec_expand_fields_list(fs, base, basename, variant).0),
    decreases fs.len(),
{
    if fs.len() > 0 {
        assert forall|k: int| 0 <= k < fs.drop_last().len() implies spec_attrs_clean(
            #[trigger] fs.drop_last()[k].attrs,
        ) by {
            assert(fs.drop_last()[k] == fs[k]);
        }
        lemma_expand_fields_clean(fs.drop_last(), base, basename, variant);
        let out = spec_expand_fields_list(fs, base, basename, variant).0;
        let prev = spec_expand_fields_list(fs.drop_last(), base, basename, variant).0;
        match spec_expand_field(fs.last(), base, basename, variant).0 {
            Some(f) => {
                assert(out =~= prev.push(f));
                assert(f.attrs == fs.last().attrs);
            },
            None => {
                assert(out =~= prev);
            },
        }
    }
}

proof fn lemma_expand_cases_clean(
    cs: Seq<SpecCase>,
    base: Seq<Seq<char>>,
    basename: Seq<char>,
    variant: Option<Seq<char>>,
)
    requires
        spec_cases_clean(cs),
    ensures
        spec_cases_clean(spec_expand_cases(cs, base, basename, variant).0),
    decreases cs.len(),
{
    if cs.len() > 0 {
        assert forall|k: int| 0 <= k < cs.drop_last().len() implies spec_attrs_clean(
            #[trigger] cs.drop_last()[k].attrs,
        ) && spec_fields_kind_clean(cs.drop_last()[k].fields) by {
            assert(cs.drop_last()[k] == cs[k]);
        }
        lemma_expand_cases_clean(cs.drop_last(), base, basename, variant);
        let c = cs.last();
        assert(spec_attrs_clean(c.attrs) && spec_fields_kind_clean(c.fields));
        match c.fields {
            SpecFieldsKind::Named(fs) => lemma_expand_fields_clean(fs, base, basename, variant),
            SpecFieldsKind::Unnamed(fs) => lemma_expand_fields_clean(fs, base, basename, variant),
            SpecFieldsKind::Unit => {},
        }
        let out = spec_expand_cases(cs, base, basename, variant).0;
        let prev = spec_expand_cases(cs.drop_last(), base, basename, variant).0;
        assert(out.drop_last() =~= prev);
        assert(out.last() == spec_expand_case(c, base, basename, variant).0);
    }
}

proof fn lemma_walk_assocs_clean(
    s: Seq<SpecAssocItem>,
    base: Seq<Seq<char>>,
    variant: Option<Seq<char>>,
)
    requires
        spec_assocs_clean(s),
    ensures
        spec_assocs_clean(spec_walk_assocs(s, base, variant)),
    decreases s.len(),
{
    if s.len() > 0 {
        assert forall|k: int| 0 <= k < s.drop_last().len() implies spec_assoc_clean(
            #[trigger] s.drop_last()[k],
        ) by {
            assert(s.drop_last()[k] == s[k]);
        }
        assert(spec_assoc_clean(s.last()));
        lemma_walk_assocs_clean(s.drop_last(), base, variant);
        match s.last() {
            SpecAssocItem::Const { value, .. } => {
                lemma_walk_expr_clean(value, base, variant, false);
            },
            SpecAssocItem::Method { body, .. } => {
                lemma_walk_stmts_clean(body, base, variant, false);
            },
        }
        let out = spec_walk_assocs(s, base, variant);
        assert(out.drop_last() =~= spec_walk_assocs(s.drop_last(), base, variant));
        assert(out.last() == spec_walk_assoc(s.last(), base, variant));
        assert(spec_assoc_clean(out.last()));
    }
}

proof fn lemma_subst_assocs_clean(
    s: Seq<SpecAssocItem>,
    base: Seq<Seq<char>>,
    variant: Option<Seq<char>>,
)
    requires
        spec_assocs_clean(s),
    ensures
        spec_assocs_clean(spec_subst_assocs(s, base, variant).0),
    decreases s.len(),
{
    if s.len() > 0 {
        assert forall|k: int| 0 <= k < s.drop_last().len() implies spec_assoc_clean(
            #[trigger] s.drop_last()[k],
        ) by {
            assert(s.drop_last()[k] == s[k]);
        }
        assert(spec_assoc_clean(s.last()));
        lemma_subst_assocs_clean(s.drop_last(), base, variant);
        match s.last() {
            SpecAssocItem::Const { value, .. } => {
                lemma_subst_expr_clean(value, base, variant);
            },
            SpecAssocItem::Method { body, .. } => {
                lemma_subst_stmts_clean(body, base, variant);
            },
        }
        let out = spec_subst_assocs(s, base, variant).0;
        assert(out.drop_last() =~= spec_subst_assocs(s.drop_last(), base, variant).0);
        assert(out.last() == spec_subst_assoc(s.last(), base, variant).0);
        assert(spec_assoc_clean(out.last()));
    }
}

proof fn lemma_derived_marker_not_marker()
    ensures
        !spec_is_marker(
            crate::ast::SpecAttr {
                path: seq![crate::words::spec_derived_marker()],
                tokens: Seq::empty(),
                span: Span { lo: 0, hi: 0 },
            },
        ),
{
    reveal_strlit("variants");
    reveal_strlit("automatically_derived");
    assert(crate::words::spec_derived_marker().len() == 21);
    assert(crate::words::spec_marker().len() == 8);
}

proof fn lemma_expand_one_clean(resolved: SpecItem, variant: Option<Seq<char>>)
    requires
        spec_item_clean(resolved),
    ensures
        spec_item_clean(spec_expand_one(resolved, variant).0),
{
    match resolved {
        SpecItem::Struct { attrs, name, fields } => {
            match fields {
                SpecFieldsKind::Named(fs) => lemma_expand_fields_clean(
                    fs,
                    seq![name],
                    name,
                    variant,
                ),
                SpecFieldsKind::Unnamed(fs) => lemma_expand_fields_clean(
                    fs,
                    seq![name],
                    name,
                    variant,
                ),
                SpecFieldsKind::Unit => {},
            }
        },
        SpecItem::Enum { attrs, name, cases } => {
            lemma_expand_cases_clean(cases, seq![name], name, variant);
        },
        SpecItem::Impl { attrs, self_ty, trait_path, items } => {
            match spec_impl_base(self_ty) {
                Some(base) => {
                    lemma_subst_assocs_clean(items, base.0, variant);
                    lemma_walk_assocs_clean(
                        spec_subst_assocs(items, base.0, variant).0,
                        base.0,
                        variant,
                    );
                },
                None => {
                    lemma_walk_assocs_clean(items, Seq::empty(), None);
                },
            }
        },
    }
}

proof fn lemma_mark_derived_clean(item: SpecItem)
    requires
        spec_item_clean(item),
    ensures
        spec_item_clean(spec_mark_derived(item)),
{
    lemma_derived_marker_not_marker();
    let marker = crate::ast::SpecAttr {
        path: seq![crate::words::spec_derived_marker()],
        tokens: Seq::empty(),
        span: Span { lo: 0, hi: 0 },
    };
    match item {
        SpecItem::Struct { attrs, .. } => {
            assert(spec_attrs_clean(seq![marker] + attrs)) by {
                assert(forall|k: int|
                    0 <= k < (seq![marker] + attrs).len() ==> !spec_is_marker(
                        #[trigger] (seq![marker] + attrs)[k],
                    ));
            }
        },
        SpecItem::Enum { attrs, .. } => {
            assert(spec_attrs_clean(seq![marker] + attrs)) by {
                assert(forall|k: int|
                    0 <= k < (seq![marker] + attrs).len() ==> !spec_is_marker(
                        #[trigger] (seq![marker] + attrs)[k],
                    ));
            }
        },
        SpecItem::Impl { attrs, .. } => {
            assert(spec_attrs_clean(seq![marker] + attrs)) by {
                assert(forall|k: int|
                    0 <= k < (seq![marker] + attrs).len() ==> !spec_is_marker(
                        #[trigger] (seq![marker] + attrs)[k],
                    ));
            }
        },
    }
}

proof fn lemma_outputs_clean(resolved: SpecItem, vars: Seq<Seq<char>>, k: int)
    requires
        spec_item_clean(resolved),
        0 <= k <= vars.len(),
    ensures
        forall|j: int|
            0 <= j < spec_expand_outputs(resolved, vars, k).0.len() ==> spec_item_clean(
                #[trigger] spec_expand_outputs(resolved, vars, k).0[j],
            ),
    decreases vars.len() - k,
{
    if k < vars.len() {
        lemma_expand_one_clean(resolved, Some(vars[k]));
        lemma_mark_derived_clean(spec_expand_one(resolved, Some(vars[k])).0);
        lemma_outputs_clean(resolved, vars, k + 1);
        let marked = spec_mark_derived(spec_expand_one(resolved, Some(vars[k])).0);
        let rest = spec_expand_outputs(resolved, vars, k + 1).0;
        let out = spec_expand_outputs(resolved, vars, k).0;
        assert forall|j: int| 0 <= j < out.len() implies spec_item_clean(#[trigger] out[j]) by {
            if j == 0 {
                assert(out[0] == marked);
            } else {
                assert(out[j] == rest[j - 1]);
            }
        }
    }
}

/// No annotation marker survives into any emitted declaration, base or
/// variant.
pub proof fn lemma_outputs_stripped(item: SpecItem, vars: Seq<Seq<char>>)
    ensures
        forall|j: int|
            0 <= j < spec_expand(item, vars).0.len() ==> spec_item_clean(
                #[trigger] spec_expand(item, vars).0[j],
            ),
{
    let resolved = spec_resolve_item(item, vars).0;
    lemma_resolve_clean(item, vars);
    lemma_expand_one_clean(resolved, None);
    lemma_outputs_clean(resolved, vars, 0);
    let out = spec_expand(item, vars).0;
    assert forall|j: int| 0 <= j < out.len() implies spec_item_clean(#[trigger] out[j]) by {
        if j == 0 {
            assert(out[0] == spec_expand_one(resolved, None).0);
        } else {
            assert(out[j] == spec_expand_outputs(resolved, vars, 0).0[j - 1]);
        }
    }
}


/// Expansion always completes: whatever the declaration and whatever
/// diagnostics arise, the base copy and one copy per declared variant
/// are emitted.
pub proof fn lemma_expansion_completes(item: SpecItem, vars: Seq<Seq<char>>)
    ensures
        spec_expand(item, vars).0.len() == vars.len() + 1,
{
    lemma_outputs_count(spec_resolve_item(item, vars).0, vars, 0);
}

proof fn lemma_outputs_count(resolved: SpecItem, vars: Seq<Seq<char>>, k: int)
    requires
        0 <= k <= vars.len(),
    ensures
        spec_expand_outputs(resolved, vars, k).0.len() == vars.len() - k,
    decreases vars.len() - k,
{
    if k < vars.len() {
        lemma_outputs_count(resolved, vars, k + 1);
    }
}

proof fn lemma_member_entries_declared(
    st: (Seq<SpecVariantSettings>, Seq<SpecDiag>),
    entries: Seq<(Seq<char>, Span)>,
    i: int,
    retype: Option<SpecRetype>,
    vars: Seq<Seq<char>>,
)
    requires
        forall|q: int|
            0 <= q < st.0.len() ==> spec_vars_contain(vars, #[trigger] st.0[q].variant),
    ensures
        forall|q: int|
            0 <= q < spec_member_entries_fold(st, entries, i, retype, vars).0.len()
                ==> spec_vars_contain(
                vars,
                #[trigger] spec_member_entries_fold(st, entries, i, retype, vars).0[q].variant,
            ),
    decreases entries.len() - i,
{
    if 0 <= i < entries.len() {
        let st2 = spec_member_entry_step(st, entries[i].0, entries[i].1, retype, vars);
        assert forall|q: int| 0 <= q < st2.0.len() implies spec_vars_contain(
            vars,
            #[trigger] st2.0[q].variant,
        ) by {
            if q < st.0.len() {
                assert(st2.0[q] == st.0[q]);
            }
        }
        lemma_member_entries_declared(st2, entries, i + 1, retype, vars);
    }
}

proof fn lemma_member_settings_fold_declared(
    anns: Seq<SpecMemberAnnotation>,
    j: int,
    s: Seq<SpecVariantSettings>,
    vars: Seq<Seq<char>>,
)
    requires
        forall|q: int| 0 <= q < s.len() ==> spec_vars_contain(vars, #[trigger] s[q].variant),
    ensures
        forall|q: int|
            0 <= q < spec_member_settings_fold(anns, j, s, vars).0.len() ==> spec_vars_contain(
                vars,
                #[trigger] spec_member_settings_fold(anns, j, s, vars).0[q].variant,
            ),
    decreases anns.len() - j,
{
    if 0 <= j < anns.len() {
        lemma_member_entries_declared((s, Seq::empty()), anns[j].keep, 0, anns[j].retype, vars);
        let s1 = spec_member_entries_fold(
            (s, Seq::empty()),
            anns[j].keep,
            0,
            anns[j].retype,
            vars,
        ).0;
        lemma_member_settings_fold_declared(anns, j + 1, s1, vars);
    }
}

/// A member annotation naming an undeclared variant contributes no
/// settings entry: every entry a member ends up with names a declared
/// variant, so the expansions use only the valid references.
pub proof fn lemma_settings_only_declared(anns: Seq<SpecMemberAnnotation>, vars: Seq<Seq<char>>)
    ensures
        forall|q: int|
            0 <= q < spec_member_settings(anns, vars).0.len() ==> spec_vars_contain(
                vars,
                #[trigger] spec_member_settings(anns, vars).0[q].variant,
            ),
{
    lemma_member_settings_fold_declared(anns, 0, Seq::empty(), vars);
}

/// A member whose settings entry for a variant names a template, and
/// whose type holds no placeholder, comes out with exactly the template
/// pipeline applied to its type: rendered, substituted, reparsed, and on
/// a failing reparse kept with one diagnostic at the template's span.
pub proof fn lemma_member_retype(
    f: SpecField,
    base: Seq<Seq<char>>,
    basename: Seq<char>,
    v: Seq<char>,
)
    requires
        spec_member_setting_for(f.settings, v) is Some,
        spec_ty_plain(f.ty),
    ensures
        spec_expand_field(f, base, basename, Some(v)) == (
            Some(
                SpecField {
                    attrs: f.attrs,
                    settings: Seq::empty(),
                    name: f.name,
                    ty: spec_retyped(
                        f.ty,
                        spec_member_setting_for(f.settings, v)->Some_0.retype,
                        basename,
                        v,
                    ).0,
                },
            ),
            spec_retyped(
                f.ty,
                spec_member_setting_for(f.settings, v)->Some_0.retype,
                basename,
                v,
            ).1,
        ),
{
    lemma_subst_plain_ty(f.ty, base, Some(v));
    assert(Seq::<crate::errors::SpecDiag>::empty() + spec_retyped(
        f.ty,
        spec_member_setting_for(f.settings, v)->Some_0.retype,
        basename,
        v,
    ).1 =~= spec_retyped(
        f.ty,
        spec_member_setting_for(f.settings, v)->Some_0.retype,
        basename,
        v,
    ).1);
}

/// Resolution's marker stripping is exactly a filter: the surviving
/// attributes are the input's non-marker attributes, in their original
/// relative order.
pub proof fn lemma_strip_keeps_exactly_foreign(attrs: Seq<SpecAttr>)
    ensures
        spec_split_attrs(attrs).0 == attrs.filter(|a: SpecAttr| !spec_is_marker(a)),
    decreases attrs.len(),
{
    reveal(Seq::filter);
    if attrs.len() == 0 {
        assert(spec_split_attrs(attrs).0 =~= attrs.filter(|a: SpecAttr| !spec_is_marker(a)));
    } else {
        lemma_strip_keeps_exactly_foreign(attrs.drop_last());
        assert(attrs.filter(|a: SpecAttr| !spec_is_marker(a)) == if !spec_is_marker(attrs.last()) {
            attrs.drop_last().filter(|a: SpecAttr| !spec_is_marker(a)).push(attrs.last())
        } else {
            attrs.drop_last().filter(|a: SpecAttr| !spec_is_marker(a))
        });
    }
}

} // verus!
