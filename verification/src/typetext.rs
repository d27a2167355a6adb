//! Rendering types to text, substituting replacement-type templates, and
//! parsing the substituted text back into a type.
//!
//! Template substitution is deliberately textual-then-reparse: the member's
//! current type is rendered to text, spliced into the template, and the
//! result is parsed as a type again.  A template whose substitution does
//! not parse is reported at the template's own span.

use vstd::prelude::*;
use vstd::string::StrSliceExecFns;
use vstd::string::StringExecFns;

use crate::ast::{SpecTy, Ty};

verus! {

broadcast use vstd::std_specs::vec::group_vec_axioms;

/// Whitespace accepted between the tokens of a type text.
pub open spec fn spec_is_space(c: char) -> bool {
    c == ' ' || c == '\t' || c == '\n' || c == '\r'
}

/// Characters that may start an identifier.
pub open spec fn spec_is_ident_start(c: char) -> bool {
    ('a' as u32) <= (c as u32) && (c as u32) <= ('z' as u32) || ('A' as u32) <= (c as u32) && (
    c as u32) <= ('Z' as u32) || c == '_'
}

/// Characters that may continue an identifier.
pub open spec fn spec_is_ident_char(c: char) -> bool {
    spec_is_ident_start(c) || ('0' as u32) <= (c as u32) && (c as u32) <= ('9' as u32)
}

fn space_char(c: char) -> (r: bool)
    ensures
        r == spec_is_space(c),
{
    c == ' ' || c == '\t' || c == '\n' || c == '\r'
}

fn ident_start_char(c: char) -> (r: bool)
    ensures
        r == spec_is_ident_start(c),
{
    let u = c as u32;
    ('a' as u32) <= u && u <= ('z' as u32) || ('A' as u32) <= u && u <= ('Z' as u32) || c == '_'
}

fn ident_char(c: char) -> (r: bool)
    ensures
        r == spec_is_ident_char(c),
{
    let u = c as u32;
    ident_start_char(c) || ('0' as u32) <= u && u <= ('9' as u32)
}

/// The first position at or after `i` holding no whitespace.
pub open spec fn spec_skip_ws(s: Seq<char>, i: int) -> int
    decreases s.len() - i,
{
    if 0 <= i < s.len() && spec_is_space(s[i]) {
        spec_skip_ws(s, i + 1)
    } else {
        i
    }
}

fn skip_ws(s: &str, i: usize) -> (j: usize)
    requires
        i <= s@.len(),
    ensures
        j == spec_skip_ws(s@, i as int),
        i <= j <= s@.len(),
    decreases s@.len() - i,
{
    let n = s.unicode_len();
    if i < n && space_char(s.get_char(i)) {
        skip_ws(s, i + 1)
    } else {
        i
    }
}

/// The end of the identifier starting at `i`.
pub open spec fn spec_scan_ident(s: Seq<char>, i: int) -> int
    decreases s.len() - i,
{
    if 0 <= i < s.len() && spec_is_ident_char(s[i]) {
        spec_scan_ident(s, i + 1)
    } else {
        i
    }
}

fn scan_ident(s: &str, i: usize) -> (j: usize)
    requires
        i <= s@.len(),
    ensures
        j == spec_scan_ident(s@, i as int),
        i <= j <= s@.len(),
    decreases s@.len() - i,
{
    let n = s.unicode_len();
    if i < n && ident_char(s.get_char(i)) {
        scan_ident(s, i + 1)
    } else {
        i
    }
}

/// One parsed path: the segment texts and the position after the last one.
pub open spec fn spec_parse_segs(s: Seq<char>, i: int, fuel: nat) -> Option<(Seq<Seq<char>>, int)>
    decreases fuel,
{
    if fuel == 0 {
        None
    } else {
        let i0 = spec_skip_ws(s, i);
        if 0 <= i0 < s.len() && spec_is_ident_start(s[i0]) {
            let j = spec_scan_ident(s, i0);
            let seg = s.subrange(i0, j);
            let k = spec_skip_ws(s, j);
            if k + 1 < s.len() && s[k] == ':' && s[k + 1] == ':' {
                match spec_parse_segs(s, k + 2, (fuel - 1) as nat) {
                    Some((rest, m)) => Some((seq![seg] + rest, m)),
                    None => None,
                }
            } else {
                Some((seq![seg], j))
            }
        } else {
            None
        }
    }
}

/// A type text: a reference, or a path with optional final-segment
/// arguments.
pub open spec fn spec_parse_ty(s: Seq<char>, i: int, fuel: nat) -> Option<(SpecTy, int)>
    decreases fuel,
{
    if fuel == 0 {
        None
    } else {
        let i0 = spec_skip_ws(s, i);
        if 0 <= i0 < s.len() && s[i0] == '&' {
            let i1 = spec_skip_ws(s, i0 + 1);
            if 0 <= i1 < s.len() && s[i1] == '\'' {
                let j = spec_scan_ident(s, i1 + 1);
                if j > i1 + 1 {
                    let lt = s.subrange(i1 + 1, j);
                    match spec_parse_ty(s, j, (fuel - 1) as nat) {
                        Some((inner, m)) => Some(
                            (SpecTy::Ref { lifetime: Some(lt), inner: Box::new(inner) }, m),
                        ),
                        None => None,
                    }
                } else {
                    None
                }
            } else {
                match spec_parse_ty(s, i1, (fuel - 1) as nat) {
                    Some((inner, m)) => Some(
                        (SpecTy::Ref { lifetime: None, inner: Box::new(inner) }, m),
                    ),
                    None => None,
                }
            }
        } else {
            match spec_parse_segs(s, i0, fuel) {
                Some((segs, j)) => {
                    let k = spec_skip_ws(s, j);
                    if 0 <= k < s.len() && s[k] == '<' {
                        match spec_parse_args(s, k + 1, (fuel - 1) as nat) {
                            Some((args, m)) => Some((SpecTy::Path { segments: segs, args }, m)),
                            None => None,
                        }
                    } else {
                        Some((SpecTy::Path { segments: segs, args: seq![] }, j))
                    }
                },
                None => None,
            }
        }
    }
}

/// A comma-separated argument list, consuming the closing angle bracket;
/// the position returned sits just after it.
pub open spec fn spec_parse_args(s: Seq<char>, i: int, fuel: nat) -> Option<(Seq<SpecTy>, int)>
    decreases fuel,
{
    if fuel == 0 {
        None
    } else {
        match spec_parse_ty(s, i, (fuel - 1) as nat) {
            Some((ty, j)) => {
                let k = spec_skip_ws(s, j);
                if 0 <= k < s.len() && s[k] == '>' {
                    Some((seq![ty], k + 1))
                } else if 0 <= k < s.len() && s[k] == ',' {
                    let k1 = spec_skip_ws(s, k + 1);
                    if 0 <= k1 < s.len() && s[k1] == '>' {
                        Some((seq![ty], k1 + 1))
                    } else {
                        match spec_parse_args(s, k + 1, (fuel - 1) as nat) {
                            Some((rest, m)) => Some((seq![ty] + rest, m)),
                            None => None,
                        }
                    }
                } else {
                    None
                }
            },
            None => None,
        }
    }
}

/// The whole text parsed as one type, demanding that nothing but
/// whitespace follows it.
pub open spec fn spec_parse_type_text(s: Seq<char>) -> Option<SpecTy> {
    match spec_parse_ty(s, 0, s.len()) {
        Some((ty, j)) => {
            if spec_skip_ws(s, j) == s.len() {
                Some(ty)
            } else {
                None
            }
        },
        None => None,
    }
}

pub open spec fn spec_opt_segs_view(r: Option<(Vec<String>, usize)>) -> Option<(Seq<Seq<char>>, int)> {
    match r {
        Some((segs, j)) => Some((segs.deep_view(), j as int)),
        None => None,
    }
}

#[verifier::loop_isolation(false)]
fn parse_segs(s: &str, i: usize, fuel: usize) -> (r: Option<(Vec<String>, usize)>)
    requires
        i <= s@.len(),
    ensures
        spec_opt_segs_view(r) == spec_parse_segs(s@, i as int, fuel as nat),
        r matches Some((segs, j)) ==> j <= s@.len(),
    decreases fuel,
{
    if fuel == 0 {
        None
    } else {
        let n = s.unicode_len();
        let i0 = skip_ws(s, i);
        if i0 < n && ident_start_char(s.get_char(i0)) {
            let j = scan_ident(s, i0);
            let seg = s.substring_char(i0, j).to_owned();
            let k = skip_ws(s, j);
            if k < n && s.get_char(k) == ':' && k + 1 < n && s.get_char(k + 1) == ':' {
                match parse_segs(s, k + 2, fuel - 1) {
                    Some((rest, m)) => {
                        let mut segs: Vec<String> = Vec::new();
                        segs.push(seg);
                        let mut q: usize = 0;
                        while q < rest.len()
                            invariant
                                q <= rest.len(),
                                segs.len() == q + 1,
                                segs[0]@ == s@.subrange(i0 as int, j as int),
                                forall|x: int| 0 <= x < q ==> segs[x + 1]@ == rest[x]@,
                            decreases rest.len() - q,
                        {
                            segs.push(rest[q].clone());
                            q += 1;
                        }
                        proof {
                            assert(segs.deep_view() =~= seq![s@.subrange(i0 as int, j as int)]
                                + rest.deep_view());
                        }
                        Some((segs, m))
                    },
                    None => None,
                }
            } else {
                let mut segs: Vec<String> = Vec::new();
                segs.push(seg);
                proof {
                    assert(segs.deep_view() =~= seq![s@.subrange(i0 as int, j as int)]);
                }
                Some((segs, j))
            }
        } else {
            None
        }
    }
}

pub open spec fn spec_opt_ty_view(r: Option<(Ty, usize)>) -> Option<(SpecTy, int)> {
    match r {
        Some((ty, j)) => Some((ty.deep_view(), j as int)),
        None => None,
    }
}

fn parse_ty(s: &str, i: usize, fuel: usize) -> (r: Option<(Ty, usize)>)
    requires
        i <= s@.len(),
    ensures
        spec_opt_ty_view(r) == spec_parse_ty(s@, i as int, fuel as nat),
        r matches Some((ty, j)) ==> j <= s@.len(),
    decreases fuel,
{
    if fuel == 0 {
        None
    } else {
        let n = s.unicode_len();
        let i0 = skip_ws(s, i);
        if i0 < n && s.get_char(i0) == '&' {
            let i1 = skip_ws(s, i0 + 1);
            if i1 < n && s.get_char(i1) == '\'' {
                let j = scan_ident(s, i1 + 1);
                if j > i1 + 1 {
                    let lt = s.substring_char(i1 + 1, j).to_owned();
                    match parse_ty(s, j, fuel - 1) {
                        Some((inner, m)) => Some(
                            (Ty::Ref { lifetime: Some(lt), inner: Box::new(inner) }, m),
                        ),
                        None => None,
                    }
                } else {
                    None
                }
            } else {
                match parse_ty(s, i1, fuel - 1) {
                    Some((inner, m)) => Some(
                        (Ty::Ref { lifetime: None, inner: Box::new(inner) }, m),
                    ),
                    None => None,
                }
            }
        } else {
            match parse_segs(s, i0, fuel) {
                Some((segs, j)) => {
                    let k = skip_ws(s, j);
                    if k < n && s.get_char(k) == '<' {
                        match parse_args(s, k + 1, fuel - 1) {
                            Some((args, m)) => {
                                let ghost ga = args.deep_view();
                                let r = Ty::Path { segments: segs, args };
                                proof {
                                    assert(r.deep_view()->Path_args =~= ga);
                                }
                                Some((r, m))
                            },
                            None => None,
                        }
                    } else {
                        let r = Ty::Path { segments: segs, args: Vec::new() };
                        proof {
                            assert(r.deep_view()->Path_args =~= Seq::<SpecTy>::empty());
                        }
                        Some((r, j))
                    }
                },
                None => None,
            }
        }
    }
}

pub open spec fn spec_opt_args_view(r: Option<(Vec<Ty>, usize)>) -> Option<(Seq<SpecTy>, int)> {
    match r {
        Some((args, j)) => Some((args.deep_view(), j as int)),
        None => None,
    }
}

#[verifier::loop_isolation(false)]
fn parse_args(s: &str, i: usize, fuel: usize) -> (r: Option<(Vec<Ty>, usize)>)
    requires
        i <= s@.len(),
    ensures
        spec_opt_args_view(r) == spec_parse_args(s@, i as int, fuel as nat),
        r matches Some((args, j)) ==> j <= s@.len(),
    decreases fuel,
{
    if fuel == 0 {
        None
    } else {
        let n = s.unicode_len();
        match parse_ty(s, i, fuel - 1) {
            Some((ty, j)) => {
                let k = skip_ws(s, j);
                if k < n && s.get_char(k) == '>' {
                    let mut args: Vec<Ty> = Vec::new();
                    args.push(ty);
                    proof {
                        assert(args.deep_view() =~= seq![args[0].deep_view()]);
                    }
                    Some((args, k + 1))
                } else if k < n && s.get_char(k) == ',' {
                    let k1 = skip_ws(s, k + 1);
                    if k1 < n && s.get_char(k1) == '>' {
                        let mut args: Vec<Ty> = Vec::new();
                        args.push(ty);
                        proof {
                            assert(args.deep_view() =~= seq![args[0].deep_view()]);
                        }
                        Some((args, k1 + 1))
                    } else {
                        match parse_args(s, k + 1, fuel - 1) {
                            Some((rest, m)) => {
                                let ghost ty_view = ty.deep_view();
                                let mut args: Vec<Ty> = Vec::new();
                                args.push(ty);
                                let mut q: usize = 0;
                                while q < rest.len()
                                    invariant
                                        q <= rest.len(),
                                        args.len() == q + 1,
                                        args[0].deep_view() == ty_view,
                                        forall|x: int|
                                            0 <= x < q ==> args[x + 1].deep_view()
                                                == rest[x].deep_view(),
                                    decreases rest.len() - q,
                                {
                                    args.push(rest[q].duplicate());
                                    q += 1;
                                }
                                proof {
                                    assert(args.deep_view() =~= seq![ty_view] + rest.deep_view());
                                }
                                Some((args, m))
                            },
                            None => None,
                        }
                    }
                } else {
                    None
                }
            },
            None => None,
        }
    }
}

/// Path segments joined with `::`.
pub open spec fn spec_join_segs(segs: Seq<Seq<char>>) -> Seq<char>
    decreases segs.len(),
{
    if segs.len() == 0 {
        Seq::empty()
    } else if segs.len() == 1 {
        segs[0]
    } else {
        spec_join_segs(segs.drop_last()) + "::"@ + segs.last()
    }
}

/// Argument renderings joined with `, `.
pub open spec fn spec_render_args(args: Seq<SpecTy>) -> Seq<char>
    decreases args,
{
    if args.len() == 0 {
        Seq::empty()
    } else if args.len() == 1 {
        spec_render_ty(args[0])
    } else {
        spec_render_args(args.drop_last()) + ", "@ + spec_render_ty(args.last())
    }
}

/// The text form of a type, as spliced into replacement-type templates.
pub open spec fn spec_render_ty(t: SpecTy) -> Seq<char>
    decreases t,
{
    match t {
        SpecTy::Path { segments, args } => spec_join_segs(segments) + if args.len() == 0 {
            Seq::<char>::empty()
        } else {
            "<"@ + spec_render_args(args) + ">"@
        },
        SpecTy::Ref { lifetime, inner } => "&"@ + (match lifetime {
            Some(l) => "'"@ + l + " "@,
            None => Seq::<char>::empty(),
        }) + spec_render_ty(*inner),
        SpecTy::Macro { name, span, arg } => name + "!("@ + (match arg {
            Some(t2) => spec_render_ty(*t2),
            None => Seq::<char>::empty(),
        }) + ")"@,
    }
}

/// Render a type to text.
#[verifier::loop_isolation(false)]
pub fn render_ty(t: &Ty) -> (s: String)
    ensures
        s@ == spec_render_ty(t.deep_view()),
    decreases t,
{
    match t {
        Ty::Path { segments, args } => {
            let ghost dsegs = segments.deep_view();
            let mut s = String::new();
            let mut i: usize = 0;
            while i < segments.len()
                invariant
                    i <= segments.len(),
                    s@ == spec_join_segs(dsegs.take(i as int)),
                decreases segments.len() - i,
            {
                if i > 0 {
                    s.append("::");
                }
                s.append(segments[i].as_str());
                proof {
                    assert(dsegs.take(i + 1).drop_last() =~= dsegs.take(i as int));
                    assert(dsegs.take(i + 1).last() == segments[i as int]@);
                    if i == 0 {
                        assert(s@ == spec_join_segs(dsegs.take(i + 1)));
                    }
                }
                i += 1;
            }
            proof {
                assert(dsegs.take(segments.len() as int) =~= dsegs);
            }
            if args.len() > 0 {
                let ghost dargs = t.deep_view()->Path_args;
                proof {
                    assert(dargs =~= args.deep_view());
                }
                s.append("<");
                let mut j: usize = 0;
                let mut inner = String::new();
                while j < args.len()
                    invariant
                        j <= args.len(),
                        inner@ == spec_render_args(dargs.take(j as int)),
                    decreases args.len() - j,
                {
                    if j > 0 {
                        inner.append(", ");
                    }
                    let piece = render_ty(&args[j]);
                    inner.append(piece.as_str());
                    proof {
                        assert(dargs.take(j + 1).drop_last() =~= dargs.take(j as int));
                        assert(dargs.take(j + 1).last() == args[j as int].deep_view());
                        if j == 0 {
                            assert(inner@ == spec_render_args(dargs.take(j + 1)));
                        }
                    }
                    j += 1;
                }
                proof {
                    assert(dargs.take(args.len() as int) =~= dargs);
                }
                s.append(inner.as_str());
                s.append(">");
                s
            } else {
                proof {
                    assert(t.deep_view()->Path_args =~= Seq::<SpecTy>::empty());
                }
                s
            }
        },
        Ty::Ref { lifetime, inner } => {
            let mut s = String::from_str("&");
            match lifetime {
                Some(l) => {
                    s.append("'");
                    s.append(l.as_str());
                    s.append(" ");
                },
                None => {},
            }
            let rest = render_ty(inner);
            s.append(rest.as_str());
            s
        },
        Ty::Macro { name, span, arg } => {
            let mut s = name.clone();
            s.append("!(");
            match arg {
                Some(t2) => {
                    let rest = render_ty(t2);
                    s.append(rest.as_str());
                },
                None => {},
            }
            s.append(")");
            s
        },
    }
}

/// The template text with `{}` and `{t}` replaced by the member type text,
/// `{b}` by the base name, and `{v}` by the variant name, in one pass from
/// left to right.
pub open spec fn spec_subst_template(
    tpl: Seq<char>,
    t: Seq<char>,
    b: Seq<char>,
    v: Seq<char>,
) -> Seq<char>
    decreases tpl.len(),
{
    if tpl.len() >= 2 && tpl[0] == '{' && tpl[1] == '}' {
        t + spec_subst_template(tpl.skip(2), t, b, v)
    } else if tpl.len() >= 3 && tpl[0] == '{' && tpl[1] == 't' && tpl[2] == '}' {
        t + spec_subst_template(tpl.skip(3), t, b, v)
    } else if tpl.len() >= 3 && tpl[0] == '{' && tpl[1] == 'b' && tpl[2] == '}' {
        b + spec_subst_template(tpl.skip(3), t, b, v)
    } else if tpl.len() >= 3 && tpl[0] == '{' && tpl[1] == 'v' && tpl[2] == '}' {
        v + spec_subst_template(tpl.skip(3), t, b, v)
    } else if tpl.len() > 0 {
        seq![tpl[0]] + spec_subst_template(tpl.skip(1), t, b, v)
    } else {
        Seq::empty()
    }
}

fn subst_template_from(tpl: &str, i: usize, t: &str, b: &str, v: &str) -> (r: String)
    requires
        i <= tpl@.len(),
    ensures
        r@ == spec_subst_template(tpl@.skip(i as int), t@, b@, v@),
    decreases tpl@.len() - i,
{
    let n = tpl.unicode_len();
    proof {
        assert(tpl@.skip(i as int).len() == n - i);
    }
    if i >= n {
        proof {
            assert(tpl@.skip(i as int).len() == 0);
        }
        String::new()
    } else {
        let c0 = tpl.get_char(i);
        proof {
            assert(tpl@.skip(i as int)[0] == tpl@[i as int]);
        }
        if c0 == '{' && i + 1 < n && tpl.get_char(i + 1) == '}' {
            let mut s = t.to_owned();
            let rest = subst_template_from(tpl, i + 2, t, b, v);
            s.append(rest.as_str());
            proof {
                assert(tpl@.skip(i as int)[1] == tpl@[i + 1]);
                assert(tpl@.skip(i as int).skip(2) =~= tpl@.skip(i + 2));
            }
            s
        } else if c0 == '{' && i + 1 < n && i + 2 < n && tpl.get_char(i + 1) == 't' && tpl.get_char(i + 2)
            == '}' {
            let mut s = t.to_owned();
            let rest = subst_template_from(tpl, i + 3, t, b, v);
            s.append(rest.as_str());
            proof {
                assert(tpl@.skip(i as int)[1] == tpl@[i + 1]);
                assert(tpl@.skip(i as int)[2] == tpl@[i + 2]);
                assert(tpl@.skip(i as int).skip(3) =~= tpl@.skip(i + 3));
            }
            s
        } else if c0 == '{' && i + 1 < n && i + 2 < n && tpl.get_char(i + 1) == 'b' && tpl.get_char(i + 2)
            == '}' {
            let mut s = b.to_owned();
            let rest = subst_template_from(tpl, i + 3, t, b, v);
            s.append(rest.as_str());
            proof {
                assert(tpl@.skip(i as int)[1] == tpl@[i + 1]);
                assert(tpl@.skip(i as int)[2] == tpl@[i + 2]);
                assert(tpl@.skip(i as int).skip(3) =~= tpl@.skip(i + 3));
            }
            s
        } else if c0 == '{' && i + 1 < n && i + 2 < n && tpl.get_char(i + 1) == 'v' && tpl.get_char(i + 2)
            == '}' {
            let mut s = v.to_owned();
            let rest = subst_template_from(tpl, i + 3, t, b, v);
            s.append(rest.as_str());
            proof {
                assert(tpl@.skip(i as int)[1] == tpl@[i + 1]);
                assert(tpl@.skip(i as int)[2] == tpl@[i + 2]);
                assert(tpl@.skip(i as int).skip(3) =~= tpl@.skip(i + 3));
            }
            s
        } else {
            let mut s = tpl.substring_char(i, i + 1).to_owned();
            let rest = subst_template_from(tpl, i + 1, t, b, v);
            s.append(rest.as_str());
            proof {
                if i + 1 < n {
                    assert(tpl@.skip(i as int)[1] == tpl@[i + 1]);
                }
                if i + 2 < n {
                    assert(tpl@.skip(i as int)[2] == tpl@[i + 2]);
                }
                assert(tpl@.subrange(i as int, i + 1) =~= seq![tpl@[i as int]]);
                assert(tpl@.skip(i as int).skip(1) =~= tpl@.skip(i + 1));
            }
            s
        }
    }
}

/// Apply a replacement-type template in one left-to-right pass.
pub fn subst_template(tpl: &str, t: &str, b: &str, v: &str) -> (r: String)
    ensures
        r@ == spec_subst_template(tpl@, t@, b@, v@),
{
    let r = subst_template_from(tpl, 0, t, b, v);
    proof {
        assert(tpl@.skip(0) =~= tpl@);
    }
    r
}

/// Parse a whole type text, accepting only texts the type grammar covers
/// in full.
pub fn parse_type_text(s: &str) -> (r: Option<Ty>)
    ensures
        (match r {
            Some(ty) => Some(ty.deep_view()),
            None => None,
        }) == spec_parse_type_text(s@),
{
    let n = s.unicode_len();
    match parse_ty(s, 0, n) {
        Some((ty, j)) => {
            if skip_ws(s, j) == n {
                Some(ty)
            } else {
                None
            }
        },
        None => None,
    }
}

} // verus!
