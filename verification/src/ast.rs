//! The syntax tree the expansion engine works on.
//!
//! The engine is deliberately independent of any concrete parser: a thin
//! front end converts real source tokens into these nodes and back.  Each
//! executable node type has a ghost mirror (`Spec*`) over `Seq` and
//! `Seq<char>`, reached through `DeepView`; every transformation in this
//! crate is specified as a function on the mirrors.

use vstd::prelude::*;

verus! {

broadcast use vstd::std_specs::vec::group_vec_axioms;

/// A half-open byte range in the input source text, carried for diagnostics.
#[derive(Clone, Copy, PartialEq, Eq, Structural, Debug)]
pub struct Span {
    pub lo: usize,
    pub hi: usize,
}

impl DeepView for Span {
    type V = Span;

    open spec fn deep_view(&self) -> Span {
        *self
    }
}

/// A literal value.  Numeric literals keep their source text: the engine
/// never computes with them, it only moves them around.
#[derive(Debug, PartialEq, Eq)]
pub enum Lit {
    Str(String),
    Int(String),
    Float(String),
    Bool(bool),
}

pub enum SpecLit {
    Str(Seq<char>),
    Int(Seq<char>),
    Float(Seq<char>),
    Bool(bool),
}

impl DeepView for Lit {
    type V = SpecLit;

    open spec fn deep_view(&self) -> SpecLit {
        match self {
            Lit::Str(s) => SpecLit::Str(s.deep_view()),
            Lit::Int(s) => SpecLit::Int(s.deep_view()),
            Lit::Float(s) => SpecLit::Float(s.deep_view()),
            Lit::Bool(b) => SpecLit::Bool(*b),
        }
    }
}

/// One token of an annotation payload: the raw content between the
/// parentheses of an annotation marker, before the annotation grammar has
/// been applied to it.
#[derive(Debug, PartialEq, Eq)]
pub enum Token {
    Ident { text: String, span: Span },
    Literal { lit: Lit, span: Span },
    Punct { ch: char, span: Span },
    Group { tokens: Vec<Token>, span: Span },
}

pub enum SpecToken {
    Ident { text: Seq<char>, span: Span },
    Literal { lit: SpecLit, span: Span },
    Punct { ch: char, span: Span },
    Group { tokens: Seq<SpecToken>, span: Span },
}

impl Token {
    /// The ghost mirror of this node.
    pub open spec fn spec_view(&self) -> SpecToken
        decreases self,
    {
        match self {
            Token::Ident { text, span } => SpecToken::Ident { text: text.deep_view(), span: *span },
            Token::Literal { lit, span } => SpecToken::Literal {
                lit: lit.deep_view(),
                span: *span,
            },
            Token::Punct { ch, span } => SpecToken::Punct { ch: *ch, span: *span },
            Token::Group { tokens, span } => SpecToken::Group {
                tokens: Seq::new(tokens.len() as nat, |i: int| if 0 <= i < tokens.len() { tokens[i].spec_view() } else { arbitrary() }),
                span: *span,
            },
        }
    }
}

impl DeepView for Token {
    type V = SpecToken;

    open spec fn deep_view(&self) -> SpecToken {
        self.spec_view()
    }
}

/// An attribute: a path plus its raw payload tokens.
#[derive(Debug, PartialEq, Eq)]
pub struct Attr {
    pub path: Vec<String>,
    pub tokens: Vec<Token>,
    pub span: Span,
}

pub struct SpecAttr {
    pub path: Seq<Seq<char>>,
    pub tokens: Seq<SpecToken>,
    pub span: Span,
}

impl DeepView for Attr {
    type V = SpecAttr;

    open spec fn deep_view(&self) -> SpecAttr {
        SpecAttr {
            path: self.path.deep_view(),
            tokens: self.tokens.deep_view(),
            span: self.span,
        }
    }
}

/// A type expression.  Generic arguments always attach to the final path
/// segment, which is the only place the engine ever rewrites.
#[derive(Debug, PartialEq, Eq)]
pub enum Ty {
    Path { segments: Vec<String>, args: Vec<Ty> },
    Ref { lifetime: Option<String>, inner: Box<Ty> },
    Macro { name: String, span: Span, arg: Option<Box<Ty>> },
}

pub enum SpecTy {
    Path { segments: Seq<Seq<char>>, args: Seq<SpecTy> },
    Ref { lifetime: Option<Seq<char>>, inner: Box<SpecTy> },
    Macro { name: Seq<char>, span: Span, arg: Option<Box<SpecTy>> },
}

impl Ty {
    /// The ghost mirror of this node.
    pub open spec fn spec_view(&self) -> SpecTy
        decreases self,
    {
        match self {
            Ty::Path { segments, args } => SpecTy::Path {
                segments: segments.deep_view(),
                args: Seq::new(args.len() as nat, |i: int| if 0 <= i < args.len() { args[i].spec_view() } else { arbitrary() }),
            },
            Ty::Ref { lifetime, inner } => SpecTy::Ref {
                lifetime: lifetime.deep_view(),
                inner: Box::new((**inner).spec_view()),
            },
            Ty::Macro { name, span, arg } => SpecTy::Macro {
                name: name.deep_view(),
                span: *span,
                arg: match arg {
                    Some(t) => Some(Box::new((**t).spec_view())),
                    None => None,
                },
            },
        }
    }
}

impl DeepView for Ty {
    type V = SpecTy;

    open spec fn deep_view(&self) -> SpecTy {
        self.spec_view()
    }
}

/// A pattern, as far as the engine needs to carry one along.
#[derive(Debug, PartialEq, Eq)]
pub enum Pat {
    Wild,
    Bind(String),
    Lit(Lit),
    Or(Vec<Pat>),
}

pub enum SpecPat {
    Wild,
    Bind(Seq<char>),
    Lit(SpecLit),
    Or(Seq<SpecPat>),
}

impl Pat {
    /// The ghost mirror of this node.
    pub open spec fn spec_view(&self) -> SpecPat
        decreases self,
    {
        match self {
            Pat::Wild => SpecPat::Wild,
            Pat::Bind(name) => SpecPat::Bind(name.deep_view()),
            Pat::Lit(lit) => SpecPat::Lit(lit.deep_view()),
            Pat::Or(pats) => SpecPat::Or(Seq::new(pats.len() as nat, |i: int| if 0 <= i < pats.len() { pats[i].spec_view() } else { arbitrary() })),
        }
    }
}

impl DeepView for Pat {
    type V = SpecPat;

    open spec fn deep_view(&self) -> SpecPat {
        self.spec_view()
    }
}

#[derive(Clone, Copy, PartialEq, Eq, Structural, Debug)]
pub enum BinOp {
    Eq,
    Ne,
    And,
    Or,
}

/// An expression.
#[derive(Debug, PartialEq, Eq)]
pub enum Expr {
    Lit { lit: Lit },
    Path { segments: Vec<String> },
    Call { callee: Box<Expr>, args: Vec<Expr> },
    MethodCall { receiver: Box<Expr>, method: String, args: Vec<Expr> },
    Binary { op: BinOp, left: Box<Expr>, right: Box<Expr> },
    StructLit { segments: Vec<String>, fields: Vec<FieldValue> },
    MacroCall { name: String, span: Span },
    If { cond: Box<Expr>, then_branch: Block, else_branch: Option<Block> },
    Match { scrutinee: Box<Expr>, arms: Vec<Arm> },
}

/// One `member: value` entry of a struct-literal expression, together with
/// its resolved per-variant settings.
#[derive(Debug, PartialEq, Eq)]
pub struct FieldValue {
    pub attrs: Vec<Attr>,
    pub settings: Vec<ValueSettings>,
    pub member: String,
    pub value: Expr,
}

/// One arm of a `match` expression.
#[derive(Debug, PartialEq, Eq)]
pub struct Arm {
    pub pat: Pat,
    pub body: Block,
}

/// A brace-delimited sequence of statements.
#[derive(Debug, PartialEq, Eq)]
pub struct Block {
    pub stmts: Vec<Stmt>,
}

/// A statement.  Only local bindings can carry annotations; a bare macro
/// invocation in statement position is kept distinct because placeholder
/// macros are invalid there.
#[derive(Debug, PartialEq, Eq)]
pub enum Stmt {
    Local {
        attrs: Vec<Attr>,
        settings: Vec<StmtSettings>,
        pat: Pat,
        ty: Option<Ty>,
        init: Option<Expr>,
    },
    ExprStmt { expr: Expr, semi: bool },
    MacroStmt { name: String, span: Span },
}

pub enum SpecExpr {
    Lit { lit: SpecLit },
    Path { segments: Seq<Seq<char>> },
    Call { callee: Box<SpecExpr>, args: Seq<SpecExpr> },
    MethodCall { receiver: Box<SpecExpr>, method: Seq<char>, args: Seq<SpecExpr> },
    Binary { op: BinOp, left: Box<SpecExpr>, right: Box<SpecExpr> },
    StructLit { segments: Seq<Seq<char>>, fields: Seq<SpecFieldValue> },
    MacroCall { name: Seq<char>, span: Span },
    If { cond: Box<SpecExpr>, then_branch: Seq<SpecStmt>, else_branch: Option<Seq<SpecStmt>> },
    Match { scrutinee: Box<SpecExpr>, arms: Seq<SpecArm> },
}

pub struct SpecFieldValue {
    pub attrs: Seq<SpecAttr>,
    pub settings: Seq<SpecValueSettings>,
    pub member: Seq<char>,
    pub value: SpecExpr,
}

pub struct SpecArm {
    pub pat: SpecPat,
    pub body: Seq<SpecStmt>,
}

pub enum SpecStmt {
    Local {
        attrs: Seq<SpecAttr>,
        settings: Seq<SpecStmtSettings>,
        pat: SpecPat,
        ty: Option<SpecTy>,
        init: Option<SpecExpr>,
    },
    ExprStmt { expr: SpecExpr, semi: bool },
    MacroStmt { name: Seq<char>, span: Span },
}

impl Expr {
    /// The ghost mirror of this node.
    pub open spec fn spec_view(&self) -> SpecExpr
        decreases self,
    {
        match self {
            Expr::Lit { lit } => SpecExpr::Lit { lit: lit.deep_view() },
            Expr::Path { segments } => SpecExpr::Path { segments: segments.deep_view() },
            Expr::Call { callee, args } => SpecExpr::Call {
                callee: Box::new((**callee).spec_view()),
                args: Seq::new(args.len() as nat, |i: int| if 0 <= i < args.len() { args[i].spec_view() } else { arbitrary() }),
            },
            Expr::MethodCall { receiver, method, args } => SpecExpr::MethodCall {
                receiver: Box::new((**receiver).spec_view()),
                method: method.deep_view(),
                args: Seq::new(args.len() as nat, |i: int| if 0 <= i < args.len() { args[i].spec_view() } else { arbitrary() }),
            },
            Expr::Binary { op, left, right } => SpecExpr::Binary {
                op: *op,
                left: Box::new((**left).spec_view()),
                right: Box::new((**right).spec_view()),
            },
            Expr::StructLit { segments, fields } => SpecExpr::StructLit {
                segments: segments.deep_view(),
                fields: Seq::new(fields.len() as nat, |i: int| if 0 <= i < fields.len() { fields[i].spec_view() } else { arbitrary() }),
            },
            Expr::MacroCall { name, span } => SpecExpr::MacroCall {
                name: name.deep_view(),
                span: *span,
            },
            Expr::If { cond, then_branch, else_branch } => SpecExpr::If {
                cond: Box::new((**cond).spec_view()),
                then_branch: then_branch.spec_view(),
                else_branch: match else_branch {
                    Some(b) => Some(b.spec_view()),
                    None => None,
                },
            },
            Expr::Match { scrutinee, arms } => SpecExpr::Match {
                scrutinee: Box::new((**scrutinee).spec_view()),
                arms: Seq::new(arms.len() as nat, |i: int| if 0 <= i < arms.len() { arms[i].spec_view() } else { arbitrary() }),
            },
        }
    }
}

impl DeepView for Expr {
    type V = SpecExpr;

    open spec fn deep_view(&self) -> SpecExpr {
        self.spec_view()
    }
}

impl FieldValue {
    /// The ghost mirror of this node.
    pub open spec fn spec_view(&self) -> SpecFieldValue
        decreases self,
    {
        SpecFieldValue {
            attrs: self.attrs.deep_view(),
            settings: self.settings.deep_view(),
            member: self.member.deep_view(),
            value: self.value.spec_view(),
        }
    }
}

impl DeepView for FieldValue {
    type V = SpecFieldValue;

    open spec fn deep_view(&self) -> SpecFieldValue {
        self.spec_view()
    }
}

impl Arm {
    /// The ghost mirror of this node.
    pub open spec fn spec_view(&self) -> SpecArm
        decreases self,
    {
        SpecArm { pat: self.pat.deep_view(), body: self.body.spec_view() }
    }
}

impl DeepView for Arm {
    type V = SpecArm;

    open spec fn deep_view(&self) -> SpecArm {
        self.spec_view()
    }
}

impl Block {
    /// The ghost mirror of this node.
    pub open spec fn spec_view(&self) -> Seq<SpecStmt>
        decreases self,
    {
        Seq::new(self.stmts.len() as nat, |i: int| if 0 <= i < self.stmts.len() { self.stmts[i].spec_view() } else { arbitrary() })
    }
}

impl DeepView for Block {
    type V = Seq<SpecStmt>;

    open spec fn deep_view(&self) -> Seq<SpecStmt> {
        self.spec_view()
    }
}

impl Stmt {
    /// The ghost mirror of this node.
    pub open spec fn spec_view(&self) -> SpecStmt
        decreases self,
    {
        match self {
            Stmt::Local { attrs, settings, pat, ty, init } => SpecStmt::Local {
                attrs: attrs.deep_view(),
                settings: settings.deep_view(),
                pat: pat.deep_view(),
                ty: ty.deep_view(),
                init: match init {
                    Some(e) => Some(e.spec_view()),
                    None => None,
                },
            },
            Stmt::ExprStmt { expr, semi } => SpecStmt::ExprStmt {
                expr: expr.spec_view(),
                semi: *semi,
            },
            Stmt::MacroStmt { name, span } => SpecStmt::MacroStmt {
                name: name.deep_view(),
                span: *span,
            },
        }
    }
}

impl DeepView for Stmt {
    type V = SpecStmt;

    open spec fn deep_view(&self) -> SpecStmt {
        self.spec_view()
    }
}

/// Resolved settings of one struct or enum member for one variant: the
/// member participates in that variant, optionally with a replacement-type
/// template.
#[derive(Debug, PartialEq, Eq)]
pub struct VariantSettings {
    pub variant: String,
    pub retype: Option<Retype>,
}

/// A replacement-type template together with the span of its literal, so
/// that template errors point at the template itself.
#[derive(Debug, PartialEq, Eq)]
pub struct Retype {
    pub template: String,
    pub span: Span,
}

/// Resolved settings of one statement for one variant.
#[derive(Debug, PartialEq, Eq)]
pub struct StmtSettings {
    pub variant: String,
    pub participates: bool,
    pub vary_type: bool,
}

/// Resolved settings of one struct-literal entry for one variant.
#[derive(Debug, PartialEq, Eq)]
pub struct ValueSettings {
    pub variant: String,
    pub participates: bool,
}

pub struct SpecVariantSettings {
    pub variant: Seq<char>,
    pub retype: Option<SpecRetype>,
}

pub struct SpecRetype {
    pub template: Seq<char>,
    pub span: Span,
}

pub struct SpecStmtSettings {
    pub variant: Seq<char>,
    pub participates: bool,
    pub vary_type: bool,
}

pub struct SpecValueSettings {
    pub variant: Seq<char>,
    pub participates: bool,
}

impl DeepView for VariantSettings {
    type V = SpecVariantSettings;

    open spec fn deep_view(&self) -> SpecVariantSettings {
        SpecVariantSettings { variant: self.variant.deep_view(), retype: self.retype.deep_view() }
    }
}

impl DeepView for Retype {
    type V = SpecRetype;

    open spec fn deep_view(&self) -> SpecRetype {
        SpecRetype { template: self.template.deep_view(), span: self.span }
    }
}

impl DeepView for StmtSettings {
    type V = SpecStmtSettings;

    open spec fn deep_view(&self) -> SpecStmtSettings {
        SpecStmtSettings {
            variant: self.variant.deep_view(),
            participates: self.participates,
            vary_type: self.vary_type,
        }
    }
}

impl DeepView for ValueSettings {
    type V = SpecValueSettings;

    open spec fn deep_view(&self) -> SpecValueSettings {
        SpecValueSettings { variant: self.variant.deep_view(), participates: self.participates }
    }
}

/// One member of a struct or of an enum case.
#[derive(Debug, PartialEq, Eq)]
pub struct Field {
    pub attrs: Vec<Attr>,
    pub settings: Vec<VariantSettings>,
    pub name: Option<String>,
    pub ty: Ty,
}

pub struct SpecField {
    pub attrs: Seq<SpecAttr>,
    pub settings: Seq<SpecVariantSettings>,
    pub name: Option<Seq<char>>,
    pub ty: SpecTy,
}

impl DeepView for Field {
    type V = SpecField;

    open spec fn deep_view(&self) -> SpecField {
        SpecField {
            attrs: self.attrs.deep_view(),
            settings: self.settings.deep_view(),
            name: self.name.deep_view(),
            ty: self.ty.deep_view(),
        }
    }
}

/// The member list of a struct or of an enum case.
#[derive(Debug, PartialEq, Eq)]
pub enum FieldsKind {
    Named(Vec<Field>),
    Unnamed(Vec<Field>),
    Unit,
}

pub enum SpecFieldsKind {
    Named(Seq<SpecField>),
    Unnamed(Seq<SpecField>),
    Unit,
}

impl DeepView for FieldsKind {
    type V = SpecFieldsKind;

    open spec fn deep_view(&self) -> SpecFieldsKind {
        match self {
            FieldsKind::Named(fields) => SpecFieldsKind::Named(fields.deep_view()),
            FieldsKind::Unnamed(fields) => SpecFieldsKind::Unnamed(fields.deep_view()),
            FieldsKind::Unit => SpecFieldsKind::Unit,
        }
    }
}

/// One case of an enum declaration.
#[derive(Debug, PartialEq, Eq)]
pub struct Case {
    pub attrs: Vec<Attr>,
    pub name: String,
    pub fields: FieldsKind,
}

pub struct SpecCase {
    pub attrs: Seq<SpecAttr>,
    pub name: Seq<char>,
    pub fields: SpecFieldsKind,
}

impl DeepView for Case {
    type V = SpecCase;

    open spec fn deep_view(&self) -> SpecCase {
        SpecCase {
            attrs: self.attrs.deep_view(),
            name: self.name.deep_view(),
            fields: self.fields.deep_view(),
        }
    }
}

/// One parameter of an associated function.
#[derive(Debug, PartialEq, Eq)]
pub struct Param {
    pub name: String,
    pub ty: Ty,
}

pub struct SpecParam {
    pub name: Seq<char>,
    pub ty: SpecTy,
}

impl DeepView for Param {
    type V = SpecParam;

    open spec fn deep_view(&self) -> SpecParam {
        SpecParam { name: self.name.deep_view(), ty: self.ty.deep_view() }
    }
}

/// One item of an impl block.
#[derive(Debug, PartialEq, Eq)]
pub enum AssocItem {
    Const { attrs: Vec<Attr>, name: String, ty: Ty, value: Expr },
    Method {
        attrs: Vec<Attr>,
        name: String,
        params: Vec<Param>,
        ret: Option<Ty>,
        body: Block,
    },
}

pub enum SpecAssocItem {
    Const { attrs: Seq<SpecAttr>, name: Seq<char>, ty: SpecTy, value: SpecExpr },
    Method {
        attrs: Seq<SpecAttr>,
        name: Seq<char>,
        params: Seq<SpecParam>,
        ret: Option<SpecTy>,
        body: Seq<SpecStmt>,
    },
}

impl DeepView for AssocItem {
    type V = SpecAssocItem;

    open spec fn deep_view(&self) -> SpecAssocItem {
        match self {
            AssocItem::Const { attrs, name, ty, value } => SpecAssocItem::Const {
                attrs: attrs.deep_view(),
                name: name.deep_view(),
                ty: ty.deep_view(),
                value: value.deep_view(),
            },
            AssocItem::Method { attrs, name, params, ret, body } => SpecAssocItem::Method {
                attrs: attrs.deep_view(),
                name: name.deep_view(),
                params: params.deep_view(),
                ret: ret.deep_view(),
                body: body.deep_view(),
            },
        }
    }
}

/// A whole declaration: the unit the engine transforms.
#[derive(Debug, PartialEq, Eq)]
pub enum Item {
    Struct { attrs: Vec<Attr>, name: String, fields: FieldsKind },
    Enum { attrs: Vec<Attr>, name: String, cases: Vec<Case> },
    Impl {
        attrs: Vec<Attr>,
        self_ty: Ty,
        trait_path: Option<Vec<String>>,
        items: Vec<AssocItem>,
    },
}

pub enum SpecItem {
    Struct { attrs: Seq<SpecAttr>, name: Seq<char>, fields: SpecFieldsKind },
    Enum { attrs: Seq<SpecAttr>, name: Seq<char>, cases: Seq<SpecCase> },
    Impl {
        attrs: Seq<SpecAttr>,
        self_ty: SpecTy,
        trait_path: Option<Seq<Seq<char>>>,
        items: Seq<SpecAssocItem>,
    },
}

impl DeepView for Item {
    type V = SpecItem;

    open spec fn deep_view(&self) -> SpecItem {
        match self {
            Item::Struct { attrs, name, fields } => SpecItem::Struct {
                attrs: attrs.deep_view(),
                name: name.deep_view(),
                fields: fields.deep_view(),
            },
            Item::Enum { attrs, name, cases } => SpecItem::Enum {
                attrs: attrs.deep_view(),
                name: name.deep_view(),
                cases: cases.deep_view(),
            },
            Item::Impl { attrs, self_ty, trait_path, items } => SpecItem::Impl {
                attrs: attrs.deep_view(),
                self_ty: self_ty.deep_view(),
                trait_path: trait_path.deep_view(),
                items: items.deep_view(),
            },
        }
    }
}

/// An exact copy of a segment list.
pub fn duplicate_strings(v: &Vec<String>) -> (r: Vec<String>)
    ensures
        r.deep_view() == v.deep_view(),
{
    let mut out: Vec<String> = Vec::new();
    let mut i: usize = 0;
    while i < v.len()
        invariant
            i <= v.len(),
            out.len() == i,
            forall|k: int| 0 <= k < i ==> out[k].deep_view() == v[k].deep_view(),
        decreases v.len() - i,
    {
        out.push(v[i].clone());
        i += 1;
    }
    proof {
        assert(out.deep_view() =~= v.deep_view());
    }
    out
}

impl Lit {
    /// An exact copy of this literal.
    pub fn duplicate(&self) -> (r: Lit)
        ensures
            r.deep_view() == self.deep_view(),
    {
        match self {
            Lit::Str(s) => Lit::Str(s.clone()),
            Lit::Int(s) => Lit::Int(s.clone()),
            Lit::Float(s) => Lit::Float(s.clone()),
            Lit::Bool(b) => Lit::Bool(*b),
        }
    }
}

impl Token {
    /// An exact copy of this token.
    #[verifier::loop_isolation(false)]
    pub fn duplicate(&self) -> (r: Token)
        ensures
            r.deep_view() == self.deep_view(),
        decreases self,
    {
        match self {
            Token::Ident { text, span } => Token::Ident { text: text.clone(), span: *span },
            Token::Literal { lit, span } => Token::Literal { lit: lit.duplicate(), span: *span },
            Token::Punct { ch, span } => Token::Punct { ch: *ch, span: *span },
            Token::Group { tokens, span } => {
                let mut out: Vec<Token> = Vec::new();
                let mut i: usize = 0;
                while i < tokens.len()
                    invariant
                        i <= tokens.len(),
                        out.len() == i,
                        forall|k: int| 0 <= k < i ==> out[k].deep_view() == tokens[k].deep_view(),
                    decreases tokens.len() - i,
                {
                    out.push(tokens[i].duplicate());
                    i += 1;
                }
                let r = Token::Group { tokens: out, span: *span };
                proof {
                    assert(r.deep_view()->Group_tokens =~= self.deep_view()->Group_tokens);
                }
                r
            },
        }
    }
}

/// An exact copy of a token list.
pub fn duplicate_tokens(v: &Vec<Token>) -> (r: Vec<Token>)
    ensures
        r.deep_view() == v.deep_view(),
{
    let mut out: Vec<Token> = Vec::new();
    let mut i: usize = 0;
    while i < v.len()
        invariant
            i <= v.len(),
            out.len() == i,
            forall|k: int| 0 <= k < i ==> out[k].deep_view() == v[k].deep_view(),
        decreases v.len() - i,
    {
        out.push(v[i].duplicate());
        i += 1;
    }
    proof {
        assert(out.deep_view() =~= v.deep_view());
    }
    out
}

impl Attr {
    /// An exact copy of this attribute.
    pub fn duplicate(&self) -> (r: Attr)
        ensures
            r.deep_view() == self.deep_view(),
    {
        Attr {
            path: duplicate_strings(&self.path),
            tokens: duplicate_tokens(&self.tokens),
            span: self.span,
        }
    }
}

/// An exact copy of an attribute list.
pub fn duplicate_attrs(v: &Vec<Attr>) -> (r: Vec<Attr>)
    ensures
        r.deep_view() == v.deep_view(),
{
    let mut out: Vec<Attr> = Vec::new();
    let mut i: usize = 0;
    while i < v.len()
        invariant
            i <= v.len(),
            out.len() == i,
            forall|k: int| 0 <= k < i ==> out[k].deep_view() == v[k].deep_view(),
        decreases v.len() - i,
    {
        out.push(v[i].duplicate());
        i += 1;
    }
    proof {
        assert(out.deep_view() =~= v.deep_view());
    }
    out
}

impl Pat {
    /// An exact copy of this pattern.
    #[verifier::loop_isolation(false)]
    pub fn duplicate(&self) -> (r: Pat)
        ensures
            r.deep_view() == self.deep_view(),
        decreases self,
    {
        match self {
            Pat::Wild => Pat::Wild,
            Pat::Bind(name) => Pat::Bind(name.clone()),
            Pat::Lit(lit) => Pat::Lit(lit.duplicate()),
            Pat::Or(pats) => {
                let mut out: Vec<Pat> = Vec::new();
                let mut i: usize = 0;
                while i < pats.len()
                    invariant
                        i <= pats.len(),
                        out.len() == i,
                        forall|k: int| 0 <= k < i ==> out[k].deep_view() == pats[k].deep_view(),
                    decreases pats.len() - i,
                {
                    out.push(pats[i].duplicate());
                    i += 1;
                }
                let r = Pat::Or(out);
                proof {
                    assert(r.deep_view()->Or_0 =~= self.deep_view()->Or_0);
                }
                r
            },
        }
    }
}

impl Ty {
    /// An exact copy of this type expression.
    #[verifier::loop_isolation(false)]
    pub fn duplicate(&self) -> (r: Ty)
        ensures
            r.deep_view() == self.deep_view(),
        decreases self,
    {
        match self {
            Ty::Path { segments, args } => {
                let mut out: Vec<Ty> = Vec::new();
                let mut i: usize = 0;
                while i < args.len()
                    invariant
                        i <= args.len(),
                        out.len() == i,
                        forall|k: int| 0 <= k < i ==> out[k].deep_view() == args[k].deep_view(),
                    decreases args.len() - i,
                {
                    out.push(args[i].duplicate());
                    i += 1;
                }
                let r = Ty::Path { segments: duplicate_strings(segments), args: out };
                proof {
                    assert(r.deep_view()->Path_args =~= self.deep_view()->Path_args);
                }
                r
            },
            Ty::Ref { lifetime, inner } => Ty::Ref {
                lifetime: match lifetime {
                    Some(l) => Some(l.clone()),
                    None => None,
                },
                inner: Box::new((**inner).duplicate()),
            },
            Ty::Macro { name, span, arg } => Ty::Macro {
                name: name.clone(),
                span: *span,
                arg: match arg {
                    Some(t) => Some(Box::new((**t).duplicate())),
                    None => None,
                },
            },
        }
    }
}

impl Retype {
    /// An exact copy of this template record.
    pub fn duplicate(&self) -> (r: Retype)
        ensures
            r.deep_view() == self.deep_view(),
    {
        Retype { template: self.template.clone(), span: self.span }
    }
}

impl VariantSettings {
    /// An exact copy of this member-settings record.
    pub fn duplicate(&self) -> (r: VariantSettings)
        ensures
            r.deep_view() == self.deep_view(),
    {
        VariantSettings {
            variant: self.variant.clone(),
            retype: match &self.retype {
                Some(t) => Some(t.duplicate()),
                None => None,
            },
        }
    }
}

/// An exact copy of a member-settings list.
pub fn duplicate_member_settings(v: &Vec<VariantSettings>) -> (r: Vec<VariantSettings>)
    ensures
        r.deep_view() == v.deep_view(),
{
    let mut out: Vec<VariantSettings> = Vec::new();
    let mut i: usize = 0;
    while i < v.len()
        invariant
            i <= v.len(),
            out.len() == i,
            forall|k: int| 0 <= k < i ==> out[k].deep_view() == v[k].deep_view(),
        decreases v.len() - i,
    {
        out.push(v[i].duplicate());
        i += 1;
    }
    proof {
        assert(out.deep_view() =~= v.deep_view());
    }
    out
}

impl StmtSettings {
    /// An exact copy of this statement-settings record.
    pub fn duplicate(&self) -> (r: StmtSettings)
        ensures
            r.deep_view() == self.deep_view(),
    {
        StmtSettings {
            variant: self.variant.clone(),
            participates: self.participates,
            vary_type: self.vary_type,
        }
    }
}

/// An exact copy of a statement-settings list.
pub fn duplicate_stmt_settings(v: &Vec<StmtSettings>) -> (r: Vec<StmtSettings>)
    ensures
        r.deep_view() == v.deep_view(),
{
    let mut out: Vec<StmtSettings> = Vec::new();
    let mut i: usize = 0;
    while i < v.len()
        invariant
            i <= v.len(),
            out.len() == i,
            forall|k: int| 0 <= k < i ==> out[k].deep_view() == v[k].deep_view(),
        decreases v.len() - i,
    {
        out.push(v[i].duplicate());
        i += 1;
    }
    proof {
        assert(out.deep_view() =~= v.deep_view());
    }
    out
}

impl ValueSettings {
    /// An exact copy of this initializer-settings record.
    pub fn duplicate(&self) -> (r: ValueSettings)
        ensures
            r.deep_view() == self.deep_view(),
    {
        ValueSettings { variant: self.variant.clone(), participates: self.participates }
    }
}

/// An exact copy of an initializer-settings list.
pub fn duplicate_value_settings(v: &Vec<ValueSettings>) -> (r: Vec<ValueSettings>)
    ensures
        r.deep_view() == v.deep_view(),
{
    let mut out: Vec<ValueSettings> = Vec::new();
    let mut i: usize = 0;
    while i < v.len()
        invariant
            i <= v.len(),
            out.len() == i,
            forall|k: int| 0 <= k < i ==> out[k].deep_view() == v[k].deep_view(),
        decreases v.len() - i,
    {
        out.push(v[i].duplicate());
        i += 1;
    }
    proof {
        assert(out.deep_view() =~= v.deep_view());
    }
    out
}


/// An exact copy of a type-argument list.
pub fn duplicate_tys(v: &Vec<Ty>) -> (r: Vec<Ty>)
    ensures
        r.deep_view() == v.deep_view(),
{
    let mut out: Vec<Ty> = Vec::new();
    let mut i: usize = 0;
    while i < v.len()
        invariant
            i <= v.len(),
            out.len() == i,
            forall|k: int| 0 <= k < i ==> out[k].deep_view() == v[k].deep_view(),
        decreases v.len() - i,
    {
        out.push(v[i].duplicate());
        i += 1;
    }
    proof {
        assert(out.deep_view() =~= v.deep_view());
    }
    out
}

} // verus!
