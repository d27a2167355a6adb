//! Diagnostics.
//!
//! Every phase of the engine appends to an ordered diagnostic list and no
//! diagnostic is ever dropped: the top-level entry point hands the whole
//! accumulated list back to the caller alongside the rewritten
//! declarations, so each individual problem stays visible.

use vstd::prelude::*;
use vstd::string::StrSliceExecFns;
use vstd::string::StringExecFns;

use crate::ast::Span;

verus! {

/// What went wrong, carrying the identifier text the message speaks of.
#[derive(Debug, PartialEq, Eq)]
pub enum DiagKind {
    /// The implemented type of an impl block is not a plain type path.
    ImplTargetNotPath,
    /// A member annotation referenced a variant missing from the declared
    /// variant list.
    UndeclaredVariant { variant: String },
    /// The same variant was configured twice for the same node.
    DuplicateSettings { variant: String },
    /// The same annotation key was given twice in one annotation.
    DuplicateEntry { key: String },
    /// An annotation key the construct does not recognize.
    UnrecognizedEntry { key: String },
    /// An annotation key whose value has the wrong shape; the payload
    /// describes what the key expects.
    EntryExpects { key: String, expected: Expectation },
    /// A required annotation key was never given.
    MissingKey { key: String },
    /// An annotation payload that matches no form of the annotation value
    /// grammar.
    ValueUnreadable,
    /// An expression-only placeholder used outside expression position.
    ExprMacroMisused { name: String },
    /// A type-only placeholder used outside type position.
    TypeMacroMisused { name: String },
    /// A type-position placeholder used while expanding the base
    /// declaration, which has no variant to name.
    MacroInBaseType { name: String },
    /// A replacement-type template that does not parse as a type once its
    /// placeholders are substituted.
    TemplateParse,
    /// The variant list itself could not be parsed.
    VariantListParse,
    /// The variant list declares the same name twice; the declared set
    /// must hold distinct names.
    DuplicateVariant { variant: String },
}

/// The value shape an annotation key expects.
#[derive(Clone, Copy, PartialEq, Eq, Structural, Debug)]
pub enum Expectation {
    IdentList,
    StringLit,
    BoolFlag,
    Ident,
}

/// One diagnostic: a source span and what went wrong there.
#[derive(Debug, PartialEq, Eq)]
pub struct Diag {
    pub span: Span,
    pub kind: DiagKind,
}

pub enum SpecDiagKind {
    ImplTargetNotPath,
    UndeclaredVariant { variant: Seq<char> },
    DuplicateSettings { variant: Seq<char> },
    DuplicateEntry { key: Seq<char> },
    UnrecognizedEntry { key: Seq<char> },
    EntryExpects { key: Seq<char>, expected: Expectation },
    MissingKey { key: Seq<char> },
    ValueUnreadable,
    DuplicateVariant { variant: Seq<char> },
    ExprMacroMisused { name: Seq<char> },
    TypeMacroMisused { name: Seq<char> },
    MacroInBaseType { name: Seq<char> },
    TemplateParse,
    VariantListParse,
}

pub struct SpecDiag {
    pub span: Span,
    pub kind: SpecDiagKind,
}

impl DeepView for DiagKind {
    type V = SpecDiagKind;

    open spec fn deep_view(&self) -> SpecDiagKind {
        match self {
            DiagKind::ImplTargetNotPath => SpecDiagKind::ImplTargetNotPath,
            DiagKind::UndeclaredVariant { variant } => SpecDiagKind::UndeclaredVariant {
                variant: variant.deep_view(),
            },
            DiagKind::DuplicateSettings { variant } => SpecDiagKind::DuplicateSettings {
                variant: variant.deep_view(),
            },
            DiagKind::DuplicateEntry { key } => SpecDiagKind::DuplicateEntry {
                key: key.deep_view(),
            },
            DiagKind::UnrecognizedEntry { key } => SpecDiagKind::UnrecognizedEntry {
                key: key.deep_view(),
            },
            DiagKind::EntryExpects { key, expected } => SpecDiagKind::EntryExpects {
                key: key.deep_view(),
                expected: *expected,
            },
            DiagKind::MissingKey { key } => SpecDiagKind::MissingKey { key: key.deep_view() },
            DiagKind::ValueUnreadable => SpecDiagKind::ValueUnreadable,
            DiagKind::ExprMacroMisused { name } => SpecDiagKind::ExprMacroMisused {
                name: name.deep_view(),
            },
            DiagKind::TypeMacroMisused { name } => SpecDiagKind::TypeMacroMisused {
                name: name.deep_view(),
            },
            DiagKind::MacroInBaseType { name } => SpecDiagKind::MacroInBaseType {
                name: name.deep_view(),
            },
            DiagKind::TemplateParse => SpecDiagKind::TemplateParse,
            DiagKind::VariantListParse => SpecDiagKind::VariantListParse,
            DiagKind::DuplicateVariant { variant } => SpecDiagKind::DuplicateVariant {
                variant: variant.deep_view(),
            },
        }
    }
}

impl DeepView for Diag {
    type V = SpecDiag;

    open spec fn deep_view(&self) -> SpecDiag {
        SpecDiag { span: self.span, kind: self.kind.deep_view() }
    }
}

/// The rendered text of a diagnostic kind.
pub open spec fn spec_message(kind: SpecDiagKind) -> Seq<char> {
    match kind {
        SpecDiagKind::ImplTargetNotPath => "implemented type must be a type path"@,
        SpecDiagKind::UndeclaredVariant { variant } => "`"@ + variant
            + "` has not been declared as a variant"@,
        SpecDiagKind::DuplicateSettings { variant } => "duplicate settings for variant `"@
            + variant + "`"@,
        SpecDiagKind::DuplicateEntry { key } => "duplicate entry for `"@ + key + "`"@,
        SpecDiagKind::UnrecognizedEntry { key } => "unrecognized entry `"@ + key + "`"@,
        SpecDiagKind::EntryExpects { key, expected } => if key.len() == 0 {
            "expected "@ + spec_expectation_text(expected)
        } else {
            "`"@ + key + "` expects "@ + spec_expectation_text(expected)
        },
        SpecDiagKind::MissingKey { key } => "expected key `"@ + key + "` not found"@,
        SpecDiagKind::ValueUnreadable => {
            "failed to parse attribute value: type of value cannot be determined"@
        },
        SpecDiagKind::ExprMacroMisused { name } => "`"@ + name
            + "!()` may only be used in expressions"@,
        SpecDiagKind::TypeMacroMisused { name } => "`"@ + name + "!()` may only be used in types"@,
        SpecDiagKind::MacroInBaseType { name } => "`"@ + name
            + "!()` cannot be used in base types"@,
        SpecDiagKind::TemplateParse => "substituted retype template does not parse as a type"@,
        SpecDiagKind::VariantListParse => "expected a comma-separated list of variant names"@,
        SpecDiagKind::DuplicateVariant { variant } => "duplicate declaration of variant `"@
            + variant + "`"@,
    }
}

pub open spec fn spec_expectation_text(expected: Expectation) -> Seq<char> {
    match expected {
        Expectation::IdentList => "a list of identifiers"@,
        Expectation::StringLit => "a string literal"@,
        Expectation::BoolFlag => "a boolean flag"@,
        Expectation::Ident => "an identifier"@,
    }
}

impl DiagKind {
    /// An exact copy of this kind.
    pub fn duplicate(&self) -> (r: DiagKind)
        ensures
            r.deep_view() == self.deep_view(),
    {
        match self {
            DiagKind::ImplTargetNotPath => DiagKind::ImplTargetNotPath,
            DiagKind::UndeclaredVariant { variant } => DiagKind::UndeclaredVariant {
                variant: variant.clone(),
            },
            DiagKind::DuplicateSettings { variant } => DiagKind::DuplicateSettings {
                variant: variant.clone(),
            },
            DiagKind::DuplicateEntry { key } => DiagKind::DuplicateEntry { key: key.clone() },
            DiagKind::UnrecognizedEntry { key } => DiagKind::UnrecognizedEntry {
                key: key.clone(),
            },
            DiagKind::EntryExpects { key, expected } => DiagKind::EntryExpects {
                key: key.clone(),
                expected: *expected,
            },
            DiagKind::MissingKey { key } => DiagKind::MissingKey { key: key.clone() },
            DiagKind::ValueUnreadable => DiagKind::ValueUnreadable,
            DiagKind::ExprMacroMisused { name } => DiagKind::ExprMacroMisused {
                name: name.clone(),
            },
            DiagKind::TypeMacroMisused { name } => DiagKind::TypeMacroMisused {
                name: name.clone(),
            },
            DiagKind::MacroInBaseType { name } => DiagKind::MacroInBaseType {
                name: name.clone(),
            },
            DiagKind::TemplateParse => DiagKind::TemplateParse,
            DiagKind::VariantListParse => DiagKind::VariantListParse,
            DiagKind::DuplicateVariant { variant } => DiagKind::DuplicateVariant {
                variant: variant.clone(),
            },
        }
    }
}

impl Diag {
    /// An exact copy of this diagnostic.
    pub fn duplicate(&self) -> (r: Diag)
        ensures
            r.deep_view() == self.deep_view(),
    {
        Diag { span: self.span, kind: self.kind.duplicate() }
    }

    /// Render this diagnostic's message.
    pub fn message(&self) -> (s: String)
        ensures
            s@ == spec_message(self.kind.deep_view()),
    {
        match &self.kind {
            DiagKind::ImplTargetNotPath => {
                String::from_str("implemented type must be a type path")
            },
            DiagKind::UndeclaredVariant { variant } => {
                let mut s = String::from_str("`");
                s.append(variant.as_str());
                s.append("` has not been declared as a variant");
                s
            },
            DiagKind::DuplicateSettings { variant } => {
                let mut s = String::from_str("duplicate settings for variant `");
                s.append(variant.as_str());
                s.append("`");
                s
            },
            DiagKind::DuplicateEntry { key } => {
                let mut s = String::from_str("duplicate entry for `");
                s.append(key.as_str());
                s.append("`");
                s
            },
            DiagKind::UnrecognizedEntry { key } => {
                let mut s = String::from_str("unrecognized entry `");
                s.append(key.as_str());
                s.append("`");
                s
            },
            DiagKind::EntryExpects { key, expected } => {
                let mut s = if key.as_str().unicode_len() == 0 {
                    String::from_str("expected ")
                } else {
                    let mut t = String::from_str("`");
                    t.append(key.as_str());
                    t.append("` expects ");
                    t
                };
                match expected {
                    Expectation::IdentList => s.append("a list of identifiers"),
                    Expectation::StringLit => s.append("a string literal"),
                    Expectation::BoolFlag => s.append("a boolean flag"),
                    Expectation::Ident => s.append("an identifier"),
                }
                s
            },
            DiagKind::MissingKey { key } => {
                let mut s = String::from_str("expected key `");
                s.append(key.as_str());
                s.append("` not found");
                s
            },
            DiagKind::ValueUnreadable => {
                String::from_str("failed to parse attribute value: type of value cannot be determined")
            },
            DiagKind::ExprMacroMisused { name } => {
                let mut s = String::from_str("`");
                s.append(name.as_str());
                s.append("!()` may only be used in expressions");
                s
            },
            DiagKind::TypeMacroMisused { name } => {
                let mut s = String::from_str("`");
                s.append(name.as_str());
                s.append("!()` may only be used in types");
                s
            },
            DiagKind::MacroInBaseType { name } => {
                let mut s = String::from_str("`");
                s.append(name.as_str());
                s.append("!()` cannot be used in base types");
                s
            },
            DiagKind::TemplateParse => {
                String::from_str("substituted retype template does not parse as a type")
            },
            DiagKind::VariantListParse => {
                String::from_str("expected a comma-separated list of variant names")
            },
            DiagKind::DuplicateVariant { variant } => {
                let mut s = String::from_str("duplicate declaration of variant `");
                s.append(variant.as_str());
                s.append("`");
                s
            },
        }
    }
}


/// All messages of a diagnostic list combined into one report, one line
/// per message, in order; nothing is dropped.
pub open spec fn spec_combined_report(ds: Seq<SpecDiag>) -> Seq<char>
    decreases ds.len(),
{
    if ds.len() == 0 {
        Seq::empty()
    } else if ds.len() == 1 {
        spec_message(ds.last().kind)
    } else {
        spec_combined_report(ds.drop_last()) + "\n"@ + spec_message(ds.last().kind)
    }
}

/// Combine every diagnostic into a single reportable text.  Each
/// individual message remains visible on its own line.
#[verifier::loop_isolation(false)]
pub fn combined_report(diags: &Vec<Diag>) -> (s: String)
    ensures
        s@ == spec_combined_report(diags.deep_view()),
{
    let ghost ds = diags.deep_view();
    let mut out = String::new();
    let mut i: usize = 0;
    while i < diags.len()
        invariant
            i <= diags.len(),
            ds == diags.deep_view(),
            out@ == spec_combined_report(ds.take(i as int)),
        decreases diags.len() - i,
    {
        proof {
            assert(ds.take(i + 1).drop_last() =~= ds.take(i as int));
            assert(ds.take(i + 1).last() == diags[i as int].deep_view());
        }
        if i > 0 {
            out.append("\n");
        }
        let msg = diags[i].message();
        out.append(msg.as_str());
        i += 1;
    }
    proof {
        assert(ds.take(diags.len() as int) =~= ds);
    }
    out
}

} // verus!
