//! A source-to-source expansion engine for "variant" specializations of a
//! single declaration.
//!
//! Given one declaration (a struct, an enum, or an inherent/trait impl
//! block) together with a list of variant names, the engine emits the base
//! declaration plus one specialized copy per variant.  Per-member
//! annotations decide which members each copy keeps, how member types are
//! rewritten, and how variant-aware placeholders inside the body are
//! substituted.  Every transformation is a pure function of the input tree
//! and the variant list; all diagnostics are accumulated and reported
//! together, never dropped.

pub mod ast;
pub mod context;
pub mod errors;
pub mod expand;
pub mod laws;
pub mod parsers;
pub mod subst;
pub mod typetext;
pub mod words;

pub use context::{parse_variant_list, Context};
pub use expand::{expand, Expansion};
pub use errors::{combined_report, Diag, DiagKind};

