//! A documentation-coverage checker over a parsed declaration tree.
//!
//! The checker walks a tree of declarations and reports every documentable
//! declaration, public or private, that has no description comment attached.
//! A scope marked hidden from the generated documentation silences itself and
//! everything beneath it.

pub mod laws;
pub mod missing_doc;
pub mod policy;
pub mod report;
pub mod suppression;
pub mod tree;

pub use missing_doc::{check, MissingDoc};
pub use report::{CoverageReport, Label};
pub use suppression::SuppressionStack;
pub use tree::{
    Attribute, DeclKind, DeclarationNode, ImplMemberKind, ItemKind, Span, TraitId,
    TraitMemberKind,
};
