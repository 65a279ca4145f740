//! What the checker hands to a diagnostic sink.

use vstd::prelude::*;
use crate::tree::Span;

verus! {

/// What kind of thing was found undocumented.
#[derive(Clone, Copy, Debug, PartialEq, Eq, Structural)]
pub enum Label {
    Program,
    Constant,
    Static,
    Enum,
    Struct,
    Union,
    ExistentialType,
    Function,
    Module,
    Trait,
    TraitAlias,
    TypeAlias,
    AssociatedConstant,
    TraitMethod,
    AssociatedType,
    Method,
    StructField,
    Variant,
}

impl Label {
    /// The words that describe the kind, article included.
    pub open spec fn spec_text(self) -> Seq<char> {
        match self {
            Label::Program => "the program"@,
            Label::Constant => "a constant"@,
            Label::Static => "a static"@,
            Label::Enum => "an enum"@,
            Label::Struct => "a struct"@,
            Label::Union => "a union"@,
            Label::ExistentialType => "an existential type"@,
            Label::Function => "a function"@,
            Label::Module => "a module"@,
            Label::Trait => "a trait"@,
            Label::TraitAlias => "a trait alias"@,
            Label::TypeAlias => "a type alias"@,
            Label::AssociatedConstant => "an associated constant"@,
            Label::TraitMethod => "a trait method"@,
            Label::AssociatedType => "an associated type"@,
            Label::Method => "a method"@,
            Label::StructField => "a struct field"@,
            Label::Variant => "a variant"@,
        }
    }

    /// The words that describe the kind, article included.
    pub fn text(self) -> (s: &'static str)
        ensures
            s@ == self.spec_text(),
    {
        match self {
            Label::Program => "the program",
            Label::Constant => "a constant",
            Label::Static => "a static",
            Label::Enum => "an enum",
            Label::Struct => "a struct",
            Label::Union => "a union",
            Label::ExistentialType => "an existential type",
            Label::Function => "a function",
            Label::Module => "a module",
            Label::Trait => "a trait",
            Label::TraitAlias => "a trait alias",
            Label::TypeAlias => "a type alias",
            Label::AssociatedConstant => "an associated constant",
            Label::TraitMethod => "a trait method",
            Label::AssociatedType => "an associated type",
            Label::Method => "a method",
            Label::StructField => "a struct field",
            Label::Variant => "a variant",
        }
    }
}

/// The words every message begins with.
pub open spec fn message_prefix() -> Seq<char> {
    "missing documentation for "@
}

/// One undocumented declaration.
#[derive(Clone, Copy, Debug, PartialEq, Eq, Structural)]
pub struct CoverageReport {
    /// Where the declaration stands.
    pub span: Span,
    /// What kind of declaration it is.
    pub label: Label,
}

impl CoverageReport {
    /// The text of the diagnostic.
    pub open spec fn spec_message(self) -> Seq<char> {
        message_prefix() + self.label.spec_text()
    }

    /// The text of the diagnostic: the fixed prefix followed by the label's words.
    pub fn message(&self) -> (s: String)
        ensures
            s@ == self.spec_message(),
    {
        String::from_str("missing documentation for ").concat(self.label.text())
    }
}

} // verus!
