//! The declaration tree that the checker reads.
//!
//! The tree is made by a front end that has parsed the program and resolved
//! its names. A node holds, as plain values, what the front end found out and
//! the checker depends on.

use vstd::prelude::*;

verus! {

/// A region of source text.
#[derive(Clone, Copy, Debug, PartialEq, Eq, Structural)]
pub struct Span {
    /// Offset of the first byte.
    pub lo: u32,
    /// Offset one past the last byte.
    pub hi: u32,
    /// Whether the text was produced by macro expansion rather than written by hand.
    pub from_expansion: bool,
}

/// One attribute of a declaration, reduced to what documentation coverage depends on.
#[derive(Clone, Copy, Debug, PartialEq, Eq, Structural)]
pub enum Attribute {
    /// A description comment: `/// text` or `#[doc = "text"]`.
    DocComment,
    /// A documentation directive `#[doc(...)]`.
    DocDirective {
        /// Whether `hidden` is among the things the directive lists.
        hidden: bool,
    },
    /// Any other attribute.
    Other,
}

impl Attribute {
    /// Whether this attribute attaches a description to its declaration.
    pub open spec fn spec_is_doc_comment(self) -> bool {
        self is DocComment
    }

    /// Whether this attribute hides its declaration from the generated documentation.
    pub open spec fn spec_marks_hidden(self) -> bool {
        self matches Attribute::DocDirective { hidden } && hidden
    }

    /// Whether this attribute attaches a description to its declaration.
    #[verifier::when_used_as_spec(spec_is_doc_comment)]
    pub fn is_doc_comment(self) -> (b: bool)
        ensures
            b == self.spec_is_doc_comment(),
    {
        match self {
            Attribute::DocComment => true,
            _ => false,
        }
    }

    /// Whether this attribute hides its declaration from the generated documentation.
    #[verifier::when_used_as_spec(spec_marks_hidden)]
    pub fn marks_hidden(self) -> (b: bool)
        ensures
            b == self.spec_marks_hidden(),
    {
        match self {
            Attribute::DocDirective { hidden } => hidden,
            _ => false,
        }
    }
}

/// Identity of a trait, as resolved by the front end.
#[derive(Clone, Copy, Debug, PartialEq, Eq, Structural)]
pub struct TraitId {
    /// The crate that declares the trait.
    pub krate: u32,
    /// The trait's index among the definitions of that crate.
    pub index: u32,
}

/// The kinds of item-level declarations.
#[derive(Debug, PartialEq, Eq)]
pub enum ItemKind {
    /// A `const` item.
    Constant,
    /// An `enum`.
    Enum,
    /// A free function.
    Function {
        /// The declared name.
        name: String,
        /// Whether the function is declared directly in the program root.
        declared_at_root: bool,
    },
    /// A module.
    Module,
    /// A `static` item.
    StaticVariable,
    /// A `struct`.
    Struct,
    /// A trait.
    Trait,
    /// An alias of a set of traits.
    TraitAlias,
    /// An alias of a type.
    TypeAlias,
    /// A `union`.
    Union,
    /// An existential type.
    ExistentialType,
    /// A block of foreign declarations.
    ExternBlock,
    /// An import of names declared elsewhere.
    Import,
    /// The header of an implementation block.
    GenericImplementation,
}

/// The kinds of declarations inside a trait.
#[derive(Clone, Copy, Debug, PartialEq, Eq, Structural)]
pub enum TraitMemberKind {
    /// An associated constant.
    Constant,
    /// A method.
    Method,
    /// An associated type.
    AssociatedType,
}

/// The kinds of declarations inside an implementation block.
#[derive(Clone, Copy, Debug, PartialEq, Eq, Structural)]
pub enum ImplMemberKind {
    /// An associated constant.
    Constant,
    /// A method.
    Method,
    /// An associated type.
    AssociatedType,
    /// An existential type.
    ExistentialType,
}

/// What a node of the tree declares.
#[derive(Debug, PartialEq, Eq)]
pub enum DeclKind {
    /// The root of a program.
    Program,
    /// An item.
    Item(ItemKind),
    /// A member of a trait.
    TraitMember(TraitMemberKind),
    /// A member of an implementation block.
    ImplementationMember {
        /// What the member is.
        kind: ImplMemberKind,
        /// The trait that the block implements, if it implements one.
        implemented_trait: Option<TraitId>,
    },
    /// A field of a struct.
    StructField {
        /// Whether the field is identified by position rather than by name.
        positional: bool,
    },
    /// A variant of an enum.
    EnumVariant,
}

/// A declaration together with the declarations nested in it.
#[derive(Debug, PartialEq, Eq)]
pub struct DeclarationNode {
    /// Where the declaration stands in the source.
    pub span: Span,
    /// The attributes written on the declaration, in source order.
    pub attrs: Vec<Attribute>,
    /// What is declared.
    pub kind: DeclKind,
    /// The declarations nested directly in this one, in source order.
    pub children: Vec<DeclarationNode>,
}

/// Whether a description comment is among `attrs`.
pub open spec fn has_doc_comment(attrs: Seq<Attribute>) -> bool {
    exists|i: int| 0 <= i < attrs.len() && #[trigger] attrs[i].spec_is_doc_comment()
}

/// Whether a directive that hides the declaration from the generated
/// documentation is among `attrs`.
pub open spec fn is_hidden_from_docs(attrs: Seq<Attribute>) -> bool {
    exists|i: int| 0 <= i < attrs.len() && #[trigger] attrs[i].spec_marks_hidden()
}

/// Looks for a description comment among `attrs`.
pub fn any_doc_comment(attrs: &[Attribute]) -> (found: bool)
    ensures
        found == has_doc_comment(attrs@),
{
    let mut i: usize = 0;
    while i < attrs.len()
        invariant
            i <= attrs.len(),
            forall|j: int| 0 <= j < i ==> !(#[trigger] attrs@[j]).spec_is_doc_comment(),
        decreases attrs.len() - i,
    {
        if attrs[i].is_doc_comment() {
            return true;
        }
        i += 1;
    }
    false
}

/// Looks for a directive that hides the declaration among `attrs`.
pub fn any_hidden_directive(attrs: &[Attribute]) -> (found: bool)
    ensures
        found == is_hidden_from_docs(attrs@),
{
    let mut i: usize = 0;
    while i < attrs.len()
        invariant
            i <= attrs.len(),
            forall|j: int| 0 <= j < i ==> !(#[trigger] attrs@[j]).spec_marks_hidden(),
        decreases attrs.len() - i,
    {
        if attrs[i].marks_hidden() {
            return true;
        }
        i += 1;
    }
    false
}

/// Number of nodes in the tree below and including `node`.
pub open spec fn node_count(node: DeclarationNode) -> nat
    decreases node,
{
    1 + forest_count(node.children@)
}

/// Number of nodes in a sequence of trees.
pub open spec fn forest_count(nodes: Seq<DeclarationNode>) -> nat
    decreases nodes,
{
    if nodes.len() == 0 {
        0
    } else {
        forest_count(nodes.drop_last()) + node_count(nodes.last())
    }
}

} // verus!
