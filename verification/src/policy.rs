//! Which declarations must be documented, and what a run over a tree reports.

use vstd::prelude::*;
use crate::report::{CoverageReport, Label};
use crate::tree::{
    has_doc_comment, is_hidden_from_docs, Attribute, DeclKind, DeclarationNode, ImplMemberKind,
    ItemKind, Span, TraitId, TraitMemberKind,
};

verus! {

/// The name reserved for a program's entry point.
pub open spec fn entry_point_name() -> Seq<char> {
    "main"@
}

/// Whether `name` is the name reserved for a program's entry point.
pub fn is_entry_point_name(name: &String) -> (reserved: bool)
    ensures
        reserved == (name@ == entry_point_name()),
{
    let entry_point = String::from_str("main");
    *name == entry_point
}

/// Whether `item` is the entry point of the program: a function that bears the
/// reserved name and is declared directly in the program root.
pub open spec fn is_root_entry_point(item: ItemKind) -> bool {
    item matches ItemKind::Function { name, declared_at_root } && declared_at_root && name@
        == entry_point_name()
}

/// The label under which an item is checked, or `None` where it is not checked.
pub open spec fn item_label(item: ItemKind) -> Option<Label> {
    match item {
        ItemKind::Constant => Some(Label::Constant),
        ItemKind::Enum => Some(Label::Enum),
        ItemKind::Function { .. } => if is_root_entry_point(item) {
            None
        } else {
            Some(Label::Function)
        },
        ItemKind::Module => Some(Label::Module),
        ItemKind::StaticVariable => Some(Label::Static),
        ItemKind::Struct => Some(Label::Struct),
        ItemKind::Trait => Some(Label::Trait),
        ItemKind::TraitAlias => Some(Label::TraitAlias),
        ItemKind::TypeAlias => Some(Label::TypeAlias),
        ItemKind::Union => Some(Label::Union),
        ItemKind::ExistentialType => Some(Label::ExistentialType),
        ItemKind::ExternBlock | ItemKind::Import | ItemKind::GenericImplementation => None,
    }
}

/// The label under which a member of a trait is checked.
pub open spec fn trait_member_label(kind: TraitMemberKind) -> Label {
    match kind {
        TraitMemberKind::Constant => Label::AssociatedConstant,
        TraitMemberKind::Method => Label::TraitMethod,
        TraitMemberKind::AssociatedType => Label::AssociatedType,
    }
}

/// The label under which a member of an implementation block is checked, or
/// `None` where the block implements a trait.
pub open spec fn impl_member_label(kind: ImplMemberKind, implemented_trait: Option<TraitId>) -> Option<
    Label,
> {
    if implemented_trait is Some {
        None
    } else {
        Some(
            match kind {
                ImplMemberKind::Constant => Label::AssociatedConstant,
                ImplMemberKind::Method => Label::Method,
                ImplMemberKind::AssociatedType => Label::AssociatedType,
                ImplMemberKind::ExistentialType => Label::ExistentialType,
            },
        )
    }
}

/// The policy table: the label under which a declaration of kind `kind` is
/// checked, or `None` where it is never reported.
pub open spec fn applicable_label(kind: DeclKind) -> Option<Label> {
    match kind {
        DeclKind::Program => Some(Label::Program),
        DeclKind::Item(item) => item_label(item),
        DeclKind::TraitMember(member) => Some(trait_member_label(member)),
        DeclKind::ImplementationMember { kind, implemented_trait } => impl_member_label(
            kind,
            implemented_trait,
        ),
        DeclKind::StructField { positional } => if positional {
            None
        } else {
            Some(Label::StructField)
        },
        DeclKind::EnumVariant => Some(Label::Variant),
    }
}

/// The outcome of the coverage check on one applicable declaration: nothing in
/// a test-harness build, in a hidden scope, on macro-expanded text, or where a
/// description is attached; otherwise a report of `span` under `label`.
pub open spec fn missing_docs_report(
    test_harness: bool,
    hidden: bool,
    attrs: Seq<Attribute>,
    span: Span,
    label: Label,
) -> Option<CoverageReport> {
    if test_harness || hidden || span.from_expansion || has_doc_comment(attrs) {
        None
    } else {
        Some(CoverageReport { span, label })
    }
}

/// What `node` itself contributes, given the hidden state in effect inside its
/// own scope.
pub open spec fn node_report(node: DeclarationNode, hidden: bool, test_harness: bool) -> Option<
    CoverageReport,
> {
    match applicable_label(node.kind) {
        None => None,
        Some(label) => missing_docs_report(test_harness, hidden, node.attrs@, node.span, label),
    }
}

/// Zero or one report as a sequence.
pub open spec fn report_seq(report: Option<CoverageReport>) -> Seq<CoverageReport> {
    match report {
        None => Seq::empty(),
        Some(r) => seq![r],
    }
}

/// The hidden state in effect inside the scope of `node`, entered from a scope
/// whose state is `inherited`.
pub open spec fn scope_hidden(node: DeclarationNode, inherited: bool) -> bool {
    inherited || is_hidden_from_docs(node.attrs@)
}

/// The reports of the tree below and including `node`, in pre-order, when the
/// enclosing scope has hidden state `inherited`.
pub open spec fn subtree_reports(node: DeclarationNode, inherited: bool, test_harness: bool) -> Seq<
    CoverageReport,
>
    decreases node,
{
    let hidden = scope_hidden(node, inherited);
    report_seq(node_report(node, hidden, test_harness)) + forest_reports(
        node.children@,
        hidden,
        test_harness,
    )
}

/// The reports of the trees `nodes`, one after the other, all in a scope with
/// hidden state `hidden`.
pub open spec fn forest_reports(nodes: Seq<DeclarationNode>, hidden: bool, test_harness: bool) -> Seq<
    CoverageReport,
>
    decreases nodes,
{
    if nodes.len() == 0 {
        Seq::empty()
    } else {
        forest_reports(nodes.drop_last(), hidden, test_harness) + subtree_reports(
            nodes.last(),
            hidden,
            test_harness,
        )
    }
}

/// The reports of a whole run on `root`: no scope is open when it starts.
pub open spec fn coverage_reports(root: DeclarationNode, test_harness: bool) -> Seq<CoverageReport> {
    subtree_reports(root, false, test_harness)
}

} // verus!
