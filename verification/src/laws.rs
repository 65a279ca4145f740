//! What holds of every run of the checker.

use vstd::prelude::*;
use crate::policy::{
    coverage_reports, entry_point_name, forest_reports, node_report, scope_hidden,
    subtree_reports,
};
use crate::report::{CoverageReport, Label};
use crate::tree::{has_doc_comment, DeclKind, DeclarationNode, ImplMemberKind, ItemKind, TraitId};

verus! {

/// Every node of the tree below and including `node` carries a description comment.
pub open spec fn fully_documented(node: DeclarationNode) -> bool
    decreases node,
{
    &&& has_doc_comment(node.attrs@)
    &&& forall|i: int|
        0 <= i < node.children@.len() ==> fully_documented(#[trigger] node.children@[i])
}

/// A tree in which every node carries a description comment yields no report.
pub proof fn lemma_documented_tree_is_clean(root: DeclarationNode, test_harness: bool)
    requires
        fully_documented(root),
    ensures
        coverage_reports(root, test_harness) == Seq::<CoverageReport>::empty(),
{
    lemma_documented_subtree_is_clean(root, false, test_harness);
}

/// A tree in which every node carries a description comment yields no report,
/// whatever scope it stands in.
pub proof fn lemma_documented_subtree_is_clean(
    node: DeclarationNode,
    inherited: bool,
    test_harness: bool,
)
    requires
        fully_documented(node),
    ensures
        subtree_reports(node, inherited, test_harness) == Seq::<CoverageReport>::empty(),
    decreases node, 1nat,
{
    lemma_documented_children_are_clean(
        node,
        node.children@.len() as int,
        scope_hidden(node, inherited),
        test_harness,
    );
    assert(node.children@.take(node.children@.len() as int) == node.children@);
}

/// The first `n` children of a documented node yield no report.
proof fn lemma_documented_children_are_clean(
    parent: DeclarationNode,
    n: int,
    hidden: bool,
    test_harness: bool,
)
    requires
        fully_documented(parent),
        0 <= n <= parent.children@.len(),
    ensures
        forest_reports(parent.children@.take(n), hidden, test_harness) == Seq::<
            CoverageReport,
        >::empty(),
    decreases parent, 0nat, n,
{
    let nodes = parent.children@.take(n);
    if n > 0 {
        assert(nodes.drop_last() == parent.children@.take(n - 1));
        assert(nodes.last() == parent.children@[n - 1]);
        lemma_documented_children_are_clean(parent, n - 1, hidden, test_harness);
        lemma_documented_subtree_is_clean(parent.children@[n - 1], hidden, test_harness);
    }
}

/// Two runs on the same tree in the same build mode yield the same reports in
/// the same order.
pub proof fn lemma_check_is_repeatable(
    root: DeclarationNode,
    test_harness: bool,
    first: Seq<CoverageReport>,
    second: Seq<CoverageReport>,
)
    requires
        first == coverage_reports(root, test_harness),
        second == coverage_reports(root, test_harness),
    ensures
        first == second,
{
}

/// A declaration that is hidden from the documentation, by its own attributes
/// or by an enclosing scope, yields no report, and neither does anything
/// below it, whatever attributes the descendants carry.
pub proof fn lemma_hidden_scope_is_silent(
    node: DeclarationNode,
    inherited: bool,
    test_harness: bool,
)
    requires
        scope_hidden(node, inherited),
    ensures
        subtree_reports(node, inherited, test_harness) == Seq::<CoverageReport>::empty(),
    decreases node,
{
    lemma_hidden_forest_is_silent(node.children@, test_harness);
}

/// Trees that stand in a hidden scope yield no report.
pub proof fn lemma_hidden_forest_is_silent(nodes: Seq<DeclarationNode>, test_harness: bool)
    ensures
        forest_reports(nodes, true, test_harness) == Seq::<CoverageReport>::empty(),
    decreases nodes,
{
    if nodes.len() > 0 {
        lemma_hidden_forest_is_silent(nodes.drop_last(), test_harness);
        lemma_hidden_scope_is_silent(nodes.last(), true, test_harness);
    }
}

/// In a test-harness build no tree yields a report.
pub proof fn lemma_test_harness_is_silent(node: DeclarationNode, inherited: bool)
    ensures
        subtree_reports(node, inherited, true) == Seq::<CoverageReport>::empty(),
    decreases node,
{
    lemma_test_harness_forest_is_silent(node.children@, scope_hidden(node, inherited));
}

/// In a test-harness build no sequence of trees yields a report.
pub proof fn lemma_test_harness_forest_is_silent(nodes: Seq<DeclarationNode>, hidden: bool)
    ensures
        forest_reports(nodes, hidden, true) == Seq::<CoverageReport>::empty(),
    decreases nodes,
{
    if nodes.len() > 0 {
        lemma_test_harness_forest_is_silent(nodes.drop_last(), hidden);
        lemma_test_harness_is_silent(nodes.last(), hidden);
    }
}

/// A function that bears the reserved entry-point name and is declared in the
/// program root yields no report of its own, documented or not: the run
/// reports only what is below it.
pub proof fn lemma_root_entry_point_is_exempt(
    node: DeclarationNode,
    name: String,
    inherited: bool,
    test_harness: bool,
)
    requires
        node.kind == DeclKind::Item(ItemKind::Function { name, declared_at_root: true }),
        name@ == entry_point_name(),
    ensures
        node_report(node, scope_hidden(node, inherited), test_harness) is None,
        subtree_reports(node, inherited, test_harness) == forest_reports(
            node.children@,
            scope_hidden(node, inherited),
            test_harness,
        ),
{
}

/// A function that bears the reserved entry-point name but is declared
/// elsewhere than in the program root is reported as a function when it is
/// undocumented, hand-written, not hidden, and no test harness is built. Its
/// report comes before those of what is below it.
pub proof fn lemma_nested_entry_point_is_checked(
    node: DeclarationNode,
    name: String,
    inherited: bool,
)
    requires
        node.kind == DeclKind::Item(ItemKind::Function { name, declared_at_root: false }),
        name@ == entry_point_name(),
        !has_doc_comment(node.attrs@),
        !scope_hidden(node, inherited),
        !node.span.from_expansion,
    ensures
        node_report(node, false, false) == Some(
            CoverageReport { span: node.span, label: Label::Function },
        ),
        subtree_reports(node, inherited, false) == seq![
            CoverageReport { span: node.span, label: Label::Function },
        ] + forest_reports(node.children@, false, false),
{
}

/// A member of a block that implements a trait yields no report of its own,
/// documented or not, hidden or not: the run reports only what is below it.
pub proof fn lemma_trait_implementation_is_exempt(
    node: DeclarationNode,
    kind: ImplMemberKind,
    implemented: TraitId,
    inherited: bool,
    test_harness: bool,
)
    requires
        node.kind == (DeclKind::ImplementationMember {
            kind,
            implemented_trait: Some(implemented),
        }),
    ensures
        node_report(node, scope_hidden(node, inherited), test_harness) is None,
        subtree_reports(node, inherited, test_harness) == forest_reports(
            node.children@,
            scope_hidden(node, inherited),
            test_harness,
        ),
{
}

/// A positional field of a struct yields no report of its own, documented or
/// not: the run reports only what is below it.
pub proof fn lemma_positional_field_is_exempt(
    node: DeclarationNode,
    inherited: bool,
    test_harness: bool,
)
    requires
        node.kind == (DeclKind::StructField { positional: true }),
    ensures
        node_report(node, scope_hidden(node, inherited), test_harness) is None,
        subtree_reports(node, inherited, test_harness) == forest_reports(
            node.children@,
            scope_hidden(node, inherited),
            test_harness,
        ),
{
}

/// A named field of a struct is reported as a struct field when it is
/// undocumented, hand-written, not hidden, and no test harness is built. Its
/// report comes before those of what is below it.
pub proof fn lemma_named_field_is_checked(node: DeclarationNode, inherited: bool)
    requires
        node.kind == (DeclKind::StructField { positional: false }),
        !has_doc_comment(node.attrs@),
        !scope_hidden(node, inherited),
        !node.span.from_expansion,
    ensures
        node_report(node, false, false) == Some(
            CoverageReport { span: node.span, label: Label::StructField },
        ),
        subtree_reports(node, inherited, false) == seq![
            CoverageReport { span: node.span, label: Label::StructField },
        ] + forest_reports(node.children@, false, false),
{
}

} // verus!
