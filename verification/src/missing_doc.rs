//! The visitor that checks each declaration as a traversal reaches it.

use vstd::prelude::*;
use crate::policy::{
    coverage_reports, forest_reports, is_entry_point_name, missing_docs_report, node_report,
    scope_hidden, subtree_reports,
};
use crate::report::{CoverageReport, Label};
use crate::suppression::SuppressionStack;
use crate::tree::{
    any_doc_comment, forest_count, is_hidden_from_docs, node_count, Attribute, DeclKind,
    DeclarationNode, ImplMemberKind, ItemKind, Span, TraitMemberKind,
};

verus! {

/// Warns of any documentable declaration, public or private, that has no
/// description attached.
pub struct MissingDoc {
    /// Whether the documentation is hidden at each level that carries attributes.
    doc_hidden_stack: SuppressionStack,
}

impl View for MissingDoc {
    type V = Seq<bool>;

    closed spec fn view(&self) -> Seq<bool> {
        self.doc_hidden_stack@
    }
}

impl MissingDoc {
    /// How many scopes this visitor has entered.
    pub closed spec fn enters(&self) -> nat {
        self.doc_hidden_stack.enters()
    }

    /// How many scopes this visitor has left.
    pub closed spec fn exits(&self) -> nat {
        self.doc_hidden_stack.exits()
    }

    /// The stack is never empty, its bottom entry is `false`, and it holds one
    /// entry for each scope that was entered and not yet left.
    pub open spec fn wf(&self) -> bool {
        &&& self@.len() >= 1
        &&& !self@[0]
        &&& self@.len() == 1 + self.enters() - self.exits()
    }

    /// The hidden state in effect.
    pub open spec fn spec_doc_hidden(&self) -> bool {
        self@.last()
    }

    /// A visitor that has not entered any scope.
    pub fn new() -> (visitor: Self)
        ensures
            visitor.wf(),
            visitor@ == seq![false],
            visitor.enters() == 0,
            visitor.exits() == 0,
    {
        Self { doc_hidden_stack: SuppressionStack::new() }
    }

    /// Number of entries on the stack, the bottom one included.
    pub fn depth(&self) -> (n: usize)
        ensures
            n == self@.len(),
    {
        self.doc_hidden_stack.depth()
    }

    /// Whether documentation is hidden in the scope the traversal is in.
    #[verifier::when_used_as_spec(spec_doc_hidden)]
    pub fn doc_hidden(&self) -> (hidden: bool)
        requires
            self.wf(),
        ensures
            hidden == self.spec_doc_hidden(),
    {
        self.doc_hidden_stack.current()
    }

    /// The coverage check proper, for a declaration that the policy table
    /// subjects to it under the label `desc`.
    pub fn check_missing_docs_attrs(
        &self,
        test_harness: bool,
        attrs: &[Attribute],
        sp: Span,
        desc: Label,
    ) -> (report: Option<CoverageReport>)
        requires
            self.wf(),
        ensures
            report == missing_docs_report(test_harness, self.spec_doc_hidden(), attrs@, sp, desc),
    {
        // A test harness is built: documentation is of no concern.
        if test_harness {
            return None;
        }
        if self.doc_hidden() {
            return None;
        }
        if sp.from_expansion {
            return None;
        }
        if any_doc_comment(attrs) {
            None
        } else {
            Some(CoverageReport { span: sp, label: desc })
        }
    }

    /// Enters the scope of a declaration that carries `attrs`.
    pub fn enter_lint_attrs(&mut self, attrs: &[Attribute])
        requires
            old(self).wf(),
        ensures
            final(self).wf(),
            final(self)@ == old(self)@.push(
                old(self).spec_doc_hidden() || is_hidden_from_docs(attrs@),
            ),
            final(self).enters() == old(self).enters() + 1,
            final(self).exits() == old(self).exits(),
    {
        self.doc_hidden_stack.enter(attrs);
    }

    /// Leaves the scope entered last. A scope must be open.
    pub fn exit_lint_attrs(&mut self)
        requires
            old(self).wf(),
            old(self)@.len() > 1,
        ensures
            final(self).wf(),
            final(self)@ == old(self)@.drop_last(),
            final(self).enters() == old(self).enters(),
            final(self).exits() == old(self).exits() + 1,
    {
        self.doc_hidden_stack.exit();
    }

    /// Checks the root of a program. Any other node passes unchecked.
    pub fn check_crate(&self, test_harness: bool, krate: &DeclarationNode) -> (report: Option<
        CoverageReport,
    >)
        requires
            self.wf(),
        ensures
            report == if krate.kind is Program {
                node_report(*krate, self.spec_doc_hidden(), test_harness)
            } else {
                None
            },
    {
        match &krate.kind {
            DeclKind::Program => self.check_missing_docs_attrs(
                test_harness,
                krate.attrs.as_slice(),
                krate.span,
                Label::Program,
            ),
            _ => None,
        }
    }

    /// Checks an item. Any other node passes unchecked.
    pub fn check_item(&self, test_harness: bool, it: &DeclarationNode) -> (report: Option<
        CoverageReport,
    >)
        requires
            self.wf(),
        ensures
            report == if it.kind is Item {
                node_report(*it, self.spec_doc_hidden(), test_harness)
            } else {
                None
            },
    {
        let desc = match &it.kind {
            DeclKind::Item(item) => match item {
                ItemKind::Constant => Label::Constant,
                ItemKind::Enum => Label::Enum,
                ItemKind::Function { name, declared_at_root } => {
                    // The entry point of the program needs no description.
                    if is_entry_point_name(name) && *declared_at_root {
                        return None;
                    }
                    Label::Function
                },
                ItemKind::Module => Label::Module,
                ItemKind::StaticVariable => Label::Static,
                ItemKind::Struct => Label::Struct,
                ItemKind::Trait => Label::Trait,
                ItemKind::TraitAlias => Label::TraitAlias,
                ItemKind::TypeAlias => Label::TypeAlias,
                ItemKind::Union => Label::Union,
                ItemKind::ExistentialType => Label::ExistentialType,
                ItemKind::ExternBlock | ItemKind::Import | ItemKind::GenericImplementation => {
                    return None;
                },
            },
            _ => {
                return None;
            },
        };
        self.check_missing_docs_attrs(test_harness, it.attrs.as_slice(), it.span, desc)
    }

    /// Checks a member of a trait. Any other node passes unchecked.
    pub fn check_trait_item(&self, test_harness: bool, trait_item: &DeclarationNode) -> (report:
        Option<CoverageReport>)
        requires
            self.wf(),
        ensures
            report == if trait_item.kind is TraitMember {
                node_report(*trait_item, self.spec_doc_hidden(), test_harness)
            } else {
                None
            },
    {
        let desc = match &trait_item.kind {
            DeclKind::TraitMember(member) => match member {
                TraitMemberKind::Constant => Label::AssociatedConstant,
                TraitMemberKind::Method => Label::TraitMethod,
                TraitMemberKind::AssociatedType => Label::AssociatedType,
            },
            _ => {
                return None;
            },
        };
        self.check_missing_docs_attrs(
            test_harness,
            trait_item.attrs.as_slice(),
            trait_item.span,
            desc,
        )
    }

    /// Checks a member of an implementation block, unless the block implements
    /// a trait. Any other node passes unchecked.
    pub fn check_impl_item(&self, test_harness: bool, impl_item: &DeclarationNode) -> (report:
        Option<CoverageReport>)
        requires
            self.wf(),
        ensures
            report == if impl_item.kind is ImplementationMember {
                node_report(*impl_item, self.spec_doc_hidden(), test_harness)
            } else {
                None
            },
    {
        let desc = match &impl_item.kind {
            DeclKind::ImplementationMember { kind, implemented_trait } => {
                // What implements a trait is described where the trait is.
                if implemented_trait.is_some() {
                    return None;
                }
                match kind {
                    ImplMemberKind::Constant => Label::AssociatedConstant,
                    ImplMemberKind::Method => Label::Method,
                    ImplMemberKind::AssociatedType => Label::AssociatedType,
                    ImplMemberKind::ExistentialType => Label::ExistentialType,
                }
            },
            _ => {
                return None;
            },
        };
        self.check_missing_docs_attrs(
            test_harness,
            impl_item.attrs.as_slice(),
            impl_item.span,
            desc,
        )
    }

    /// Checks a field of a struct, unless it is positional. Any other node
    /// passes unchecked.
    pub fn check_struct_field(&self, test_harness: bool, sf: &DeclarationNode) -> (report: Option<
        CoverageReport,
    >)
        requires
            self.wf(),
        ensures
            report == if sf.kind is StructField {
                node_report(*sf, self.spec_doc_hidden(), test_harness)
            } else {
                None
            },
    {
        match &sf.kind {
            DeclKind::StructField { positional } => {
                if !*positional {
                    self.check_missing_docs_attrs(
                        test_harness,
                        sf.attrs.as_slice(),
                        sf.span,
                        Label::StructField,
                    )
                } else {
                    None
                }
            },
            _ => None,
        }
    }

    /// Checks a variant of an enum. Any other node passes unchecked.
    pub fn check_variant(&self, test_harness: bool, v: &DeclarationNode) -> (report: Option<
        CoverageReport,
    >)
        requires
            self.wf(),
        ensures
            report == if v.kind is EnumVariant {
                node_report(*v, self.spec_doc_hidden(), test_harness)
            } else {
                None
            },
    {
        match &v.kind {
            DeclKind::EnumVariant => self.check_missing_docs_attrs(
                test_harness,
                v.attrs.as_slice(),
                v.span,
                Label::Variant,
            ),
            _ => None,
        }
    }

    /// Visits `node` and everything below it: enters its scope, checks it,
    /// visits its children in source order, and leaves the scope again. The
    /// reports are added to `reports` in the order in which they are found.
    pub fn walk(
        &mut self,
        test_harness: bool,
        node: &DeclarationNode,
        reports: &mut Vec<CoverageReport>,
    )
        requires
            old(self).wf(),
        ensures
            final(self).wf(),
            final(self)@ == old(self)@,
            final(self).enters() == old(self).enters() + node_count(*node),
            final(self).exits() == old(self).exits() + node_count(*node),
            final(reports)@ == old(reports)@ + subtree_reports(
                *node,
                old(self).spec_doc_hidden(),
                test_harness,
            ),
        decreases node,
    {
        let ghost outer = self@;
        let ghost hidden = scope_hidden(*node, self.spec_doc_hidden());
        self.enter_lint_attrs(node.attrs.as_slice());
        let found = match &node.kind {
            DeclKind::Program => self.check_crate(test_harness, node),
            DeclKind::Item(_) => self.check_item(test_harness, node),
            DeclKind::TraitMember(_) => self.check_trait_item(test_harness, node),
            DeclKind::ImplementationMember { .. } => self.check_impl_item(test_harness, node),
            DeclKind::StructField { .. } => self.check_struct_field(test_harness, node),
            DeclKind::EnumVariant => self.check_variant(test_harness, node),
        };
        if let Some(report) = found {
            reports.push(report);
        }
        let ghost own = reports@;
        let mut i: usize = 0;
        while i < node.children.len()
            invariant
                i <= node.children.len(),
                self.wf(),
                self@ == outer.push(hidden),
                self.enters() == old(self).enters() + 1 + forest_count(
                    node.children@.take(i as int),
                ),
                self.exits() == old(self).exits() + forest_count(node.children@.take(i as int)),
                reports@ == own + forest_reports(
                    node.children@.take(i as int),
                    hidden,
                    test_harness,
                ),
            decreases node.children.len() - i,
        {
            proof {
                lemma_forest_step(node.children@, i as int, hidden, test_harness);
            }
            self.walk(test_harness, &node.children[i], reports);
            i += 1;
        }
        assert(node.children@.take(i as int) == node.children@);
        self.exit_lint_attrs();
    }
}

impl Default for MissingDoc {
    fn default() -> (visitor: Self)
        ensures
            visitor.wf(),
            visitor@ == seq![false],
            visitor.enters() == 0,
            visitor.exits() == 0,
    {
        Self::new()
    }
}

/// Taking one more tree of a forest adds that tree's count and reports at the end.
proof fn lemma_forest_step(nodes: Seq<DeclarationNode>, i: int, hidden: bool, test_harness: bool)
    requires
        0 <= i < nodes.len(),
    ensures
        forest_count(nodes.take(i + 1)) == forest_count(nodes.take(i)) + node_count(nodes[i]),
        forest_reports(nodes.take(i + 1), hidden, test_harness) == forest_reports(
            nodes.take(i),
            hidden,
            test_harness,
        ) + subtree_reports(nodes[i], hidden, test_harness),
{
    assert(nodes.take(i + 1).drop_last() == nodes.take(i));
    assert(nodes.take(i + 1).last() == nodes[i]);
}

/// Checks the tree under `root` in one pass and returns a report for each
/// declaration that lacks its description, in pre-order. Each call works on a
/// visitor of its own, so no call leaves anything behind for the next.
pub fn check(root: &DeclarationNode, test_harness: bool) -> (reports: Vec<CoverageReport>)
    ensures
        reports@ == coverage_reports(*root, test_harness),
{
    let mut visitor = MissingDoc::new();
    let mut reports: Vec<CoverageReport> = Vec::new();
    visitor.walk(test_harness, root, &mut reports);
    reports
}

} // verus!
