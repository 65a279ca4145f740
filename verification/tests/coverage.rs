use doc_coverage::{
    check, Attribute, CoverageReport, DeclKind, DeclarationNode, ImplMemberKind, ItemKind, Label,
    Span, TraitId, TraitMemberKind,
};

fn span(lo: u32, hi: u32) -> Span {
    Span { lo, hi, from_expansion: false }
}

fn expanded(lo: u32, hi: u32) -> Span {
    Span { lo, hi, from_expansion: true }
}

fn node(
    kind: DeclKind,
    at: Span,
    attrs: Vec<Attribute>,
    children: Vec<DeclarationNode>,
) -> DeclarationNode {
    DeclarationNode { span: at, attrs, kind, children }
}

fn item(
    kind: ItemKind,
    at: Span,
    attrs: Vec<Attribute>,
    children: Vec<DeclarationNode>,
) -> DeclarationNode {
    node(DeclKind::Item(kind), at, attrs, children)
}

fn function(name: &str, declared_at_root: bool) -> ItemKind {
    ItemKind::Function { name: name.to_string(), declared_at_root }
}

fn documented() -> Vec<Attribute> {
    vec![Attribute::DocComment]
}

fn hidden() -> Vec<Attribute> {
    vec![Attribute::DocDirective { hidden: true }]
}

fn report(at: Span, label: Label) -> CoverageReport {
    CoverageReport { span: at, label }
}

/// Module "m" holding struct "S" holding the named field "x".
fn module_struct_field(module_attrs: Vec<Attribute>) -> DeclarationNode {
    let x = node(DeclKind::StructField { positional: false }, span(30, 36), vec![], vec![]);
    let s = item(ItemKind::Struct, span(10, 40), documented(), vec![x]);
    item(ItemKind::Module, span(0, 50), module_attrs, vec![s])
}

#[test]
fn undocumented_module_and_field_are_reported() {
    let tree = module_struct_field(vec![]);
    let reports = check(&tree, false);
    assert_eq!(
        reports,
        vec![report(span(0, 50), Label::Module), report(span(30, 36), Label::StructField)]
    );
    assert_eq!(reports[0].label.text(), "a module");
    assert_eq!(reports[1].label.text(), "a struct field");
}

#[test]
fn hidden_module_silences_its_subtree() {
    let tree = module_struct_field(hidden());
    assert_eq!(check(&tree, false), vec![]);
}

#[test]
fn test_harness_build_reports_nothing() {
    let tree = module_struct_field(vec![]);
    assert_eq!(check(&tree, true), vec![]);

    let lone = item(ItemKind::Enum, span(0, 9), vec![], vec![]);
    assert_eq!(check(&lone, false), vec![report(span(0, 9), Label::Enum)]);
    assert_eq!(check(&lone, true), vec![]);
}

#[test]
fn documented_tree_is_clean() {
    let method = node(
        DeclKind::TraitMember(TraitMemberKind::Method),
        span(20, 30),
        documented(),
        vec![],
    );
    let tr = item(ItemKind::Trait, span(10, 40), documented(), vec![method]);
    let variant = node(DeclKind::EnumVariant, span(50, 55), documented(), vec![]);
    let en = item(ItemKind::Enum, span(45, 60), vec![Attribute::Other, Attribute::DocComment], vec![variant]);
    let root = node(DeclKind::Program, span(0, 100), documented(), vec![tr, en]);
    assert_eq!(check(&root, false), vec![]);
}

#[test]
fn check_twice_gives_the_same_reports() {
    let tree = module_struct_field(vec![]);
    let first = check(&tree, false);
    let second = check(&tree, false);
    assert_eq!(first.len(), 2);
    assert_eq!(first, second);
}

#[test]
fn hidden_scope_ignores_attributes_of_descendants() {
    let field = node(
        DeclKind::StructField { positional: false },
        span(30, 36),
        vec![Attribute::DocDirective { hidden: false }, Attribute::Other],
        vec![],
    );
    let st = item(ItemKind::Struct, span(10, 40), vec![], vec![field]);
    let inner = item(ItemKind::Module, span(5, 45), vec![Attribute::Other], vec![st]);
    let outer = item(
        ItemKind::Module,
        span(0, 50),
        vec![Attribute::Other, Attribute::DocDirective { hidden: true }],
        vec![inner],
    );
    assert_eq!(check(&outer, false), vec![]);
}

#[test]
fn hidden_scope_ends_with_its_declaration() {
    let inside = item(ItemKind::Constant, span(12, 18), vec![], vec![]);
    let closed = item(ItemKind::Module, span(10, 20), hidden(), vec![inside]);
    let after = item(ItemKind::StaticVariable, span(22, 30), vec![], vec![]);
    let root = node(DeclKind::Program, span(0, 40), documented(), vec![closed, after]);
    assert_eq!(check(&root, false), vec![report(span(22, 30), Label::Static)]);
}

#[test]
fn directive_without_hidden_hides_nothing() {
    let m = item(
        ItemKind::Module,
        span(0, 9),
        vec![Attribute::DocDirective { hidden: false }],
        vec![],
    );
    assert_eq!(check(&m, false), vec![report(span(0, 9), Label::Module)]);
}

#[test]
fn entry_point_at_root_is_exempt() {
    let main = item(function("main", true), span(5, 20), vec![], vec![]);
    let root = node(DeclKind::Program, span(0, 40), documented(), vec![main]);
    assert_eq!(check(&root, false), vec![]);
}

#[test]
fn entry_point_name_in_a_module_is_checked() {
    let main = item(function("main", false), span(12, 20), vec![], vec![]);
    let m = item(ItemKind::Module, span(10, 30), documented(), vec![main]);
    let root = node(DeclKind::Program, span(0, 40), documented(), vec![m]);
    let reports = check(&root, false);
    assert_eq!(reports, vec![report(span(12, 20), Label::Function)]);
    assert_eq!(reports[0].label.text(), "a function");
}

#[test]
fn other_function_at_root_is_checked() {
    let run = item(function("run", true), span(5, 20), vec![], vec![]);
    let almost = item(function("main2", true), span(21, 30), vec![], vec![]);
    let empty = item(function("", true), span(31, 35), vec![], vec![]);
    let root = node(DeclKind::Program, span(0, 40), documented(), vec![run, almost, empty]);
    assert_eq!(
        check(&root, false),
        vec![
            report(span(5, 20), Label::Function),
            report(span(21, 30), Label::Function),
            report(span(31, 35), Label::Function),
        ]
    );
}

#[test]
fn documented_function_in_a_module_is_clean() {
    let main = item(function("main", false), span(12, 20), documented(), vec![]);
    assert_eq!(check(&main, false), vec![]);
}

#[test]
fn member_of_trait_implementation_is_exempt() {
    let method = node(
        DeclKind::ImplementationMember {
            kind: ImplMemberKind::Method,
            implemented_trait: Some(TraitId { krate: 0, index: 7 }),
        },
        span(12, 20),
        vec![],
        vec![],
    );
    let block = item(ItemKind::GenericImplementation, span(10, 30), vec![], vec![method]);
    assert_eq!(check(&block, false), vec![]);
}

#[test]
fn member_of_inherent_implementation_is_checked() {
    let member = |kind: ImplMemberKind, lo: u32| {
        node(
            DeclKind::ImplementationMember { kind, implemented_trait: None },
            span(lo, lo + 5),
            vec![],
            vec![],
        )
    };
    let block = item(
        ItemKind::GenericImplementation,
        span(0, 100),
        vec![],
        vec![
            member(ImplMemberKind::Constant, 10),
            member(ImplMemberKind::Method, 20),
            member(ImplMemberKind::AssociatedType, 30),
            member(ImplMemberKind::ExistentialType, 40),
        ],
    );
    assert_eq!(
        check(&block, false),
        vec![
            report(span(10, 15), Label::AssociatedConstant),
            report(span(20, 25), Label::Method),
            report(span(30, 35), Label::AssociatedType),
            report(span(40, 45), Label::ExistentialType),
        ]
    );
}

#[test]
fn positional_field_is_exempt_and_named_field_is_checked() {
    let positional = node(DeclKind::StructField { positional: true }, span(12, 15), vec![], vec![]);
    let named = node(DeclKind::StructField { positional: false }, span(16, 20), vec![], vec![]);
    let st = item(ItemKind::Struct, span(10, 30), documented(), vec![positional, named]);
    let reports = check(&st, false);
    assert_eq!(reports, vec![report(span(16, 20), Label::StructField)]);
    assert_eq!(reports[0].message(), "missing documentation for a struct field");
}

#[test]
fn named_field_from_a_macro_is_exempt() {
    let named = node(DeclKind::StructField { positional: false }, expanded(16, 20), vec![], vec![]);
    let st = item(ItemKind::Struct, expanded(10, 30), vec![], vec![named]);
    assert_eq!(check(&st, false), vec![]);
}

#[test]
fn macro_expansion_exempts_only_the_expanded_declaration() {
    let inner = item(ItemKind::Union, span(12, 18), vec![], vec![]);
    let outer = item(ItemKind::Module, expanded(10, 20), vec![], vec![inner]);
    assert_eq!(check(&outer, false), vec![report(span(12, 18), Label::Union)]);
}

#[test]
fn kinds_without_documentation_pass_and_their_children_are_visited() {
    let inside = item(ItemKind::TypeAlias, span(12, 18), vec![], vec![]);
    let block = item(ItemKind::ExternBlock, span(10, 20), vec![], vec![inside]);
    let import = item(ItemKind::Import, span(22, 28), vec![], vec![]);
    let imp = item(ItemKind::GenericImplementation, span(30, 38), vec![], vec![]);
    let root = node(DeclKind::Program, span(0, 40), documented(), vec![block, import, imp]);
    assert_eq!(check(&root, false), vec![report(span(12, 18), Label::TypeAlias)]);
}

#[test]
fn reports_come_in_pre_order() {
    let v1 = node(DeclKind::EnumVariant, span(12, 14), vec![], vec![]);
    let v2 = node(DeclKind::EnumVariant, span(15, 17), vec![], vec![]);
    let en = item(ItemKind::Enum, span(10, 20), vec![], vec![v1, v2]);
    let assoc = node(
        DeclKind::TraitMember(TraitMemberKind::AssociatedType),
        span(32, 34),
        vec![],
        vec![],
    );
    let konst = node(
        DeclKind::TraitMember(TraitMemberKind::Constant),
        span(35, 37),
        vec![],
        vec![],
    );
    let method = node(
        DeclKind::TraitMember(TraitMemberKind::Method),
        span(38, 39),
        vec![],
        vec![],
    );
    let tr = item(ItemKind::Trait, span(30, 40), vec![], vec![assoc, konst, method]);
    let alias = item(ItemKind::TraitAlias, span(42, 48), vec![], vec![]);
    let root = node(DeclKind::Program, span(0, 50), vec![], vec![en, tr, alias]);
    assert_eq!(
        check(&root, false),
        vec![
            report(span(0, 50), Label::Program),
            report(span(10, 20), Label::Enum),
            report(span(12, 14), Label::Variant),
            report(span(15, 17), Label::Variant),
            report(span(30, 40), Label::Trait),
            report(span(32, 34), Label::AssociatedType),
            report(span(35, 37), Label::AssociatedConstant),
            report(span(38, 39), Label::TraitMethod),
            report(span(42, 48), Label::TraitAlias),
        ]
    );
}

#[test]
fn every_item_kind_has_its_label() {
    let cases = vec![
        (ItemKind::Constant, Some(Label::Constant)),
        (ItemKind::Enum, Some(Label::Enum)),
        (function("helper", false), Some(Label::Function)),
        (ItemKind::Module, Some(Label::Module)),
        (ItemKind::StaticVariable, Some(Label::Static)),
        (ItemKind::Struct, Some(Label::Struct)),
        (ItemKind::Trait, Some(Label::Trait)),
        (ItemKind::TraitAlias, Some(Label::TraitAlias)),
        (ItemKind::TypeAlias, Some(Label::TypeAlias)),
        (ItemKind::Union, Some(Label::Union)),
        (ItemKind::ExistentialType, Some(Label::ExistentialType)),
        (ItemKind::ExternBlock, None),
        (ItemKind::Import, None),
        (ItemKind::GenericImplementation, None),
    ];
    for (kind, label) in cases {
        let tree = item(kind, span(3, 8), vec![], vec![]);
        let expected: Vec<CoverageReport> = label.map(|l| report(span(3, 8), l)).into_iter().collect();
        assert_eq!(check(&tree, false), expected);
    }
}

#[test]
fn every_label_has_its_words() {
    let cases = vec![
        (Label::Program, "the program"),
        (Label::Constant, "a constant"),
        (Label::Static, "a static"),
        (Label::Enum, "an enum"),
        (Label::Struct, "a struct"),
        (Label::Union, "a union"),
        (Label::ExistentialType, "an existential type"),
        (Label::Function, "a function"),
        (Label::Module, "a module"),
        (Label::Trait, "a trait"),
        (Label::TraitAlias, "a trait alias"),
        (Label::TypeAlias, "a type alias"),
        (Label::AssociatedConstant, "an associated constant"),
        (Label::TraitMethod, "a trait method"),
        (Label::AssociatedType, "an associated type"),
        (Label::Method, "a method"),
        (Label::StructField, "a struct field"),
        (Label::Variant, "a variant"),
    ];
    for (label, words) in cases {
        assert_eq!(label.text(), words);
        let message = report(span(0, 1), label).message();
        assert_eq!(message, format!("missing documentation for {}", words));
    }
}

#[test]
fn message_of_a_program_report() {
    let root = node(DeclKind::Program, span(0, 10), vec![Attribute::Other], vec![]);
    let reports = check(&root, false);
    assert_eq!(reports, vec![report(span(0, 10), Label::Program)]);
    assert_eq!(reports[0].message(), "missing documentation for the program");
}

#[test]
fn hidden_declaration_is_itself_exempt() {
    let konst = item(ItemKind::Constant, span(0, 9), hidden(), vec![]);
    assert_eq!(check(&konst, false), vec![]);
}

#[test]
fn doc_comment_is_found_among_other_attributes() {
    let attrs = vec![
        Attribute::Other,
        Attribute::DocDirective { hidden: false },
        Attribute::DocComment,
        Attribute::Other,
    ];
    let st = item(ItemKind::Struct, span(0, 9), attrs, vec![]);
    assert_eq!(check(&st, false), vec![]);
}
