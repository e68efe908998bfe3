//! What holds of the nodes of a file: which module a node names, when it counts as one of types
//! only, where the module is found, and which nodes are judged at all.
use crate::check::{checked_reference, loaded_from, resolution, LintContext, LoadedModule};
use crate::config::NoExtraneousDependenciesConfig;
use crate::json::JsonView;
use crate::module::{core_module, internal, internal_pattern, regex_matches, settings_view};
use crate::package::DependencyFieldsView;
use crate::path::FilePathView;
use crate::syntax::{
    node_reference, type_only_export, type_only_import, ExportAllDeclaration,
    ExportFromDeclaration, Expression, ImportDeclaration, ImportDeclarationSpecifier,
    ImportEqualsDeclaration, ImportOrExportKind, ModuleReference, Node, StringLiteral,
    TemplateLiteral,
};
use crate::text::texts;
use crate::verdict::judged;
use crate::world::{node_report, World};
use vstd::prelude::*;

verus! {

// Types only.

/// Whether a name that an `import` declaration brings in is marked as a type.
pub open spec fn is_type_name(name: ImportDeclarationSpecifier) -> bool {
    match name {
        ImportDeclarationSpecifier::ImportSpecifier(ImportOrExportKind::Type) => true,
        ImportDeclarationSpecifier::ImportSpecifier(ImportOrExportKind::Value) => false,
        ImportDeclarationSpecifier::ImportDefaultSpecifier => false,
        ImportDeclarationSpecifier::ImportNamespaceSpecifier => false,
    }
}

/// An `import type` is of types only, whatever its names. Any other import is where it has names
/// and no name that is not a type: one value, default or namespace name, at any place, is enough
/// for it to be of values.
pub proof fn import_of_types_has_no_other_names(import: ImportDeclaration)
    ensures
        import.import_kind == ImportOrExportKind::Type ==> type_only_import(import),
        import.import_kind == ImportOrExportKind::Value && import.specifiers is None
            ==> !type_only_import(import),
        import.import_kind == ImportOrExportKind::Value && import.specifiers is Some
            && import.specifiers->0@.len() == 0 ==> !type_only_import(import),
        import.import_kind == ImportOrExportKind::Value && import.specifiers is Some ==> forall|
            i: int,
        |
            0 <= i < import.specifiers->0@.len() && !is_type_name(
                #[trigger] import.specifiers->0@[i],
            ) ==> !type_only_import(import),
        import.import_kind == ImportOrExportKind::Value && import.specifiers is Some
            && import.specifiers->0@.len() > 0 && (forall|i: int|
            0 <= i < import.specifiers->0@.len() ==> is_type_name(
                #[trigger] import.specifiers->0@[i],
            )) ==> type_only_import(import),
{
    if import.specifiers is Some {
        let names = import.specifiers->0@;
        assert forall|i: int| 0 <= i < names.len() implies is_type_name(#[trigger] names[i]) == (
        names[i] == ImportDeclarationSpecifier::ImportSpecifier(ImportOrExportKind::Type)) by {
            match names[i] {
                ImportDeclarationSpecifier::ImportSpecifier(kind) => {
                    if kind != ImportOrExportKind::Type {
                        assert(kind == ImportOrExportKind::Value);
                    }
                },
                _ => {},
            }
        }
    }
}

/// The order of the names of an import does not matter, nor how often a name of one sort occurs.
pub proof fn order_of_imported_names_does_not_matter(
    left: ImportDeclaration,
    right: ImportDeclaration,
)
    requires
        left.import_kind == right.import_kind,
        left.specifiers is Some,
        right.specifiers is Some,
        left.specifiers->0@.to_set() == right.specifiers->0@.to_set(),
    ensures
        type_only_import(left) == type_only_import(right),
{
    lemma_same_import_names(left, right);
    lemma_same_import_names(right, left);
}

proof fn lemma_same_import_names(left: ImportDeclaration, right: ImportDeclaration)
    requires
        left.import_kind == right.import_kind,
        left.specifiers is Some,
        right.specifiers is Some,
        left.specifiers->0@.to_set() == right.specifiers->0@.to_set(),
    ensures
        type_only_import(left) ==> type_only_import(right),
{
    let ours = left.specifiers->0@;
    let theirs = right.specifiers->0@;
    if type_only_import(left) && left.import_kind != ImportOrExportKind::Type {
        assert(ours.to_set().contains(ours[0]));
        assert(theirs.to_set().contains(ours[0]));
        assert forall|i: int| 0 <= i < theirs.len() implies #[trigger] theirs[i]
            == ImportDeclarationSpecifier::ImportSpecifier(ImportOrExportKind::Type) by {
            assert(theirs.to_set().contains(theirs[i]));
            assert(ours.to_set().contains(theirs[i]));
        }
    }
}

/// An import whose names are those of two others, each with names, is of types only exactly
/// where both of them are.
pub proof fn import_of_types_splits_by_its_names(
    left: ImportDeclaration,
    right: ImportDeclaration,
    both: ImportDeclaration,
)
    requires
        left.import_kind == both.import_kind,
        right.import_kind == both.import_kind,
        left.specifiers is Some,
        right.specifiers is Some,
        both.specifiers is Some,
        left.specifiers->0@.len() > 0,
        right.specifiers->0@.len() > 0,
        both.specifiers->0@ == left.specifiers->0@ + right.specifiers->0@,
    ensures
        type_only_import(both) == (type_only_import(left) && type_only_import(right)),
{
    let first = left.specifiers->0@;
    let second = right.specifiers->0@;
    let all = both.specifiers->0@;
    assert(forall|i: int| 0 <= i < first.len() ==> all[i] == first[i]);
    assert forall|i: int| 0 <= i < second.len() implies second[i] == all[first.len() + i] by {}
}

/// An `export type` is of types only. Any other export is where it has names and no name that is
/// a value, at any place.
pub proof fn export_of_types_has_no_other_names(export: ExportFromDeclaration)
    ensures
        export.export_kind == ImportOrExportKind::Type ==> type_only_export(export),
        export.export_kind == ImportOrExportKind::Value && export.specifiers@.len() == 0
            ==> !type_only_export(export),
        export.export_kind == ImportOrExportKind::Value ==> forall|i: int|
            0 <= i < export.specifiers@.len() && #[trigger] export.specifiers@[i]
                == ImportOrExportKind::Value ==> !type_only_export(export),
        export.export_kind == ImportOrExportKind::Value && export.specifiers@.len() > 0 && (forall|
            i: int,
        |
            0 <= i < export.specifiers@.len() ==> #[trigger] export.specifiers@[i]
                == ImportOrExportKind::Type) ==> type_only_export(export),
{
}

/// The order of the names of an export does not matter.
pub proof fn order_of_exported_names_does_not_matter(
    left: ExportFromDeclaration,
    right: ExportFromDeclaration,
)
    requires
        left.export_kind == right.export_kind,
        left.specifiers@.to_set() == right.specifiers@.to_set(),
    ensures
        type_only_export(left) == type_only_export(right),
{
    lemma_same_export_names(left, right);
    lemma_same_export_names(right, left);
}

proof fn lemma_same_export_names(left: ExportFromDeclaration, right: ExportFromDeclaration)
    requires
        left.export_kind == right.export_kind,
        left.specifiers@.to_set() == right.specifiers@.to_set(),
    ensures
        type_only_export(left) ==> type_only_export(right),
{
    let ours = left.specifiers@;
    let theirs = right.specifiers@;
    if type_only_export(left) && left.export_kind != ImportOrExportKind::Type {
        assert(ours.to_set().contains(ours[0]));
        assert(theirs.to_set().contains(ours[0]));
        assert forall|i: int| 0 <= i < theirs.len() implies #[trigger] theirs[i]
            == ImportOrExportKind::Type by {
            assert(theirs.to_set().contains(theirs[i]));
            assert(ours.to_set().contains(theirs[i]));
        }
    }
}

// The module that a node names.

/// Whatever the form, the module is the one that the literal spells, and the place is that of the
/// literal: imports, exports, `import()`, `require()` and import-equals agree on it.
pub proof fn every_form_names_what_its_literal_spells(
    literal: StringLiteral,
    import: ImportDeclaration,
    export: ExportFromDeclaration,
    export_all: ExportAllDeclaration,
    import_equals: ImportEqualsDeclaration,
)
    requires
        import.source == literal,
        export.source == literal,
        export_all.source == literal,
        import_equals.module_reference == ModuleReference::ExternalModuleReference(literal),
    ensures
        forall|node: Node|
            {
                ||| node == Node::ImportDeclaration(import)
                ||| node == Node::ExportFromDeclaration(export)
                ||| node == Node::ExportAllDeclaration(export_all)
                ||| node == Node::ImportExpression(Expression::StringLiteral(literal))
                ||| node == Node::CallExpression(Some(literal))
                ||| node == Node::ImportEqualsDeclaration(import_equals)
            } ==> {
                &&& #[trigger] node_reference(node) is Some
                &&& node_reference(node)->0.source == literal.value@
                &&& node_reference(node)->0.span == literal.span
            },
{
}

/// Only declarations can be of types only: imports and exports by their kind and names,
/// `export *` and import-equals by their kind; `import()` and `require()` never are.
pub proof fn only_declarations_are_of_types(
    literal: StringLiteral,
    template: TemplateLiteral,
    import: ImportDeclaration,
    export: ExportFromDeclaration,
    export_all: ExportAllDeclaration,
    import_equals: ImportEqualsDeclaration,
)
    requires
        import_equals.module_reference is ExternalModuleReference,
        template.no_substitution,
        template.single_quasi is Some,
    ensures
        node_reference(Node::ImportDeclaration(import))->0.is_type == type_only_import(import),
        node_reference(Node::ExportFromDeclaration(export))->0.is_type == type_only_export(export),
        node_reference(Node::ExportAllDeclaration(export_all))->0.is_type == (
        export_all.export_kind == ImportOrExportKind::Type),
        node_reference(Node::ImportEqualsDeclaration(import_equals))->0.is_type == (
        import_equals.import_kind == ImportOrExportKind::Type),
        !node_reference(Node::ImportExpression(Expression::StringLiteral(literal)))->0.is_type,
        !node_reference(Node::ImportExpression(Expression::TemplateLiteral(template)))->0.is_type,
        !node_reference(Node::CallExpression(Some(literal)))->0.is_type,
{
}

/// A template names a module exactly where it has no substitutions and a single quasi, which then
/// is the module; the place is that of the template.
pub proof fn template_without_substitutions_names_its_quasi(template: TemplateLiteral)
    ensures
        ({
            let node = Node::ImportExpression(Expression::TemplateLiteral(template));
            &&& node_reference(node) is Some == (template.no_substitution
                && template.single_quasi is Some)
            &&& node_reference(node) is Some ==> node_reference(node)->0.source
                == template.single_quasi->0@ && node_reference(node)->0.span == template.span
        }),
{
}

/// What is not a fixed text names no module.
pub proof fn what_is_not_fixed_names_no_module(import_equals: ImportEqualsDeclaration)
    ensures
        node_reference(Node::Other) is None,
        node_reference(Node::CallExpression(None)) is None,
        node_reference(Node::ImportExpression(Expression::Other)) is None,
        import_equals.module_reference is Other ==> node_reference(
            Node::ImportEqualsDeclaration(import_equals),
        ) is None,
{
}

/// A module is passed over before anything is asked exactly where it is used for its types only
/// and the options do not include types, or where it is a core module.
pub proof fn only_types_and_core_modules_are_passed_over(
    config: NoExtraneousDependenciesConfig,
    settings: Option<JsonView>,
    node: Node,
)
    requires
        node_reference(node) is Some,
    ensures
        checked_reference(config, settings, node) is None == (core_module(
            settings,
            node_reference(node)->0.source,
        ) || (node_reference(node)->0.is_type && !config.include_types)),
        checked_reference(config, settings, node) is Some ==> checked_reference(
            config,
            settings,
            node,
        ) == node_reference(node),
{
}

// Where a module is found.

/// The first loaded module that has the specifier gives the file; whether others follow does not
/// matter. Where none has it, none is found.
pub proof fn first_loaded_module_counts(
    modules: Seq<LoadedModule>,
    source: Seq<char>,
    index: int,
)
    ensures
        0 <= index < modules.len() && modules[index].specifier@ == source && (forall|i: int|
            0 <= i < index ==> (#[trigger] modules[i]).specifier@ != source) ==> loaded_from(
            modules,
            source,
            0,
        ) == Some(modules[index].path@),
        (forall|i: int|
            0 <= i < modules.len() ==> (#[trigger] modules[i]).specifier@ != source)
            ==> loaded_from(modules, source, 0) is None,
{
    if 0 <= index < modules.len() && modules[index].specifier@ == source && (forall|i: int|
        0 <= i < index ==> (#[trigger] modules[i]).specifier@ != source) {
        lemma_loaded_skips(modules, source, 0, index);
    }
    if forall|i: int| 0 <= i < modules.len() ==> (#[trigger] modules[i]).specifier@ != source {
        lemma_loaded_skips(modules, source, 0, modules.len() as int);
    }
}

proof fn lemma_loaded_skips(modules: Seq<LoadedModule>, source: Seq<char>, from: int, to: int)
    requires
        0 <= from <= to <= modules.len(),
        forall|i: int| from <= i < to ==> (#[trigger] modules[i]).specifier@ != source,
    ensures
        loaded_from(modules, source, from) == loaded_from(modules, source, to),
    decreases to - from,
{
    if from < to {
        assert(modules[from].specifier@ != source);
        lemma_loaded_skips(modules, source, from + 1, to);
    }
}

/// A loaded module needs no resolver, and its answer does not matter; any other module is found
/// where the resolver says, once it has.
pub proof fn loaded_module_needs_no_resolver(
    modules: Seq<LoadedModule>,
    source: Seq<char>,
    answer: Option<Option<FilePathView>>,
)
    ensures
        (exists|i: int| 0 <= i < modules.len() && (#[trigger] modules[i]).specifier@ == source)
            ==> {
            &&& resolution(modules, source, answer) == resolution(modules, source, None)
            &&& resolution(modules, source, answer) is Some
            &&& resolution(modules, source, answer)->0 == loaded_from(modules, source, 0)
        },
        (forall|i: int|
            0 <= i < modules.len() ==> (#[trigger] modules[i]).specifier@ != source)
            ==> resolution(modules, source, answer) == answer,
{
    if exists|i: int| 0 <= i < modules.len() && (#[trigger] modules[i]).specifier@ == source {
        lemma_loaded_is_found(modules, source, 0);
    }
    first_loaded_module_counts(modules, source, 0);
}

proof fn lemma_loaded_is_found(modules: Seq<LoadedModule>, source: Seq<char>, from: int)
    requires
        0 <= from,
        exists|i: int| from <= i < modules.len() && (#[trigger] modules[i]).specifier@ == source,
    ensures
        loaded_from(modules, source, from) is Some,
    decreases modules.len() - from,
{
    let i = choose|i: int|
        from <= i < modules.len() && (#[trigger] modules[i]).specifier@ == source;
    if modules[from].specifier@ != source {
        assert(from + 1 <= i && modules[i].specifier@ == source);
        lemma_loaded_is_found(modules, source, from + 1);
    }
}

// Which modules belong to the project.

/// A module belongs to the project exactly where its specifier begins with `.` or `/`, where it
/// resolves to a file with no `node_modules` above it, or where the expression of the settings
/// matches it.
pub proof fn internal_modules(
    source: Seq<char>,
    resolved: Option<FilePathView>,
    pattern: Option<Seq<char>>,
)
    ensures
        source.len() > 0 && (source[0] == '.' || source[0] == '/') ==> internal(
            source,
            resolved,
            pattern,
        ),
        resolved is Some && (forall|i: int|
            0 <= i < resolved->0.segments.len() ==> #[trigger] resolved->0.segments[i]
                != "node_modules"@) ==> internal(source, resolved, pattern),
        pattern is Some && regex_matches(pattern->0, source) == Some(true) ==> internal(
            source,
            resolved,
            pattern,
        ),
        !(source.len() > 0 && (source[0] == '.' || source[0] == '/')) && (resolved is None || (
        exists|i: int|
            0 <= i < resolved->0.segments.len() && #[trigger] resolved->0.segments[i]
                == "node_modules"@)) && (pattern is None || regex_matches(pattern->0, source)
            != Some(true)) ==> !internal(source, resolved, pattern),
{
    reveal_strlit(".");
    reveal_strlit("/");
    lemma_begins_with(source, "."@, '.');
    lemma_begins_with(source, "/"@, '/');
}

proof fn lemma_begins_with(text: Seq<char>, start: Seq<char>, character: char)
    requires
        start.len() == 1,
        start[0] == character,
    ensures
        start.is_prefix_of(text) == (text.len() > 0 && text[0] == character),
{
    if text.len() > 0 {
        let first = text.subrange(0, 1);
        assert(first[0] == text[0]);
        if text[0] == character {
            assert(start =~= first);
        }
        if start.is_prefix_of(text) {
            assert(start[0] == first[0]);
        }
    }
}

/// The expression for internal modules is the string that the settings hold under
/// `import-x/internal-regex`, and there is none where they hold no string there.
pub proof fn internal_expression_is_a_string_of_the_settings(settings: JsonView, text: Seq<char>)
    ensures
        internal_pattern(None) is None,
        internal_pattern(Some(settings)) == Some(text) <==> settings.field(
            "import-x/internal-regex"@,
        ) == Some(JsonView::Text(text)),
{
}

/// A module that the settings count as internal is not reported unless the options include
/// internal modules.
pub proof fn module_of_the_internal_expression_is_not_reported(
    config: NoExtraneousDependenciesConfig,
    context: LintContext,
    world: World,
    dependencies: DependencyFieldsView,
    node: Node,
    pattern: Seq<char>,
)
    requires
        context.settings is Some,
        context.settings->0@.field("import-x/internal-regex"@) == Some(JsonView::Text(pattern)),
        node_reference(node) is Some,
        regex_matches(pattern, node_reference(node)->0.source) == Some(true),
        !config.include_internal,
    ensures
        node_report(config, context, world, dependencies, node) is None,
{
}

// Which nodes are judged.

/// Every other module is judged: one that resolves, that is no core module, that is used for more
/// than types unless those are included, and that is not internal unless those are included. It
/// is judged by the name that the nearest `package.json` above its file gives its package.
pub proof fn every_other_module_is_judged(
    config: NoExtraneousDependenciesConfig,
    context: LintContext,
    world: World,
    dependencies: DependencyFieldsView,
    node: Node,
    path: FilePathView,
)
    requires
        node_reference(node) is Some,
        !node_reference(node)->0.is_type || config.include_types,
        !core_module(settings_view(context.settings), node_reference(node)->0.source),
        loaded_from(context.loaded_modules@, node_reference(node)->0.source, 0) == Some(path) || (
        loaded_from(context.loaded_modules@, node_reference(node)->0.source, 0) is None && (
        world.resolve)(node_reference(node)->0.source) == Some(path)),
        config.include_internal || !internal(
            node_reference(node)->0.source,
            Some(path),
            internal_pattern(settings_view(context.settings)),
        ),
    ensures
        node_report(config, context, world, dependencies, node) == judged(
            config,
            context.texts,
            texts(config.whitelist@).to_set(),
            dependencies,
            node_reference(node)->0,
            world.package_name(path),
        ),
{
}

/// Nodes that name the same module, at the same place and alike for types, are reported alike.
pub proof fn form_of_a_node_does_not_matter(
    config: NoExtraneousDependenciesConfig,
    context: LintContext,
    world: World,
    dependencies: DependencyFieldsView,
    left: Node,
    right: Node,
)
    requires
        node_reference(left) == node_reference(right),
    ensures
        node_report(config, context, world, dependencies, left) == node_report(
            config,
            context,
            world,
            dependencies,
            right,
        ),
{
}

} // verus!
