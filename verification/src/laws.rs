//! What holds of the rule as a whole.
use crate::check::{
    checked_reference, loaded_from, module_step, name_read, resolution, ActionView, EventView,
    LintContext, ModuleStepView,
};
use crate::collections::no_package_names;
use crate::config::{
    forbids, forbids_development, BoolOrGlobs, NoExtraneousDependenciesConfig, PackageDir,
};
use crate::glob::PathTexts;
use crate::json::JsonView;
use crate::module::{
    core_module, covers, declared_status, declares, ends_in_scope, internal, internal_pattern,
    module_name_length, named_module, settings_view, DeclarationStatus,
};
use crate::package::{
    configured_directories, configured_paths, declared_bundle, declared_fields, gathered,
    gathered_data, lemma_first_failure_stays, package_read, DependencyFieldsView, PackageDataView,
    PackageErrorView, PackageReadView,
};
use crate::path::{path_views, search, search_from, FilePath, FilePathView, SearchView};
use crate::session::{
    advanced, concluded, locating, pending, reading, settled, started, SessionView, StageView,
};
use crate::syntax::{node_reference, Node, ReferenceView, Span};
use crate::text::{slash_from, texts};
use crate::verdict::{
    judged, module_status, package_error_report, report, report_texts, DiagnosticView,
};
use crate::world::{lint, node_report, node_reports, used_paths, World};
use vstd::prelude::*;

verus! {

// Module names.

/// The first `/` of a text, and of a beginning of it.
pub(crate) proof fn lemma_slash_from(text: Seq<char>, from: int)
    requires
        0 <= from <= text.len(),
    ensures
        from <= slash_from(text, from) <= text.len(),
        slash_from(text, from) < text.len() ==> text[slash_from(text, from)] == '/',
        forall|i: int| from <= i < slash_from(text, from) ==> text[i] != '/',
    decreases text.len() - from,
{
    if from < text.len() && text[from] != '/' {
        lemma_slash_from(text, from + 1);
    }
}

/// The first `/` is where only other characters come before it.
pub(crate) proof fn lemma_slash_at(text: Seq<char>, from: int, at: int)
    requires
        0 <= from <= at <= text.len(),
        at < text.len() ==> text[at] == '/',
        forall|i: int| from <= i < at ==> text[i] != '/',
    ensures
        slash_from(text, from) == at,
    decreases at - from,
{
    if from < at {
        lemma_slash_at(text, from + 1, at);
    }
}

/// The name of a package is the name of a package: taking it again changes nothing.
pub proof fn module_name_is_stable(source: Seq<char>)
    ensures
        named_module(named_module(source)) == named_module(source),
{
    let first = slash_from(source, 0);
    lemma_slash_from(source, 0);
    let name = named_module(source);
    if first < source.len() {
        lemma_slash_from(source, first + 1);
    }
    let length = module_name_length(source);
    if length == first {
        lemma_slash_at(name, 0, first);
        assert(slash_from(name, first + 1) == name.len());
    } else {
        lemma_slash_at(name, 0, first);
        lemma_slash_at(name, first + 1, length);
    }
    assert(named_module(name) =~= name);
}

/// The name of a package is a beginning of the specifier, and where it is shorter, a `/` follows.
pub proof fn module_name_is_a_beginning(source: Seq<char>)
    ensures
        named_module(source).is_prefix_of(source),
        named_module(source).len() < source.len() ==> source[named_module(source).len() as int]
            == '/',
{
    let first = slash_from(source, 0);
    lemma_slash_from(source, 0);
    if first < source.len() {
        lemma_slash_from(source, first + 1);
    }
}

/// A path within a package names the package. A bare scope such as `@scope` is no package: what
/// follows its `/` is part of the name.
pub proof fn subpath_names_the_package(name: Seq<char>, subpath: Seq<char>)
    requires
        named_module(name) == name,
        name.len() > 0 && name[0] == '@' ==> name.contains('/'),
    ensures
        named_module(name + seq!['/'] + subpath) == name,
{
    let source = name + seq!['/'] + subpath;
    let first = slash_from(name, 0);
    lemma_slash_from(name, 0);
    assert(source.take(name.len() as int) =~= name);
    assert(forall|i: int| 0 <= i < name.len() ==> source[i] == name[i]);
    assert(source[name.len() as int] == '/');
    if name.len() > 0 && name[0] == '@' {
        assert(first < name.len());
        lemma_slash_from(name, first + 1);
        lemma_slash_at(source, 0, first);
        let second = slash_from(name, first + 1);
        assert(module_name_length(name) == name.len());
        lemma_slash_at(source, first + 1, second);
    } else {
        assert(module_name_length(name) == name.len());
        lemma_slash_at(source, 0, first);
        assert(module_name_length(source) == first) by {
            if name.len() == 0 {
                assert(source[0] == '/');
            }
        }
    }
}

// Declarations.

/// A package that a field lists is declared by it; only a bare scope never is.
pub proof fn listed_package_is_declared(names: Set<Seq<char>>, name: Seq<char>)
    requires
        names.contains(name),
        !ends_in_scope(name),
    ensures
        declares(names, name),
{
    assert(name.take(name.len() as int) =~= name);
    assert(covers(name, name.len() as int));
}

/// An empty field declares nothing.
pub proof fn nothing_is_declared_by_an_empty_field(name: Seq<char>)
    ensures
        !declares(Set::empty(), name),
{
}

/// The declarations of two `package.json` files together are those of either.
pub proof fn merged_declarations_are_those_of_either(
    left: DependencyFieldsView,
    right: DependencyFieldsView,
    name: Seq<char>,
)
    ensures
        declared_status(left.merge(right), name) == declared_status(left, name).either(
            declared_status(right, name),
        ),
{
    lemma_declares_union(left.dependencies, right.dependencies, name);
    lemma_declares_union(left.dev_dependencies, right.dev_dependencies, name);
    lemma_declares_union(left.optional_dependencies, right.optional_dependencies, name);
    lemma_declares_union(left.peer_dependencies, right.peer_dependencies, name);
    lemma_declares_union(left.bundled_dependencies, right.bundled_dependencies, name);
}

proof fn lemma_declares_union(left: Set<Seq<char>>, right: Set<Seq<char>>, name: Seq<char>)
    ensures
        declares(left.union(right), name) == (declares(left, name) || declares(right, name)),
{
    if declares(left.union(right), name) {
        let length = choose|length: int| #[trigger]
            covers(name, length) && left.union(right).contains(name.take(length));
        assert(left.contains(name.take(length)) || right.contains(name.take(length)));
    }
    if declares(left, name) {
        let length = choose|length: int| #[trigger]
            covers(name, length) && left.contains(name.take(length));
        assert(left.union(right).contains(name.take(length)));
    }
    if declares(right, name) {
        let length = choose|length: int| #[trigger]
            covers(name, length) && right.contains(name.take(length));
        assert(left.union(right).contains(name.take(length)));
    }
}

/// It does not matter in which order declarations are merged, nor how often.
pub proof fn merge_order_does_not_matter(
    left: DependencyFieldsView,
    middle: DependencyFieldsView,
    right: DependencyFieldsView,
)
    ensures
        left.merge(right) == right.merge(left),
        left.merge(middle).merge(right) == left.merge(middle.merge(right)),
        left.merge(left) == left,
        left.merge(DependencyFieldsView::empty()) == left,
{
    assert(left.merge(right) =~= right.merge(left));
    assert(left.merge(middle).merge(right) =~= left.merge(middle.merge(right)));
    assert(left.merge(left) =~= left);
    assert(left.merge(DependencyFieldsView::empty()) =~= left);
}

/// `bundledDependencies` counts only where `bundleDependencies` is absent.
pub proof fn bundle_dependencies_come_first(package: JsonView)
    ensures
        package.field("bundleDependencies"@) is Some ==> declared_fields(
            package,
        ).bundled_dependencies == declared_bundle(package.field("bundleDependencies"@)),
        package.field("bundleDependencies"@) is None ==> declared_fields(
            package,
        ).bundled_dependencies == declared_bundle(package.field("bundledDependencies"@)),
{
}

// Reports on one use of a package.

/// Whether every declaration of `fewer` is one of `more`.
pub open spec fn declares_no_more(fewer: DependencyFieldsView, more: DependencyFieldsView) -> bool {
    &&& fewer.dependencies.subset_of(more.dependencies)
    &&& fewer.dev_dependencies.subset_of(more.dev_dependencies)
    &&& fewer.optional_dependencies.subset_of(more.optional_dependencies)
    &&& fewer.peer_dependencies.subset_of(more.peer_dependencies)
    &&& fewer.bundled_dependencies.subset_of(more.bundled_dependencies)
}

/// A package that is a dependency is not reported, under the name that the file uses or under
/// its own.
pub proof fn dependency_is_not_reported(
    config: NoExtraneousDependenciesConfig,
    texts: PathTexts,
    whitelist: Set<Seq<char>>,
    dependencies: DependencyFieldsView,
    reference: ReferenceView,
    real_name: Option<Seq<char>>,
)
    requires
        declares(dependencies.dependencies, named_module(reference.source)) || (real_name is Some
            && declares(dependencies.dependencies, real_name->0)),
    ensures
        judged(config, texts, whitelist, dependencies, reference, real_name) is None,
{
}

/// An exempt package is not reported.
pub proof fn exempt_package_is_not_reported(
    config: NoExtraneousDependenciesConfig,
    texts: PathTexts,
    whitelist: Set<Seq<char>>,
    dependencies: DependencyFieldsView,
    reference: ReferenceView,
    real_name: Option<Seq<char>>,
)
    requires
        whitelist.contains(
            match real_name {
                Some(name) => name,
                None => named_module(reference.source),
            },
        ),
    ensures
        judged(config, texts, whitelist, dependencies, reference, real_name) is None,
{
}

/// A package that no field declares, and that is not exempt, is reported under its own name,
/// where the file uses it, with the advice to add it.
pub proof fn undeclared_package_is_reported(
    config: NoExtraneousDependenciesConfig,
    texts: PathTexts,
    whitelist: Set<Seq<char>>,
    dependencies: DependencyFieldsView,
    reference: ReferenceView,
    real_name: Option<Seq<char>>,
)
    requires
        module_status(dependencies, named_module(reference.source), real_name)
            == DeclarationStatus::undeclared(),
        !whitelist.contains(
            match real_name {
                Some(name) => name,
                None => named_module(reference.source),
            },
        ),
    ensures
        judged(config, texts, whitelist, dependencies, reference, real_name) == Some(
            report(
                match real_name {
                    Some(name) => name,
                    None => named_module(reference.source),
                },
                (
                    "' should be listed in the project's dependencies."@,
                    "Add the package to dependencies with `npm install`."@,
                ),
                reference.span,
            ),
        ),
{
}

/// While no option is set for any kind of dependency, every kind but that of development
/// dependencies is as good as a dependency: a package that is not exempt is reported exactly where
/// no field but `devDependencies` declares it.
pub proof fn without_options_all_but_development_dependencies_count(
    config: NoExtraneousDependenciesConfig,
    texts: PathTexts,
    whitelist: Set<Seq<char>>,
    dependencies: DependencyFieldsView,
    reference: ReferenceView,
    real_name: Option<Seq<char>>,
)
    requires
        config.dev_dependencies is None,
        config.optional_dependencies is None,
        config.peer_dependencies is None,
        config.bundled_dependencies is None,
        !whitelist.contains(
            match real_name {
                Some(name) => name,
                None => named_module(reference.source),
            },
        ),
    ensures
        judged(config, texts, whitelist, dependencies, reference, real_name) is Some == ({
            let status = module_status(dependencies, named_module(reference.source), real_name);
            &&& !status.dependencies
            &&& !status.optional_dependencies
            &&& !status.peer_dependencies
            &&& !status.bundled_dependencies
        }),
{
}

/// A package that is only a development dependency, and not exempt, is reported exactly where no
/// option allows that kind, with the advice to move it.
pub proof fn dev_dependency_is_reported_where_forbidden(
    config: NoExtraneousDependenciesConfig,
    texts: PathTexts,
    whitelist: Set<Seq<char>>,
    dependencies: DependencyFieldsView,
    reference: ReferenceView,
    real_name: Option<Seq<char>>,
)
    requires
        module_status(dependencies, named_module(reference.source), real_name) == (
        DeclarationStatus { dev_dependencies: true, ..DeclarationStatus::undeclared() }),
        !whitelist.contains(
            match real_name {
                Some(name) => name,
                None => named_module(reference.source),
            },
        ),
    ensures
        judged(config, texts, whitelist, dependencies, reference, real_name)
            == if forbids_development(config.dev_dependencies, texts) {
            Some(
                report(
                    match real_name {
                        Some(name) => name,
                        None => named_module(reference.source),
                    },
                    (
                        "' should be listed in the project's dependencies, not devDependencies."@,
                        "Move the package from devDependencies to dependencies."@,
                    ),
                    reference.span,
                ),
            )
        } else {
            None
        },
{
}

/// A package that is only an optional dependency, and not exempt, is reported exactly where the
/// options forbid that kind, with the advice to move it.
pub proof fn optional_dependency_is_reported_where_forbidden(
    config: NoExtraneousDependenciesConfig,
    texts: PathTexts,
    whitelist: Set<Seq<char>>,
    dependencies: DependencyFieldsView,
    reference: ReferenceView,
    real_name: Option<Seq<char>>,
)
    requires
        module_status(dependencies, named_module(reference.source), real_name) == (
        DeclarationStatus { optional_dependencies: true, ..DeclarationStatus::undeclared() }),
        !whitelist.contains(
            match real_name {
                Some(name) => name,
                None => named_module(reference.source),
            },
        ),
    ensures
        judged(config, texts, whitelist, dependencies, reference, real_name) == if forbids(
            config.optional_dependencies,
            texts,
        ) {
            Some(
                report(
                    match real_name {
                        Some(name) => name,
                        None => named_module(reference.source),
                    },
                    (
                        "' should be listed in the project's dependencies, not optionalDependencies."@,
                        "Move the package from optionalDependencies to dependencies."@,
                    ),
                    reference.span,
                ),
            )
        } else {
            None
        },
{
}

/// More declarations never lead to a report.
pub proof fn more_declarations_never_report(
    config: NoExtraneousDependenciesConfig,
    texts: PathTexts,
    whitelist: Set<Seq<char>>,
    fewer: DependencyFieldsView,
    more: DependencyFieldsView,
    reference: ReferenceView,
    real_name: Option<Seq<char>>,
)
    requires
        declares_no_more(fewer, more),
        judged(config, texts, whitelist, fewer, reference, real_name) is None,
    ensures
        judged(config, texts, whitelist, more, reference, real_name) is None,
{
    assert(fewer.merge(more) =~= more);
    merged_declarations_are_those_of_either(fewer, more, named_module(reference.source));
    if let Some(name) = real_name {
        merged_declarations_are_those_of_either(fewer, more, name);
    }
}

/// More exempt packages never lead to a report.
pub proof fn more_exemptions_never_report(
    config: NoExtraneousDependenciesConfig,
    texts: PathTexts,
    fewer: Set<Seq<char>>,
    more: Set<Seq<char>>,
    dependencies: DependencyFieldsView,
    reference: ReferenceView,
    real_name: Option<Seq<char>>,
)
    requires
        fewer.subset_of(more),
        judged(config, texts, fewer, dependencies, reference, real_name) is None,
    ensures
        judged(config, texts, more, dependencies, reference, real_name) is None,
{
}

/// Whether the options of `loose` forbid no kind of dependency that those of `strict` allow.
pub open spec fn forbids_no_more(
    loose: NoExtraneousDependenciesConfig,
    strict: NoExtraneousDependenciesConfig,
    texts: PathTexts,
) -> bool {
    &&& forbids_development(loose.dev_dependencies, texts) ==> forbids_development(
        strict.dev_dependencies,
        texts,
    )
    &&& forbids(loose.optional_dependencies, texts) ==> forbids(
        strict.optional_dependencies,
        texts,
    )
    &&& forbids(loose.peer_dependencies, texts) ==> forbids(strict.peer_dependencies, texts)
    &&& forbids(loose.bundled_dependencies, texts) ==> forbids(strict.bundled_dependencies, texts)
}

/// Looser options never lead to a report.
pub proof fn looser_options_never_report(
    loose: NoExtraneousDependenciesConfig,
    strict: NoExtraneousDependenciesConfig,
    texts: PathTexts,
    whitelist: Set<Seq<char>>,
    dependencies: DependencyFieldsView,
    reference: ReferenceView,
    real_name: Option<Seq<char>>,
)
    requires
        forbids_no_more(loose, strict, texts),
        judged(strict, texts, whitelist, dependencies, reference, real_name) is None,
    ensures
        judged(loose, texts, whitelist, dependencies, reference, real_name) is None,
{
}

/// An option that is `true` forbids nowhere, an option that is `false` forbids everywhere, and so
/// does an empty list of globs. One that is not set forbids development dependencies everywhere,
/// and the other kinds nowhere.
pub proof fn boolean_options(texts: PathTexts, none: Vec<String>)
    requires
        none@.len() == 0,
    ensures
        !forbids(None, texts),
        !forbids(Some(BoolOrGlobs::Bool(true)), texts),
        forbids(Some(BoolOrGlobs::Bool(false)), texts),
        forbids(Some(BoolOrGlobs::Globs(none)), texts),
        forbids_development(None, texts),
        !forbids_development(Some(BoolOrGlobs::Bool(true)), texts),
        forbids_development(Some(BoolOrGlobs::Bool(false)), texts),
        forbids_development(Some(BoolOrGlobs::Globs(none)), texts),
{
}

/// A report that speaks of one kind of dependency is on a package that is declared as that kind,
/// where that kind is forbidden.
pub proof fn reports_name_the_forbidden_kind(
    status: DeclarationStatus,
    config: NoExtraneousDependenciesConfig,
    texts: PathTexts,
)
    ensures
        report_texts(status, config, texts).1
            == "Move the package from devDependencies to dependencies."@ ==> (
        status.dev_dependencies && forbids_development(config.dev_dependencies, texts)),
        report_texts(status, config, texts).1
            == "Move the package from optionalDependencies to dependencies."@ ==> (
        status.optional_dependencies && forbids(config.optional_dependencies, texts)),
{
    reveal_strlit("Move the package from devDependencies to dependencies.");
    reveal_strlit("Move the package from optionalDependencies to dependencies.");
    reveal_strlit("Add the package to dependencies with `npm install`.");
    assert("Move the package from devDependencies to dependencies."@[0] == 'M');
    assert("Move the package from optionalDependencies to dependencies."@[0] == 'M');
    assert("Add the package to dependencies with `npm install`."@[0] == 'A');
    assert("Move the package from devDependencies to dependencies."@.len()
        != "Move the package from optionalDependencies to dependencies."@.len());
}

// Reports on the nodes of a file.

/// A node that names no module by a fixed text is not reported.
pub proof fn node_without_module_is_not_reported(
    config: NoExtraneousDependenciesConfig,
    context: LintContext,
    world: World,
    dependencies: DependencyFieldsView,
    node: Node,
)
    requires
        node_reference(node) is None,
    ensures
        node_report(config, context, world, dependencies, node) is None,
{
}

/// A core module is not reported.
pub proof fn core_module_is_not_reported(
    config: NoExtraneousDependenciesConfig,
    context: LintContext,
    world: World,
    dependencies: DependencyFieldsView,
    node: Node,
)
    requires
        node_reference(node) is Some,
        core_module(settings_view(context.settings), node_reference(node)->0.source),
    ensures
        node_report(config, context, world, dependencies, node) is None,
{
}

/// Types alone are not reported unless the options include them.
pub proof fn types_are_not_reported_unless_included(
    config: NoExtraneousDependenciesConfig,
    context: LintContext,
    world: World,
    dependencies: DependencyFieldsView,
    node: Node,
)
    requires
        node_reference(node) is Some,
        node_reference(node)->0.is_type,
        !config.include_types,
    ensures
        node_report(config, context, world, dependencies, node) is None,
{
}

/// Where the options include types, it does not matter that a module is used for its types only.
pub proof fn included_types_are_reported_like_values(
    config: NoExtraneousDependenciesConfig,
    context: LintContext,
    world: World,
    dependencies: DependencyFieldsView,
    of_types: Node,
    of_values: Node,
)
    requires
        config.include_types,
        node_reference(of_types) is Some,
        node_reference(of_values) == Some(
            ReferenceView { is_type: false, ..node_reference(of_types)->0 },
        ),
    ensures
        node_report(config, context, world, dependencies, of_types) == node_report(
            config,
            context,
            world,
            dependencies,
            of_values,
        ),
{
}

/// A module that does not resolve is not reported.
pub proof fn unresolved_module_is_not_reported(
    config: NoExtraneousDependenciesConfig,
    context: LintContext,
    world: World,
    dependencies: DependencyFieldsView,
    node: Node,
)
    requires
        node_reference(node) is Some,
        loaded_from(context.loaded_modules@, node_reference(node)->0.source, 0) is None,
        (world.resolve)(node_reference(node)->0.source) is None,
    ensures
        node_report(config, context, world, dependencies, node) is None,
{
}

/// A module that is given by a path is not reported unless the options include internal modules.
pub proof fn path_is_not_reported_unless_internal_is_included(
    config: NoExtraneousDependenciesConfig,
    context: LintContext,
    world: World,
    dependencies: DependencyFieldsView,
    node: Node,
)
    requires
        node_reference(node) is Some,
        "."@.is_prefix_of(node_reference(node)->0.source) || "/"@.is_prefix_of(
            node_reference(node)->0.source,
        ),
        !config.include_internal,
    ensures
        node_report(config, context, world, dependencies, node) is None,
{
}

/// A module that the project itself holds is not reported unless the options include internal
/// modules.
pub proof fn project_file_is_not_reported_unless_internal_is_included(
    config: NoExtraneousDependenciesConfig,
    context: LintContext,
    world: World,
    dependencies: DependencyFieldsView,
    node: Node,
    path: FilePathView,
)
    requires
        node_reference(node) is Some,
        resolution(
            context.loaded_modules@,
            node_reference(node)->0.source,
            Some((world.resolve)(node_reference(node)->0.source)),
        ) == Some(Some(path)),
        !path.segments.contains("node_modules"@),
        !config.include_internal,
    ensures
        node_report(config, context, world, dependencies, node) is None,
{
}

/// A report points at the text that names the module.
pub proof fn report_points_at_the_module(
    config: NoExtraneousDependenciesConfig,
    context: LintContext,
    world: World,
    dependencies: DependencyFieldsView,
    node: Node,
)
    requires
        node_report(config, context, world, dependencies, node) is Some,
    ensures
        node_reference(node) is Some,
        node_report(config, context, world, dependencies, node)->0.span == Some(
            node_reference(node)->0.span,
        ),
{
}

/// There is at most one report for a node.
pub proof fn at_most_one_report_for_a_node(
    config: NoExtraneousDependenciesConfig,
    context: LintContext,
    world: World,
    dependencies: DependencyFieldsView,
    node: int,
)
    requires
        0 <= node <= context.nodes@.len(),
    ensures
        node_reports(config, context, world, dependencies, node).len() <= context.nodes@.len()
            - node,
    decreases context.nodes@.len() - node,
{
    if node < context.nodes@.len() {
        at_most_one_report_for_a_node(config, context, world, dependencies, node + 1);
    }
}

/// Every report is the report on a node.
pub proof fn every_report_is_on_a_node(
    config: NoExtraneousDependenciesConfig,
    context: LintContext,
    world: World,
    dependencies: DependencyFieldsView,
    node: int,
    report: DiagnosticView,
)
    requires
        0 <= node,
        node_reports(config, context, world, dependencies, node).contains(report),
    ensures
        exists|i: int|
            node <= i < context.nodes@.len() && node_report(
                config,
                context,
                world,
                dependencies,
                #[trigger] context.nodes@[i],
            ) == Some(report),
    decreases context.nodes@.len() - node,
{
    if node < context.nodes@.len() {
        let rest = node_reports(config, context, world, dependencies, node + 1);
        let own = node_report(config, context, world, dependencies, context.nodes@[node]);
        if own != Some(report) {
            let all = node_reports(config, context, world, dependencies, node);
            let k = choose|k: int| 0 <= k < all.len() && all[k] == report;
            if own is Some {
                assert(all == seq![own->0] + rest);
                assert(rest[k - 1] == report);
            } else {
                assert(rest[k] == report);
            }
            assert(rest.contains(report));
            every_report_is_on_a_node(config, context, world, dependencies, node + 1, report);
        }
    }
}

/// Every node that has a report gets it.
pub proof fn every_report_is_made(
    config: NoExtraneousDependenciesConfig,
    context: LintContext,
    world: World,
    dependencies: DependencyFieldsView,
    from: int,
    node: int,
)
    requires
        0 <= from <= node < context.nodes@.len(),
        node_report(config, context, world, dependencies, context.nodes@[node]) is Some,
    ensures
        node_reports(config, context, world, dependencies, from).contains(
            node_report(config, context, world, dependencies, context.nodes@[node])->0,
        ),
    decreases node - from,
{
    let report = node_report(config, context, world, dependencies, context.nodes@[node])->0;
    let all = node_reports(config, context, world, dependencies, from);
    let rest = node_reports(config, context, world, dependencies, from + 1);
    if from == node {
        assert(all == seq![report] + rest);
        assert(all[0] == report);
    } else {
        every_report_is_made(config, context, world, dependencies, from + 1, node);
        let k = choose|k: int| 0 <= k < rest.len() && rest[k] == report;
        let own = node_report(config, context, world, dependencies, context.nodes@[from]);
        if own is Some {
            assert(all == seq![own->0] + rest);
            assert(all[k + 1] == report);
        } else {
            assert(all[k] == report);
        }
    }
}

/// The reports on some nodes, in order.
spec fn reports_on(
    config: NoExtraneousDependenciesConfig,
    context: LintContext,
    world: World,
    dependencies: DependencyFieldsView,
    nodes: Seq<Node>,
) -> Seq<DiagnosticView>
    decreases nodes.len(),
{
    if nodes.len() == 0 {
        seq![]
    } else {
        let before = reports_on(config, context, world, dependencies, nodes.drop_last());
        match node_report(config, context, world, dependencies, nodes.last()) {
            Some(report) => before.push(report),
            None => before,
        }
    }
}

proof fn lemma_reports_on_first(
    config: NoExtraneousDependenciesConfig,
    context: LintContext,
    world: World,
    dependencies: DependencyFieldsView,
    first: Node,
    rest: Seq<Node>,
)
    ensures
        reports_on(config, context, world, dependencies, seq![first] + rest) == reports_on(
            config,
            context,
            world,
            dependencies,
            seq![first],
        ) + reports_on(config, context, world, dependencies, rest),
    decreases rest.len(),
{
    let all = seq![first] + rest;
    if rest.len() == 0 {
        assert(all =~= seq![first]);
    } else {
        assert(all.drop_last() =~= seq![first] + rest.drop_last());
        assert(all.last() == rest.last());
        lemma_reports_on_first(config, context, world, dependencies, first, rest.drop_last());
    }
}

proof fn lemma_node_reports_are_reports_on(
    config: NoExtraneousDependenciesConfig,
    context: LintContext,
    world: World,
    dependencies: DependencyFieldsView,
    node: int,
)
    requires
        0 <= node <= context.nodes@.len(),
    ensures
        node_reports(config, context, world, dependencies, node) == reports_on(
            config,
            context,
            world,
            dependencies,
            context.nodes@.skip(node),
        ),
    decreases context.nodes@.len() - node,
{
    let nodes = context.nodes@;
    if node < nodes.len() {
        let first = nodes[node];
        lemma_node_reports_are_reports_on(config, context, world, dependencies, node + 1);
        lemma_reports_on_first(
            config,
            context,
            world,
            dependencies,
            first,
            nodes.skip(node + 1),
        );
        assert(nodes.skip(node) =~= seq![first] + nodes.skip(node + 1));
        assert(seq![first].drop_last() =~= seq![]);
        assert(reports_on(config, context, world, dependencies, Seq::<Node>::empty()) =~= seq![]);
        assert(reports_on(config, context, world, dependencies, seq![first]) =~= match node_report(
            config,
            context,
            world,
            dependencies,
            first,
        ) {
            Some(report) => seq![report],
            None => seq![],
        });
    }
}

proof fn lemma_reports_on_both(
    config: NoExtraneousDependenciesConfig,
    context: LintContext,
    world: World,
    dependencies: DependencyFieldsView,
    left: Seq<Node>,
    right: Seq<Node>,
)
    ensures
        reports_on(config, context, world, dependencies, left + right) == reports_on(
            config,
            context,
            world,
            dependencies,
            left,
        ) + reports_on(config, context, world, dependencies, right),
    decreases right.len(),
{
    if right.len() == 0 {
        assert(left + right =~= left);
    } else {
        assert((left + right).drop_last() =~= left + right.drop_last());
        assert((left + right).last() == right.last());
        lemma_reports_on_both(config, context, world, dependencies, left, right.drop_last());
    }
}

proof fn lemma_reports_on_depend_on_the_nodes_given(
    config: NoExtraneousDependenciesConfig,
    context: LintContext,
    part: Vec<Node>,
    world: World,
    dependencies: DependencyFieldsView,
    nodes: Seq<Node>,
)
    ensures
        reports_on(config, context, world, dependencies, nodes) == reports_on(
            config,
            LintContext { nodes: part, ..context },
            world,
            dependencies,
            nodes,
        ),
    decreases nodes.len(),
{
    if nodes.len() > 0 {
        lemma_reports_on_depend_on_the_nodes_given(
            config,
            context,
            part,
            world,
            dependencies,
            nodes.drop_last(),
        );
    }
}

/// A file is reported node by node, in order: the reports on a file are those on its first nodes
/// alone and then those on the others alone, and a node alone has its report or none.
pub proof fn file_is_reported_node_by_node(
    config: NoExtraneousDependenciesConfig,
    context: LintContext,
    left: Vec<Node>,
    right: Vec<Node>,
    world: World,
    dependencies: DependencyFieldsView,
)
    requires
        context.nodes@ == left@ + right@,
    ensures
        node_reports(config, context, world, dependencies, 0) == node_reports(
            config,
            LintContext { nodes: left, ..context },
            world,
            dependencies,
            0,
        ) + node_reports(
            config,
            LintContext { nodes: right, ..context },
            world,
            dependencies,
            0,
        ),
        context.nodes@.len() == 1 ==> node_reports(config, context, world, dependencies, 0)
            == match node_report(config, context, world, dependencies, context.nodes@[0]) {
            Some(report) => seq![report],
            None => seq![],
        },
        context.nodes@.len() == 0 ==> node_reports(config, context, world, dependencies, 0)
            == Seq::<DiagnosticView>::empty(),
{
    let first = LintContext { nodes: left, ..context };
    let second = LintContext { nodes: right, ..context };
    lemma_node_reports_are_reports_on(config, context, world, dependencies, 0);
    lemma_node_reports_are_reports_on(config, first, world, dependencies, 0);
    lemma_node_reports_are_reports_on(config, second, world, dependencies, 0);
    assert(context.nodes@.skip(0) =~= left@ + right@);
    assert(left@.skip(0) =~= left@);
    assert(right@.skip(0) =~= right@);
    lemma_reports_on_both(config, context, world, dependencies, left@, right@);
    lemma_reports_on_depend_on_the_nodes_given(config, context, left, world, dependencies, left@);
    lemma_reports_on_depend_on_the_nodes_given(
        config,
        context,
        right,
        world,
        dependencies,
        right@,
    );
    if context.nodes@.len() == 1 {
        let node = context.nodes@[0];
        assert(context.nodes@.skip(0) =~= seq![node]);
        assert(seq![node].drop_last() =~= seq![]);
        assert(reports_on(config, context, world, dependencies, Seq::<Node>::empty()) =~= seq![]);
        assert(reports_on(config, context, world, dependencies, seq![node]) =~= match node_report(
            config,
            context,
            world,
            dependencies,
            node,
        ) {
            Some(report) => seq![report],
            None => seq![],
        });
    }
}

/// Whether a report is on the use of the package `name`.
pub open spec fn is_on_package(report: DiagnosticView, name: Seq<char>) -> bool {
    ||| report.message == "'"@ + name + "' should be listed in the project's dependencies."@
    ||| report.message == "'"@ + name
        + "' should be listed in the project's dependencies, not devDependencies."@
    ||| report.message == "'"@ + name
        + "' should be listed in the project's dependencies, not optionalDependencies."@
}

/// Whether a text is what follows the name of a package in a report.
spec fn is_message_end(end: Seq<char>) -> bool {
    ||| end == "' should be listed in the project's dependencies."@
    ||| end == "' should be listed in the project's dependencies, not devDependencies."@
    ||| end == "' should be listed in the project's dependencies, not optionalDependencies."@
}

/// A message tells of which package it speaks.
proof fn lemma_message_names_one_package(
    left: Seq<char>,
    left_end: Seq<char>,
    right: Seq<char>,
    right_end: Seq<char>,
)
    requires
        is_message_end(left_end),
        is_message_end(right_end),
        "'"@ + left + left_end == "'"@ + right + right_end,
    ensures
        left == right,
{
    let plain = "' should be listed in the project's dependencies."@;
    let dev = "' should be listed in the project's dependencies, not devDependencies."@;
    let optional = "' should be listed in the project's dependencies, not optionalDependencies."@;
    reveal_strlit("'");
    reveal_strlit("' should be listed in the project's dependencies.");
    reveal_strlit("' should be listed in the project's dependencies, not devDependencies.");
    reveal_strlit("' should be listed in the project's dependencies, not optionalDependencies.");
    assert(plain[plain.len() - 13] == 'd' && plain[plain.len() - 14] == ' ');
    assert(dev[dev.len() - 13] == 'D' && dev[dev.len() - 14] == 'v');
    assert(optional[optional.len() - 13] == 'D' && optional[optional.len() - 14] == 'l');
    let message = "'"@ + left + left_end;
    assert(message[message.len() - 13] == left_end[left_end.len() - 13]);
    assert(message[message.len() - 13] == right_end[right_end.len() - 13]);
    assert(message[message.len() - 14] == left_end[left_end.len() - 14]);
    assert(message[message.len() - 14] == right_end[right_end.len() - 14]);
    assert(left_end == right_end);
    assert(left =~= message.subrange(1, message.len() - left_end.len()));
    assert(right =~= message.subrange(1, message.len() - right_end.len()));
}

/// A report on a node is on the package that it names.
proof fn lemma_report_is_on_its_package(
    package: Seq<char>,
    texts: (Seq<char>, Seq<char>),
    span: Span,
    name: Seq<char>,
)
    requires
        is_message_end(texts.0),
    ensures
        is_on_package(report(package, texts, span), name) == (package == name),
{
    let message = "'"@ + package + texts.0;
    let plain = "' should be listed in the project's dependencies."@;
    let dev = "' should be listed in the project's dependencies, not devDependencies."@;
    let optional = "' should be listed in the project's dependencies, not optionalDependencies."@;
    if message == "'"@ + name + plain {
        lemma_message_names_one_package(package, texts.0, name, plain);
    }
    if message == "'"@ + name + dev {
        lemma_message_names_one_package(package, texts.0, name, dev);
    }
    if message == "'"@ + name + optional {
        lemma_message_names_one_package(package, texts.0, name, optional);
    }
}

/// One more exempt package takes the report on a node away exactly where it is on that package.
proof fn lemma_exemption_of_a_node(
    config: NoExtraneousDependenciesConfig,
    exempt: Vec<String>,
    context: LintContext,
    world: World,
    dependencies: DependencyFieldsView,
    node: Node,
    name: Seq<char>,
)
    requires
        texts(exempt@).to_set() == texts(config.whitelist@).to_set().insert(name),
    ensures
        ({
            let before = node_report(config, context, world, dependencies, node);
            let after = node_report(
                NoExtraneousDependenciesConfig { whitelist: exempt, ..config },
                context,
                world,
                dependencies,
                node,
            );
            after == if before is Some && is_on_package(before->0, name) {
                None
            } else {
                before
            }
        }),
{
    let more = NoExtraneousDependenciesConfig { whitelist: exempt, ..config };
    let settings = settings_view(context.settings);
    if let Some(reference) = checked_reference(config, settings, node) {
        assert(checked_reference(more, settings, node) == Some(reference));
        let found = resolution(
            context.loaded_modules@,
            reference.source,
            Some((world.resolve)(reference.source)),
        )->0;
        if let Some(path) = found {
            let source_name = named_module(reference.source);
            let real_name = world.package_name(path);
            let package = match real_name {
                Some(name) => name,
                None => source_name,
            };
            let status = module_status(dependencies, source_name, real_name);
            lemma_report_is_on_its_package(
                package,
                report_texts(status, config, context.texts),
                reference.span,
                name,
            );
            assert(report_texts(status, config, context.texts) == report_texts(
                status,
                more,
                context.texts,
            ));
        }
    }
}

proof fn lemma_exemption_of_nodes(
    config: NoExtraneousDependenciesConfig,
    exempt: Vec<String>,
    context: LintContext,
    world: World,
    dependencies: DependencyFieldsView,
    nodes: Seq<Node>,
    name: Seq<char>,
)
    requires
        texts(exempt@).to_set() == texts(config.whitelist@).to_set().insert(name),
    ensures
        reports_on(
            NoExtraneousDependenciesConfig { whitelist: exempt, ..config },
            context,
            world,
            dependencies,
            nodes,
        ) == reports_on(config, context, world, dependencies, nodes).filter(
            |report: DiagnosticView| !is_on_package(report, name),
        ),
    decreases nodes.len(),
{
    reveal(Seq::filter);
    if nodes.len() > 0 {
        let node = nodes.last();
        lemma_exemption_of_nodes(
            config,
            exempt,
            context,
            world,
            dependencies,
            nodes.drop_last(),
            name,
        );
        lemma_exemption_of_a_node(config, exempt, context, world, dependencies, node, name);
        let before = reports_on(config, context, world, dependencies, nodes.drop_last());
        if let Some(report) = node_report(config, context, world, dependencies, node) {
            assert(before.push(report).drop_last() =~= before);
        }
    }
}

/// One more exempt package takes exactly the reports on that package away from a file.
pub proof fn exemption_takes_the_reports_on_its_package_away(
    config: NoExtraneousDependenciesConfig,
    exempt: Vec<String>,
    context: LintContext,
    world: World,
    name: Seq<char>,
)
    requires
        texts(exempt@).to_set() == texts(config.whitelist@).to_set().insert(name),
    ensures
        lint(NoExtraneousDependenciesConfig { whitelist: exempt, ..config }, context, world)
            == lint(config, context, world).filter(
            |report: DiagnosticView| !is_on_package(report, name),
        ),
{
    let more = NoExtraneousDependenciesConfig { whitelist: exempt, ..config };
    let keep = |report: DiagnosticView| !is_on_package(report, name);
    reveal(Seq::filter);
    assert(used_paths(more, context, world) == used_paths(config, context, world));
    match gathered_data(
        config.package_dir,
        context.cwd@,
        world.reads(used_paths(config, context, world)),
    ) {
        Ok(data) => {
            lemma_node_reports_are_reports_on(config, context, world, data.dependencies, 0);
            lemma_node_reports_are_reports_on(more, context, world, data.dependencies, 0);
            lemma_exemption_of_nodes(
                config,
                exempt,
                context,
                world,
                data.dependencies,
                context.nodes@.skip(0),
                name,
            );
        },
        Err(error) => {
            let report = package_error_report(error);
            reveal_strlit("'");
            reveal_strlit("The package.json file could not be found.");
            reveal_strlit("The package.json file could not be parsed: ");
            assert(report.message[0] == 'T');
            assert(keep(report));
            assert(seq![report].drop_last() =~= seq![]);
            assert(seq![report].filter(keep) =~= seq![report]);
        },
    }
}

/// Whether a node names a module of the project itself.
pub open spec fn names_internal_module(context: LintContext, world: World, node: Node) -> bool {
    match node_reference(node) {
        Some(reference) => internal(
            reference.source,
            resolution(
                context.loaded_modules@,
                reference.source,
                Some((world.resolve)(reference.source)),
            )->0,
            internal_pattern(settings_view(context.settings)),
        ),
        None => false,
    }
}

proof fn lemma_internal_nodes_left_out(
    config: NoExtraneousDependenciesConfig,
    context: LintContext,
    kept: Vec<Node>,
    world: World,
    dependencies: DependencyFieldsView,
    nodes: Seq<Node>,
)
    ensures
        reports_on(
            NoExtraneousDependenciesConfig { include_internal: false, ..config },
            context,
            world,
            dependencies,
            nodes,
        ) == reports_on(
            NoExtraneousDependenciesConfig { include_internal: true, ..config },
            LintContext { nodes: kept, ..context },
            world,
            dependencies,
            nodes.filter(|node: Node| !names_internal_module(context, world, node)),
        ),
    decreases nodes.len(),
{
    reveal(Seq::filter);
    if nodes.len() > 0 {
        let keep = |node: Node| !names_internal_module(context, world, node);
        let without = NoExtraneousDependenciesConfig { include_internal: false, ..config };
        let with = NoExtraneousDependenciesConfig { include_internal: true, ..config };
        let others = LintContext { nodes: kept, ..context };
        let node = nodes.last();
        lemma_internal_nodes_left_out(
            config,
            context,
            kept,
            world,
            dependencies,
            nodes.drop_last(),
        );
        let before = nodes.drop_last().filter(keep);
        assert(before.push(node).drop_last() =~= before);
        assert(node_report(without, context, world, dependencies, node) == if keep(node) {
            node_report(with, others, world, dependencies, node)
        } else {
            None
        });
    }
}

/// To leave internal modules out is to leave the nodes that name them out of the file: including
/// them adds the reports on those nodes, in their places, and nothing else.
pub proof fn including_internal_modules_adds_the_reports_on_them(
    config: NoExtraneousDependenciesConfig,
    context: LintContext,
    kept: Vec<Node>,
    world: World,
)
    requires
        kept@ == context.nodes@.filter(
            |node: Node| !names_internal_module(context, world, node),
        ),
    ensures
        lint(
            NoExtraneousDependenciesConfig { include_internal: false, ..config },
            context,
            world,
        ) == lint(
            NoExtraneousDependenciesConfig { include_internal: true, ..config },
            LintContext { nodes: kept, ..context },
            world,
        ),
{
    let without = NoExtraneousDependenciesConfig { include_internal: false, ..config };
    let with = NoExtraneousDependenciesConfig { include_internal: true, ..config };
    let others = LintContext { nodes: kept, ..context };
    assert(used_paths(without, context, world) == used_paths(with, others, world));
    if let Ok(data) = gathered_data(
        config.package_dir,
        context.cwd@,
        world.reads(used_paths(without, context, world)),
    ) {
        lemma_node_reports_are_reports_on(without, context, world, data.dependencies, 0);
        lemma_node_reports_are_reports_on(with, others, world, data.dependencies, 0);
        assert(context.nodes@.skip(0) =~= context.nodes@);
        assert(kept@.skip(0) =~= kept@);
        lemma_internal_nodes_left_out(
            config,
            context,
            kept,
            world,
            data.dependencies,
            context.nodes@,
        );
    }
}

// The `package.json` files that a file is checked against.

/// The directories above a path are its parent, the parent of that, and so on.
pub proof fn ancestors_are_parents(path: FilePathView, distance: int)
    requires
        0 <= distance < path.segments.len(),
    ensures
        distance == 0 ==> path.parent() == Some(path.ancestor(0)),
        distance > 0 ==> path.ancestor(distance - 1).parent() == Some(path.ancestor(distance)),
        distance == path.segments.len() - 1 ==> path.ancestor(distance).parent() is None,
{
    let segments = path.segments;
    if distance == 0 {
        assert(segments.take(segments.len() - 1) =~= segments.drop_last());
    } else {
        assert(segments.take(segments.len() - distance).drop_last() =~= segments.take(
            segments.len() - 1 - distance,
        ));
    }
}

/// The search finds the first candidate, from the nearest directory up, that is a file.
pub proof fn search_finds_the_nearest(path: FilePathView, is_file: Seq<bool>, distance: int)
    requires
        0 <= distance < is_file.len(),
        distance < path.segments.len(),
        is_file[distance],
        forall|i: int| 0 <= i < distance ==> !is_file[i],
    ensures
        search(path, is_file) == SearchView::Found(path.candidate(distance)),
{
    lemma_search_skips(path, is_file, 0, distance);
}

/// The search comes to nothing exactly where every candidate is known to be no file, and it asks
/// for the next candidate, and no other, while all that it knows are none.
pub proof fn search_asks_in_order(path: FilePathView, is_file: Seq<bool>)
    requires
        forall|i: int| 0 <= i < is_file.len() ==> !is_file[i],
    ensures
        is_file.len() >= path.segments.len() ==> search(path, is_file) == SearchView::Missing,
        is_file.len() < path.segments.len() ==> search(path, is_file) == SearchView::Probe(
            path.candidate(is_file.len() as int),
        ),
{
    if is_file.len() >= path.segments.len() {
        lemma_search_skips(path, is_file, 0, path.segments.len() as int);
    } else {
        lemma_search_skips(path, is_file, 0, is_file.len() as int);
    }
}

proof fn lemma_search_skips(path: FilePathView, is_file: Seq<bool>, from: int, to: int)
    requires
        0 <= from <= to <= is_file.len(),
        to <= path.segments.len(),
        forall|i: int| from <= i < to ==> !is_file[i],
    ensures
        search_from(path, is_file, from) == search_from(path, is_file, to),
    decreases to - from,
{
    if from < to {
        lemma_search_skips(path, is_file, from + 1, to);
    }
}

/// Whether one of the reads succeeded with `name` among its declarations of one kind.
pub open spec fn some_read_declares(
    reads: Seq<PackageReadView>,
    kind: spec_fn(DependencyFieldsView) -> Set<Seq<char>>,
    name: Seq<char>,
) -> bool {
    exists|i: int|
        0 <= i < reads.len() && (#[trigger] reads[i]).package is Ok && kind(
            reads[i].package->Ok_0.0,
        ).contains(name)
}

/// The gathered declarations are exactly those of the `package.json` files that could be read,
/// in whatever order they come.
pub proof fn gathered_declarations_are_those_read(
    reads: Seq<PackageReadView>,
    only_one: bool,
    name: Seq<char>,
)
    requires
        gathered(reads, only_one) is Ok,
    ensures
        ({
            let fields = gathered(reads, only_one)->Ok_0.dependencies;
            &&& fields.dependencies.contains(name) == some_read_declares(
                reads,
                |read: DependencyFieldsView| read.dependencies,
                name,
            )
            &&& fields.dev_dependencies.contains(name) == some_read_declares(
                reads,
                |read: DependencyFieldsView| read.dev_dependencies,
                name,
            )
            &&& fields.optional_dependencies.contains(name) == some_read_declares(
                reads,
                |read: DependencyFieldsView| read.optional_dependencies,
                name,
            )
            &&& fields.peer_dependencies.contains(name) == some_read_declares(
                reads,
                |read: DependencyFieldsView| read.peer_dependencies,
                name,
            )
            &&& fields.bundled_dependencies.contains(name) == some_read_declares(
                reads,
                |read: DependencyFieldsView| read.bundled_dependencies,
                name,
            )
        }),
    decreases reads.len(),
{
    if reads.len() > 0 {
        gathered_declarations_are_those_read(reads.drop_last(), only_one, name);
        lemma_some_read_step(reads, |read: DependencyFieldsView| read.dependencies, name);
        lemma_some_read_step(reads, |read: DependencyFieldsView| read.dev_dependencies, name);
        lemma_some_read_step(reads, |read: DependencyFieldsView| read.optional_dependencies, name);
        lemma_some_read_step(reads, |read: DependencyFieldsView| read.peer_dependencies, name);
        lemma_some_read_step(reads, |read: DependencyFieldsView| read.bundled_dependencies, name);
    }
}

proof fn lemma_some_read_step(
    reads: Seq<PackageReadView>,
    kind: spec_fn(DependencyFieldsView) -> Set<Seq<char>>,
    name: Seq<char>,
)
    requires
        reads.len() > 0,
    ensures
        some_read_declares(reads, kind, name) == (some_read_declares(
            reads.drop_last(),
            kind,
            name,
        ) || (reads.last().package is Ok && kind(reads.last().package->Ok_0.0).contains(name))),
{
    let before = reads.drop_last();
    if some_read_declares(before, kind, name) {
        let i = choose|i: int|
            0 <= i < before.len() && (#[trigger] before[i]).package is Ok && kind(
                before[i].package->Ok_0.0,
            ).contains(name);
        assert(reads[i] == before[i]);
    }
    if some_read_declares(reads, kind, name) {
        let i = choose|i: int|
            0 <= i < reads.len() && (#[trigger] reads[i]).package is Ok && kind(
                reads[i].package->Ok_0.0,
            ).contains(name);
        if i < before.len() {
            assert(before[i] == reads[i]);
        }
    }
}

/// Without a `package.json` above the file, and without directories in the options, there is
/// nothing to report.
pub proof fn without_package_json_nothing_is_reported(
    config: NoExtraneousDependenciesConfig,
    context: LintContext,
    world: World,
)
    requires
        configured_directories(config.package_dir).len() == 0,
        world.nearest(context.file_path@) is None,
    ensures
        lint(config, context, world) == Seq::<DiagnosticView>::empty(),
{
    assert(world.reads(seq![]) =~= seq![]);
}

/// One directory in the options that has no `package.json` is reported, and nothing else is.
pub proof fn only_missing_package_json_is_reported(
    config: NoExtraneousDependenciesConfig,
    context: LintContext,
    world: World,
)
    requires
        configured_directories(config.package_dir).len() == 1,
        package_read((world.content)(used_paths(config, context, world)[0])) is Err,
        !(world.exists)(used_paths(config, context, world)[0]),
    ensures
        lint(config, context, world) == seq![package_error_report(PackageErrorView::NotFound)],
{
    let reads = world.reads(used_paths(config, context, world));
    assert(reads.drop_last() =~= seq![]);
    assert(gathered(reads.drop_last(), true) is Ok);
}

/// A `package.json` that exists and cannot be read is reported, and nothing else is, where every
/// one before it could be read or does not exist.
pub proof fn unreadable_package_json_is_reported(
    config: NoExtraneousDependenciesConfig,
    context: LintContext,
    world: World,
    index: int,
)
    requires
        0 <= index < used_paths(config, context, world).len(),
        forall|i: int|
            0 <= i < index ==> package_read(
                (world.content)(#[trigger] used_paths(config, context, world)[i]),
            ) is Ok || !(world.exists)(used_paths(config, context, world)[i]),
        package_read((world.content)(used_paths(config, context, world)[index])) is Err,
        (world.exists)(used_paths(config, context, world)[index]),
    ensures
        lint(config, context, world) == seq![
            package_error_report(
                PackageErrorView::Unparsable(
                    package_read((world.content)(used_paths(config, context, world)[index]))->Err_0,
                ),
            ),
        ],
{
    let reads = world.reads(used_paths(config, context, world));
    let only_one = configured_directories(config.package_dir).len() == 1;
    let paths = used_paths(config, context, world);
    assert forall|i: int| 0 <= i < index implies (#[trigger] reads[i]).package is Ok || (
    !reads[i].exists && !only_one) by {
        assert(reads[i] == world.read(paths[i]));
    }
    lemma_passable_reads_gather(reads, only_one, index);
    assert(reads.take(index + 1).drop_last() =~= reads.take(index));
    assert(reads.take(index + 1).last() == world.read(paths[index]));
    lemma_first_failure_stays(reads, index + 1, only_one);
}

proof fn lemma_passable_reads_gather(reads: Seq<PackageReadView>, only_one: bool, count: int)
    requires
        0 <= count <= reads.len(),
        forall|i: int|
            0 <= i < count ==> (#[trigger] reads[i]).package is Ok || (!reads[i].exists
                && !only_one),
    ensures
        gathered(reads.take(count), only_one) is Ok,
    decreases count,
{
    if count > 0 {
        lemma_passable_reads_gather(reads, only_one, count - 1);
        assert(reads.take(count).drop_last() =~= reads.take(count - 1));
        assert(reads.take(count).last() == reads[count - 1]);
    }
}

/// Several directories in the options, none of which has a `package.json`, are not reported: the
/// file is checked against no declarations.
pub proof fn missing_package_json_files_declare_nothing(
    config: NoExtraneousDependenciesConfig,
    context: LintContext,
    world: World,
)
    requires
        configured_directories(config.package_dir).len() > 1,
        forall|i: int|
            0 <= i < used_paths(config, context, world).len() ==> {
                &&& package_read(
                    (world.content)(#[trigger] used_paths(config, context, world)[i]),
                ) is Err
                &&& !(world.exists)(used_paths(config, context, world)[i])
            },
    ensures
        lint(config, context, world) == node_reports(
            config,
            context,
            world,
            DependencyFieldsView::empty(),
            0,
        ),
{
    let paths = used_paths(config, context, world);
    let reads = world.reads(paths);
    assert forall|i: int| 0 <= i < reads.len() implies (#[trigger] reads[i]).package is Err
        && !reads[i].exists by {
        assert(reads[i] == world.read(paths[i]));
    }
    lemma_missing_reads_gather_nothing(reads);
}

proof fn lemma_missing_reads_gather_nothing(reads: Seq<PackageReadView>)
    requires
        forall|i: int|
            0 <= i < reads.len() ==> (#[trigger] reads[i]).package is Err && !reads[i].exists,
    ensures
        gathered(reads, false) == Ok::<PackageDataView, PackageErrorView>(
            PackageDataView::empty(),
        ),
    decreases reads.len(),
{
    if reads.len() > 0 {
        let before = reads.drop_last();
        assert forall|i: int| 0 <= i < before.len() implies (#[trigger] before[i]).package is Err
            && !before[i].exists by {
            assert(before[i] == reads[i]);
        }
        lemma_missing_reads_gather_nothing(before);
        assert(reads.last() == reads[reads.len() - 1]);
    }
}

/// The reports depend on the directories that the options name, not on how they are written: a
/// list of one directory is that directory, and an empty list is none.
pub proof fn package_dir_counts_by_its_directories(
    left: Option<PackageDir>,
    right: Option<PackageDir>,
    config: NoExtraneousDependenciesConfig,
    context: LintContext,
    world: World,
)
    requires
        configured_directories(left) == configured_directories(right),
    ensures
        lint(
            NoExtraneousDependenciesConfig { package_dir: left, ..config },
            context,
            world,
        ) == lint(
            NoExtraneousDependenciesConfig { package_dir: right, ..config },
            context,
            world,
        ),
{
    let one = NoExtraneousDependenciesConfig { package_dir: left, ..config };
    let other = NoExtraneousDependenciesConfig { package_dir: right, ..config };
    assert(used_paths(one, context, world) == used_paths(other, context, world));
    let reads = world.reads(used_paths(one, context, world));
    if let Ok(data) = gathered_data(left, context.cwd@, reads) {
        lemma_nodes_ignore_package_dir(
            left,
            right,
            config,
            context,
            world,
            data.dependencies,
            0,
        );
    }
}

proof fn lemma_nodes_ignore_package_dir(
    left: Option<PackageDir>,
    right: Option<PackageDir>,
    config: NoExtraneousDependenciesConfig,
    context: LintContext,
    world: World,
    dependencies: DependencyFieldsView,
    node: int,
)
    ensures
        node_reports(
            NoExtraneousDependenciesConfig { package_dir: left, ..config },
            context,
            world,
            dependencies,
            node,
        ) == node_reports(
            NoExtraneousDependenciesConfig { package_dir: right, ..config },
            context,
            world,
            dependencies,
            node,
        ),
    decreases context.nodes@.len() - node,
{
    if node < context.nodes@.len() {
        lemma_nodes_ignore_package_dir(
            left,
            right,
            config,
            context,
            world,
            dependencies,
            node + 1,
        );
    }
}

/// A list of one directory is that directory, and an empty list is none.
pub proof fn package_dir_forms(path: FilePath, one: Vec<FilePath>, none: Vec<FilePath>)
    requires
        one@ == seq![path],
        none@.len() == 0,
    ensures
        configured_directories(Some(PackageDir::Many(one))) == configured_directories(
            Some(PackageDir::One(path)),
        ),
        configured_directories(Some(PackageDir::Many(none))) == configured_directories(None),
{
    assert(path_views(one@) =~= seq![path@]);
    assert(path_views(none@) =~= seq![]);
}

// Sessions.

/// A session that has ended stays as it is.
pub proof fn finished_session_stays(
    config: NoExtraneousDependenciesConfig,
    context: LintContext,
    session: SessionView,
    event: EventView,
)
    requires
        session.stage is Finished,
    ensures
        advanced(config, context, session, event) == session,
        pending(config, context, session) is Finish,
{
}

/// Whether a session needs something unless it has ended.
pub open spec fn under_way_or_finished(
    config: NoExtraneousDependenciesConfig,
    context: LintContext,
    session: SessionView,
) -> bool {
    (session.stage is Finished) == (pending(config, context, session) is Finish)
}

/// A session never gets stuck: at its start and after every event it needs something, or it has
/// ended.
pub proof fn session_never_gets_stuck(
    config: NoExtraneousDependenciesConfig,
    context: LintContext,
    session: SessionView,
    event: EventView,
)
    ensures
        under_way_or_finished(config, context, started(config, context)),
        under_way_or_finished(config, context, session) ==> under_way_or_finished(
            config,
            context,
            advanced(config, context, session, event),
        ),
{
    if configured_directories(config.package_dir).len() > 0 {
        lemma_reading_is_live(
            config,
            context,
            configured_paths(config.package_dir, context.cwd@),
            seq![],
        );
    } else {
        lemma_locating_is_live(config, context, seq![]);
    }
    match (session.stage, event) {
        (StageView::Locating { is_file }, EventView::IsFile(answer)) => {
            lemma_locating_is_live(config, context, is_file.push(answer));
        },
        (StageView::Reading { current, rest, reads }, EventView::Content(content)) => {
            let package = package_read(content);
            lemma_reading_is_live(
                config,
                context,
                rest,
                reads.push(PackageReadView { path: current, package, exists: true }),
            );
        },
        (StageView::Confirming { current, rest, reads, message }, EventView::Exists(exists)) => {
            let all = reads.push(
                PackageReadView { path: current, package: Err(message), exists },
            );
            lemma_reading_is_live(config, context, rest, all);
            lemma_concluded_is_live(
                config,
                context,
                gathered_data(config.package_dir, context.cwd@, all),
            );
        },
        (
            StageView::Checking { dependencies, node, resolved, is_file },
            EventView::Resolved(path),
        ) => {
            if 0 <= node {
                lemma_settled_is_live(
                    config,
                    context,
                    dependencies,
                    session.names,
                    node,
                    Some(path),
                    is_file,
                    session.reports,
                );
            }
        },
        (
            StageView::Checking { dependencies, node, resolved, is_file },
            EventView::IsFile(answer),
        ) => {
            if 0 <= node {
                lemma_settled_is_live(
                    config,
                    context,
                    dependencies,
                    session.names,
                    node,
                    resolved,
                    is_file.push(answer),
                    session.reports,
                );
            }
        },
        (
            StageView::Checking { dependencies, node, resolved, is_file },
            EventView::Content(content),
        ) => {
            if let ActionView::ReadFile(path) = pending(config, context, session) {
                lemma_settled_is_live(
                    config,
                    context,
                    dependencies,
                    session.names.insert(path, name_read(content)),
                    node,
                    resolved,
                    is_file,
                    session.reports,
                );
            }
        },
        _ => {},
    }
}

proof fn lemma_settled_is_live(
    config: NoExtraneousDependenciesConfig,
    context: LintContext,
    dependencies: DependencyFieldsView,
    names: Map<FilePathView, Option<Seq<char>>>,
    node: int,
    resolved: Option<Option<FilePathView>>,
    is_file: Seq<bool>,
    reports: Seq<DiagnosticView>,
)
    requires
        0 <= node,
    ensures
        under_way_or_finished(
            config,
            context,
            settled(config, context, dependencies, names, node, resolved, is_file, reports),
        ),
    decreases context.nodes@.len() - node,
{
    if node < context.nodes@.len() {
        match module_step(
            config,
            context,
            dependencies,
            names,
            context.nodes@[node],
            resolved,
            is_file,
        ) {
            ModuleStepView::Ask(_) => {},
            ModuleStepView::Pass => {
                lemma_settled_is_live(
                    config,
                    context,
                    dependencies,
                    names,
                    node + 1,
                    None,
                    seq![],
                    reports,
                );
            },
            ModuleStepView::Report(report) => {
                lemma_settled_is_live(
                    config,
                    context,
                    dependencies,
                    names,
                    node + 1,
                    None,
                    seq![],
                    reports.push(report),
                );
            },
        }
    }
}

proof fn lemma_concluded_is_live(
    config: NoExtraneousDependenciesConfig,
    context: LintContext,
    data: Result<PackageDataView, PackageErrorView>,
)
    ensures
        under_way_or_finished(config, context, concluded(config, context, data)),
{
    if let Ok(data) = data {
        lemma_settled_is_live(
            config,
            context,
            data.dependencies,
            no_package_names(),
            0,
            None,
            seq![],
            seq![],
        );
    }
}

proof fn lemma_reading_is_live(
    config: NoExtraneousDependenciesConfig,
    context: LintContext,
    rest: Seq<FilePathView>,
    reads: Seq<PackageReadView>,
)
    ensures
        under_way_or_finished(config, context, reading(config, context, rest, reads)),
{
    lemma_concluded_is_live(
        config,
        context,
        gathered_data(config.package_dir, context.cwd@, reads),
    );
}

proof fn lemma_locating_is_live(
    config: NoExtraneousDependenciesConfig,
    context: LintContext,
    is_file: Seq<bool>,
)
    ensures
        under_way_or_finished(config, context, locating(config, context, is_file)),
{
    match search(context.file_path@, is_file) {
        SearchView::Probe(_) => {},
        SearchView::Found(package_json) => {
            lemma_reading_is_live(config, context, seq![package_json], seq![]);
        },
        SearchView::Missing => {
            lemma_reading_is_live(config, context, seq![], seq![]);
        },
    }
}

/// Whether an event answers what a session needs.
pub open spec fn answers(action: ActionView, event: EventView) -> bool {
    match action {
        ActionView::ProbeFile(_) => event is IsFile,
        ActionView::ReadFile(_) => event is Content,
        ActionView::ProbeExists(_) => event is Exists,
        ActionView::Resolve(_) => event is Resolved,
        ActionView::Finish => false,
    }
}

/// An event that does not answer what a session needs changes nothing.
pub proof fn stray_event_changes_nothing(
    config: NoExtraneousDependenciesConfig,
    context: LintContext,
    session: SessionView,
    event: EventView,
)
    requires
        !answers(pending(config, context, session), event),
    ensures
        advanced(config, context, session, event) == session,
{
}

/// While nodes are checked, a `package.json` is read at most once for the name of its package.
pub proof fn package_name_is_read_once(
    config: NoExtraneousDependenciesConfig,
    context: LintContext,
    session: SessionView,
)
    requires
        session.stage is Checking,
        pending(config, context, session) is ReadFile,
    ensures
        !session.names.contains_key(pending(config, context, session)->ReadFile_0),
{
}

/// While nodes are checked, reports are never taken back: those of a session come first among
/// those of the next.
pub proof fn reports_only_grow(
    config: NoExtraneousDependenciesConfig,
    context: LintContext,
    session: SessionView,
    event: EventView,
)
    requires
        session.stage is Checking,
    ensures
        session.reports.is_prefix_of(advanced(config, context, session, event).reports),
{
    let next = advanced(config, context, session, event);
    if let StageView::Checking { dependencies, node, resolved, is_file } = session.stage {
        match (pending(config, context, session), event) {
            (ActionView::Resolve(_), EventView::Resolved(path)) => {
                lemma_settled_reports(
                    config,
                    context,
                    dependencies,
                    session.names,
                    node,
                    Some(path),
                    is_file,
                    session.reports,
                );
            },
            (ActionView::ProbeFile(_), EventView::IsFile(answer)) => {
                lemma_settled_reports(
                    config,
                    context,
                    dependencies,
                    session.names,
                    node,
                    resolved,
                    is_file.push(answer),
                    session.reports,
                );
            },
            (ActionView::ReadFile(path), EventView::Content(content)) => {
                lemma_settled_reports(
                    config,
                    context,
                    dependencies,
                    session.names.insert(path, name_read(content)),
                    node,
                    resolved,
                    is_file,
                    session.reports,
                );
            },
            _ => {},
        }
    }
}

proof fn lemma_settled_reports(
    config: NoExtraneousDependenciesConfig,
    context: LintContext,
    dependencies: DependencyFieldsView,
    names: Map<FilePathView, Option<Seq<char>>>,
    node: int,
    resolved: Option<Option<FilePathView>>,
    is_file: Seq<bool>,
    reports: Seq<DiagnosticView>,
)
    ensures
        reports.is_prefix_of(
            settled(
                config,
                context,
                dependencies,
                names,
                node,
                resolved,
                is_file,
                reports,
            ).reports,
        ),
    decreases context.nodes@.len() - node,
{
    if node < context.nodes@.len() {
        match module_step(
            config,
            context,
            dependencies,
            names,
            context.nodes@[node],
            resolved,
            is_file,
        ) {
            ModuleStepView::Ask(_) => {},
            ModuleStepView::Pass => {
                lemma_settled_reports(
                    config,
                    context,
                    dependencies,
                    names,
                    node + 1,
                    None,
                    seq![],
                    reports,
                );
            },
            ModuleStepView::Report(report) => {
                lemma_settled_reports(
                    config,
                    context,
                    dependencies,
                    names,
                    node + 1,
                    None,
                    seq![],
                    reports.push(report),
                );
                let all = settled(
                    config,
                    context,
                    dependencies,
                    names,
                    node + 1,
                    None,
                    seq![],
                    reports.push(report),
                ).reports;
                assert(reports =~= all.subrange(0, reports.len() as int)) by {
                    assert(reports.push(report) =~= all.subrange(0, reports.len() as int + 1));
                    assert forall|i: int| 0 <= i < reports.len() implies reports[i] == all[i] by {
                        assert(reports.push(report)[i] == all.subrange(
                            0,
                            reports.len() as int + 1,
                        )[i]);
                    }
                }
            },
        }
    }
}

} // verus!
