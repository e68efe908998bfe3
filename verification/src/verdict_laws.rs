//! What holds of the judgement on one use of a package: which declarations count, and what a
//! report says.
use crate::config::{option_allows, NoExtraneousDependenciesConfig};
use crate::glob::PathTexts;
use crate::module::{declares, named_module, DeclarationStatus};
use crate::package::{DependencyFieldsView, PackageErrorView};
use crate::syntax::{ReferenceView, Span};
use crate::verdict::{
    declared, judged, module_status, package_error_report, report, report_texts, DiagnosticView,
};
use vstd::prelude::*;

verus! {

/// The name that a report gives a package: its own, where that is known, and else the one that
/// the file uses.
pub open spec fn reported_name(reference: ReferenceView, real_name: Option<Seq<char>>) -> Seq<
    char,
> {
    match real_name {
        Some(name) => name,
        None => named_module(reference.source),
    }
}

// Which declarations count.

/// The kinds of declarations count one by one: a package that has the kinds of two others may be
/// used exactly where one of those may, and one without any kind may be used nowhere.
pub proof fn kinds_count_one_by_one(
    left: DeclarationStatus,
    right: DeclarationStatus,
    config: NoExtraneousDependenciesConfig,
    texts: PathTexts,
)
    ensures
        declared(
            DeclarationStatus {
                dependencies: left.dependencies || right.dependencies,
                dev_dependencies: left.dev_dependencies || right.dev_dependencies,
                optional_dependencies: left.optional_dependencies || right.optional_dependencies,
                peer_dependencies: left.peer_dependencies || right.peer_dependencies,
                bundled_dependencies: left.bundled_dependencies || right.bundled_dependencies,
            },
            config,
            texts,
        ) == (declared(left, config, texts) || declared(right, config, texts)),
        !left.dependencies && !left.dev_dependencies && !left.optional_dependencies
            && !left.peer_dependencies && !left.bundled_dependencies ==> !declared(
            left,
            config,
            texts,
        ),
        left.dependencies ==> declared(left, config, texts),
{
}

/// Whether a package has one kind of declaration and no other.
pub open spec fn only(
    status: DeclarationStatus,
    dev: bool,
    optional: bool,
    peer: bool,
    bundled: bool,
) -> bool {
    &&& !status.dependencies
    &&& status.dev_dependencies == dev
    &&& status.optional_dependencies == optional
    &&& status.peer_dependencies == peer
    &&& status.bundled_dependencies == bundled
}

/// A package with a single kind of declaration may be used exactly where the option of that kind
/// lets it, whatever the other three options say: for development dependencies where the option
/// is set and allows the file, for the other kinds unless it is set and does not.
pub proof fn each_kind_has_its_own_option(
    status: DeclarationStatus,
    config: NoExtraneousDependenciesConfig,
    texts: PathTexts,
)
    ensures
        only(status, true, false, false, false) ==> declared(status, config, texts) == (
        config.dev_dependencies is Some && option_allows(config.dev_dependencies->0, texts)),
        only(status, false, true, false, false) ==> declared(status, config, texts) == (
        config.optional_dependencies is None || option_allows(
            config.optional_dependencies->0,
            texts,
        )),
        only(status, false, false, true, false) ==> declared(status, config, texts) == (
        config.peer_dependencies is None || option_allows(config.peer_dependencies->0, texts)),
        only(status, false, false, false, true) ==> declared(status, config, texts) == (
        config.bundled_dependencies is None || option_allows(
            config.bundled_dependencies->0,
            texts,
        )),
{
}

/// The option of a kind that a package is not declared as has no say in whether it is reported,
/// and neither have the other options.
pub proof fn options_of_other_kinds_have_no_say(
    config: NoExtraneousDependenciesConfig,
    other: NoExtraneousDependenciesConfig,
    texts: PathTexts,
    whitelist: Set<Seq<char>>,
    dependencies: DependencyFieldsView,
    reference: ReferenceView,
    real_name: Option<Seq<char>>,
)
    requires
        ({
            let status = module_status(dependencies, named_module(reference.source), real_name);
            &&& status.dev_dependencies ==> config.dev_dependencies == other.dev_dependencies
            &&& status.optional_dependencies ==> config.optional_dependencies
                == other.optional_dependencies
            &&& status.peer_dependencies ==> config.peer_dependencies == other.peer_dependencies
            &&& status.bundled_dependencies ==> config.bundled_dependencies
                == other.bundled_dependencies
        }),
    ensures
        judged(config, texts, whitelist, dependencies, reference, real_name) == judged(
            other,
            texts,
            whitelist,
            dependencies,
            reference,
            real_name,
        ),
{
}

/// A package that is only a peer dependency, and not exempt, is reported exactly where the option
/// for peer dependencies is set and does not allow the file, with the advice to add it.
pub proof fn peer_dependency_is_reported_where_forbidden(
    config: NoExtraneousDependenciesConfig,
    texts: PathTexts,
    whitelist: Set<Seq<char>>,
    dependencies: DependencyFieldsView,
    reference: ReferenceView,
    real_name: Option<Seq<char>>,
)
    requires
        only(
            module_status(dependencies, named_module(reference.source), real_name),
            false,
            false,
            true,
            false,
        ),
        !whitelist.contains(reported_name(reference, real_name)),
    ensures
        judged(config, texts, whitelist, dependencies, reference, real_name) is Some == (
        config.peer_dependencies is Some && !option_allows(config.peer_dependencies->0, texts)),
        judged(config, texts, whitelist, dependencies, reference, real_name) matches Some(found)
            ==> found.message == "'"@ + reported_name(reference, real_name)
            + "' should be listed in the project's dependencies."@,
{
}

/// A package that is only a bundled dependency, and not exempt, is reported exactly where the
/// option for bundled dependencies is set and does not allow the file, with the advice to add it.
pub proof fn bundled_dependency_is_reported_where_forbidden(
    config: NoExtraneousDependenciesConfig,
    texts: PathTexts,
    whitelist: Set<Seq<char>>,
    dependencies: DependencyFieldsView,
    reference: ReferenceView,
    real_name: Option<Seq<char>>,
)
    requires
        only(
            module_status(dependencies, named_module(reference.source), real_name),
            false,
            false,
            false,
            true,
        ),
        !whitelist.contains(reported_name(reference, real_name)),
    ensures
        judged(config, texts, whitelist, dependencies, reference, real_name) is Some == (
        config.bundled_dependencies is Some && !option_allows(
            config.bundled_dependencies->0,
            texts,
        )),
        judged(config, texts, whitelist, dependencies, reference, real_name) matches Some(found)
            ==> found.message == "'"@ + reported_name(reference, real_name)
            + "' should be listed in the project's dependencies."@,
{
}

/// A use is reported exactly where no kind of declaration lets the package be used and the
/// package is not exempt.
pub proof fn use_is_reported_unless_declared_or_exempt(
    config: NoExtraneousDependenciesConfig,
    texts: PathTexts,
    whitelist: Set<Seq<char>>,
    dependencies: DependencyFieldsView,
    reference: ReferenceView,
    real_name: Option<Seq<char>>,
)
    ensures
        judged(config, texts, whitelist, dependencies, reference, real_name) is None == (declared(
            module_status(dependencies, named_module(reference.source), real_name),
            config,
            texts,
        ) || whitelist.contains(reported_name(reference, real_name))),
{
}

/// The judgement depends on the name of the package alone: not on the path within it, nor on
/// whether the module is used for its types.
pub proof fn path_within_a_package_does_not_matter(
    config: NoExtraneousDependenciesConfig,
    texts: PathTexts,
    whitelist: Set<Seq<char>>,
    dependencies: DependencyFieldsView,
    left: ReferenceView,
    right: ReferenceView,
    real_name: Option<Seq<char>>,
)
    requires
        named_module(left.source) == named_module(right.source),
        left.span == right.span,
    ensures
        judged(config, texts, whitelist, dependencies, left, real_name) == judged(
            config,
            texts,
            whitelist,
            dependencies,
            right,
            real_name,
        ),
{
}

/// A module has a kind of declaration exactly where the field of that kind declares one of its
/// two names; where its own name is not known, the one that the file uses is both.
pub proof fn module_is_declared_under_either_name(
    dependencies: DependencyFieldsView,
    source_name: Seq<char>,
    name: Seq<char>,
)
    ensures
        module_status(dependencies, source_name, Some(name)) == module_status(
            dependencies,
            name,
            Some(source_name),
        ),
        module_status(dependencies, name, None) == module_status(dependencies, name, Some(name)),
        ({
            let status = module_status(dependencies, source_name, Some(name));
            &&& status.dependencies == (declares(dependencies.dependencies, source_name)
                || declares(dependencies.dependencies, name))
            &&& status.dev_dependencies == (declares(dependencies.dev_dependencies, source_name)
                || declares(dependencies.dev_dependencies, name))
            &&& status.optional_dependencies == (declares(
                dependencies.optional_dependencies,
                source_name,
            ) || declares(dependencies.optional_dependencies, name))
            &&& status.peer_dependencies == (declares(dependencies.peer_dependencies, source_name)
                || declares(dependencies.peer_dependencies, name))
            &&& status.bundled_dependencies == (declares(
                dependencies.bundled_dependencies,
                source_name,
            ) || declares(dependencies.bundled_dependencies, name))
        }),
{
}

// What a report says.

/// What a report says follows from the declarations of the package alone: a development
/// dependency is to be moved, else an optional dependency is, and any other package is to be
/// added. The report names the package and points at the text that names the module.
pub proof fn report_follows_from_the_declarations(
    config: NoExtraneousDependenciesConfig,
    texts: PathTexts,
    whitelist: Set<Seq<char>>,
    dependencies: DependencyFieldsView,
    reference: ReferenceView,
    real_name: Option<Seq<char>>,
)
    requires
        judged(config, texts, whitelist, dependencies, reference, real_name) is Some,
    ensures
        ({
            let found = judged(config, texts, whitelist, dependencies, reference, real_name)->0;
            let status = module_status(dependencies, named_module(reference.source), real_name);
            let start = "'"@ + reported_name(reference, real_name);
            &&& found.span == Some(reference.span)
            &&& status.dev_dependencies ==> {
                &&& found.message == start
                    + "' should be listed in the project's dependencies, not devDependencies."@
                &&& found.help == Some("Move the package from devDependencies to dependencies."@)
            }
            &&& !status.dev_dependencies && status.optional_dependencies ==> {
                &&& found.message == start
                    + "' should be listed in the project's dependencies, not optionalDependencies."@
                &&& found.help == Some(
                    "Move the package from optionalDependencies to dependencies."@,
                )
            }
            &&& !status.dev_dependencies && !status.optional_dependencies ==> {
                &&& found.message == start + "' should be listed in the project's dependencies."@
                &&& found.help == Some("Add the package to dependencies with `npm install`."@)
            }
        }),
{
}

/// What a report can say does not depend on kinds that are allowed: with every option set to
/// allow, any package is to be added.
pub proof fn allowed_kinds_are_not_spoken_of(
    status: DeclarationStatus,
    config: NoExtraneousDependenciesConfig,
    texts: PathTexts,
)
    requires
        status.dev_dependencies ==> config.dev_dependencies is Some && option_allows(
            config.dev_dependencies->0,
            texts,
        ),
        status.optional_dependencies ==> config.optional_dependencies is None || option_allows(
            config.optional_dependencies->0,
            texts,
        ),
    ensures
        report_texts(status, config, texts).0
            == "' should be listed in the project's dependencies."@,
        report_texts(status, config, texts).1
            == "Add the package to dependencies with `npm install`."@,
{
}

/// Reports on different packages, or at different places, differ.
pub proof fn reports_tell_packages_and_places_apart(
    left: Seq<char>,
    right: Seq<char>,
    texts: (Seq<char>, Seq<char>),
    here: Span,
    there: Span,
)
    requires
        report(left, texts, here) == report(right, texts, there),
    ensures
        left == right,
        here == there,
{
    let message = report(left, texts, here).message;
    reveal_strlit("'");
    let end = message.len() - texts.0.len();
    assert(left =~= message.subrange(1, end));
    assert(right =~= message.subrange(1, end));
}

/// A missing `package.json` and one that cannot be read are told apart, the latter with the
/// reason behind the words; neither report has advice or a place.
pub proof fn package_errors_say_what_is_wrong(reason: Seq<char>)
    ensures
        package_error_report(PackageErrorView::NotFound) == (DiagnosticView {
            message: "The package.json file could not be found."@,
            help: None,
            span: None,
        }),
        package_error_report(PackageErrorView::Unparsable(reason)) == (DiagnosticView {
            message: "The package.json file could not be parsed: "@ + reason,
            help: None,
            span: None,
        }),
{
}

} // verus!
