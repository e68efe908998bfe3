//! Whether the use of a package is reported, and in which words.
use crate::collections::{contains_name, set_contents};
use crate::config::{
    config_sized, forbids, forbids_development, is_development_forbidden, is_forbidden,
    NoExtraneousDependenciesConfig,
};
use crate::glob::PathTexts;
use crate::module::{
    declaration_status, declared_status, module_name, named_module, DeclarationStatus,
};
use crate::package::{DependencyFields, DependencyFieldsView, PackageError, PackageErrorView};
use crate::syntax::{Reference, ReferenceView, Span};
use crate::text::{optional_text, same_text};
use rustc_hash::FxHashSet;
use vstd::prelude::*;
use vstd::string::*;

verus! {

/// A warning: what it says, how to mend it, and where it points.
#[derive(Debug, Clone)]
pub struct Diagnostic {
    pub message: String,
    pub help: Option<String>,
    pub span: Option<Span>,
}

/// The contents of a [`Diagnostic`].
#[verifier::ext_equal]
pub struct DiagnosticView {
    pub message: Seq<char>,
    pub help: Option<Seq<char>>,
    pub span: Option<Span>,
}

impl View for Diagnostic {
    type V = DiagnosticView;

    open spec fn view(&self) -> DiagnosticView {
        DiagnosticView {
            message: self.message@,
            help: optional_text(self.help),
            span: self.span,
        }
    }
}

/// Whether a package with the given declarations may be used in the file that `texts` tells of:
/// it is a dependency, or a kind that it is declared as is not forbidden there. Development
/// dependencies are forbidden unless an option allows them, the other kinds where one forbids them.
pub open spec fn declared(
    status: DeclarationStatus,
    config: NoExtraneousDependenciesConfig,
    texts: PathTexts,
) -> bool {
    ||| status.dependencies
    ||| status.dev_dependencies && !forbids_development(config.dev_dependencies, texts)
    ||| status.optional_dependencies && !forbids(config.optional_dependencies, texts)
    ||| status.peer_dependencies && !forbids(config.peer_dependencies, texts)
    ||| status.bundled_dependencies && !forbids(config.bundled_dependencies, texts)
}

/// Whether a package with the given declarations may be used in the file that `texts` tells of.
pub fn is_declared(
    status: DeclarationStatus,
    config: &NoExtraneousDependenciesConfig,
    texts: &PathTexts,
) -> (declared: bool)
    requires
        config_sized(*config, *texts),
    ensures
        declared == self::declared(status, *config, *texts),
{
    status.dependencies || (status.dev_dependencies && !is_development_forbidden(
        &config.dev_dependencies,
        texts,
    )) || (status.optional_dependencies && !is_forbidden(&config.optional_dependencies, texts)) || (
    status.peer_dependencies && !is_forbidden(&config.peer_dependencies, texts)) || (
    status.bundled_dependencies && !is_forbidden(&config.bundled_dependencies, texts))
}

/// The kinds of declarations that a module has under the name that the file gives its package,
/// and under the name that the package gives itself, where that is known.
pub open spec fn module_status(
    dependencies: DependencyFieldsView,
    source_name: Seq<char>,
    real_name: Option<Seq<char>>,
) -> DeclarationStatus {
    match real_name {
        Some(name) => declared_status(dependencies, source_name).either(
            declared_status(dependencies, name),
        ),
        None => declared_status(dependencies, source_name),
    }
}

/// What a report on an undeclared package says and how it can be mended.
pub open spec fn report_texts(
    status: DeclarationStatus,
    config: NoExtraneousDependenciesConfig,
    texts: PathTexts,
) -> (Seq<char>, Seq<char>) {
    if status.dev_dependencies && forbids_development(config.dev_dependencies, texts) {
        (
            "' should be listed in the project's dependencies, not devDependencies."@,
            "Move the package from devDependencies to dependencies."@,
        )
    } else if status.optional_dependencies && forbids(config.optional_dependencies, texts) {
        (
            "' should be listed in the project's dependencies, not optionalDependencies."@,
            "Move the package from optionalDependencies to dependencies."@,
        )
    } else {
        (
            "' should be listed in the project's dependencies."@,
            "Add the package to dependencies with `npm install`."@,
        )
    }
}

/// The report on the use of a package at `span`.
pub open spec fn report(
    name: Seq<char>,
    texts: (Seq<char>, Seq<char>),
    span: Span,
) -> DiagnosticView {
    DiagnosticView { message: "'"@ + name + texts.0, help: Some(texts.1), span: Some(span) }
}

/// The report on a reference to a module, if there is one. `real_name` is the name that the
/// package gives itself, where that is known.
pub open spec fn judged(
    config: NoExtraneousDependenciesConfig,
    texts: PathTexts,
    whitelist: Set<Seq<char>>,
    dependencies: DependencyFieldsView,
    reference: ReferenceView,
    real_name: Option<Seq<char>>,
) -> Option<DiagnosticView> {
    let source_name = named_module(reference.source);
    let status = module_status(dependencies, source_name, real_name);
    let package_name = match real_name {
        Some(name) => name,
        None => source_name,
    };
    if declared(status, config, texts) || whitelist.contains(package_name) {
        None
    } else {
        Some(report(package_name, report_texts(status, config, texts), reference.span))
    }
}

/// The contents of an optional diagnostic.
pub open spec fn optional_diagnostic(diagnostic: Option<Diagnostic>) -> Option<DiagnosticView> {
    match diagnostic {
        Some(diagnostic) => Some(diagnostic@),
        None => None,
    }
}

/// A report on the use of the package `name` at `span`.
fn diagnostic(span: Span, name: &str, message: &str, help: &str) -> (diagnostic: Diagnostic)
    ensures
        diagnostic@ == report(name@, (message@, help@), span),
{
    let mut text = "'".to_owned();
    text.append(name);
    text.append(message);
    Diagnostic { message: text, help: Some(help.to_owned()), span: Some(span) }
}

/// The report on a reference to a module, if there is one.
pub fn judge(
    config: &NoExtraneousDependenciesConfig,
    texts: &PathTexts,
    whitelist: &FxHashSet<String>,
    dependencies: &DependencyFields,
    reference: &Reference,
    real_name: &Option<String>,
) -> (report: Option<Diagnostic>)
    requires
        config_sized(*config, *texts),
    ensures
        optional_diagnostic(report) == judged(
            *config,
            *texts,
            set_contents(*whitelist),
            dependencies@,
            reference@,
            optional_text(*real_name),
        ),
{
    let source_name = module_name(reference.source.as_str());
    let source_status = declaration_status(dependencies, source_name);
    let (package_name, real_status) = match real_name {
        Some(name) => if same_text(name.as_str(), source_name) {
            (name.as_str(), DeclarationStatus::default())
        } else {
            (name.as_str(), declaration_status(dependencies, name.as_str()))
        },
        None => (source_name, DeclarationStatus::default()),
    };
    let status = source_status.or(real_status);
    assert(status == module_status(dependencies@, source_name@, optional_text(*real_name)));
    if is_declared(status, config, texts) || contains_name(whitelist, package_name) {
        return None;
    }
    if status.dev_dependencies && is_development_forbidden(&config.dev_dependencies, texts) {
        Some(
            diagnostic(
                reference.span,
                package_name,
                "' should be listed in the project's dependencies, not devDependencies.",
                "Move the package from devDependencies to dependencies.",
            ),
        )
    } else if status.optional_dependencies && is_forbidden(&config.optional_dependencies, texts) {
        Some(
            diagnostic(
                reference.span,
                package_name,
                "' should be listed in the project's dependencies, not optionalDependencies.",
                "Move the package from optionalDependencies to dependencies.",
            ),
        )
    } else {
        Some(
            diagnostic(
                reference.span,
                package_name,
                "' should be listed in the project's dependencies.",
                "Add the package to dependencies with `npm install`.",
            ),
        )
    }
}

/// The report that the declarations could not be gathered.
pub open spec fn package_error_report(error: PackageErrorView) -> DiagnosticView {
    DiagnosticView {
        message: match error {
            PackageErrorView::NotFound => "The package.json file could not be found."@,
            PackageErrorView::Unparsable(message) => {
                "The package.json file could not be parsed: "@ + message
            },
        },
        help: None,
        span: None,
    }
}

/// The report that the declarations could not be gathered.
pub fn package_error_diagnostic(error: PackageError) -> (diagnostic: Diagnostic)
    ensures
        diagnostic@ == package_error_report(error@),
{
    let message = match error {
        PackageError::NotFound => "The package.json file could not be found.".to_owned(),
        PackageError::Unparsable(message) => {
            let mut text = "The package.json file could not be parsed: ".to_owned();
            text.append(message.as_str());
            text
        },
    };
    Diagnostic { message, help: None, span: None }
}

} // verus!
