//! The check of one node of a file, as far as the answers so far allow.
use crate::collections::{
    name_set, set_contents, table_contents, table_get, table_insert, PackageNames,
};
use crate::config::{config_sized, NoExtraneousDependencies, NoExtraneousDependenciesConfig};
use crate::glob::PathTexts;
use crate::json::{Json, JsonView};
use crate::module::{
    core_module, internal, internal_pattern, internal_regex, is_core_module, is_internal,
    settings_view,
};
use crate::package::{
    content_view, package_read, read_package, DependencyFields, DependencyFieldsView,
};
use crate::path::{
    nearest_package_json, optional_path, search, FilePath, FilePathView, Search, SearchView,
};
use crate::syntax::{module_reference, node_reference, Node, Reference, ReferenceView};
use crate::text::{optional_text, same_text, texts};
use crate::verdict::{judge, judged, Diagnostic, DiagnosticView};
use rustc_hash::FxHashSet;
use vstd::prelude::*;

verus! {

/// A module that the linter has loaded: the text that names it, and the file that it is.
#[derive(Debug)]
pub struct LoadedModule {
    pub specifier: String,
    pub path: FilePath,
}

/// The file that is checked, and what the linter knows of it.
#[derive(Debug)]
pub struct LintContext {
    /// The path of the file.
    pub file_path: FilePath,
    /// The directory that the linter works in.
    pub cwd: FilePath,
    /// The texts that glob options are matched against.
    pub texts: PathTexts,
    /// The settings of the linter, an object.
    pub settings: Option<Json>,
    /// The modules that the file names and the linter has loaded.
    pub loaded_modules: Vec<LoadedModule>,
    /// The nodes of the file's syntax tree, in order.
    pub nodes: Vec<Node>,
}

/// What the session needs next.
#[derive(Debug)]
pub enum Action {
    /// Whether a path names a file.
    ProbeFile(FilePath),
    /// The text of a file.
    ReadFile(FilePath),
    /// Whether a path exists.
    ProbeExists(FilePath),
    /// The file that a module specifier resolves to, from the file that is checked.
    Resolve(String),
    /// Nothing: the diagnostics are complete.
    Finish,
}

/// The contents of an [`Action`].
pub enum ActionView {
    ProbeFile(FilePathView),
    ReadFile(FilePathView),
    ProbeExists(FilePathView),
    Resolve(Seq<char>),
    Finish,
}

impl View for Action {
    type V = ActionView;

    open spec fn view(&self) -> ActionView {
        match self {
            Action::ProbeFile(path) => ActionView::ProbeFile(path@),
            Action::ReadFile(path) => ActionView::ReadFile(path@),
            Action::ProbeExists(path) => ActionView::ProbeExists(path@),
            Action::Resolve(source) => ActionView::Resolve(source@),
            Action::Finish => ActionView::Finish,
        }
    }
}

/// The outcome of an [`Action`].
#[derive(Debug)]
pub enum Event {
    /// Whether the path names a file.
    IsFile(bool),
    /// The text of the file, or why it could not be read.
    Content(Result<String, String>),
    /// Whether the path exists.
    Exists(bool),
    /// The file that the specifier resolves to, if it resolves.
    Resolved(Option<FilePath>),
}

/// The contents of an [`Event`].
pub enum EventView {
    IsFile(bool),
    Content(Result<Seq<char>, Seq<char>>),
    Exists(bool),
    Resolved(Option<FilePathView>),
}

impl View for Event {
    type V = EventView;

    open spec fn view(&self) -> EventView {
        match self {
            Event::IsFile(answer) => EventView::IsFile(*answer),
            Event::Content(content) => EventView::Content(content_view(*content)),
            Event::Exists(answer) => EventView::Exists(*answer),
            Event::Resolved(path) => EventView::Resolved(optional_path(*path)),
        }
    }
}

/// The module that a node names, if it can need a declaration: types only count where the
/// options include them, and core modules never do.
pub open spec fn checked_reference(
    config: NoExtraneousDependenciesConfig,
    settings: Option<JsonView>,
    node: Node,
) -> Option<ReferenceView> {
    match node_reference(node) {
        Some(reference) => if (reference.is_type && !config.include_types) || core_module(
            settings,
            reference.source,
        ) {
            None
        } else {
            Some(reference)
        },
        None => None,
    }
}

/// The module that a node names, if it can need a declaration.
pub fn reference_to_check(
    config: &NoExtraneousDependenciesConfig,
    settings: &Option<Json>,
    node: &Node,
) -> (reference: Option<Reference>)
    ensures
        match reference {
            Some(reference) => checked_reference(*config, settings_view(*settings), *node) == Some(
                reference@,
            ),
            None => checked_reference(*config, settings_view(*settings), *node) is None,
        },
{
    match module_reference(node) {
        Some(reference) => if (reference.is_type && !config.include_types) || is_core_module(
            settings,
            reference.source.as_str(),
        ) {
            None
        } else {
            Some(reference)
        },
        None => None,
    }
}

/// The file of the first loaded module from the `from`-th on that `source` names.
pub open spec fn loaded_from(
    modules: Seq<LoadedModule>,
    source: Seq<char>,
    from: int,
) -> Option<FilePathView>
    decreases modules.len() - from,
{
    if from >= modules.len() {
        None
    } else if modules[from].specifier@ == source {
        Some(modules[from].path@)
    } else {
        loaded_from(modules, source, from + 1)
    }
}

/// The file that `source` resolves to, if that is known: that of the loaded module, or else the
/// answer of the resolver, where there is one.
pub open spec fn resolution(
    modules: Seq<LoadedModule>,
    source: Seq<char>,
    answer: Option<Option<FilePathView>>,
) -> Option<Option<FilePathView>> {
    match loaded_from(modules, source, 0) {
        Some(path) => Some(Some(path)),
        None => answer,
    }
}

/// The contents of an answer of the resolver.
pub open spec fn answer_view(answer: Option<Option<FilePath>>) -> Option<Option<FilePathView>> {
    match answer {
        Some(path) => Some(optional_path(path)),
        None => None,
    }
}

/// The file that `source` resolves to, if that is known.
pub fn resolve_module(
    modules: &Vec<LoadedModule>,
    source: &str,
    answer: &Option<Option<FilePath>>,
) -> (resolved: Option<Option<FilePath>>)
    ensures
        answer_view(resolved) == resolution(modules@, source@, answer_view(*answer)),
{
    for i in 0..modules.len()
        invariant
            loaded_from(modules@, source@, 0) == loaded_from(modules@, source@, i as int),
    {
        if same_text(modules[i].specifier.as_str(), source) {
            return Some(Some(modules[i].path.clone()));
        }
    }
    match answer {
        Some(Some(path)) => Some(Some(path.clone())),
        Some(None) => Some(None),
        None => None,
    }
}

/// What the search for the name of a package has come to.
#[derive(Debug)]
pub enum NameSearch {
    /// The next answer that the search needs: whether this path names a file.
    Probe(FilePath),
    /// The `package.json` that gives the name, which has not been read.
    Read(FilePath),
    /// The name, if the package has one.
    Known(Option<String>),
}

/// The contents of a [`NameSearch`].
pub enum NameSearchView {
    Probe(FilePathView),
    Read(FilePathView),
    Known(Option<Seq<char>>),
}

impl View for NameSearch {
    type V = NameSearchView;

    open spec fn view(&self) -> NameSearchView {
        match self {
            NameSearch::Probe(path) => NameSearchView::Probe(path@),
            NameSearch::Read(path) => NameSearchView::Read(path@),
            NameSearch::Known(name) => NameSearchView::Known(optional_text(*name)),
        }
    }
}

/// The search for the name of the package that the file `path` is part of. `is_file` holds the
/// answers on the `package.json` files above it, and `names` the names read so far.
pub open spec fn name_search(
    path: FilePathView,
    is_file: Seq<bool>,
    names: Map<FilePathView, Option<Seq<char>>>,
) -> NameSearchView {
    match search(path, is_file) {
        SearchView::Probe(candidate) => NameSearchView::Probe(candidate),
        SearchView::Found(package_json) => if names.contains_key(package_json) {
            NameSearchView::Known(names[package_json])
        } else {
            NameSearchView::Read(package_json)
        },
        SearchView::Missing => NameSearchView::Known(None),
    }
}

/// Searches for the name of the package that the file `path` is part of.
pub fn package_name(path: &FilePath, is_file: &Vec<bool>, names: &PackageNames) -> (found:
    NameSearch)
    ensures
        found@ == name_search(path@, is_file@, table_contents(*names)),
{
    match nearest_package_json(path, is_file) {
        Search::Probe(candidate) => NameSearch::Probe(candidate),
        Search::Found(package_json) => match table_get(names, &package_json) {
            Some(name) => NameSearch::Known(name),
            None => NameSearch::Read(package_json),
        },
        Search::Missing => NameSearch::Known(None),
    }
}

/// The name that a `package.json` gives the package; none where it cannot be read.
pub open spec fn name_read(content: Result<Seq<char>, Seq<char>>) -> Option<Seq<char>> {
    match package_read(content) {
        Ok((_, name)) => name,
        Err(_) => None,
    }
}

/// Keeps the name that the `package.json` at `path` gives the package.
pub fn remember_package_name(
    names: &mut PackageNames,
    path: FilePath,
    content: &Result<String, String>,
)
    ensures
        table_contents(*final(names)) == table_contents(*old(names)).insert(
            path@,
            name_read(content_view(*content)),
        ),
{
    let name = match read_package(content) {
        Ok((_, name)) => name,
        Err(_) => None,
    };
    table_insert(names, path, name);
}

/// What the check of one node has come to.
#[derive(Debug)]
pub enum ModuleStep {
    /// An outcome is needed first.
    Ask(Action),
    /// There is nothing to report.
    Pass,
    /// The node is reported.
    Report(Diagnostic),
}

/// The contents of a [`ModuleStep`].
pub enum ModuleStepView {
    Ask(ActionView),
    Pass,
    Report(DiagnosticView),
}

impl View for ModuleStep {
    type V = ModuleStepView;

    open spec fn view(&self) -> ModuleStepView {
        match self {
            ModuleStep::Ask(action) => ModuleStepView::Ask(action@),
            ModuleStep::Pass => ModuleStepView::Pass,
            ModuleStep::Report(diagnostic) => ModuleStepView::Report(diagnostic@),
        }
    }
}

/// The check of one node, as far as the answers so far allow. `resolved` is the answer of the
/// resolver, `is_file` the answers on `package.json` files above the resolved file, and `names`
/// the package names read so far.
pub open spec fn module_step(
    config: NoExtraneousDependenciesConfig,
    context: LintContext,
    dependencies: DependencyFieldsView,
    names: Map<FilePathView, Option<Seq<char>>>,
    node: Node,
    resolved: Option<Option<FilePathView>>,
    is_file: Seq<bool>,
) -> ModuleStepView {
    let settings = settings_view(context.settings);
    match checked_reference(config, settings, node) {
        None => ModuleStepView::Pass,
        Some(reference) => match resolution(
            context.loaded_modules@,
            reference.source,
            resolved,
        ) {
            None => ModuleStepView::Ask(ActionView::Resolve(reference.source)),
            Some(None) => ModuleStepView::Pass,
            Some(Some(path)) => if !config.include_internal && internal(
                reference.source,
                Some(path),
                internal_pattern(settings),
            ) {
                ModuleStepView::Pass
            } else {
                match name_search(path, is_file, names) {
                    NameSearchView::Probe(candidate) => ModuleStepView::Ask(
                        ActionView::ProbeFile(candidate),
                    ),
                    NameSearchView::Read(package_json) => ModuleStepView::Ask(
                        ActionView::ReadFile(package_json),
                    ),
                    NameSearchView::Known(name) => match judged(
                        config,
                        context.texts,
                        texts(config.whitelist@).to_set(),
                        dependencies,
                        reference,
                        name,
                    ) {
                        Some(report) => ModuleStepView::Report(report),
                        None => ModuleStepView::Pass,
                    },
                }
            },
        },
    }
}

/// The rule on one file: its options and the file, with the glob options known to be short
/// enough, and the set of the exempt packages.
pub struct LintJob {
    rule: NoExtraneousDependencies,
    context: LintContext,
    whitelist: FxHashSet<String>,
}

impl LintJob {
    #[verifier::type_invariant]
    spec fn well_formed(self) -> bool {
        &&& config_sized(*self.rule.0, self.context.texts)
        &&& set_contents(self.whitelist) == texts(self.rule.0.whitelist@).to_set()
    }

    /// The options.
    pub closed spec fn config(self) -> NoExtraneousDependenciesConfig {
        *self.rule.0
    }

    /// The file.
    pub closed spec fn context(self) -> LintContext {
        self.context
    }

    /// The rule on one file, unless a glob option is too long to be matched.
    pub fn new(rule: NoExtraneousDependencies, context: LintContext) -> (job: Option<LintJob>)
        ensures
            job is Some == config_sized(*rule.0, context.texts),
            job is Some ==> job->0.config() == *rule.0 && job->0.context() == context,
    {
        if !rule.0.is_sized(&context.texts) {
            return None;
        }
        let whitelist = name_set(&rule.0.whitelist);
        Some(LintJob { rule, context, whitelist })
    }

    /// The rule.
    pub fn rule(&self) -> (rule: &NoExtraneousDependencies)
        ensures
            *rule.0 == self.config(),
    {
        &self.rule
    }

    /// The file.
    pub fn file(&self) -> (context: &LintContext)
        ensures
            *context == self.context(),
    {
        &self.context
    }

    /// Checks one node, as far as the answers so far allow.
    pub fn check_module(
        &self,
        dependencies: &DependencyFields,
        names: &PackageNames,
        node: &Node,
        resolved: &Option<Option<FilePath>>,
        is_file: &Vec<bool>,
    ) -> (step: ModuleStep)
        ensures
            step@ == module_step(
                self.config(),
                self.context(),
                dependencies@,
                table_contents(*names),
                *node,
                answer_view(*resolved),
                is_file@,
            ),
    {
        proof {
            use_type_invariant(self);
        }
        let config = &self.rule.0;
        let settings = &self.context.settings;
        let reference = match reference_to_check(config, settings, node) {
            Some(reference) => reference,
            None => return ModuleStep::Pass,
        };
        let path = match resolve_module(
            &self.context.loaded_modules,
            reference.source.as_str(),
            resolved,
        ) {
            Some(path) => path,
            None => return ModuleStep::Ask(Action::Resolve(reference.source)),
        };
        if path.is_none() || (!config.include_internal && is_internal(
            reference.source.as_str(),
            &path,
            internal_regex(settings),
        )) {
            return ModuleStep::Pass;
        }
        let name = match package_name(path.as_ref().unwrap(), is_file, names) {
            NameSearch::Probe(candidate) => return ModuleStep::Ask(Action::ProbeFile(candidate)),
            NameSearch::Read(package_json) => return ModuleStep::Ask(
                Action::ReadFile(package_json),
            ),
            NameSearch::Known(name) => name,
        };
        match judge(
            config,
            &self.context.texts,
            &self.whitelist,
            dependencies,
            &reference,
            &name,
        ) {
            Some(report) => ModuleStep::Report(report),
            None => ModuleStep::Pass,
        }
    }
}

} // verus!
