//! The check of a file as a dialogue: the session asks for one outcome after the other, and ends
//! with the diagnostics.
use crate::check::{
    answer_view, module_step, name_read, remember_package_name, Action, ActionView, Event,
    EventView, LintContext, LintJob, ModuleStep, ModuleStepView,
};
use crate::collections::{new_table, no_package_names, table_contents, PackageNames};
use crate::config::{config_sized, NoExtraneousDependencies, NoExtraneousDependenciesConfig};
use crate::package::{
    configured_count, configured_directories, configured_package_paths, configured_paths,
    content_view, data_view, failed_read, gathered_data, package_data, package_read, read_failure,
    read_package, read_views, DependencyFields, DependencyFieldsView, PackageData, PackageDataView,
    PackageError, PackageErrorView, PackageRead, PackageReadView,
};
use crate::path::{
    nearest_package_json, path_views, search, FilePath, FilePathView, Search, SearchView,
};
use crate::verdict::{package_error_diagnostic, package_error_report, Diagnostic, DiagnosticView};
use vstd::prelude::*;

verus! {

/// How far a session has come.
enum Stage {
    /// The nearest `package.json` is looked for.
    Locating { is_file: Vec<bool> },
    /// The text of a `package.json` is awaited.
    Reading { current: FilePath, rest: Vec<FilePath>, reads: Vec<PackageRead> },
    /// A `package.json` could not be read; it is awaited whether it exists.
    Confirming {
        current: FilePath,
        rest: Vec<FilePath>,
        reads: Vec<PackageRead>,
        message: String,
    },
    /// A node is checked.
    Checking {
        dependencies: DependencyFields,
        node: usize,
        resolved: Option<Option<FilePath>>,
        is_file: Vec<bool>,
    },
    /// The diagnostics are complete.
    Finished,
}

/// The contents of a stage of a session.
pub enum StageView {
    /// The nearest `package.json` is looked for: the answers so far.
    Locating { is_file: Seq<bool> },
    /// The text of the `package.json` at `current` is awaited; `rest` comes after it.
    Reading { current: FilePathView, rest: Seq<FilePathView>, reads: Seq<PackageReadView> },
    /// The `package.json` at `current` could not be read; it is awaited whether it exists.
    Confirming {
        current: FilePathView,
        rest: Seq<FilePathView>,
        reads: Seq<PackageReadView>,
        message: Seq<char>,
    },
    /// A node is checked: the answer of the resolver, and the answers on `package.json` files.
    Checking {
        dependencies: DependencyFieldsView,
        node: int,
        resolved: Option<Option<FilePathView>>,
        is_file: Seq<bool>,
    },
    /// The diagnostics are complete.
    Finished,
}

/// The contents of a session: its stage, the package names read so far, and the reports so far.
#[verifier::ext_equal]
pub struct SessionView {
    pub stage: StageView,
    pub names: Map<FilePathView, Option<Seq<char>>>,
    pub reports: Seq<DiagnosticView>,
}

/// The contents of a sequence of diagnostics.
pub open spec fn diagnostic_views(diagnostics: Seq<Diagnostic>) -> Seq<DiagnosticView> {
    Seq::new(diagnostics.len(), |i: int| diagnostics[i]@)
}

/// A session that has ended with the given reports.
pub open spec fn finished(
    names: Map<FilePathView, Option<Seq<char>>>,
    reports: Seq<DiagnosticView>,
) -> SessionView {
    SessionView { stage: StageView::Finished, names, reports }
}

/// The session that checks the nodes from the `node`-th on: it passes over those that need no
/// answer, and stays at the first that needs one.
pub open spec fn settled(
    config: NoExtraneousDependenciesConfig,
    context: LintContext,
    dependencies: DependencyFieldsView,
    names: Map<FilePathView, Option<Seq<char>>>,
    node: int,
    resolved: Option<Option<FilePathView>>,
    is_file: Seq<bool>,
    reports: Seq<DiagnosticView>,
) -> SessionView
    decreases context.nodes@.len() - node,
{
    if node >= context.nodes@.len() {
        finished(names, reports)
    } else {
        match module_step(
            config,
            context,
            dependencies,
            names,
            context.nodes@[node],
            resolved,
            is_file,
        ) {
            ModuleStepView::Ask(_) => SessionView {
                stage: StageView::Checking { dependencies, node, resolved, is_file },
                names,
                reports,
            },
            ModuleStepView::Pass => settled(
                config,
                context,
                dependencies,
                names,
                node + 1,
                None,
                seq![],
                reports,
            ),
            ModuleStepView::Report(report) => settled(
                config,
                context,
                dependencies,
                names,
                node + 1,
                None,
                seq![],
                reports.push(report),
            ),
        }
    }
}

/// The session once the declarations are gathered: an error is reported, without a
/// `package.json` nothing is checked, and else the nodes are.
pub open spec fn concluded(
    config: NoExtraneousDependenciesConfig,
    context: LintContext,
    data: Result<PackageDataView, PackageErrorView>,
) -> SessionView {
    match data {
        Err(error) => finished(no_package_names(), seq![package_error_report(error)]),
        Ok(data) => if data.package_root is None {
            finished(no_package_names(), seq![])
        } else {
            settled(
                config,
                context,
                data.dependencies,
                no_package_names(),
                0,
                None,
                seq![],
                seq![],
            )
        },
    }
}

/// The session that reads the `package.json` files `rest` after those that were read.
pub open spec fn reading(
    config: NoExtraneousDependenciesConfig,
    context: LintContext,
    rest: Seq<FilePathView>,
    reads: Seq<PackageReadView>,
) -> SessionView {
    if rest.len() == 0 {
        concluded(config, context, gathered_data(config.package_dir, context.cwd@, reads))
    } else {
        SessionView {
            stage: StageView::Reading { current: rest[0], rest: rest.drop_first(), reads },
            names: no_package_names(),
            reports: seq![],
        }
    }
}

/// The session that looks for the nearest `package.json`, with the answers so far.
pub open spec fn locating(
    config: NoExtraneousDependenciesConfig,
    context: LintContext,
    is_file: Seq<bool>,
) -> SessionView {
    match search(context.file_path@, is_file) {
        SearchView::Probe(_) => SessionView {
            stage: StageView::Locating { is_file },
            names: no_package_names(),
            reports: seq![],
        },
        SearchView::Found(package_json) => reading(config, context, seq![package_json], seq![]),
        SearchView::Missing => reading(config, context, seq![], seq![]),
    }
}

/// The session at its start.
pub open spec fn started(
    config: NoExtraneousDependenciesConfig,
    context: LintContext,
) -> SessionView {
    if configured_directories(config.package_dir).len() > 0 {
        reading(config, context, configured_paths(config.package_dir, context.cwd@), seq![])
    } else {
        locating(config, context, seq![])
    }
}

/// What a session needs next.
pub open spec fn pending(
    config: NoExtraneousDependenciesConfig,
    context: LintContext,
    session: SessionView,
) -> ActionView {
    match session.stage {
        StageView::Locating { is_file } => match search(context.file_path@, is_file) {
            SearchView::Probe(candidate) => ActionView::ProbeFile(candidate),
            _ => ActionView::Finish,
        },
        StageView::Reading { current, .. } => ActionView::ReadFile(current),
        StageView::Confirming { current, .. } => ActionView::ProbeExists(current),
        StageView::Checking { dependencies, node, resolved, is_file } => if 0 <= node
            < context.nodes@.len() {
            match module_step(
                config,
                context,
                dependencies,
                session.names,
                context.nodes@[node],
                resolved,
                is_file,
            ) {
                ModuleStepView::Ask(action) => action,
                _ => ActionView::Finish,
            }
        } else {
            ActionView::Finish
        },
        StageView::Finished => ActionView::Finish,
    }
}

/// The session after the answer to a read of a `package.json` that is checked against.
pub open spec fn after_read(
    config: NoExtraneousDependenciesConfig,
    context: LintContext,
    current: FilePathView,
    rest: Seq<FilePathView>,
    reads: Seq<PackageReadView>,
    content: Result<Seq<char>, Seq<char>>,
) -> SessionView {
    let package = package_read(content);
    match package {
        Ok(_) => reading(
            config,
            context,
            rest,
            reads.push(PackageReadView { path: current, package, exists: true }),
        ),
        Err(message) => SessionView {
            stage: StageView::Confirming { current, rest, reads, message },
            names: no_package_names(),
            reports: seq![],
        },
    }
}

/// The session after the answer whether an unreadable `package.json` exists.
pub open spec fn after_confirmation(
    config: NoExtraneousDependenciesConfig,
    context: LintContext,
    current: FilePathView,
    rest: Seq<FilePathView>,
    reads: Seq<PackageReadView>,
    message: Seq<char>,
    exists: bool,
) -> SessionView {
    let all = reads.push(PackageReadView { path: current, package: Err(message), exists });
    let only_one = configured_directories(config.package_dir).len() == 1;
    if read_failure(message, exists, only_one) is Some {
        concluded(config, context, gathered_data(config.package_dir, context.cwd@, all))
    } else {
        reading(config, context, rest, all)
    }
}

/// The session after an event. An event that the session does not wait for changes nothing.
pub open spec fn advanced(
    config: NoExtraneousDependenciesConfig,
    context: LintContext,
    session: SessionView,
    event: EventView,
) -> SessionView {
    match (session.stage, event) {
        (StageView::Locating { is_file }, EventView::IsFile(answer)) => if pending(
            config,
            context,
            session,
        ) is ProbeFile {
            locating(config, context, is_file.push(answer))
        } else {
            session
        },
        (StageView::Reading { current, rest, reads }, EventView::Content(content)) => after_read(
            config,
            context,
            current,
            rest,
            reads,
            content,
        ),
        (
            StageView::Confirming { current, rest, reads, message },
            EventView::Exists(exists),
        ) => after_confirmation(config, context, current, rest, reads, message, exists),
        (StageView::Checking { dependencies, node, resolved, is_file }, _) => match (
            pending(config, context, session),
            event,
        ) {
            (ActionView::Resolve(_), EventView::Resolved(path)) => settled(
                config,
                context,
                dependencies,
                session.names,
                node,
                Some(path),
                is_file,
                session.reports,
            ),
            (ActionView::ProbeFile(_), EventView::IsFile(answer)) => settled(
                config,
                context,
                dependencies,
                session.names,
                node,
                resolved,
                is_file.push(answer),
                session.reports,
            ),
            (ActionView::ReadFile(path), EventView::Content(content)) => settled(
                config,
                context,
                dependencies,
                session.names.insert(path, name_read(content)),
                node,
                resolved,
                is_file,
                session.reports,
            ),
            _ => session,
        },
        _ => session,
    }
}

/// The check of one file under way.
pub struct Session {
    job: LintJob,
    stage: Stage,
    names: PackageNames,
    diagnostics: Vec<Diagnostic>,
}

impl Session {
    /// The contents of the session.
    pub closed spec fn view(&self) -> SessionView {
        SessionView {
            stage: match self.stage {
                Stage::Locating { is_file } => StageView::Locating { is_file: is_file@ },
                Stage::Reading { current, rest, reads } => StageView::Reading {
                    current: current@,
                    rest: path_views(rest@),
                    reads: read_views(reads@),
                },
                Stage::Confirming { current, rest, reads, message } => StageView::Confirming {
                    current: current@,
                    rest: path_views(rest@),
                    reads: read_views(reads@),
                    message: message@,
                },
                Stage::Checking { dependencies, node, resolved, is_file } => StageView::Checking {
                    dependencies: dependencies@,
                    node: node as int,
                    resolved: answer_view(resolved),
                    is_file: is_file@,
                },
                Stage::Finished => StageView::Finished,
            },
            names: table_contents(self.names),
            reports: diagnostic_views(self.diagnostics@),
        }
    }

    /// The options of the rule.
    pub closed spec fn config(self) -> NoExtraneousDependenciesConfig {
        self.job.config()
    }

    /// The file that is checked.
    pub closed spec fn context(self) -> LintContext {
        self.job.context()
    }

    /// Checks the nodes from the `node`-th on, up to the first that needs an answer.
    fn settle(
        job: LintJob,
        dependencies: DependencyFields,
        names: PackageNames,
        node: usize,
        resolved: Option<Option<FilePath>>,
        is_file: Vec<bool>,
        diagnostics: Vec<Diagnostic>,
    ) -> (result: (Session, Action))
        ensures
            result.0.config() == job.config(),
            result.0.context() == job.context(),
            result.0@ == settled(
                job.config(),
                job.context(),
                dependencies@,
                table_contents(names),
                node as int,
                answer_view(resolved),
                is_file@,
                diagnostic_views(diagnostics@),
            ),
            result.1@ == pending(job.config(), job.context(), result.0@),
    {
        let mut at: usize = node;
        let mut answer = resolved;
        let mut answers = is_file;
        let mut reports = diagnostics;
        while at < job.file().nodes.len()
            invariant
                settled(
                    job.config(),
                    job.context(),
                    dependencies@,
                    table_contents(names),
                    node as int,
                    answer_view(resolved),
                    is_file@,
                    diagnostic_views(diagnostics@),
                ) == settled(
                    job.config(),
                    job.context(),
                    dependencies@,
                    table_contents(names),
                    at as int,
                    answer_view(answer),
                    answers@,
                    diagnostic_views(reports@),
                ),
            decreases job.context().nodes@.len() - at,
        {
            let step = job.check_module(
                &dependencies,
                &names,
                &job.file().nodes[at],
                &answer,
                &answers,
            );
            match step {
                ModuleStep::Ask(action) => {
                    let stage = Stage::Checking {
                        dependencies,
                        node: at,
                        resolved: answer,
                        is_file: answers,
                    };
                    return (Session { job, stage, names, diagnostics: reports }, action);
                },
                ModuleStep::Pass => {},
                ModuleStep::Report(report) => {
                    let ghost before = diagnostic_views(reports@);
                    reports.push(report);
                    assert(diagnostic_views(reports@) =~= before.push(report@));
                },
            }
            at = at + 1;
            answer = None;
            answers = Vec::new();
            assert(answers@ =~= seq![]);
        }
        (
            Session { job, stage: Stage::Finished, names, diagnostics: reports },
            Action::Finish,
        )
    }

    /// A session that has ended with at most one report.
    fn finish(job: LintJob, report: Option<Diagnostic>) -> (result: (Session, Action))
        ensures
            result.0.config() == job.config(),
            result.0.context() == job.context(),
            result.0@ == finished(
                no_package_names(),
                match report {
                    Some(report) => seq![report@],
                    None => seq![],
                },
            ),
            result.1@ == ActionView::Finish,
    {
        let mut diagnostics: Vec<Diagnostic> = Vec::new();
        if let Some(report) = report {
            diagnostics.push(report);
            assert(diagnostic_views(diagnostics@) =~= seq![report@]);
        } else {
            assert(diagnostic_views(diagnostics@) =~= seq![]);
        }
        (Session { job, stage: Stage::Finished, names: new_table(), diagnostics }, Action::Finish)
    }

    /// Goes on with the gathered declarations.
    fn conclude(job: LintJob, data: Result<PackageData, PackageError>) -> (result: (
        Session,
        Action,
    ))
        ensures
            result.0.config() == job.config(),
            result.0.context() == job.context(),
            result.0@ == concluded(job.config(), job.context(), data_view(data)),
            result.1@ == pending(job.config(), job.context(), result.0@),
    {
        match data {
            Err(error) => Session::finish(job, Some(package_error_diagnostic(error))),
            Ok(data) => if data.package_root.is_none() {
                Session::finish(job, None)
            } else {
                let is_file: Vec<bool> = Vec::new();
                let diagnostics: Vec<Diagnostic> = Vec::new();
                assert(is_file@ =~= seq![]);
                assert(diagnostic_views(diagnostics@) =~= seq![]);
                Session::settle(job, data.dependencies, new_table(), 0, None, is_file, diagnostics)
            },
        }
    }

    /// Goes on with the `package.json` files that have not been read.
    fn read(job: LintJob, rest: Vec<FilePath>, reads: Vec<PackageRead>) -> (result: (
        Session,
        Action,
    ))
        ensures
            result.0.config() == job.config(),
            result.0.context() == job.context(),
            result.0@ == reading(
                job.config(),
                job.context(),
                path_views(rest@),
                read_views(reads@),
            ),
            result.1@ == pending(job.config(), job.context(), result.0@),
    {
        if rest.len() == 0 {
            let data = package_data(&job.rule().0.package_dir, &job.file().cwd, reads);
            return Session::conclude(job, data);
        }
        let ghost paths = path_views(rest@);
        let mut rest = rest;
        let current = rest.remove(0);
        assert(path_views(rest@) =~= paths.drop_first());
        let diagnostics: Vec<Diagnostic> = Vec::new();
        assert(diagnostic_views(diagnostics@) =~= seq![]);
        let action = Action::ReadFile(current.clone());
        let stage = Stage::Reading { current, rest, reads };
        (Session { job, stage, names: new_table(), diagnostics }, action)
    }

    /// Goes on looking for the nearest `package.json`.
    fn locate(job: LintJob, is_file: Vec<bool>) -> (result: (Session, Action))
        ensures
            result.0.config() == job.config(),
            result.0.context() == job.context(),
            result.0@ == locating(job.config(), job.context(), is_file@),
            result.1@ == pending(job.config(), job.context(), result.0@),
    {
        let mut paths: Vec<FilePath> = Vec::new();
        let reads: Vec<PackageRead> = Vec::new();
        assert(read_views(reads@) =~= seq![]);
        assert(path_views(paths@) =~= seq![]);
        match nearest_package_json(&job.file().file_path, &is_file) {
            Search::Probe(candidate) => {
                let diagnostics: Vec<Diagnostic> = Vec::new();
                assert(diagnostic_views(diagnostics@) =~= seq![]);
                let stage = Stage::Locating { is_file };
                (
                    Session { job, stage, names: new_table(), diagnostics },
                    Action::ProbeFile(candidate),
                )
            },
            Search::Found(package_json) => {
                paths.push(package_json);
                assert(path_views(paths@) =~= seq![package_json@]);
                Session::read(job, paths, reads)
            },
            Search::Missing => Session::read(job, paths, reads),
        }
    }

    /// Starts the check of a file.
    pub fn start(job: LintJob) -> (result: (Session, Action))
        ensures
            result.0.config() == job.config(),
            result.0.context() == job.context(),
            result.0@ == started(job.config(), job.context()),
            result.1@ == pending(job.config(), job.context(), result.0@),
    {
        if configured_count(&job.rule().0.package_dir) > 0 {
            let paths = configured_package_paths(&job.rule().0.package_dir, &job.file().cwd);
            let reads: Vec<PackageRead> = Vec::new();
            assert(read_views(reads@) =~= seq![]);
            Session::read(job, paths, reads)
        } else {
            let is_file: Vec<bool> = Vec::new();
            assert(is_file@ =~= seq![]);
            Session::locate(job, is_file)
        }
    }

    /// What the session needs next.
    pub fn action(&self) -> (action: Action)
        ensures
            action@ == pending(self.config(), self.context(), self@),
    {
        match &self.stage {
            Stage::Locating { is_file } => match nearest_package_json(
                &self.job.file().file_path,
                is_file,
            ) {
                Search::Probe(candidate) => Action::ProbeFile(candidate),
                _ => Action::Finish,
            },
            Stage::Reading { current, .. } => Action::ReadFile(current.clone()),
            Stage::Confirming { current, .. } => Action::ProbeExists(current.clone()),
            Stage::Checking { dependencies, node, resolved, is_file } => {
                if *node >= self.job.file().nodes.len() {
                    return Action::Finish;
                }
                match self.job.check_module(
                    dependencies,
                    &self.names,
                    &self.job.file().nodes[*node],
                    resolved,
                    is_file,
                ) {
                    ModuleStep::Ask(action) => action,
                    _ => Action::Finish,
                }
            },
            Stage::Finished => Action::Finish,
        }
    }

    /// Takes the outcome of what the session needed, and says what it needs next. An event that
    /// the session does not wait for changes nothing.
    pub fn step(self, event: Event) -> (result: (Session, Action))
        ensures
            result.0.config() == self.config(),
            result.0.context() == self.context(),
            result.0@ == advanced(self.config(), self.context(), self@, event@),
            result.1@ == pending(self.config(), self.context(), result.0@),
    {
        let action = self.action();
        let Session { job, stage, names, diagnostics } = self;
        match (stage, event) {
            (Stage::Locating { is_file }, Event::IsFile(answer)) => match action {
                Action::ProbeFile(_) => {
                    let mut is_file = is_file;
                    is_file.push(answer);
                    Session::locate(job, is_file)
                },
                action => {
                    let stage = Stage::Locating { is_file };
                    (Session { job, stage, names, diagnostics }, action)
                },
            },
            (Stage::Reading { current, rest, reads }, Event::Content(content)) => {
                Session::take_read(job, current, rest, reads, content)
            },
            (Stage::Confirming { current, rest, reads, message }, Event::Exists(exists)) => {
                Session::take_confirmation(job, current, rest, reads, message, exists)
            },
            (Stage::Checking { dependencies, node, resolved, is_file }, event) => {
                match (action, event) {
                    (Action::Resolve(_), Event::Resolved(path)) => Session::settle(
                        job,
                        dependencies,
                        names,
                        node,
                        Some(path),
                        is_file,
                        diagnostics,
                    ),
                    (Action::ProbeFile(_), Event::IsFile(answer)) => {
                        let mut is_file = is_file;
                        is_file.push(answer);
                        Session::settle(
                            job,
                            dependencies,
                            names,
                            node,
                            resolved,
                            is_file,
                            diagnostics,
                        )
                    },
                    (Action::ReadFile(path), Event::Content(content)) => {
                        let mut names = names;
                        remember_package_name(&mut names, path, &content);
                        Session::settle(
                            job,
                            dependencies,
                            names,
                            node,
                            resolved,
                            is_file,
                            diagnostics,
                        )
                    },
                    (action, _) => {
                        let stage = Stage::Checking { dependencies, node, resolved, is_file };
                        (Session { job, stage, names, diagnostics }, action)
                    },
                }
            },
            (stage, _) => (Session { job, stage, names, diagnostics }, action),
        }
    }

    /// The session after the answer to a read of a `package.json` that is checked against.
    fn take_read(
        job: LintJob,
        current: FilePath,
        rest: Vec<FilePath>,
        reads: Vec<PackageRead>,
        content: Result<String, String>,
    ) -> (result: (Session, Action))
        ensures
            result.0.config() == job.config(),
            result.0.context() == job.context(),
            result.0@ == after_read(
                job.config(),
                job.context(),
                current@,
                path_views(rest@),
                read_views(reads@),
                content_view(content),
            ),
            result.1@ == pending(job.config(), job.context(), result.0@),
    {
        let package = read_package(&content);
        match package {
            Ok(fields) => {
                let ghost before = read_views(reads@);
                let mut reads = reads;
                reads.push(PackageRead { path: current, package: Ok(fields), exists: true });
                assert(read_views(reads@) =~= before.push(
                    PackageReadView {
                        path: current@,
                        package: package_read(content_view(content)),
                        exists: true,
                    },
                ));
                Session::read(job, rest, reads)
            },
            Err(message) => {
                let action = Action::ProbeExists(current.clone());
                let diagnostics: Vec<Diagnostic> = Vec::new();
                assert(diagnostic_views(diagnostics@) =~= seq![]);
                let stage = Stage::Confirming { current, rest, reads, message };
                (Session { job, stage, names: new_table(), diagnostics }, action)
            },
        }
    }

    /// The session after the answer whether an unreadable `package.json` exists.
    fn take_confirmation(
        job: LintJob,
        current: FilePath,
        rest: Vec<FilePath>,
        reads: Vec<PackageRead>,
        message: String,
        exists: bool,
    ) -> (result: (Session, Action))
        ensures
            result.0.config() == job.config(),
            result.0.context() == job.context(),
            result.0@ == after_confirmation(
                job.config(),
                job.context(),
                current@,
                path_views(rest@),
                read_views(reads@),
                message@,
                exists,
            ),
            result.1@ == pending(job.config(), job.context(), result.0@),
    {
        let only_one = configured_count(&job.rule().0.package_dir) == 1;
        let failure = failed_read(message.as_str(), exists, only_one);
        let ghost before = read_views(reads@);
        let mut reads = reads;
        let package: Result<(DependencyFields, Option<String>), String> = Err(message);
        reads.push(PackageRead { path: current, package, exists });
        assert(read_views(reads@) =~= before.push(
            PackageReadView { path: current@, package: Err(message@), exists },
        ));
        if failure.is_some() {
            let data = package_data(&job.rule().0.package_dir, &job.file().cwd, reads);
            Session::conclude(job, data)
        } else {
            Session::read(job, rest, reads)
        }
    }

    /// The reports so far; all of them once the session needs nothing more.
    pub fn diagnostics(&self) -> (diagnostics: &Vec<Diagnostic>)
        ensures
            diagnostic_views(diagnostics@) == self@.reports,
    {
        &self.diagnostics
    }
}

impl NoExtraneousDependencies {
    /// Starts the check of a file, unless a glob option is too long to be matched.
    pub fn run_once(self, context: LintContext) -> (result: Option<(Session, Action)>)
        ensures
            result is Some == config_sized(*self.0, context.texts),
            match result {
                Some((session, action)) => {
                    &&& session.config() == *self.0
                    &&& session.context() == context
                    &&& session@ == started(*self.0, context)
                    &&& action@ == pending(*self.0, context, session@)
                },
                None => true,
            },
    {
        match LintJob::new(self, context) {
            Some(job) => Some(Session::start(job)),
            None => None,
        }
    }
}

} // verus!
