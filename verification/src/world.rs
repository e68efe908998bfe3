//! What the rule says of a file while nothing around it changes, and that a session finds out
//! exactly that.
use crate::check::{
    checked_reference, module_step, name_read, resolution, ActionView, EventView, LintContext,
    ModuleStepView,
};
use crate::collections::no_package_names;
use crate::config::NoExtraneousDependenciesConfig;
use crate::module::{internal, internal_pattern, settings_view};
use crate::package::{
    configured_directories, configured_paths, gathered_data, lemma_first_failure_stays,
    package_read, read_failure, DependencyFieldsView, PackageDataView, PackageErrorView,
    PackageReadView,
};
use crate::path::{search, search_from, FilePathView, SearchView};
use crate::session::{
    advanced, after_confirmation, concluded, locating, pending, reading, settled, started,
    SessionView, StageView,
};
use crate::syntax::Node;
use crate::text::texts;
use crate::verdict::{judged, package_error_report, DiagnosticView};
use vstd::prelude::*;

verus! {

/// Everything that a session can ask for, at rest.
pub struct World {
    /// Whether a path names a file.
    pub is_file: spec_fn(FilePathView) -> bool,
    /// The text of a file, or why it cannot be read.
    pub content: spec_fn(FilePathView) -> Result<Seq<char>, Seq<char>>,
    /// Whether a path exists.
    pub exists: spec_fn(FilePathView) -> bool,
    /// The file that a module specifier resolves to.
    pub resolve: spec_fn(Seq<char>) -> Option<FilePathView>,
}

impl World {
    /// The outcome of what a session needs.
    pub open spec fn answer(self, action: ActionView) -> EventView {
        match action {
            ActionView::ProbeFile(path) => EventView::IsFile((self.is_file)(path)),
            ActionView::ReadFile(path) => EventView::Content((self.content)(path)),
            ActionView::ProbeExists(path) => EventView::Exists((self.exists)(path)),
            ActionView::Resolve(source) => EventView::Resolved((self.resolve)(source)),
            ActionView::Finish => EventView::IsFile(false),
        }
    }

    /// The nearest `package.json` above `path`, from the `distance`-th directory up.
    pub open spec fn nearest_from(self, path: FilePathView, distance: int) -> Option<FilePathView>
        decreases path.segments.len() - distance,
    {
        if distance >= path.segments.len() {
            None
        } else if (self.is_file)(path.candidate(distance)) {
            Some(path.candidate(distance))
        } else {
            self.nearest_from(path, distance + 1)
        }
    }

    /// The nearest `package.json` above `path`.
    pub open spec fn nearest(self, path: FilePathView) -> Option<FilePathView> {
        self.nearest_from(path, 0)
    }

    /// The name of the package that the file `path` is part of.
    pub open spec fn package_name(self, path: FilePathView) -> Option<Seq<char>> {
        match self.nearest(path) {
            Some(package_json) => name_read((self.content)(package_json)),
            None => None,
        }
    }

    /// What reading the `package.json` at `path` gives.
    pub open spec fn read(self, path: FilePathView) -> PackageReadView {
        let package = package_read((self.content)(path));
        PackageReadView { path, package, exists: package is Ok || (self.exists)(path) }
    }

    /// What reading some `package.json` files gives.
    pub open spec fn reads(self, paths: Seq<FilePathView>) -> Seq<PackageReadView> {
        Seq::new(paths.len(), |i: int| self.read(paths[i]))
    }
}

/// The `package.json` files that a file is checked against.
pub open spec fn used_paths(
    config: NoExtraneousDependenciesConfig,
    context: LintContext,
    world: World,
) -> Seq<FilePathView> {
    if configured_directories(config.package_dir).len() > 0 {
        configured_paths(config.package_dir, context.cwd@)
    } else {
        match world.nearest(context.file_path@) {
            Some(package_json) => seq![package_json],
            None => seq![],
        }
    }
}

/// The report on one node, if there is one.
pub open spec fn node_report(
    config: NoExtraneousDependenciesConfig,
    context: LintContext,
    world: World,
    dependencies: DependencyFieldsView,
    node: Node,
) -> Option<DiagnosticView> {
    let settings = settings_view(context.settings);
    match checked_reference(config, settings, node) {
        None => None,
        Some(reference) => match resolution(
            context.loaded_modules@,
            reference.source,
            Some((world.resolve)(reference.source)),
        )->0 {
            None => None,
            Some(path) => if !config.include_internal && internal(
                reference.source,
                Some(path),
                internal_pattern(settings),
            ) {
                None
            } else {
                judged(
                    config,
                    context.texts,
                    texts(config.whitelist@).to_set(),
                    dependencies,
                    reference,
                    world.package_name(path),
                )
            },
        },
    }
}

/// The reports on the nodes from the `node`-th on, in order.
pub open spec fn node_reports(
    config: NoExtraneousDependenciesConfig,
    context: LintContext,
    world: World,
    dependencies: DependencyFieldsView,
    node: int,
) -> Seq<DiagnosticView>
    decreases context.nodes@.len() - node,
{
    if node >= context.nodes@.len() {
        seq![]
    } else {
        let rest = node_reports(config, context, world, dependencies, node + 1);
        match node_report(config, context, world, dependencies, context.nodes@[node]) {
            Some(report) => seq![report] + rest,
            None => rest,
        }
    }
}

/// The reports on a file, from the declarations that it is checked against.
pub open spec fn data_reports(
    config: NoExtraneousDependenciesConfig,
    context: LintContext,
    world: World,
    data: Result<PackageDataView, PackageErrorView>,
) -> Seq<DiagnosticView> {
    match data {
        Err(error) => seq![package_error_report(error)],
        Ok(data) => if data.package_root is None {
            seq![]
        } else {
            node_reports(config, context, world, data.dependencies, 0)
        },
    }
}

/// The reports on a file.
pub open spec fn lint(
    config: NoExtraneousDependenciesConfig,
    context: LintContext,
    world: World,
) -> Seq<DiagnosticView> {
    data_reports(
        config,
        context,
        world,
        gathered_data(
            config.package_dir,
            context.cwd@,
            world.reads(used_paths(config, context, world)),
        ),
    )
}

// The number of answers that a session can still ask for, in the order of its stages.

pub open spec fn stage_rank(session: SessionView) -> int {
    match session.stage {
        StageView::Locating { .. } => 3,
        StageView::Reading { .. } => 2,
        StageView::Confirming { .. } => 2,
        StageView::Checking { .. } => 1,
        StageView::Finished => 0,
    }
}

pub open spec fn item_rank(context: LintContext, session: SessionView) -> int {
    match session.stage {
        StageView::Locating { is_file } => context.file_path@.segments.len() - is_file.len(),
        StageView::Reading { rest, .. } => 2 * rest.len() as int + 1,
        StageView::Confirming { rest, .. } => 2 * rest.len() as int,
        StageView::Checking { node, .. } => context.nodes@.len() - node,
        StageView::Finished => 0,
    }
}

/// Whether the resolver has not been asked about the node.
pub open spec fn unresolved(resolved: Option<Option<FilePathView>>) -> int {
    if resolved is None {
        1
    } else {
        0
    }
}

/// The number of directories above the node's module that have not been asked about.
pub open spec fn open_probes(
    config: NoExtraneousDependenciesConfig,
    context: LintContext,
    node: Node,
    resolved: Option<Option<FilePathView>>,
    is_file: Seq<bool>,
) -> int {
    match checked_reference(config, settings_view(context.settings), node) {
        Some(reference) => match resolution(context.loaded_modules@, reference.source, resolved) {
            Some(Some(path)) => path.segments.len() - is_file.len(),
            _ => 0,
        },
        None => 0,
    }
}

pub open spec fn answer_rank(session: SessionView) -> int {
    match session.stage {
        StageView::Checking { resolved, .. } => unresolved(resolved),
        _ => 0,
    }
}

pub open spec fn probe_rank(
    config: NoExtraneousDependenciesConfig,
    context: LintContext,
    session: SessionView,
) -> int {
    match session.stage {
        StageView::Checking { node, resolved, is_file, .. } => open_probes(
            config,
            context,
            context.nodes@[node],
            resolved,
            is_file,
        ),
        _ => 0,
    }
}

pub open spec fn read_rank(
    config: NoExtraneousDependenciesConfig,
    context: LintContext,
    session: SessionView,
) -> int {
    if session.stage is Checking && pending(config, context, session) is ReadFile {
        1
    } else {
        0
    }
}

/// The reports that a session ends with when `world` answers all that it asks for.
pub open spec fn outcome(
    config: NoExtraneousDependenciesConfig,
    context: LintContext,
    world: World,
    session: SessionView,
) -> Seq<DiagnosticView>
    decreases
            stage_rank(session),
            item_rank(context, session),
            answer_rank(session),
            probe_rank(config, context, session),
            read_rank(config, context, session),
    via outcome_ends
{
    let action = pending(config, context, session);
    if action is Finish {
        session.reports
    } else {
        outcome(
            config,
            context,
            world,
            advanced(config, context, session, world.answer(action)),
        )
    }
}

/// The search asks only about directories that it has no answer on.
proof fn lemma_search_from(path: FilePathView, is_file: Seq<bool>, distance: int)
    requires
        0 <= distance <= is_file.len(),
    ensures
        search_from(path, is_file, distance) is Probe ==> {
            &&& is_file.len() < path.segments.len()
            &&& search_from(path, is_file, distance)->Probe_0 == path.candidate(
                is_file.len() as int,
            )
        },
        search_from(path, is_file, distance) is Found ==> exists|i: int|
            distance <= i < is_file.len() && i < path.segments.len() && is_file[i] && search_from(
                path,
                is_file,
                distance,
            )->Found_0 == #[trigger] path.candidate(i),
    decreases path.segments.len() - distance,
{
    if distance < path.segments.len() && distance < is_file.len() && !is_file[distance] {
        lemma_search_from(path, is_file, distance + 1);
    } else if distance < path.segments.len() && distance < is_file.len() {
        assert(search_from(path, is_file, distance)->Found_0 == path.candidate(distance));
    }
}

/// A session that checks nodes from the `node`-th on stays at one of them with the answers that
/// it has, or at a later one, or ends.
proof fn lemma_settled_stage(
    config: NoExtraneousDependenciesConfig,
    context: LintContext,
    dependencies: DependencyFieldsView,
    names: Map<FilePathView, Option<Seq<char>>>,
    node: int,
    resolved: Option<Option<FilePathView>>,
    is_file: Seq<bool>,
    reports: Seq<DiagnosticView>,
)
    ensures
        ({
            let session = settled(
                config,
                context,
                dependencies,
                names,
                node,
                resolved,
                is_file,
                reports,
            );
            &&& session.names == names
            &&& match session.stage {
                StageView::Checking {
                    dependencies: kept,
                    node: at,
                    resolved: answer,
                    is_file: answers,
                } => {
                    &&& kept == dependencies
                    &&& node <= at < context.nodes@.len()
                    &&& at == node ==> answer == resolved && answers == is_file
                    &&& module_step(
                        config,
                        context,
                        dependencies,
                        names,
                        context.nodes@[at],
                        answer,
                        answers,
                    ) is Ask
                },
                StageView::Finished => true,
                _ => false,
            }
        }),
    decreases context.nodes@.len() - node,
{
    if node < context.nodes@.len() {
        match module_step(
            config,
            context,
            dependencies,
            names,
            context.nodes@[node],
            resolved,
            is_file,
        ) {
            ModuleStepView::Ask(_) => {},
            ModuleStepView::Pass => {
                lemma_settled_stage(
                    config,
                    context,
                    dependencies,
                    names,
                    node + 1,
                    None,
                    seq![],
                    reports,
                );
            },
            ModuleStepView::Report(report) => {
                lemma_settled_stage(
                    config,
                    context,
                    dependencies,
                    names,
                    node + 1,
                    None,
                    seq![],
                    reports.push(report),
                );
            },
        }
    }
}

/// A session that concludes checks nodes or ends.
proof fn lemma_concluded_rank(
    config: NoExtraneousDependenciesConfig,
    context: LintContext,
    data: Result<PackageDataView, PackageErrorView>,
)
    ensures
        stage_rank(concluded(config, context, data)) <= 1,
{
    if data is Ok && data->Ok_0.package_root is Some {
        lemma_settled_stage(
            config,
            context,
            data->Ok_0.dependencies,
            no_package_names(),
            0,
            None,
            seq![],
            seq![],
        );
    }
}

/// A session that reads on has fewer files to read than before, or has read all of them.
proof fn lemma_reading_rank(
    config: NoExtraneousDependenciesConfig,
    context: LintContext,
    rest: Seq<FilePathView>,
    reads: Seq<PackageReadView>,
)
    ensures
        ({
            let session = reading(config, context, rest, reads);
            ||| stage_rank(session) <= 1
            ||| stage_rank(session) == 2 && item_rank(context, session) == 2 * rest.len() - 1
        }),
{
    if rest.len() == 0 {
        lemma_concluded_rank(
            config,
            context,
            gathered_data(config.package_dir, context.cwd@, reads),
        );
    }
}

#[via_fn]
proof fn outcome_ends(
    config: NoExtraneousDependenciesConfig,
    context: LintContext,
    world: World,
    session: SessionView,
) {
    let action = pending(config, context, session);
    if !(action is Finish) {
        let event = world.answer(action);
        let next = advanced(config, context, session, event);
        match session.stage {
            StageView::Locating { is_file } => {
                let answers = is_file.push(event->IsFile_0);
                lemma_search_from(context.file_path@, is_file, 0);
                lemma_search_from(context.file_path@, answers, 0);
                match search(context.file_path@, answers) {
                    SearchView::Probe(_) => {},
                    SearchView::Found(package_json) => {
                        lemma_reading_rank(config, context, seq![package_json], seq![]);
                    },
                    SearchView::Missing => {
                        lemma_reading_rank(config, context, seq![], seq![]);
                    },
                }
            },
            StageView::Reading { current, rest, reads } => {
                let package = package_read(event->Content_0);
                lemma_reading_rank(
                    config,
                    context,
                    rest,
                    reads.push(PackageReadView { path: current, package, exists: true }),
                );
            },
            StageView::Confirming { current, rest, reads, message } => {
                let exists = event->Exists_0;
                let all = reads.push(
                    PackageReadView { path: current, package: Err(message), exists },
                );
                lemma_concluded_rank(
                    config,
                    context,
                    gathered_data(config.package_dir, context.cwd@, all),
                );
                lemma_reading_rank(config, context, rest, all);
            },
            StageView::Checking { dependencies, node, resolved, is_file } => {
                match action {
                    ActionView::Resolve(_) => {
                        lemma_settled_stage(
                            config,
                            context,
                            dependencies,
                            session.names,
                            node,
                            Some(event->Resolved_0),
                            is_file,
                            session.reports,
                        );
                    },
                    ActionView::ProbeFile(_) => {
                        let reference = checked_reference(
                            config,
                            settings_view(context.settings),
                            context.nodes@[node],
                        )->0;
                        let path = resolution(
                            context.loaded_modules@,
                            reference.source,
                            resolved,
                        )->0->0;
                        lemma_search_from(path, is_file, 0);
                        lemma_settled_stage(
                            config,
                            context,
                            dependencies,
                            session.names,
                            node,
                            resolved,
                            is_file.push(event->IsFile_0),
                            session.reports,
                        );
                    },
                    ActionView::ReadFile(path) => {
                        lemma_settled_stage(
                            config,
                            context,
                            dependencies,
                            session.names.insert(path, name_read(event->Content_0)),
                            node,
                            resolved,
                            is_file,
                            session.reports,
                        );
                    },
                    _ => {},
                }
            },
            StageView::Finished => {},
        }
    }
}

/// Whether `is_file` holds the answers of `world` on the nearest directories above `path`.
pub open spec fn answers_agree(world: World, path: FilePathView, is_file: Seq<bool>) -> bool {
    forall|i: int|
        0 <= i < is_file.len() ==> #[trigger] is_file[i] == (world.is_file)(path.candidate(i))
}

/// Whether `names` holds what the `package.json` files of `world` say.
pub open spec fn names_agree(
    world: World,
    names: Map<FilePathView, Option<Seq<char>>>,
) -> bool {
    forall|path: FilePathView| #[trigger]
        names.contains_key(path) ==> names[path] == name_read((world.content)(path))
}

/// With the answers of a world, the search finds what is nearest in it.
proof fn lemma_search_agrees(world: World, path: FilePathView, is_file: Seq<bool>, distance: int)
    requires
        0 <= distance <= is_file.len(),
        answers_agree(world, path, is_file),
    ensures
        match search_from(path, is_file, distance) {
            SearchView::Probe(candidate) => {
                &&& is_file.len() < path.segments.len()
                &&& candidate == path.candidate(is_file.len() as int)
            },
            SearchView::Found(package_json) => world.nearest_from(path, distance) == Some(
                package_json,
            ),
            SearchView::Missing => world.nearest_from(path, distance) is None,
        },
    decreases path.segments.len() - distance,
{
    if distance < path.segments.len() && distance < is_file.len() && !is_file[distance] {
        lemma_search_agrees(world, path, is_file, distance + 1);
    }
}

/// Whether the answers that a session has on the `node`-th node are those of `world`.
spec fn node_agrees(
    config: NoExtraneousDependenciesConfig,
    context: LintContext,
    world: World,
    node: int,
    resolved: Option<Option<FilePathView>>,
    is_file: Seq<bool>,
) -> bool {
    match checked_reference(config, settings_view(context.settings), context.nodes@[node]) {
        Some(reference) => {
            &&& resolved is Some ==> resolved->0 == (world.resolve)(reference.source)
            &&& match resolution(context.loaded_modules@, reference.source, resolved) {
                Some(Some(path)) => answers_agree(world, path, is_file),
                _ => is_file.len() == 0,
            }
        },
        None => true,
    }
}

/// With the answers of a world, the check of a node comes to the report on it in that world.
proof fn lemma_step_agrees(
    config: NoExtraneousDependenciesConfig,
    context: LintContext,
    world: World,
    dependencies: DependencyFieldsView,
    names: Map<FilePathView, Option<Seq<char>>>,
    node: int,
    resolved: Option<Option<FilePathView>>,
    is_file: Seq<bool>,
)
    requires
        names_agree(world, names),
        node_agrees(config, context, world, node, resolved, is_file),
    ensures
        ({
            let report = node_report(
                config,
                context,
                world,
                dependencies,
                context.nodes@[node],
            );
            match module_step(
                config,
                context,
                dependencies,
                names,
                context.nodes@[node],
                resolved,
                is_file,
            ) {
                ModuleStepView::Ask(_) => true,
                ModuleStepView::Pass => report is None,
                ModuleStepView::Report(found) => report == Some(found),
            }
        }),
{
    let settings = settings_view(context.settings);
    if let Some(reference) = checked_reference(config, settings, context.nodes@[node]) {
        if let Some(Some(path)) = resolution(
            context.loaded_modules@,
            reference.source,
            resolved,
        ) {
            lemma_search_agrees(world, path, is_file, 0);
        }
    }
}

/// Without answers, a session agrees with every world on a node.
proof fn lemma_no_answers_agree(
    config: NoExtraneousDependenciesConfig,
    context: LintContext,
    world: World,
    node: int,
)
    ensures
        node_agrees(config, context, world, node, None, seq![]),
{
}

/// A session that checks nodes ends with the reports on them.
proof fn lemma_checking_outcome(
    config: NoExtraneousDependenciesConfig,
    context: LintContext,
    world: World,
    dependencies: DependencyFieldsView,
    names: Map<FilePathView, Option<Seq<char>>>,
    node: int,
    resolved: Option<Option<FilePathView>>,
    is_file: Seq<bool>,
    reports: Seq<DiagnosticView>,
)
    requires
        0 <= node,
        names_agree(world, names),
        node < context.nodes@.len() ==> node_agrees(
            config,
            context,
            world,
            node,
            resolved,
            is_file,
        ),
    ensures
        outcome(
            config,
            context,
            world,
            settled(config, context, dependencies, names, node, resolved, is_file, reports),
        ) == reports + node_reports(config, context, world, dependencies, node),
    decreases
            context.nodes@.len() - node,
            unresolved(resolved),
            if node < context.nodes@.len() {
                open_probes(config, context, context.nodes@[node], resolved, is_file)
            } else {
                0
            },
            if module_step(
                config,
                context,
                dependencies,
                names,
                context.nodes@[node],
                resolved,
                is_file,
            ) is Ask {
                1int
            } else {
                0int
            },
{
    let session = settled(config, context, dependencies, names, node, resolved, is_file, reports);
    if node >= context.nodes@.len() {
        assert(reports + seq![] =~= reports);
    } else {
        let rest = node_reports(config, context, world, dependencies, node + 1);
        lemma_step_agrees(
            config,
            context,
            world,
            dependencies,
            names,
            node,
            resolved,
            is_file,
        );
        lemma_no_answers_agree(config, context, world, node + 1);
        match module_step(
            config,
            context,
            dependencies,
            names,
            context.nodes@[node],
            resolved,
            is_file,
        ) {
            ModuleStepView::Pass => {
                lemma_checking_outcome(
                    config,
                    context,
                    world,
                    dependencies,
                    names,
                    node + 1,
                    None,
                    seq![],
                    reports,
                );
            },
            ModuleStepView::Report(report) => {
                lemma_checking_outcome(
                    config,
                    context,
                    world,
                    dependencies,
                    names,
                    node + 1,
                    None,
                    seq![],
                    reports.push(report),
                );
                assert(reports.push(report) + rest =~= reports + (seq![report] + rest));
            },
            ModuleStepView::Ask(action) => {
                let reference = checked_reference(
                    config,
                    settings_view(context.settings),
                    context.nodes@[node],
                )->0;
                match action {
                    ActionView::Resolve(source) => {
                        lemma_checking_outcome(
                            config,
                            context,
                            world,
                            dependencies,
                            names,
                            node,
                            Some((world.resolve)(source)),
                            is_file,
                            reports,
                        );
                    },
                    ActionView::ProbeFile(candidate) => {
                        let path = resolution(
                            context.loaded_modules@,
                            reference.source,
                            resolved,
                        )->0->0;
                        lemma_search_agrees(world, path, is_file, 0);
                        lemma_checking_outcome(
                            config,
                            context,
                            world,
                            dependencies,
                            names,
                            node,
                            resolved,
                            is_file.push((world.is_file)(candidate)),
                            reports,
                        );
                    },
                    ActionView::ReadFile(path) => {
                        lemma_checking_outcome(
                            config,
                            context,
                            world,
                            dependencies,
                            names.insert(path, name_read((world.content)(path))),
                            node,
                            resolved,
                            is_file,
                            reports,
                        );
                    },
                    _ => {},
                }
            },
        }
    }
}

/// A session that concludes ends with the reports that the declarations lead to.
proof fn lemma_concluded_outcome(
    config: NoExtraneousDependenciesConfig,
    context: LintContext,
    world: World,
    data: Result<PackageDataView, PackageErrorView>,
)
    ensures
        outcome(config, context, world, concluded(config, context, data)) == data_reports(
            config,
            context,
            world,
            data,
        ),
{
    if data is Ok && data->Ok_0.package_root is Some {
        let dependencies = data->Ok_0.dependencies;
        lemma_no_answers_agree(config, context, world, 0);
        lemma_checking_outcome(
            config,
            context,
            world,
            dependencies,
            no_package_names(),
            0,
            None,
            seq![],
            seq![],
        );
        let reports = node_reports(config, context, world, dependencies, 0);
        assert(seq![] + reports =~= reports);
    }
}

/// A session that reads `package.json` files ends with the reports that all of them lead to.
proof fn lemma_reading_outcome(
    config: NoExtraneousDependenciesConfig,
    context: LintContext,
    world: World,
    rest: Seq<FilePathView>,
    reads: Seq<PackageReadView>,
)
    ensures
        outcome(config, context, world, reading(config, context, rest, reads)) == data_reports(
            config,
            context,
            world,
            gathered_data(config.package_dir, context.cwd@, reads + world.reads(rest)),
        ),
    decreases rest.len(),
{
    let session = reading(config, context, rest, reads);
    if rest.len() == 0 {
        assert(reads + world.reads(rest) =~= reads);
        lemma_concluded_outcome(
            config,
            context,
            world,
            gathered_data(config.package_dir, context.cwd@, reads),
        );
    } else {
        let current = rest[0];
        let read = world.read(current);
        let later = rest.drop_first();
        let all = reads.push(read);
        assert(all + world.reads(later) =~= reads + world.reads(rest));
        let next = advanced(
            config,
            context,
            session,
            world.answer(pending(config, context, session)),
        );
        match read.package {
            Ok(_) => {
                assert(next == reading(config, context, later, all));
                lemma_reading_outcome(config, context, world, later, all);
            },
            Err(message) => {
                let only_one = configured_directories(config.package_dir).len() == 1;
                let after = advanced(
                    config,
                    context,
                    next,
                    world.answer(pending(config, context, next)),
                );
                assert(after == after_confirmation(
                    config,
                    context,
                    current,
                    later,
                    reads,
                    message,
                    read.exists,
                ));
                assert(outcome(config, context, world, session) == outcome(
                    config,
                    context,
                    world,
                    next,
                ));
                assert(outcome(config, context, world, next) == outcome(
                    config,
                    context,
                    world,
                    after,
                ));
                if read_failure(message, read.exists, only_one) is Some {
                    let whole = reads + world.reads(rest);
                    assert(all.drop_last() =~= reads);
                    assert(whole.take(all.len() as int) =~= all);
                    lemma_first_failure_stays(whole, all.len() as int, only_one);
                    lemma_concluded_outcome(
                        config,
                        context,
                        world,
                        gathered_data(config.package_dir, context.cwd@, all),
                    );
                } else {
                    lemma_reading_outcome(config, context, world, later, all);
                }
            },
        }
    }
}

/// A session that looks for the nearest `package.json` ends with the reports that it leads to.
proof fn lemma_locating_outcome(
    config: NoExtraneousDependenciesConfig,
    context: LintContext,
    world: World,
    is_file: Seq<bool>,
)
    requires
        answers_agree(world, context.file_path@, is_file),
        configured_directories(config.package_dir).len() == 0,
    ensures
        outcome(config, context, world, locating(config, context, is_file)) == lint(
            config,
            context,
            world,
        ),
    decreases context.file_path@.segments.len() - is_file.len(),
{
    let path = context.file_path@;
    let session = locating(config, context, is_file);
    lemma_search_agrees(world, path, is_file, 0);
    match search(path, is_file) {
        SearchView::Probe(candidate) => {
            lemma_locating_outcome(
                config,
                context,
                world,
                is_file.push((world.is_file)(candidate)),
            );
        },
        SearchView::Found(package_json) => {
            let paths = seq![package_json];
            lemma_reading_outcome(config, context, world, paths, seq![]);
            assert(seq![] + world.reads(paths) =~= world.reads(paths));
        },
        SearchView::Missing => {
            let paths = Seq::<FilePathView>::empty();
            lemma_reading_outcome(config, context, world, paths, seq![]);
            assert(seq![] + world.reads(paths) =~= world.reads(paths));
        },
    }
}

/// A session whose every question is answered from one world ends, and it ends with exactly the
/// reports on the file in that world.
pub proof fn session_reports_what_the_rule_says(
    config: NoExtraneousDependenciesConfig,
    context: LintContext,
    world: World,
)
    ensures
        outcome(config, context, world, started(config, context)) == lint(config, context, world),
{
    if configured_directories(config.package_dir).len() > 0 {
        let paths = configured_paths(config.package_dir, context.cwd@);
        lemma_reading_outcome(config, context, world, paths, seq![]);
        assert(seq![] + world.reads(paths) =~= world.reads(paths));
    } else {
        lemma_locating_outcome(config, context, world, seq![]);
    }
}

} // verus!
