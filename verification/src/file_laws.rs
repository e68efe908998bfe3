//! What holds of a file and the files around it: which `package.json` files it is checked
//! against, where the name of a package comes from, and when nodes are looked at.
use crate::check::{name_read, name_search, LintContext, NameSearchView};
use crate::config::{NoExtraneousDependenciesConfig, PackageDir};
use crate::package::{configured_directories, gathered_data, package_read, PackageErrorView};
use crate::package_laws::directories_are_seen_from_the_working_directory;
use crate::path::{path_views, search, FilePath, FilePathView, SearchView};
use crate::verdict::{package_error_report, DiagnosticView};
use crate::world::{lint, node_reports, used_paths, World};
use vstd::prelude::*;

verus! {

// The nearest `package.json`.

/// The nearest `package.json` is the first candidate, from the nearest directory up, that is a
/// file, and there is none where no candidate is.
pub proof fn nearest_package_json_is_the_first_candidate(
    world: World,
    path: FilePathView,
    distance: int,
)
    ensures
        0 <= distance < path.segments.len() && (world.is_file)(path.candidate(distance)) && (
        forall|i: int|
            0 <= i < distance ==> !(world.is_file)(#[trigger] path.candidate(i))) ==> world.nearest(
            path,
        ) == Some(path.candidate(distance)),
        (forall|i: int|
            0 <= i < path.segments.len() ==> !(world.is_file)(#[trigger] path.candidate(i)))
            ==> world.nearest(path) is None,
{
    if 0 <= distance < path.segments.len() && (world.is_file)(path.candidate(distance)) && (forall|
        i: int,
    |
        0 <= i < distance ==> !(world.is_file)(#[trigger] path.candidate(i))) {
        lemma_nearest_skips(world, path, 0, distance);
    }
    if forall|i: int|
        0 <= i < path.segments.len() ==> !(world.is_file)(#[trigger] path.candidate(i)) {
        lemma_nearest_skips(world, path, 0, path.segments.len() as int);
    }
}

proof fn lemma_nearest_skips(world: World, path: FilePathView, from: int, to: int)
    requires
        0 <= from <= to <= path.segments.len(),
        forall|i: int| from <= i < to ==> !(world.is_file)(#[trigger] path.candidate(i)),
    ensures
        world.nearest_from(path, from) == world.nearest_from(path, to),
    decreases to - from,
{
    if from < to {
        assert(!(world.is_file)(path.candidate(from)));
        lemma_nearest_skips(world, path, from + 1, to);
    }
}

// The name of a package.

/// A package has the name that its nearest `package.json` gives it, and none where there is no
/// such file, where it cannot be read, or where it gives none.
pub proof fn package_is_named_by_its_nearest_package_json(world: World, path: FilePathView)
    ensures
        world.nearest(path) is None ==> world.package_name(path) is None,
        world.nearest(path) matches Some(package_json) ==> world.package_name(path) == name_read(
            (world.content)(package_json),
        ),
{
}

/// The name that is read is that of the `package.json`; one that cannot be read gives none.
pub proof fn unreadable_package_json_gives_no_name(content: Result<Seq<char>, Seq<char>>)
    ensures
        package_read(content) is Err ==> name_read(content) is None,
        package_read(content) is Ok ==> name_read(content) == package_read(content)->Ok_0.1,
{
}

/// The search for a name asks what the search for the file asks; once the file is found, a name
/// that was read is known, and any other is to be read; where no file is found there is no name.
pub proof fn names_are_read_where_they_are_not_known(
    path: FilePathView,
    is_file: Seq<bool>,
    names: Map<FilePathView, Option<Seq<char>>>,
)
    ensures
        search(path, is_file) matches SearchView::Probe(candidate) ==> name_search(
            path,
            is_file,
            names,
        ) == NameSearchView::Probe(candidate),
        search(path, is_file) matches SearchView::Found(package_json) ==> {
            &&& names.contains_key(package_json) ==> name_search(path, is_file, names)
                == NameSearchView::Known(names[package_json])
            &&& !names.contains_key(package_json) ==> name_search(path, is_file, names)
                == NameSearchView::Read(package_json)
        },
        search(path, is_file) is Missing ==> name_search(path, is_file, names)
            == NameSearchView::Known(None),
{
}

// The files that a file is checked against.

/// Where the options name directories, the file is checked against the `package.json` of each,
/// in order, wherever the file itself stands; each is the one that the directory alone would
/// give, in the directory as seen from the working directory.
pub proof fn named_directories_are_used_in_order(
    config: NoExtraneousDependenciesConfig,
    list: Vec<FilePath>,
    context: LintContext,
    world: World,
    i: int,
)
    requires
        config.package_dir == Some(PackageDir::Many(list)),
        0 <= i < list@.len(),
    ensures
        used_paths(config, context, world).len() == list@.len(),
        used_paths(config, context, world)[i].parent() == Some(context.cwd@.join(list@[i]@)),
        used_paths(config, context, world)[i].segments.last() == "package.json"@,
        used_paths(
            NoExtraneousDependenciesConfig {
                package_dir: Some(PackageDir::One(list@[i])),
                ..config
            },
            context,
            world,
        ) == seq![used_paths(config, context, world)[i]],
{
    directories_are_seen_from_the_working_directory(list, context.cwd@, i);
    assert(path_views(list@).len() == list@.len());
    let alone = NoExtraneousDependenciesConfig {
        package_dir: Some(PackageDir::One(list@[i])),
        ..config
    };
    assert(used_paths(alone, context, world) =~= seq![used_paths(config, context, world)[i]]);
}

/// Where the options name no directory, the file is checked against its nearest `package.json`,
/// and against nothing where there is none.
pub proof fn nearest_package_json_is_used_without_directories(
    config: NoExtraneousDependenciesConfig,
    context: LintContext,
    world: World,
)
    requires
        configured_directories(config.package_dir).len() == 0,
    ensures
        world.nearest(context.file_path@) matches Some(package_json) ==> used_paths(
            config,
            context,
            world,
        ) == seq![package_json],
        world.nearest(context.file_path@) is None ==> used_paths(config, context, world).len() == 0,
{
}

/// What is read of a `package.json` is what its text says; whether a file exists is asked only
/// where it cannot be read.
pub proof fn files_are_read_one_by_one(world: World, paths: Seq<FilePathView>, i: int)
    requires
        0 <= i < paths.len(),
    ensures
        world.reads(paths).len() == paths.len(),
        world.reads(paths)[i].path == paths[i],
        world.reads(paths)[i].package == package_read((world.content)(paths[i])),
        package_read((world.content)(paths[i])) is Err ==> world.reads(paths)[i].exists == (
        world.exists)(paths[i]),
{
}

// The reports on a file.

/// An error in what was read is the only report; without a root there is none; and else the nodes
/// are reported, against the declarations that were read.
pub proof fn nodes_are_reported_once_declarations_are_read(
    config: NoExtraneousDependenciesConfig,
    context: LintContext,
    world: World,
)
    ensures
        ({
            let data = gathered_data(
                config.package_dir,
                context.cwd@,
                world.reads(used_paths(config, context, world)),
            );
            &&& data matches Err(error) ==> lint(config, context, world) == seq![
                package_error_report(error),
            ]
            &&& data is Ok && data->Ok_0.package_root is None ==> lint(config, context, world)
                == Seq::<DiagnosticView>::empty()
            &&& data is Ok && data->Ok_0.package_root is Some ==> lint(config, context, world)
                == node_reports(config, context, world, data->Ok_0.dependencies, 0)
        }),
{
}

/// A nearest `package.json` that is gone when it is read is no error: nothing is reported.
pub proof fn vanished_package_json_is_no_error(
    config: NoExtraneousDependenciesConfig,
    context: LintContext,
    world: World,
    package_json: FilePathView,
)
    requires
        configured_directories(config.package_dir).len() == 0,
        world.nearest(context.file_path@) == Some(package_json),
        package_read((world.content)(package_json)) is Err,
        !(world.exists)(package_json),
    ensures
        lint(config, context, world) == Seq::<DiagnosticView>::empty(),
{
    let reads = world.reads(seq![package_json]);
    assert(reads.drop_last() =~= seq![]);
    crate::package_laws::first_error_decides(reads, false, 0);
    crate::package_laws::first_readable_package_json_is_the_root(reads, false, 0);
}

/// A nearest `package.json` that cannot be read is the only thing reported, with the reason.
pub proof fn unreadable_nearest_package_json_is_reported(
    config: NoExtraneousDependenciesConfig,
    context: LintContext,
    world: World,
    package_json: FilePathView,
)
    requires
        configured_directories(config.package_dir).len() == 0,
        world.nearest(context.file_path@) == Some(package_json),
        package_read((world.content)(package_json)) is Err,
        (world.exists)(package_json),
    ensures
        lint(config, context, world) == seq![
            package_error_report(
                PackageErrorView::Unparsable(package_read((world.content)(package_json))->Err_0),
            ),
        ],
{
    let reads = world.reads(seq![package_json]);
    assert(reads[0] == world.read(package_json));
    crate::package_laws::first_error_decides(reads, false, 0);
}

} // verus!
