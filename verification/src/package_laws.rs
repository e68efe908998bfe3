//! What holds of paths, of JSON values, and of the declarations that `package.json` files make.
use crate::config::PackageDir;
use crate::json::{field_from, json_parsed, JsonView};
use crate::package::{
    configured_directories, configured_paths, declared_fields, declared_name, gathered,
    gathered_data, package_of, package_read, DependencyFieldsView, PackageDataView,
    PackageErrorView, PackageReadView,
};
use crate::path::{path_views, FilePath, FilePathView};
use vstd::prelude::*;

verus! {

// Paths.

/// A file in a directory has that directory as its parent, and its own name at the end; a path
/// without names has no parent.
pub proof fn child_has_its_directory_as_parent(path: FilePathView, name: Seq<char>)
    ensures
        path.child(name).parent() == Some(path),
        path.child(name).segments.last() == name,
        path.segments.len() == 0 <==> path.parent() is None,
        path.parent() is Some ==> path.parent()->0.child(path.segments.last()) == path,
{
    assert(path.child(name).segments.drop_last() =~= path.segments);
    if path.segments.len() > 0 {
        assert(path.segments.drop_last().push(path.segments.last()) =~= path.segments);
    }
}

/// A path with a prefix is the same from everywhere, a path with a root depends on the prefix of
/// the directory alone, and any other path continues the directory, name by name.
pub proof fn relative_path_continues_the_directory(directory: FilePathView, path: FilePathView)
    ensures
        path.prefix.len() > 0 ==> directory.join(path) == path,
        path.prefix.len() == 0 && path.rooted ==> {
            &&& directory.join(path).prefix == directory.prefix
            &&& directory.join(path).rooted
            &&& directory.join(path).segments == path.segments
        },
        path.prefix.len() == 0 && !path.rooted ==> {
            &&& directory.join(path).prefix == directory.prefix
            &&& directory.join(path).rooted == directory.rooted
            &&& directory.join(path).segments.len() == directory.segments.len()
                + path.segments.len()
            &&& forall|i: int|
                0 <= i < directory.segments.len() ==> #[trigger] directory.join(path).segments[i]
                    == directory.segments[i]
            &&& forall|i: int|
                0 <= i < path.segments.len() ==> #[trigger] path.segments[i] == directory.join(
                    path,
                ).segments[directory.segments.len() + i]
        },
{
}

/// To go along one path and then along another is to go along the two joined.
pub proof fn joining_paths_is_associative(
    first: FilePathView,
    second: FilePathView,
    third: FilePathView,
)
    ensures
        first.join(second).join(third) == first.join(second.join(third)),
{
    assert(first.segments + second.segments + third.segments =~= first.segments + (second.segments
        + third.segments));
}

/// The candidates of the upward search are named `package.json`, and each stands in a directory
/// whose names are the first names of the path: one fewer from each candidate to the next.
pub proof fn candidates_stand_in_the_directories_above(path: FilePathView, distance: int)
    requires
        0 <= distance < path.segments.len(),
    ensures
        path.candidate(distance).segments.last() == "package.json"@,
        path.candidate(distance).parent() == Some(path.ancestor(distance)),
        path.ancestor(distance).prefix == path.prefix,
        path.ancestor(distance).rooted == path.rooted,
        path.ancestor(distance).segments.len() + distance + 1 == path.segments.len(),
        path.ancestor(distance).segments.is_prefix_of(path.segments),
{
    child_has_its_directory_as_parent(path.ancestor(distance), "package.json"@);
    let kept = path.segments.len() - 1 - distance;
    assert(path.segments.take(kept) =~= path.segments.subrange(0, kept));
}

// JSON values.

/// The value under a key is that of the first field with the key, and there is none where no
/// field has it.
pub proof fn first_field_with_the_key_counts(
    fields: Seq<(Seq<char>, JsonView)>,
    key: Seq<char>,
    index: int,
)
    ensures
        0 <= index < fields.len() && fields[index].0 == key && (forall|i: int|
            0 <= i < index ==> (#[trigger] fields[i]).0 != key) ==> JsonView::Object(fields).field(
            key,
        ) == Some(fields[index].1),
        (forall|i: int| 0 <= i < fields.len() ==> (#[trigger] fields[i]).0 != key)
            ==> JsonView::Object(fields).field(key) is None,
{
    if 0 <= index < fields.len() && fields[index].0 == key && (forall|i: int|
        0 <= i < index ==> (#[trigger] fields[i]).0 != key) {
        lemma_field_skips(fields, key, 0, index);
    }
    if forall|i: int| 0 <= i < fields.len() ==> (#[trigger] fields[i]).0 != key {
        lemma_field_skips(fields, key, 0, fields.len() as int);
    }
}

proof fn lemma_field_skips(
    fields: Seq<(Seq<char>, JsonView)>,
    key: Seq<char>,
    from: int,
    to: int,
)
    requires
        0 <= from <= to <= fields.len(),
        forall|i: int| from <= i < to ==> (#[trigger] fields[i]).0 != key,
    ensures
        field_from(fields, key, from) == field_from(fields, key, to),
    decreases to - from,
{
    if from < to {
        assert(fields[from].0 != key);
        lemma_field_skips(fields, key, from + 1, to);
    }
}

proof fn lemma_key_has_a_value(fields: Seq<(Seq<char>, JsonView)>, key: Seq<char>, from: int)
    requires
        0 <= from,
        exists|i: int| from <= i < fields.len() && (#[trigger] fields[i]).0 == key,
    ensures
        field_from(fields, key, from) is Some,
    decreases fields.len() - from,
{
    let i = choose|i: int| from <= i < fields.len() && (#[trigger] fields[i]).0 == key;
    if fields[from].0 != key {
        assert(from + 1 <= i && fields[i].0 == key);
        lemma_key_has_a_value(fields, key, from + 1);
    }
}

/// A value has a key exactly where there is a value under it.
pub proof fn keys_are_those_with_a_value(value: JsonView, key: Seq<char>)
    ensures
        value.keys().contains(key) == value.field(key) is Some,
        !(value is Object) ==> value.field(key) is None,
{
    if let JsonView::Object(fields) = value {
        if value.keys().contains(key) {
            lemma_key_has_a_value(fields, key, 0);
        } else {
            assert(forall|i: int| 0 <= i < fields.len() ==> (#[trigger] fields[i]).0 != key);
            first_field_with_the_key_counts(fields, key, 0);
        }
    }
}

// What one `package.json` declares.

/// Whether a value lists `name`: an object that has it as a key.
pub open spec fn has_key(value: Option<JsonView>, name: Seq<char>) -> bool {
    value is Some && value->0.field(name) is Some
}

/// Whether a value lists `name`: an array with that string at some place.
pub open spec fn has_item(value: Option<JsonView>, name: Seq<char>) -> bool {
    value is Some && value->0 is Array && value->0->Array_0.contains(JsonView::Text(name))
}

/// Each kind is declared by the keys of its own field. For bundled dependencies the field may also
/// be an array, of which the strings count; `bundledDependencies` is looked at only where there
/// is no `bundleDependencies`, not even one that declares nothing.
pub proof fn fields_declare_their_keys(package: JsonView, name: Seq<char>)
    ensures
        declared_fields(package).dependencies.contains(name) == has_key(
            package.field("dependencies"@),
            name,
        ),
        declared_fields(package).dev_dependencies.contains(name) == has_key(
            package.field("devDependencies"@),
            name,
        ),
        declared_fields(package).optional_dependencies.contains(name) == has_key(
            package.field("optionalDependencies"@),
            name,
        ),
        declared_fields(package).peer_dependencies.contains(name) == has_key(
            package.field("peerDependencies"@),
            name,
        ),
        package.field("bundleDependencies"@) is Some ==> declared_fields(
            package,
        ).bundled_dependencies.contains(name) == (has_key(
            package.field("bundleDependencies"@),
            name,
        ) || has_item(package.field("bundleDependencies"@), name)),
        package.field("bundleDependencies"@) is None ==> declared_fields(
            package,
        ).bundled_dependencies.contains(name) == (has_key(
            package.field("bundledDependencies"@),
            name,
        ) || has_item(package.field("bundledDependencies"@), name)),
{
    lemma_value_lists(package.field("dependencies"@), name);
    lemma_value_lists(package.field("devDependencies"@), name);
    lemma_value_lists(package.field("optionalDependencies"@), name);
    lemma_value_lists(package.field("peerDependencies"@), name);
    lemma_value_lists(package.field("bundleDependencies"@), name);
    lemma_value_lists(package.field("bundledDependencies"@), name);
}

proof fn lemma_value_lists(value: Option<JsonView>, name: Seq<char>)
    ensures
        value is Some ==> value->0.keys().contains(name) == has_key(value, name),
        value is Some ==> value->0.strings().contains(name) == has_item(value, name),
        value is Some && value->0 is Array ==> !has_key(value, name),
{
    if value is Some {
        keys_are_those_with_a_value(value->0, name);
        if let JsonView::Array(items) = value->0 {
            if value->0.strings().contains(name) {
                let i = choose|i: int|
                    0 <= i < items.len() && (#[trigger] items[i]) == JsonView::Text(name);
                assert(items.contains(items[i]));
            }
            if items.contains(JsonView::Text(name)) {
                let i = choose|i: int| 0 <= i < items.len() && items[i] == JsonView::Text(name);
                assert(items[i] == JsonView::Text(name));
            }
        }
    }
}

/// A package has a name exactly where its field `name` is a string, which then is the name.
pub proof fn name_is_the_string_of_its_field(package: JsonView, name: Seq<char>)
    ensures
        declared_name(package) == Some(name) <==> package.field("name"@) == Some(
            JsonView::Text(name),
        ),
{
}

/// A `package.json` can be read exactly where its text can, holds JSON, and that is an object. It
/// then says what the object does; else the first thing that went wrong is the reason.
pub proof fn package_json_must_hold_an_object(content: Result<Seq<char>, Seq<char>>)
    ensures
        package_read(content) is Ok <==> content is Ok && json_parsed(content->Ok_0) is Ok
            && json_parsed(content->Ok_0)->Ok_0 is Object,
        package_read(content) is Ok ==> {
            let package = json_parsed(content->Ok_0)->Ok_0;
            &&& package_read(content)->Ok_0.0 == declared_fields(package)
            &&& package_read(content)->Ok_0.1 == declared_name(package)
        },
        content is Err ==> package_read(content)->Err_0 == content->Err_0,
        content is Ok && json_parsed(content->Ok_0) is Err ==> package_read(content)->Err_0
            == json_parsed(content->Ok_0)->Err_0,
        content is Ok && json_parsed(content->Ok_0) is Ok && !(json_parsed(
            content->Ok_0,
        )->Ok_0 is Object) ==> package_read(content)->Err_0
            == "package.json must contain an object"@,
{
}

/// What a `package.json` says depends on seven fields alone; others, and their order, do not
/// matter.
pub proof fn other_fields_do_not_matter(left: JsonView, right: JsonView)
    requires
        left is Object,
        right is Object,
        left.field("name"@) == right.field("name"@),
        left.field("dependencies"@) == right.field("dependencies"@),
        left.field("devDependencies"@) == right.field("devDependencies"@),
        left.field("optionalDependencies"@) == right.field("optionalDependencies"@),
        left.field("peerDependencies"@) == right.field("peerDependencies"@),
        left.field("bundleDependencies"@) == right.field("bundleDependencies"@),
        left.field("bundledDependencies"@) == right.field("bundledDependencies"@),
    ensures
        package_of(left) == package_of(right),
{
}

/// Merged declarations are, kind by kind, the names that either declares as that kind.
pub proof fn kinds_are_merged_separately(
    left: DependencyFieldsView,
    right: DependencyFieldsView,
    name: Seq<char>,
)
    ensures
        left.merge(right).dependencies.contains(name) == (left.dependencies.contains(name)
            || right.dependencies.contains(name)),
        left.merge(right).dev_dependencies.contains(name) == (left.dev_dependencies.contains(name)
            || right.dev_dependencies.contains(name)),
        left.merge(right).optional_dependencies.contains(name) == (
        left.optional_dependencies.contains(name) || right.optional_dependencies.contains(name)),
        left.merge(right).peer_dependencies.contains(name) == (left.peer_dependencies.contains(
            name,
        ) || right.peer_dependencies.contains(name)),
        left.merge(right).bundled_dependencies.contains(name) == (
        left.bundled_dependencies.contains(name) || right.bundled_dependencies.contains(name)),
{
}

// The files that the options name.

/// The directories of a list are its items, in order, and a single directory is itself.
pub proof fn directories_of_a_list_are_its_items(list: Vec<FilePath>, path: FilePath)
    ensures
        configured_directories(Some(PackageDir::Many(list))).len() == list@.len(),
        forall|i: int|
            0 <= i < list@.len() ==> #[trigger] configured_directories(
                Some(PackageDir::Many(list)),
            )[i] == list@[i]@,
        configured_directories(Some(PackageDir::One(path))).len() == 1,
        configured_directories(Some(PackageDir::One(path)))[0] == path@,
        configured_directories(None).len() == 0,
{
}

/// Every directory of a list is seen from the working directory, whatever the others are: its
/// `package.json` is the one that the directory alone would give.
pub proof fn directories_are_seen_from_the_working_directory(
    list: Vec<FilePath>,
    cwd: FilePathView,
    i: int,
)
    requires
        0 <= i < list@.len(),
    ensures
        configured_paths(Some(PackageDir::Many(list)), cwd).len() == list@.len(),
        configured_paths(Some(PackageDir::Many(list)), cwd)[i] == configured_paths(
            Some(PackageDir::One(list@[i])),
            cwd,
        )[0],
        configured_paths(Some(PackageDir::Many(list)), cwd)[i].parent() == Some(
            cwd.join(list@[i]@),
        ),
        configured_paths(Some(PackageDir::Many(list)), cwd)[i].segments.last() == "package.json"@,
        configured_paths(Some(PackageDir::One(list@[i])), cwd).len() == 1,
{
    child_has_its_directory_as_parent(cwd.join(list@[i]@), "package.json"@);
    assert(path_views(list@)[i] == list@[i]@);
}

/// The files of two lists of directories, one list after the other, are those of the first and
/// then those of the second.
pub proof fn joined_lists_name_the_files_of_both(
    left: Vec<FilePath>,
    right: Vec<FilePath>,
    both: Vec<FilePath>,
    cwd: FilePathView,
)
    requires
        both@ == left@ + right@,
    ensures
        configured_paths(Some(PackageDir::Many(both)), cwd) == configured_paths(
            Some(PackageDir::Many(left)),
            cwd,
        ) + configured_paths(Some(PackageDir::Many(right)), cwd),
{
    assert(configured_paths(Some(PackageDir::Many(both)), cwd) =~= configured_paths(
        Some(PackageDir::Many(left)),
        cwd,
    ) + configured_paths(Some(PackageDir::Many(right)), cwd));
}

/// An absolute directory is the same from every working directory with the same prefix.
pub proof fn absolute_directory_does_not_depend_on_the_working_directory(
    path: FilePath,
    here: FilePathView,
    there: FilePathView,
)
    requires
        path@.rooted,
        path@.prefix.len() > 0 || here.prefix == there.prefix,
    ensures
        configured_paths(Some(PackageDir::One(path)), here) == configured_paths(
            Some(PackageDir::One(path)),
            there,
        ),
{
    assert(configured_paths(Some(PackageDir::One(path)), here) =~= configured_paths(
        Some(PackageDir::One(path)),
        there,
    ));
}

// What several files declare together.

/// Whether a read is an error: it failed, and the file exists or is the only one that is named.
pub open spec fn is_error(read: PackageReadView, only_one: bool) -> bool {
    read.package is Err && (read.exists || only_one)
}

/// The first read that is an error decides: a file that exists is unparsable for the reason that
/// it could not be read, any other was not found. Without such a read there is no error.
pub proof fn first_error_decides(reads: Seq<PackageReadView>, only_one: bool, index: int)
    ensures
        (forall|i: int| 0 <= i < reads.len() ==> !is_error(#[trigger] reads[i], only_one))
            ==> gathered(reads, only_one) is Ok,
        0 <= index < reads.len() && is_error(reads[index], only_one) && (forall|i: int|
            0 <= i < index ==> !is_error(#[trigger] reads[i], only_one)) ==> gathered(
            reads,
            only_one,
        ) is Err && gathered(reads, only_one)->Err_0 == if reads[index].exists {
            PackageErrorView::Unparsable(reads[index].package->Err_0)
        } else {
            PackageErrorView::NotFound
        },
    decreases reads.len(),
{
    if reads.len() > 0 {
        let before = reads.drop_last();
        first_error_decides(before, only_one, index);
        assert(forall|i: int| 0 <= i < before.len() ==> #[trigger] before[i] == reads[i]);
        assert(reads.last() == reads[reads.len() - 1]);
        if forall|i: int| 0 <= i < reads.len() ==> !is_error(#[trigger] reads[i], only_one) {
            assert(forall|i: int|
                0 <= i < before.len() ==> !is_error(#[trigger] before[i], only_one));
            assert(!is_error(reads[reads.len() - 1], only_one));
        }
        if 0 <= index < reads.len() && is_error(reads[index], only_one) && (forall|i: int|
            0 <= i < index ==> !is_error(#[trigger] reads[i], only_one)) {
            assert(forall|i: int|
                0 <= i < index ==> !is_error(#[trigger] before[i], only_one));
        }
    }
}

/// The root is the directory of the first `package.json` that could be read, and there is none
/// where none could.
pub proof fn first_readable_package_json_is_the_root(
    reads: Seq<PackageReadView>,
    only_one: bool,
    index: int,
)
    requires
        gathered(reads, only_one) is Ok,
    ensures
        (forall|i: int| 0 <= i < reads.len() ==> (#[trigger] reads[i]).package is Err) ==> gathered(
            reads,
            only_one,
        )->Ok_0 == PackageDataView::empty(),
        0 <= index < reads.len() && reads[index].package is Ok && reads[index].path.segments.len()
            > 0 && (forall|i: int| 0 <= i < index ==> (#[trigger] reads[i]).package is Err)
            ==> gathered(reads, only_one)->Ok_0.package_root == reads[index].path.parent(),
    decreases reads.len(),
{
    if reads.len() > 0 {
        let before = reads.drop_last();
        first_readable_package_json_is_the_root(before, only_one, index);
        assert(forall|i: int| 0 <= i < before.len() ==> #[trigger] before[i] == reads[i]);
        assert(reads.last() == reads[reads.len() - 1]);
        if forall|i: int| 0 <= i < reads.len() ==> (#[trigger] reads[i]).package is Err {
            assert(forall|i: int| 0 <= i < before.len() ==> (#[trigger] before[i]).package is Err);
            assert(reads[reads.len() - 1].package is Err);
        }
        if 0 <= index < reads.len() && (forall|i: int|
            0 <= i < index ==> (#[trigger] reads[i]).package is Err) {
            assert(forall|i: int| 0 <= i < index ==> (#[trigger] before[i]).package is Err);
        }
    }
}

/// The options add one thing to what was read: where they name directories and no root was found,
/// the working directory is the root. They count a read as an error by how many directories they
/// name.
pub proof fn working_directory_stands_in_for_a_root(
    package_dir: Option<PackageDir>,
    cwd: FilePathView,
    reads: Seq<PackageReadView>,
)
    ensures
        ({
            let directories = configured_directories(package_dir).len();
            let read = gathered(reads, directories == 1);
            let data = gathered_data(package_dir, cwd, reads);
            &&& read is Err ==> data == read
            &&& read is Ok ==> data is Ok && data->Ok_0.dependencies == read->Ok_0.dependencies
            &&& read is Ok && read->Ok_0.package_root is Some ==> data->Ok_0.package_root
                == read->Ok_0.package_root
            &&& read is Ok && read->Ok_0.package_root is None && directories > 0
                ==> data->Ok_0.package_root == Some(cwd)
            &&& read is Ok && read->Ok_0.package_root is None && directories == 0
                ==> data->Ok_0.package_root is None
        }),
{
}

} // verus!
