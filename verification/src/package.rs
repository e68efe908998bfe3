//! What `package.json` files declare.
use crate::collections::{extend_set, insert_name, new_set, set_contents};
use crate::config::PackageDir;
use crate::json::{
    json_parsed, lemma_array_contents, lemma_object_contents, optional_json, parse_json, Json,
    JsonView,
};
use crate::path::{optional_path, path_views, FilePath, FilePathView};
use crate::text::optional_text;
use rustc_hash::FxHashSet;
use vstd::prelude::*;

verus! {

/// The packages that `package.json` files declare, by kind.
#[derive(Debug)]
pub struct DependencyFields {
    pub dependencies: FxHashSet<String>,
    pub dev_dependencies: FxHashSet<String>,
    pub optional_dependencies: FxHashSet<String>,
    pub peer_dependencies: FxHashSet<String>,
    pub bundled_dependencies: FxHashSet<String>,
}

/// The contents of [`DependencyFields`].
#[verifier::ext_equal]
pub struct DependencyFieldsView {
    pub dependencies: Set<Seq<char>>,
    pub dev_dependencies: Set<Seq<char>>,
    pub optional_dependencies: Set<Seq<char>>,
    pub peer_dependencies: Set<Seq<char>>,
    pub bundled_dependencies: Set<Seq<char>>,
}

impl View for DependencyFields {
    type V = DependencyFieldsView;

    open spec fn view(&self) -> DependencyFieldsView {
        DependencyFieldsView {
            dependencies: set_contents(self.dependencies),
            dev_dependencies: set_contents(self.dev_dependencies),
            optional_dependencies: set_contents(self.optional_dependencies),
            peer_dependencies: set_contents(self.peer_dependencies),
            bundled_dependencies: set_contents(self.bundled_dependencies),
        }
    }
}

impl DependencyFieldsView {
    /// No declarations.
    pub open spec fn empty() -> DependencyFieldsView {
        DependencyFieldsView {
            dependencies: Set::empty(),
            dev_dependencies: Set::empty(),
            optional_dependencies: Set::empty(),
            peer_dependencies: Set::empty(),
            bundled_dependencies: Set::empty(),
        }
    }

    /// The declarations of both, kind by kind.
    pub open spec fn merge(self, other: DependencyFieldsView) -> DependencyFieldsView {
        DependencyFieldsView {
            dependencies: self.dependencies.union(other.dependencies),
            dev_dependencies: self.dev_dependencies.union(other.dev_dependencies),
            optional_dependencies: self.optional_dependencies.union(other.optional_dependencies),
            peer_dependencies: self.peer_dependencies.union(other.peer_dependencies),
            bundled_dependencies: self.bundled_dependencies.union(other.bundled_dependencies),
        }
    }
}

impl Default for DependencyFields {
    fn default() -> (fields: Self)
        ensures
            fields@ == DependencyFieldsView::empty(),
    {
        DependencyFields {
            dependencies: new_set(),
            dev_dependencies: new_set(),
            optional_dependencies: new_set(),
            peer_dependencies: new_set(),
            bundled_dependencies: new_set(),
        }
    }
}

/// The names that a field such as `dependencies` declares: its keys, where it is an object.
pub open spec fn declared_keys(value: Option<JsonView>) -> Set<Seq<char>> {
    match value {
        Some(value) => value.keys(),
        None => Set::empty(),
    }
}

/// The names that `bundleDependencies` declares: its strings, where it is an array, and its
/// keys, where it is an object.
pub open spec fn declared_bundle(value: Option<JsonView>) -> Set<Seq<char>> {
    match value {
        Some(JsonView::Array(_)) => value->0.strings(),
        Some(value) => value.keys(),
        None => Set::empty(),
    }
}

/// The field that lists bundled dependencies: `bundleDependencies`, or `bundledDependencies`
/// where that is absent.
pub open spec fn bundle_field(package: JsonView) -> Option<JsonView> {
    match package.field("bundleDependencies"@) {
        Some(value) => Some(value),
        None => package.field("bundledDependencies"@),
    }
}

/// The declarations of a `package.json` that holds an object.
pub open spec fn declared_fields(package: JsonView) -> DependencyFieldsView {
    DependencyFieldsView {
        dependencies: declared_keys(package.field("dependencies"@)),
        dev_dependencies: declared_keys(package.field("devDependencies"@)),
        optional_dependencies: declared_keys(package.field("optionalDependencies"@)),
        peer_dependencies: declared_keys(package.field("peerDependencies"@)),
        bundled_dependencies: declared_bundle(bundle_field(package)),
    }
}

/// The name that a `package.json` gives the package.
pub open spec fn declared_name(package: JsonView) -> Option<Seq<char>> {
    match package.field("name"@) {
        Some(value) => value.text(),
        None => None,
    }
}

/// A `package.json` that was read: its declarations and its name, or why it could not be read.
pub type ReadPackage = Result<(DependencyFieldsView, Option<Seq<char>>), Seq<char>>;

/// What a JSON value says as a `package.json`.
pub open spec fn package_of(package: JsonView) -> ReadPackage {
    match package {
        JsonView::Object(_) => Ok((declared_fields(package), declared_name(package))),
        _ => Err("package.json must contain an object"@),
    }
}

/// What a `package.json` says: `content` is its text, or why the text could not be read.
pub open spec fn package_read(content: Result<Seq<char>, Seq<char>>) -> ReadPackage {
    match content {
        Ok(text) => match json_parsed(text) {
            Ok(package) => package_of(package),
            Err(message) => Err(message),
        },
        Err(message) => Err(message),
    }
}

/// The contents of the outcome of reading a file.
pub open spec fn content_view(content: Result<String, String>) -> Result<Seq<char>, Seq<char>> {
    match content {
        Ok(text) => Ok(text@),
        Err(message) => Err(message@),
    }
}

/// The contents of a `package.json` that was read.
pub open spec fn read_view(
    package: Result<(DependencyFields, Option<String>), String>,
) -> ReadPackage {
    match package {
        Ok((dependencies, name)) => Ok((dependencies@, optional_text(name))),
        Err(message) => Err(message@),
    }
}

/// The keys of an object.
fn object_keys(fields: &Vec<(String, Json)>) -> (keys: FxHashSet<String>)
    ensures
        set_contents(keys) == Json::Object(*fields)@.keys(),
{
    let mut keys = new_set();
    let ghost contents = Json::Object(*fields)@->Object_0;
    proof {
        lemma_object_contents(*fields);
    }
    for i in 0..fields.len()
        invariant
            contents.len() == fields@.len(),
            forall|j: int|
                0 <= j < fields@.len() ==> #[trigger] contents[j] == (
                    fields@[j].0@,
                    fields@[j].1@,
                ),
            forall|key: Seq<char>|
                set_contents(keys).contains(key) <==> exists|j: int|
                    0 <= j < i && (#[trigger] contents[j]).0 == key,
    {
        let ghost before = set_contents(keys);
        insert_name(&mut keys, fields[i].0.clone());
        assert forall|key: Seq<char>| set_contents(keys).contains(key) <==> exists|j: int|
            0 <= j < i + 1 && (#[trigger] contents[j]).0 == key by {
            assert(contents[i as int].0 == fields@[i as int].0@);
            if before.contains(key) {
                let j = choose|j: int| 0 <= j < i && (#[trigger] contents[j]).0 == key;
                assert(contents[j].0 == key);
            }
        }
    }
    assert(set_contents(keys) =~= Json::Object(*fields)@.keys());
    keys
}

/// The strings of an array.
fn array_strings(items: &Vec<Json>) -> (strings: FxHashSet<String>)
    ensures
        set_contents(strings) == Json::Array(*items)@.strings(),
{
    let mut strings = new_set();
    let ghost contents = Json::Array(*items)@->Array_0;
    proof {
        lemma_array_contents(*items);
    }
    for i in 0..items.len()
        invariant
            contents.len() == items@.len(),
            forall|j: int| 0 <= j < items@.len() ==> #[trigger] contents[j] == items@[j]@,
            forall|text: Seq<char>|
                set_contents(strings).contains(text) <==> exists|j: int|
                    0 <= j < i && (#[trigger] contents[j]) == JsonView::Text(text),
    {
        let ghost before = set_contents(strings);
        if let Some(text) = items[i].as_str() {
            insert_name(&mut strings, text.to_owned());
        }
        assert forall|text: Seq<char>| set_contents(strings).contains(text) <==> exists|j: int|
            0 <= j < i + 1 && (#[trigger] contents[j]) == JsonView::Text(text) by {
            assert(contents[i as int] == items@[i as int]@);
            if before.contains(text) {
                let j = choose|j: int|
                    0 <= j < i && (#[trigger] contents[j]) == JsonView::Text(text);
                assert(contents[j] == JsonView::Text(text));
            }
        }
    }
    assert(set_contents(strings) =~= Json::Array(*items)@.strings());
    strings
}

/// The names that a field such as `dependencies` declares.
pub fn dependency_set(value: Option<&Json>) -> (names: FxHashSet<String>)
    ensures
        set_contents(names) == declared_keys(optional_json(value)),
{
    match value {
        Some(Json::Object(fields)) => object_keys(fields),
        _ => new_set(),
    }
}

/// The names that `bundleDependencies` declares.
pub fn bundled_dependency_set(value: Option<&Json>) -> (names: FxHashSet<String>)
    ensures
        set_contents(names) == declared_bundle(optional_json(value)),
{
    match value {
        Some(Json::Array(items)) => array_strings(items),
        Some(Json::Object(fields)) => object_keys(fields),
        _ => new_set(),
    }
}

/// What a JSON value says as a `package.json`.
pub fn package_fields(package: &Json) -> (read: Result<
    (DependencyFields, Option<String>),
    String,
>)
    ensures
        read_view(read) == package_of(package@),
{
    match package {
        Json::Object(_) => {
            let bundle = match package.field("bundleDependencies") {
                Some(value) => Some(value),
                None => package.field("bundledDependencies"),
            };
            let fields = DependencyFields {
                dependencies: dependency_set(package.field("dependencies")),
                dev_dependencies: dependency_set(package.field("devDependencies")),
                optional_dependencies: dependency_set(package.field("optionalDependencies")),
                peer_dependencies: dependency_set(package.field("peerDependencies")),
                bundled_dependencies: bundled_dependency_set(bundle),
            };
            let name = match package.field("name") {
                Some(value) => match value.as_str() {
                    Some(name) => Some(name.to_owned()),
                    None => None,
                },
                None => None,
            };
            Ok((fields, name))
        },
        _ => Err("package.json must contain an object".to_owned()),
    }
}

/// Reads a `package.json`: `content` is its text, or why the text could not be read.
pub fn read_package(content: &Result<String, String>) -> (read: Result<
    (DependencyFields, Option<String>),
    String,
>)
    ensures
        read_view(read) == package_read(content_view(*content)),
{
    match content {
        Ok(text) => match parse_json(text.as_str()) {
            Ok(package) => package_fields(&package),
            Err(message) => Err(message),
        },
        Err(message) => Err(message.clone()),
    }
}

/// Adds the declarations of `source` to those of `target`.
pub fn merge_dependencies(target: &mut DependencyFields, source: DependencyFields)
    ensures
        final(target)@ == old(target)@.merge(source@),
{
    extend_set(&mut target.dependencies, source.dependencies);
    extend_set(&mut target.dev_dependencies, source.dev_dependencies);
    extend_set(&mut target.optional_dependencies, source.optional_dependencies);
    extend_set(&mut target.peer_dependencies, source.peer_dependencies);
    extend_set(&mut target.bundled_dependencies, source.bundled_dependencies);
}

/// The declarations that a file is checked against, and the directory of the first
/// `package.json` that was read. Without that directory nothing is checked.
#[derive(Debug)]
pub struct PackageData {
    pub dependencies: DependencyFields,
    pub package_root: Option<FilePath>,
}

/// The contents of a [`PackageData`].
#[verifier::ext_equal]
pub struct PackageDataView {
    pub dependencies: DependencyFieldsView,
    pub package_root: Option<FilePathView>,
}

impl View for PackageData {
    type V = PackageDataView;

    open spec fn view(&self) -> PackageDataView {
        PackageDataView {
            dependencies: self.dependencies@,
            package_root: optional_path(self.package_root),
        }
    }
}

impl PackageDataView {
    /// No declarations, and no directory.
    pub open spec fn empty() -> PackageDataView {
        PackageDataView { dependencies: DependencyFieldsView::empty(), package_root: None }
    }

    /// The data with the declarations of the `package.json` at `path` added.
    pub open spec fn absorb(
        self,
        path: FilePathView,
        dependencies: DependencyFieldsView,
    ) -> PackageDataView {
        PackageDataView {
            dependencies: self.dependencies.merge(dependencies),
            package_root: match self.package_root {
                Some(root) => Some(root),
                None => path.parent(),
            },
        }
    }
}

impl Default for PackageData {
    fn default() -> (data: Self)
        ensures
            data@ == PackageDataView::empty(),
    {
        PackageData { dependencies: DependencyFields::default(), package_root: None }
    }
}

/// Why no declarations could be gathered.
#[derive(Debug)]
pub enum PackageError {
    /// The one `package.json` that the options name does not exist.
    NotFound,
    /// A `package.json` exists and could not be read, for the given reason.
    Unparsable(String),
}

/// The contents of a [`PackageError`].
pub enum PackageErrorView {
    NotFound,
    Unparsable(Seq<char>),
}

impl View for PackageError {
    type V = PackageErrorView;

    open spec fn view(&self) -> PackageErrorView {
        match self {
            PackageError::NotFound => PackageErrorView::NotFound,
            PackageError::Unparsable(message) => PackageErrorView::Unparsable(message@),
        }
    }
}

/// The contents of gathered declarations.
pub open spec fn data_view(data: Result<PackageData, PackageError>) -> Result<
    PackageDataView,
    PackageErrorView,
> {
    match data {
        Ok(data) => Ok(data@),
        Err(error) => Err(error@),
    }
}

/// One `package.json` that was tried: where it is, what reading it gave, and, where that failed,
/// whether the file exists.
#[derive(Debug)]
pub struct PackageRead {
    pub path: FilePath,
    pub package: Result<(DependencyFields, Option<String>), String>,
    pub exists: bool,
}

/// The contents of a [`PackageRead`].
pub struct PackageReadView {
    pub path: FilePathView,
    pub package: ReadPackage,
    pub exists: bool,
}

impl View for PackageRead {
    type V = PackageReadView;

    open spec fn view(&self) -> PackageReadView {
        PackageReadView {
            path: self.path@,
            package: read_view(self.package),
            exists: self.exists,
        }
    }
}

/// The contents of a sequence of reads.
pub open spec fn read_views(reads: Seq<PackageRead>) -> Seq<PackageReadView> {
    Seq::new(reads.len(), |i: int| reads[i]@)
}

/// The directories that the options name.
pub open spec fn configured_directories(package_dir: Option<PackageDir>) -> Seq<FilePathView> {
    match package_dir {
        Some(package_dir) => package_dir.directories(),
        None => seq![],
    }
}

/// The `package.json` files of the directories that the options name, seen from `cwd`.
pub open spec fn configured_paths(
    package_dir: Option<PackageDir>,
    cwd: FilePathView,
) -> Seq<FilePathView> {
    let directories = configured_directories(package_dir);
    Seq::new(
        directories.len(),
        |i: int| cwd.join(directories[i]).child("package.json"@),
    )
}

/// What a failed read comes to. A file that does not exist is passed over, unless it is the only
/// one that the options name.
pub open spec fn read_failure(
    message: Seq<char>,
    exists: bool,
    only_one: bool,
) -> Option<PackageErrorView> {
    if exists {
        Some(PackageErrorView::Unparsable(message))
    } else if only_one {
        Some(PackageErrorView::NotFound)
    } else {
        None
    }
}

/// The declarations of a sequence of reads, up to the first that fails for good.
pub open spec fn gathered(reads: Seq<PackageReadView>, only_one: bool) -> Result<
    PackageDataView,
    PackageErrorView,
>
    decreases reads.len(),
{
    if reads.len() == 0 {
        Ok(PackageDataView::empty())
    } else {
        match gathered(reads.drop_last(), only_one) {
            Ok(data) => match reads.last().package {
                Ok((dependencies, _)) => Ok(data.absorb(reads.last().path, dependencies)),
                Err(message) => match read_failure(message, reads.last().exists, only_one) {
                    Some(error) => Err(error),
                    None => Ok(data),
                },
            },
            Err(error) => Err(error),
        }
    }
}

/// The declarations that a file is checked against, from the reads of its `package.json` files.
/// Where the options name directories and none of them has a `package.json`, the file is checked
/// against no declarations at all, from `cwd`.
pub open spec fn gathered_data(
    package_dir: Option<PackageDir>,
    cwd: FilePathView,
    reads: Seq<PackageReadView>,
) -> Result<PackageDataView, PackageErrorView> {
    let directories = configured_directories(package_dir);
    match gathered(reads, directories.len() == 1) {
        Ok(data) => if data.package_root is None && directories.len() > 0 {
            Ok(PackageDataView { package_root: Some(cwd), ..data })
        } else {
            Ok(data)
        },
        Err(error) => Err(error),
    }
}

/// The number of directories that the options name.
pub fn configured_count(package_dir: &Option<PackageDir>) -> (count: usize)
    ensures
        count == configured_directories(*package_dir).len(),
{
    match package_dir {
        Some(PackageDir::One(_)) => 1,
        Some(PackageDir::Many(paths)) => paths.len(),
        None => 0,
    }
}

/// The `package.json` files of the directories that the options name, seen from `cwd`.
pub fn configured_package_paths(package_dir: &Option<PackageDir>, cwd: &FilePath) -> (paths: Vec<
    FilePath,
>)
    ensures
        path_views(paths@) == configured_paths(*package_dir, cwd@),
{
    let mut paths: Vec<FilePath> = Vec::new();
    if let Some(package_dir) = package_dir {
        let directories = package_dir.paths();
        for i in 0..directories.len()
            invariant
                path_views(directories@) == package_dir.directories(),
                paths@.len() == i,
                forall|j: int|
                    0 <= j < i ==> paths@[j]@ == cwd@.join(package_dir.directories()[j]).child(
                        "package.json"@,
                    ),
        {
            assert(path_views(directories@)[i as int] == directories@[i as int]@);
            paths.push(cwd.join(&directories[i]).child("package.json"));
        }
    }
    assert(path_views(paths@) =~= configured_paths(*package_dir, cwd@));
    paths
}

/// What a failed read comes to.
pub fn failed_read(message: &str, exists: bool, only_one: bool) -> (error: Option<PackageError>)
    ensures
        match error {
            Some(error) => read_failure(message@, exists, only_one) == Some(error@),
            None => read_failure(message@, exists, only_one) is None,
        },
{
    if exists {
        Some(PackageError::Unparsable(message.to_owned()))
    } else if only_one {
        Some(PackageError::NotFound)
    } else {
        None
    }
}

/// A read that fails for good decides the outcome, whatever would have been read after it.
pub proof fn lemma_first_failure_stays(reads: Seq<PackageReadView>, count: int, only_one: bool)
    requires
        0 <= count <= reads.len(),
        gathered(reads.take(count), only_one) is Err,
    ensures
        gathered(reads, only_one) == gathered(reads.take(count), only_one),
    decreases reads.len() - count,
{
    if count == reads.len() {
        assert(reads.take(count) =~= reads);
    } else {
        assert(reads.take(count + 1).drop_last() =~= reads.take(count));
        lemma_first_failure_stays(reads, count + 1, only_one);
    }
}

/// Gathers the declarations that a file is checked against, from the reads of its
/// `package.json` files.
pub fn package_data(
    package_dir: &Option<PackageDir>,
    cwd: &FilePath,
    reads: Vec<PackageRead>,
) -> (data: Result<PackageData, PackageError>)
    ensures
        data_view(data) == gathered_data(*package_dir, cwd@, read_views(reads@)),
{
    let count: usize = configured_count(package_dir);
    let mut data = PackageData::default();
    let ghost all = read_views(reads@);
    for read in it: reads
        invariant
            all == read_views(reads@),
            all.len() == it.seq().len(),
            forall|i: int| 0 <= i < all.len() ==> #[trigger] all[i] == it.seq()[i]@,
            count == configured_directories(*package_dir).len(),
            gathered(all.take(it.index()), count == 1) == Ok::<
                PackageDataView,
                PackageErrorView,
            >(data@),
    {
        assert(all.take(it.index() + 1).drop_last() =~= all.take(it.index()));
        match read.package {
            Ok((dependencies, _)) => {
                if data.package_root.is_none() {
                    data.package_root = read.path.parent();
                }
                merge_dependencies(&mut data.dependencies, dependencies);
            },
            Err(message) => {
                if let Some(error) = failed_read(message.as_str(), read.exists, count == 1) {
                    proof {
                        lemma_first_failure_stays(all, it.index() + 1, count == 1);
                    }
                    return Err(error);
                }
            },
        }
    }
    assert(all.take(all.len() as int) =~= all);
    if data.package_root.is_none() && count > 0 {
        data.package_root = Some(cwd.clone());
    }
    Ok(data)
}

} // verus!
