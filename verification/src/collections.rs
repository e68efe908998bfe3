//! The hash tables of `rustc_hash` that the library keeps: sets of names, and the package names
//! found so far.
use crate::path::{FilePath, FilePathView};
use crate::text::optional_text;
use rustc_hash::{FxBuildHasher, FxHashMap, FxHashSet};
use vstd::prelude::*;

verus! {

/// The hasher of the tables, `rustc_hash::FxBuildHasher`, of which nothing is claimed.
#[verifier::external_type_specification]
#[verifier::external_body]
pub struct ExFxBuildHasher(FxBuildHasher);

/// The names that a set holds.
pub uninterp spec fn set_contents(set: FxHashSet<String>) -> Set<Seq<char>>;

/// `FxHashSet::default`: the new set holds nothing.
#[verifier::external_body]
pub(crate) fn new_set() -> (set: FxHashSet<String>)
    ensures
        set_contents(set) == Set::<Seq<char>>::empty(),
{
    FxHashSet::default()
}

/// `FxHashSet::insert`: the set holds `name` afterwards, besides what it held before.
#[verifier::external_body]
pub(crate) fn insert_name(set: &mut FxHashSet<String>, name: String)
    ensures
        set_contents(*final(set)) == set_contents(*old(set)).insert(name@),
{
    set.insert(name);
}

/// `FxHashSet::contains`: whether the set holds `name`.
#[verifier::external_body]
pub(crate) fn contains_name(set: &FxHashSet<String>, name: &str) -> (contains: bool)
    ensures
        contains == set_contents(*set).contains(name@),
{
    set.contains(name)
}

/// `FxHashSet::extend`: the set holds afterwards what either set held.
#[verifier::external_body]
pub(crate) fn extend_set(set: &mut FxHashSet<String>, other: FxHashSet<String>)
    ensures
        set_contents(*final(set)) == set_contents(*old(set)).union(set_contents(other)),
{
    set.extend(other);
}

/// A table from the parts of a path to the name of the package that the path describes.
pub type PackageNames = FxHashMap<(String, bool, Vec<String>), Option<String>>;

/// The package names that a table holds, by path.
pub uninterp spec fn table_contents(
    table: FxHashMap<(String, bool, Vec<String>), Option<String>>,
) -> Map<FilePathView, Option<Seq<char>>>;

/// The table that holds nothing.
pub open spec fn no_package_names() -> Map<FilePathView, Option<Seq<char>>> {
    Map::empty()
}

/// `FxHashMap::default`: the new table holds nothing.
#[verifier::external_body]
pub(crate) fn new_table() -> (table: PackageNames)
    ensures
        table_contents(table) == no_package_names(),
{
    FxHashMap::default()
}

/// `FxHashMap::get`: the value that the table holds for `path`, if it holds one.
#[verifier::external_body]
pub(crate) fn table_get(table: &PackageNames, path: &FilePath) -> (found: Option<Option<String>>)
    ensures
        match found {
            Some(name) => table_contents(*table).contains_key(path@) && table_contents(
                *table,
            )[path@] == optional_text(name),
            None => !table_contents(*table).contains_key(path@),
        },
{
    table.get(&(path.prefix.clone(), path.rooted, path.segments.clone())).cloned()
}

/// `FxHashMap::insert`: the table holds `name` for `path` afterwards, and for every other path
/// what it held before.
#[verifier::external_body]
pub(crate) fn table_insert(table: &mut PackageNames, path: FilePath, name: Option<String>)
    ensures
        table_contents(*final(table)) == table_contents(*old(table)).insert(
            path@,
            optional_text(name),
        ),
{
    table.insert((path.prefix, path.rooted, path.segments), name);
}

/// The set of the given names.
pub fn name_set(names: &Vec<String>) -> (set: FxHashSet<String>)
    ensures
        set_contents(set) == crate::text::texts(names@).to_set(),
{
    let mut set = new_set();
    let ghost all = crate::text::texts(names@);
    for i in 0..names.len()
        invariant
            all == crate::text::texts(names@),
            forall|name: Seq<char>|
                set_contents(set).contains(name) <==> exists|j: int|
                    0 <= j < i && #[trigger] all[j] == name,
    {
        let ghost before = set_contents(set);
        insert_name(&mut set, names[i].clone());
        assert forall|name: Seq<char>| set_contents(set).contains(name) <==> exists|j: int|
            0 <= j < i + 1 && #[trigger] all[j] == name by {
            if before.contains(name) {
                let j = choose|j: int| 0 <= j < i && #[trigger] all[j] == name;
                assert(all[j] == name);
            }
            if name == names@[i as int]@ {
                assert(all[i as int] == name);
            }
        }
    }
    assert(set_contents(set) =~= all.to_set());
    set
}

} // verus!
