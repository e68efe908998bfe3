//! File paths as their parts, and the upward search for the nearest `package.json`.
use crate::text::{copy_strings, same_text, texts};
use vstd::prelude::*;

verus! {

/// A path by its parts: the drive or share that it starts with (empty where there is none),
/// whether a root directory follows, and the names between the separators.
///
/// `.` and `..` are names like any other.
#[derive(Debug)]
pub struct FilePath {
    pub prefix: String,
    pub rooted: bool,
    pub segments: Vec<String>,
}

/// The contents of a [`FilePath`].
#[verifier::ext_equal]
pub struct FilePathView {
    pub prefix: Seq<char>,
    pub rooted: bool,
    pub segments: Seq<Seq<char>>,
}

impl View for FilePath {
    type V = FilePathView;

    open spec fn view(&self) -> FilePathView {
        FilePathView {
            prefix: self.prefix@,
            rooted: self.rooted,
            segments: texts(self.segments@),
        }
    }
}

impl FilePathView {
    /// The path without its last name; a root, a bare prefix and the empty path have none.
    pub open spec fn parent(self) -> Option<FilePathView> {
        if self.segments.len() == 0 {
            None
        } else {
            Some(FilePathView { segments: self.segments.drop_last(), ..self })
        }
    }

    /// The file `name` in the directory `self`.
    pub open spec fn child(self, name: Seq<char>) -> FilePathView {
        FilePathView { segments: self.segments.push(name), ..self }
    }

    /// `other` as seen from the directory `self`: a path with a prefix stands for itself, one
    /// with a root keeps only the prefix of `self`, and any other continues `self`.
    pub open spec fn join(self, other: FilePathView) -> FilePathView {
        if other.prefix.len() > 0 {
            other
        } else if other.rooted {
            FilePathView { prefix: self.prefix, ..other }
        } else {
            FilePathView { segments: self.segments + other.segments, ..self }
        }
    }

    /// The `distance`-th directory above the path, counted from zero: its parent first.
    pub open spec fn ancestor(self, distance: int) -> FilePathView {
        FilePathView { segments: self.segments.take(self.segments.len() - 1 - distance), ..self }
    }

    /// The `package.json` of the `distance`-th directory above the path.
    pub open spec fn candidate(self, distance: int) -> FilePathView {
        self.ancestor(distance).child("package.json"@)
    }
}

/// The paths of a sequence of paths.
pub open spec fn path_views(paths: Seq<FilePath>) -> Seq<FilePathView> {
    Seq::new(paths.len(), |i: int| paths[i]@)
}

/// The contents of an optional path.
pub open spec fn optional_path(path: Option<FilePath>) -> Option<FilePathView> {
    match path {
        Some(path) => Some(path@),
        None => None,
    }
}

impl Clone for FilePath {
    fn clone(&self) -> (copy: Self)
        ensures
            copy@ == self@,
    {
        FilePath {
            prefix: self.prefix.clone(),
            rooted: self.rooted,
            segments: copy_strings(&self.segments),
        }
    }
}

impl FilePath {
    /// The path without its last name.
    pub fn parent(&self) -> (parent: Option<FilePath>)
        ensures
            optional_path(parent) == self@.parent(),
    {
        if self.segments.len() == 0 {
            None
        } else {
            let mut parent = self.clone();
            parent.segments.pop();
            assert(parent@.segments =~= self@.segments.drop_last());
            Some(parent)
        }
    }

    /// The file `name` in this directory.
    pub fn child(&self, name: &str) -> (child: FilePath)
        ensures
            child@ == self@.child(name@),
    {
        let mut child = self.clone();
        child.segments.push(name.to_owned());
        assert(child@.segments =~= self@.segments.push(name@));
        child
    }

    /// `other` as seen from this directory.
    pub fn join(&self, other: &FilePath) -> (joined: FilePath)
        ensures
            joined@ == self@.join(other@),
    {
        if !other.prefix.as_str().is_empty() {
            other.clone()
        } else if other.rooted {
            let mut joined = other.clone();
            joined.prefix = self.prefix.clone();
            joined
        } else {
            let mut joined = self.clone();
            let mut added = copy_strings(&other.segments);
            let ghost start = joined@.segments;
            let ghost rest = texts(added@);
            joined.segments.append(&mut added);
            assert(joined@.segments =~= start + rest);
            joined
        }
    }

    /// Whether one of the names of the path is `name`.
    pub fn has_segment(&self, name: &str) -> (has: bool)
        ensures
            has == self@.segments.contains(name@),
    {
        for i in 0..self.segments.len()
            invariant
                forall|j: int| 0 <= j < i ==> self.segments@[j]@ != name@,
        {
            if same_text(self.segments[i].as_str(), name) {
                assert(self@.segments[i as int] == name@);
                return true;
            }
        }
        assert(forall|j: int|
            0 <= j < self@.segments.len() ==> self@.segments[j] == self.segments@[j]@);
        false
    }

    /// The first `kept` names of the path, then `package.json`.
    fn package_json_above(&self, kept: usize) -> (candidate: FilePath)
        requires
            kept < self@.segments.len(),
        ensures
            candidate@ == self@.candidate(self@.segments.len() - 1 - kept),
    {
        let mut directory = self.clone();
        directory.segments.truncate(kept);
        assert(directory@.segments =~= self@.segments.take(kept as int));
        directory.child("package.json")
    }
}

/// What the upward search for a `package.json` has come to.
#[derive(Debug)]
pub enum Search {
    /// The next answer that the search needs: whether this path names a file.
    Probe(FilePath),
    /// The nearest `package.json`.
    Found(FilePath),
    /// No directory above the path holds a `package.json`.
    Missing,
}

/// The contents of a [`Search`].
pub enum SearchView {
    Probe(FilePathView),
    Found(FilePathView),
    Missing,
}

impl View for Search {
    type V = SearchView;

    open spec fn view(&self) -> SearchView {
        match self {
            Search::Probe(path) => SearchView::Probe(path@),
            Search::Found(path) => SearchView::Found(path@),
            Search::Missing => SearchView::Missing,
        }
    }
}

/// The search from the `distance`-th directory above `path` on.
pub open spec fn search_from(path: FilePathView, is_file: Seq<bool>, distance: int) -> SearchView
    decreases path.segments.len() - distance,
{
    if distance >= path.segments.len() {
        SearchView::Missing
    } else if distance >= is_file.len() {
        SearchView::Probe(path.candidate(distance))
    } else if is_file[distance] {
        SearchView::Found(path.candidate(distance))
    } else {
        search_from(path, is_file, distance + 1)
    }
}

/// The search above `path` when `is_file` holds the answers so far, nearest directory first.
pub open spec fn search(path: FilePathView, is_file: Seq<bool>) -> SearchView {
    search_from(path, is_file, 0)
}

/// Looks for the nearest `package.json` in the directories above `path`.
///
/// `is_file` says, for the `package.json` of each directory from the nearest one up, whether it
/// is a file, as far as that is known; the result asks for the next answer until one is yes or
/// no directory is left.
pub fn nearest_package_json(path: &FilePath, is_file: &Vec<bool>) -> (search: Search)
    ensures
        search@ == self::search(path@, is_file@),
{
    let mut kept: usize = path.segments.len();
    let mut distance: usize = 0;
    while kept > 0
        invariant
            kept + distance == path@.segments.len(),
            self::search(path@, is_file@) == search_from(path@, is_file@, distance as int),
        decreases kept,
    {
        kept = kept - 1;
        if distance >= is_file.len() {
            return Search::Probe(path.package_json_above(kept));
        }
        if is_file[distance] {
            return Search::Found(path.package_json_above(kept));
        }
        distance = distance + 1;
    }
    Search::Missing
}

} // verus!
