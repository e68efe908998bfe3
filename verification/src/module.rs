//! Module specifiers: the package that they name, whether it is declared, and which of them
//! need no declaration.
use crate::collections::contains_name;
use crate::json::{lemma_array_contents, Json, JsonView};
use crate::package::{DependencyFields, DependencyFieldsView};
use crate::path::{optional_path, FilePath, FilePathView};
use crate::text::{characters, find_slash, has_prefix, same_text, slash_from};
use lazy_regex::Regex;
use vstd::prelude::*;
use vstd::string::*;

verus! {

/// The number of characters of `source` that name the package: all up to the first `/`, or, for
/// a scoped package such as `@scope/name`, up to the second, where anything stands between the
/// two.
pub open spec fn module_name_length(source: Seq<char>) -> int {
    let first = slash_from(source, 0);
    let second = slash_from(source, first + 1);
    if source.len() > 0 && source[0] == '@' && first + 1 < second {
        second
    } else {
        first
    }
}

/// The name of the package that a module specifier names.
pub open spec fn named_module(source: Seq<char>) -> Seq<char> {
    source.take(module_name_length(source))
}

/// The name of the package that a module specifier names.
pub fn module_name(source: &str) -> (name: &str)
    ensures
        name@ == named_module(source@),
{
    let characters = characters(source);
    let first: usize = find_slash(&characters, 0);
    let mut length: usize = first;
    if characters.len() > 0 && characters[0] == '@' && first < characters.len() {
        let second: usize = find_slash(&characters, first + 1);
        if first + 1 < second {
            length = second;
        }
    }
    source.substring_char(0, length)
}

/// Which kinds of declarations a package has.
#[derive(Debug, Clone, Copy)]
pub struct DeclarationStatus {
    pub dependencies: bool,
    pub dev_dependencies: bool,
    pub optional_dependencies: bool,
    pub peer_dependencies: bool,
    pub bundled_dependencies: bool,
}

impl DeclarationStatus {
    /// The kinds of either status.
    pub open spec fn either(self, other: DeclarationStatus) -> DeclarationStatus {
        DeclarationStatus {
            dependencies: self.dependencies || other.dependencies,
            dev_dependencies: self.dev_dependencies || other.dev_dependencies,
            optional_dependencies: self.optional_dependencies || other.optional_dependencies,
            peer_dependencies: self.peer_dependencies || other.peer_dependencies,
            bundled_dependencies: self.bundled_dependencies || other.bundled_dependencies,
        }
    }

    /// No declaration of any kind.
    pub open spec fn undeclared() -> DeclarationStatus {
        DeclarationStatus {
            dependencies: false,
            dev_dependencies: false,
            optional_dependencies: false,
            peer_dependencies: false,
            bundled_dependencies: false,
        }
    }

    /// The kinds of either status.
    pub fn or(self, other: DeclarationStatus) -> (both: DeclarationStatus)
        ensures
            both == self.either(other),
    {
        DeclarationStatus {
            dependencies: self.dependencies || other.dependencies,
            dev_dependencies: self.dev_dependencies || other.dev_dependencies,
            optional_dependencies: self.optional_dependencies || other.optional_dependencies,
            peer_dependencies: self.peer_dependencies || other.peer_dependencies,
            bundled_dependencies: self.bundled_dependencies || other.bundled_dependencies,
        }
    }
}

impl Default for DeclarationStatus {
    fn default() -> (status: Self)
        ensures
            status == DeclarationStatus::undeclared(),
    {
        DeclarationStatus {
            dependencies: false,
            dev_dependencies: false,
            optional_dependencies: false,
            peer_dependencies: false,
            bundled_dependencies: false,
        }
    }
}

/// Where the last segment of `text` starts: behind its last `/`.
pub open spec fn last_segment_start(text: Seq<char>) -> int
    decreases text.len(),
{
    if text.len() == 0 || text.last() == '/' {
        text.len() as int
    } else {
        last_segment_start(text.drop_last())
    }
}

/// Whether the last segment of `text` is a scope, such as `@scope`.
pub open spec fn ends_in_scope(text: Seq<char>) -> bool {
    last_segment_start(text) < text.len() && text[last_segment_start(text)] == '@'
}

/// Whether the first `length` characters of `name` are a package that covers it: a run of whole
/// segments that does not end in a scope.
pub open spec fn covers(name: Seq<char>, length: int) -> bool {
    &&& 0 <= length <= name.len()
    &&& length == name.len() || name[length] == '/'
    &&& !ends_in_scope(name.take(length))
}

/// Whether `names` holds `name` or a package that covers it.
pub open spec fn declares(names: Set<Seq<char>>, name: Seq<char>) -> bool {
    exists|length: int| #[trigger] covers(name, length) && names.contains(name.take(length))
}

/// Which kinds of declarations `name` has.
pub open spec fn declared_status(
    dependencies: DependencyFieldsView,
    name: Seq<char>,
) -> DeclarationStatus {
    DeclarationStatus {
        dependencies: declares(dependencies.dependencies, name),
        dev_dependencies: declares(dependencies.dev_dependencies, name),
        optional_dependencies: declares(dependencies.optional_dependencies, name),
        peer_dependencies: declares(dependencies.peer_dependencies, name),
        bundled_dependencies: declares(dependencies.bundled_dependencies, name),
    }
}

/// Whether `names` holds a package that covers `name` and has fewer than `limit` characters.
spec fn declares_below(names: Set<Seq<char>>, name: Seq<char>, limit: int) -> bool {
    exists|length: int|
        length < limit && #[trigger] covers(name, length) && names.contains(name.take(length))
}

/// Which kinds of declarations `name` has through packages of fewer than `limit` characters.
spec fn status_below(
    dependencies: DependencyFieldsView,
    name: Seq<char>,
    limit: int,
) -> DeclarationStatus {
    DeclarationStatus {
        dependencies: declares_below(dependencies.dependencies, name, limit),
        dev_dependencies: declares_below(dependencies.dev_dependencies, name, limit),
        optional_dependencies: declares_below(dependencies.optional_dependencies, name, limit),
        peer_dependencies: declares_below(dependencies.peer_dependencies, name, limit),
        bundled_dependencies: declares_below(dependencies.bundled_dependencies, name, limit),
    }
}

proof fn lemma_declares_below_step(names: Set<Seq<char>>, name: Seq<char>, limit: int)
    ensures
        declares_below(names, name, limit + 1) == (declares_below(names, name, limit) || (covers(
            name,
            limit,
        ) && names.contains(name.take(limit)))),
{
    if declares_below(names, name, limit + 1) {
        let length = choose|length: int|
            length < limit + 1 && #[trigger] covers(name, length) && names.contains(
                name.take(length),
            );
        if length < limit {
            assert(declares_below(names, name, limit));
        }
    }
}

proof fn lemma_declares_below_end(names: Set<Seq<char>>, name: Seq<char>)
    ensures
        declares_below(names, name, name.len() as int + 1) == declares(names, name),
{
}

proof fn lemma_last_segment_step(name: Seq<char>, length: int)
    requires
        0 <= length < name.len(),
    ensures
        last_segment_start(name.take(length + 1)) == if name[length] == '/' {
            length + 1
        } else {
            last_segment_start(name.take(length))
        },
{
    assert(name.take(length + 1).drop_last() =~= name.take(length));
}

/// Which kinds of declarations `name` has.
pub fn declaration_status(dependencies: &DependencyFields, name: &str) -> (status:
    DeclarationStatus)
    ensures
        status == declared_status(dependencies@, name@),
{
    let mut status = DeclarationStatus::default();
    let characters = characters(name);
    let mut start: usize = 0;
    let mut length: usize = 0;
    let mut done = false;
    while !done
        invariant
            characters@ == name@,
            0 <= start <= length,
            !done ==> length <= name@.len(),
            !done ==> start == last_segment_start(name@.take(length as int)),
            done ==> length == name@.len(),
            status == status_below(
                dependencies@,
                name@,
                if done {
                    length + 1
                } else {
                    length as int
                },
            ),
        decreases
                name@.len() - length + if done {
                    0int
                } else {
                    1int
                },
    {
        let whole = length == characters.len() || characters[length] == '/';
        if whole && !(start < length && characters[start] == '@') {
            assert(covers(name@, length as int));
            let ancestor = name.substring_char(0, length);
            assert(ancestor@ =~= name@.take(length as int));
            status =
            status.or(
                DeclarationStatus {
                    dependencies: contains_name(&dependencies.dependencies, ancestor),
                    dev_dependencies: contains_name(&dependencies.dev_dependencies, ancestor),
                    optional_dependencies: contains_name(
                        &dependencies.optional_dependencies,
                        ancestor,
                    ),
                    peer_dependencies: contains_name(&dependencies.peer_dependencies, ancestor),
                    bundled_dependencies: contains_name(
                        &dependencies.bundled_dependencies,
                        ancestor,
                    ),
                },
            );
        }
        proof {
            let fields = dependencies@;
            let limit = length as int;
            lemma_declares_below_step(fields.dependencies, name@, limit);
            lemma_declares_below_step(fields.dev_dependencies, name@, limit);
            lemma_declares_below_step(fields.optional_dependencies, name@, limit);
            lemma_declares_below_step(fields.peer_dependencies, name@, limit);
            lemma_declares_below_step(fields.bundled_dependencies, name@, limit);
        }
        if length == characters.len() {
            done = true;
        } else {
            proof {
                lemma_last_segment_step(name@, length as int);
            }
            if characters[length] == '/' {
                start = length + 1;
            }
            length = length + 1;
        }
    }
    proof {
        lemma_declares_below_end(dependencies@.dependencies, name@);
        lemma_declares_below_end(dependencies@.dev_dependencies, name@);
        lemma_declares_below_end(dependencies@.optional_dependencies, name@);
        lemma_declares_below_end(dependencies@.peer_dependencies, name@);
        lemma_declares_below_end(dependencies@.bundled_dependencies, name@);
    }
    status
}

/// Whether `specifier` names a module that Node.js brings along.
pub uninterp spec fn nodejs_builtin(specifier: Seq<char>) -> bool;

/// `is_nodejs_builtin_module`: whether the specifier is in the crate's list of the modules that
/// Node.js brings along, with or without `node:` before it.
pub assume_specification[ nodejs_built_in_modules::is_nodejs_builtin_module ](
    specifier: &str,
) -> (builtin: bool)
    ensures
        builtin == nodejs_builtin(specifier@),
;

/// Whether the settings list `name` among the modules that the environment brings along.
pub open spec fn listed_core_module(settings: Option<JsonView>, name: Seq<char>) -> bool {
    match settings {
        Some(settings) => match settings.field("import-x/core-modules"@) {
            Some(modules) => modules.strings().contains(name),
            None => false,
        },
        None => false,
    }
}

/// Whether a module comes with the environment and needs no declaration.
pub open spec fn core_module(settings: Option<JsonView>, source: Seq<char>) -> bool {
    ||| "node:"@.is_prefix_of(source)
    ||| nodejs_builtin(source)
    ||| listed_core_module(settings, named_module(source))
}

/// The contents of optional settings.
pub open spec fn settings_view(settings: Option<Json>) -> Option<JsonView> {
    match settings {
        Some(settings) => Some(settings@),
        None => None,
    }
}

/// Whether one of the items of an array is the string `text`.
fn lists_text(items: &Vec<Json>, text: &str) -> (lists: bool)
    ensures
        lists == Json::Array(*items)@.strings().contains(text@),
{
    let ghost contents = Json::Array(*items)@->Array_0;
    proof {
        lemma_array_contents(*items);
    }
    for i in 0..items.len()
        invariant
            Json::Array(*items)@ == JsonView::Array(contents),
            contents.len() == items@.len(),
            forall|j: int| 0 <= j < items@.len() ==> #[trigger] contents[j] == items@[j]@,
            forall|j: int| 0 <= j < i ==> #[trigger] contents[j] != JsonView::Text(text@),
    {
        assert(contents[i as int] == items@[i as int]@);
        if let Some(item) = items[i].as_str() {
            if same_text(item, text) {
                return true;
            }
        }
    }
    false
}

/// Whether a module comes with the environment and needs no declaration.
pub fn is_core_module(settings: &Option<Json>, source: &str) -> (core: bool)
    ensures
        core == core_module(settings_view(*settings), source@),
{
    if has_prefix(source, "node:") || nodejs_built_in_modules::is_nodejs_builtin_module(source) {
        return true;
    }
    match settings {
        Some(settings) => match settings.field("import-x/core-modules") {
            Some(Json::Array(modules)) => lists_text(modules, module_name(source)),
            _ => false,
        },
        None => false,
    }
}

/// Whether a text matches a regular expression; nothing where the expression does not compile.
pub uninterp spec fn regex_matches(pattern: Seq<char>, text: Seq<char>) -> Option<bool>;

/// `Regex::new`, then `Regex::is_match`: whether the expression matches anywhere in the text, or
/// nothing where it does not compile. Which it is depends on the two texts alone.
#[verifier::external_body]
fn match_regex(pattern: &str, text: &str) -> (matches: Option<bool>)
    ensures
        matches == regex_matches(pattern@, text@),
{
    match Regex::new(pattern) {
        Ok(regex) => Some(regex.is_match(text)),
        Err(_) => None,
    }
}

/// The regular expression that the settings give for internal modules.
pub open spec fn internal_pattern(settings: Option<JsonView>) -> Option<Seq<char>> {
    match settings {
        Some(settings) => match settings.field("import-x/internal-regex"@) {
            Some(pattern) => pattern.text(),
            None => None,
        },
        None => None,
    }
}

/// Whether a module belongs to the project itself: the settings say so, it is given by a path, or
/// it resolves to a file outside every `node_modules` directory.
pub open spec fn internal(
    source: Seq<char>,
    resolved: Option<FilePathView>,
    pattern: Option<Seq<char>>,
) -> bool {
    ||| pattern is Some && regex_matches(pattern->0, source) == Some(true)
    ||| "."@.is_prefix_of(source)
    ||| "/"@.is_prefix_of(source)
    ||| resolved is Some && !resolved->0.segments.contains("node_modules"@)
}

/// The regular expression that the settings give for internal modules.
pub fn internal_regex(settings: &Option<Json>) -> (pattern: Option<&str>)
    ensures
        match pattern {
            Some(pattern) => internal_pattern(settings_view(*settings)) == Some(pattern@),
            None => internal_pattern(settings_view(*settings)) is None,
        },
{
    match settings {
        Some(settings) => match settings.field("import-x/internal-regex") {
            Some(pattern) => pattern.as_str(),
            None => None,
        },
        None => None,
    }
}

/// Whether a module belongs to the project itself.
pub fn is_internal(source: &str, resolved: &Option<FilePath>, pattern: Option<&str>) -> (internal:
    bool)
    ensures
        internal == self::internal(
            source@,
            optional_path(*resolved),
            match pattern {
                Some(pattern) => Some(pattern@),
                None => None,
            },
        ),
{
    let matched = match pattern {
        Some(pattern) => match match_regex(pattern, source) {
            Some(matches) => matches,
            None => false,
        },
        None => false,
    };
    matched || has_prefix(source, ".") || has_prefix(source, "/") || match resolved {
        Some(path) => !path.has_segment("node_modules"),
        None => false,
    }
}

} // verus!
