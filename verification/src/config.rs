//! The options of the rule.
use crate::glob::{is_pattern_sized, matches_pattern, pattern_matches, pattern_sized, PathTexts};
use crate::path::{path_views, FilePath, FilePathView};
use vstd::prelude::*;

verus! {

/// The directories whose `package.json` files are used.
#[derive(Debug, Clone)]
pub enum PackageDir {
    One(FilePath),
    Many(Vec<FilePath>),
}

impl PackageDir {
    /// The directories, in order.
    pub open spec fn directories(self) -> Seq<FilePathView> {
        match self {
            PackageDir::One(path) => seq![path@],
            PackageDir::Many(paths) => path_views(paths@),
        }
    }

    /// The directories, in order.
    pub fn paths(&self) -> (paths: Vec<FilePath>)
        ensures
            path_views(paths@) == self.directories(),
    {
        let mut copies: Vec<FilePath> = Vec::new();
        match self {
            PackageDir::One(path) => {
                copies.push(path.clone());
                assert(path_views(copies@) =~= seq![path@]);
            },
            PackageDir::Many(paths) => {
                for i in 0..paths.len()
                    invariant
                        copies@.len() == i,
                        forall|j: int| 0 <= j < i ==> copies@[j]@ == paths@[j]@,
                {
                    copies.push(paths[i].clone());
                }
                assert(path_views(copies@) =~= path_views(paths@));
            },
        }
        copies
    }
}

/// An option that allows one kind of dependency: everywhere or nowhere, or in the files that
/// match one of some globs.
#[derive(Debug, Clone)]
pub enum BoolOrGlobs {
    Bool(bool),
    Globs(Vec<String>),
}

/// Whether an option allows its kind of dependency in the file that `texts` tells of.
pub open spec fn option_allows(option: BoolOrGlobs, texts: PathTexts) -> bool {
    match option {
        BoolOrGlobs::Bool(value) => value,
        BoolOrGlobs::Globs(patterns) => exists|i: int|
            0 <= i < patterns@.len() && pattern_matches(#[trigger] patterns@[i]@, texts),
    }
}

/// Whether every pattern of an option is short enough to be matched.
pub open spec fn option_sized(option: BoolOrGlobs, texts: PathTexts) -> bool {
    match option {
        BoolOrGlobs::Bool(_) => true,
        BoolOrGlobs::Globs(patterns) => forall|i: int|
            0 <= i < patterns@.len() ==> pattern_sized(#[trigger] patterns@[i]@, texts),
    }
}

/// Whether an option for optional, peer or bundled dependencies forbids its kind: it is set, and
/// does not allow it.
pub open spec fn forbids(option: Option<BoolOrGlobs>, texts: PathTexts) -> bool {
    option is Some && !option_allows(option->0, texts)
}

/// Whether the option for development dependencies forbids them: it is not set, or does not allow
/// them. They serve the work on the project, so a file needs leave to import them.
pub open spec fn forbids_development(option: Option<BoolOrGlobs>, texts: PathTexts) -> bool {
    option is None || !option_allows(option->0, texts)
}

impl BoolOrGlobs {
    /// Whether the option allows its kind of dependency in the file that `texts` tells of.
    pub fn allows(&self, texts: &PathTexts) -> (allows: bool)
        requires
            option_sized(*self, *texts),
        ensures
            allows == option_allows(*self, *texts),
    {
        match self {
            BoolOrGlobs::Bool(value) => *value,
            BoolOrGlobs::Globs(patterns) => {
                for i in 0..patterns.len()
                    invariant
                        *self == BoolOrGlobs::Globs(*patterns),
                        forall|j: int|
                            0 <= j < patterns@.len() ==> pattern_sized(
                                #[trigger] patterns@[j]@,
                                *texts,
                            ),
                        forall|j: int|
                            0 <= j < i ==> !pattern_matches(#[trigger] patterns@[j]@, *texts),
                {
                    if matches_pattern(patterns[i].as_str(), texts) {
                        assert(pattern_matches(self->Globs_0@[i as int]@, *texts));
                        return true;
                    }
                }
                false
            },
        }
    }

    /// Whether every pattern of the option is short enough to be matched.
    pub fn is_sized(&self, texts: &PathTexts) -> (sized: bool)
        ensures
            sized == option_sized(*self, *texts),
    {
        match self {
            BoolOrGlobs::Bool(_) => true,
            BoolOrGlobs::Globs(patterns) => {
                for i in 0..patterns.len()
                    invariant
                        *self == BoolOrGlobs::Globs(*patterns),
                        forall|j: int|
                            0 <= j < i ==> pattern_sized(#[trigger] patterns@[j]@, *texts),
                {
                    if !is_pattern_sized(patterns[i].as_str(), texts) {
                        assert(!pattern_sized(self->Globs_0@[i as int]@, *texts));
                        return false;
                    }
                }
                true
            },
        }
    }
}

/// The options of the rule.
#[derive(Debug, Clone)]
pub struct NoExtraneousDependenciesConfig {
    /// The directories whose `package.json` files are used; the nearest one without it.
    pub package_dir: Option<PackageDir>,
    /// Where packages of `devDependencies` may be imported; nowhere without it.
    pub dev_dependencies: Option<BoolOrGlobs>,
    /// Where packages of `optionalDependencies` may be imported; everywhere without it.
    pub optional_dependencies: Option<BoolOrGlobs>,
    /// Where packages of `peerDependencies` may be imported; everywhere without it.
    pub peer_dependencies: Option<BoolOrGlobs>,
    /// Where packages of `bundleDependencies` may be imported; everywhere without it.
    pub bundled_dependencies: Option<BoolOrGlobs>,
    /// Whether resolved internal modules are checked.
    pub include_internal: bool,
    /// Whether type-only imports and exports are checked.
    pub include_types: bool,
    /// Packages that may be imported without a declaration.
    pub whitelist: Vec<String>,
}

/// Whether no option is set.
pub open spec fn no_options(config: NoExtraneousDependenciesConfig) -> bool {
    &&& config.package_dir is None
    &&& config.dev_dependencies is None
    &&& config.optional_dependencies is None
    &&& config.peer_dependencies is None
    &&& config.bundled_dependencies is None
    &&& !config.include_internal
    &&& !config.include_types
    &&& config.whitelist@.len() == 0
}

impl Default for NoExtraneousDependenciesConfig {
    fn default() -> (config: Self)
        ensures
            no_options(config),
    {
        NoExtraneousDependenciesConfig {
            package_dir: None,
            dev_dependencies: None,
            optional_dependencies: None,
            peer_dependencies: None,
            bundled_dependencies: None,
            include_internal: false,
            include_types: false,
            whitelist: Vec::new(),
        }
    }
}

/// Whether every pattern of an option, where it is set, is short enough to be matched.
pub open spec fn optional_sized(option: Option<BoolOrGlobs>, texts: PathTexts) -> bool {
    option is Some ==> option_sized(option->0, texts)
}

/// Whether every pattern of the four options is short enough to be matched.
pub open spec fn config_sized(config: NoExtraneousDependenciesConfig, texts: PathTexts) -> bool {
    &&& optional_sized(config.dev_dependencies, texts)
    &&& optional_sized(config.optional_dependencies, texts)
    &&& optional_sized(config.peer_dependencies, texts)
    &&& optional_sized(config.bundled_dependencies, texts)
}

/// Whether an option for optional, peer or bundled dependencies forbids its kind: it is set, and
/// does not allow it.
pub fn is_forbidden(option: &Option<BoolOrGlobs>, texts: &PathTexts) -> (forbidden: bool)
    requires
        optional_sized(*option, *texts),
    ensures
        forbidden == forbids(*option, *texts),
{
    match option {
        Some(option) => !option.allows(texts),
        None => false,
    }
}

/// Whether the option for development dependencies forbids them.
pub fn is_development_forbidden(option: &Option<BoolOrGlobs>, texts: &PathTexts) -> (forbidden:
    bool)
    requires
        optional_sized(*option, *texts),
    ensures
        forbidden == forbids_development(*option, *texts),
{
    match option {
        Some(option) => !option.allows(texts),
        None => true,
    }
}

/// Whether every pattern of an option, where it is set, is short enough to be matched.
fn is_optional_sized(option: &Option<BoolOrGlobs>, texts: &PathTexts) -> (sized: bool)
    ensures
        sized == optional_sized(*option, *texts),
{
    match option {
        Some(option) => option.is_sized(texts),
        None => true,
    }
}

impl NoExtraneousDependenciesConfig {
    /// Whether every pattern of the four options is short enough to be matched.
    pub fn is_sized(&self, texts: &PathTexts) -> (sized: bool)
        ensures
            sized == config_sized(*self, *texts),
    {
        is_optional_sized(&self.dev_dependencies, texts) && is_optional_sized(
            &self.optional_dependencies,
            texts,
        ) && is_optional_sized(&self.peer_dependencies, texts) && is_optional_sized(
            &self.bundled_dependencies,
            texts,
        )
    }
}

/// The rule: forbids the use of packages that no used `package.json` declares, or declares as a
/// kind that the options do not allow.
#[derive(Debug, Clone)]
pub struct NoExtraneousDependencies(pub Box<NoExtraneousDependenciesConfig>);

impl Default for NoExtraneousDependencies {
    fn default() -> (rule: Self)
        ensures
            no_options(*rule.0),
    {
        NoExtraneousDependencies(Box::new(NoExtraneousDependenciesConfig::default()))
    }
}

impl std::ops::Deref for NoExtraneousDependencies {
    type Target = NoExtraneousDependenciesConfig;

    fn deref(&self) -> (config: &Self::Target)
        ensures
            *config == *self.0,
    {
        &self.0
    }
}

} // verus!
