//! What holds of module specifiers: which package one names, which declarations cover it, and
//! which modules come with the environment.
use crate::json::JsonView;
use crate::laws::{lemma_slash_at, subpath_names_the_package};
use crate::module::{
    core_module, covers, declared_status, declares, ends_in_scope, last_segment_start,
    listed_core_module, named_module, nodejs_builtin,
};
use crate::package::DependencyFieldsView;
use vstd::prelude::*;

verus! {

// The package that a specifier names.

/// A specifier without a scope names what stands before its first `/`, or, without a `/`, the
/// whole of it.
pub proof fn unscoped_package_ends_at_the_first_slash(name: Seq<char>, rest: Seq<char>)
    requires
        !name.contains('/'),
        name.len() > 0 ==> name[0] != '@',
    ensures
        named_module(name) == name,
        named_module(name + seq!['/'] + rest) == name,
{
    let source = name + seq!['/'] + rest;
    assert(forall|i: int| 0 <= i < name.len() ==> name[i] != '/');
    assert(forall|i: int| 0 <= i < name.len() ==> source[i] == name[i]);
    assert(source[name.len() as int] == '/');
    lemma_slash_at(name, 0, name.len() as int);
    lemma_slash_at(source, 0, name.len() as int);
    assert(source[0] != '@');
    assert(name.take(name.len() as int) =~= name);
    assert(source.take(name.len() as int) =~= name);
}

/// A scoped specifier names its scope and the name behind it, up to the second `/` where there is
/// one.
pub proof fn scoped_package_ends_at_the_second_slash(
    scope: Seq<char>,
    name: Seq<char>,
    rest: Seq<char>,
)
    requires
        scope.len() > 0,
        scope[0] == '@',
        !scope.contains('/'),
        name.len() > 0,
        !name.contains('/'),
    ensures
        named_module(scope + seq!['/'] + name) == scope + seq!['/'] + name,
        named_module(scope + seq!['/'] + name + seq!['/'] + rest) == scope + seq!['/'] + name,
{
    let package = scope + seq!['/'] + name;
    let source = package + seq!['/'] + rest;
    let first = scope.len() as int;
    let second = package.len() as int;
    assert(forall|i: int| 0 <= i < first ==> scope[i] != '/');
    assert(forall|i: int| 0 <= i < name.len() ==> name[i] != '/');
    assert(forall|i: int| 0 <= i < first ==> package[i] == scope[i]);
    assert(package[first] == '/');
    assert(forall|i: int| first < i < second ==> package[i] == name[i - first - 1]);
    assert(forall|i: int| 0 <= i < second ==> source[i] == package[i]);
    assert(source[second] == '/');
    lemma_slash_at(package, 0, first);
    lemma_slash_at(package, first + 1, second);
    lemma_slash_at(source, 0, first);
    lemma_slash_at(source, first + 1, second);
    assert(package.take(second) =~= package);
    assert(source.take(second) =~= package);
}

/// A scope with nothing behind it, or with nothing before the next `/`, is all that is named.
pub proof fn bare_scope_names_itself(scope: Seq<char>, rest: Seq<char>)
    requires
        scope.len() > 0,
        scope[0] == '@',
        !scope.contains('/'),
    ensures
        named_module(scope) == scope,
        named_module(scope + seq!['/']) == scope,
        named_module(scope + seq!['/', '/'] + rest) == scope,
{
    let first = scope.len() as int;
    assert(forall|i: int| 0 <= i < first ==> scope[i] != '/');
    lemma_slash_at(scope, 0, first);
    assert(scope.take(first) =~= scope);
    let open = scope + seq!['/'];
    assert(forall|i: int| 0 <= i < first ==> open[i] == scope[i]);
    lemma_slash_at(open, 0, first);
    assert(open.take(first) =~= scope);
    let source = scope + seq!['/', '/'] + rest;
    assert(forall|i: int| 0 <= i < first ==> source[i] == scope[i]);
    assert(source[first] == '/' && source[first + 1] == '/');
    lemma_slash_at(source, 0, first);
    lemma_slash_at(source, first + 1, first + 1);
    assert(source.take(first) =~= scope);
}

// Declarations.

/// A text ends in a scope exactly where what stands behind its last `/` begins with `@`.
pub proof fn scope_begins_the_last_segment(start: Seq<char>, segment: Seq<char>)
    requires
        start.len() == 0 || start.last() == '/',
        !segment.contains('/'),
    ensures
        ends_in_scope(start + segment) == (segment.len() > 0 && segment[0] == '@'),
{
    lemma_last_segment(start, segment);
}

proof fn lemma_last_segment(start: Seq<char>, segment: Seq<char>)
    requires
        start.len() == 0 || start.last() == '/',
        !segment.contains('/'),
    ensures
        last_segment_start(start + segment) == start.len(),
    decreases segment.len(),
{
    let text = start + segment;
    if segment.len() == 0 {
        assert(text =~= start);
    } else {
        assert(segment.contains(segment.last()));
        assert(text.last() == segment.last());
        assert(text.drop_last() =~= start + segment.drop_last());
        assert forall|i: int| 0 <= i < segment.drop_last().len() implies segment.drop_last()[i]
            != '/' by {
            assert(segment.contains(segment[i]));
        }
        lemma_last_segment(start, segment.drop_last());
    }
}

/// A field declares a name exactly where it lists the name itself or one that the name continues
/// after a `/`; what is listed counts only where it does not end in a scope.
pub proof fn listed_name_declares_what_continues_it(names: Set<Seq<char>>, name: Seq<char>)
    ensures
        declares(names, name) <==> exists|listed: Seq<char>|
            #![trigger names.contains(listed)]
            {
                &&& names.contains(listed)
                &&& !ends_in_scope(listed)
                &&& listed == name || (listed + seq!['/']).is_prefix_of(name)
            },
{
    if declares(names, name) {
        let length = choose|length: int| #[trigger]
            covers(name, length) && names.contains(name.take(length));
        let listed = name.take(length);
        assert(names.contains(listed));
        if length < name.len() {
            assert(listed + seq!['/'] =~= name.subrange(0, length + 1));
        } else {
            assert(listed =~= name);
        }
    }
    if exists|listed: Seq<char>|
        #![trigger names.contains(listed)]
        names.contains(listed) && !ends_in_scope(listed) && (listed == name || (listed
            + seq!['/']).is_prefix_of(name)) {
        let listed = choose|listed: Seq<char>|
            #![trigger names.contains(listed)]
            names.contains(listed) && !ends_in_scope(listed) && (listed == name || (listed
                + seq!['/']).is_prefix_of(name));
        lemma_listed_covers(names, listed, name);
    }
}

proof fn lemma_listed_covers(names: Set<Seq<char>>, listed: Seq<char>, name: Seq<char>)
    requires
        names.contains(listed),
        !ends_in_scope(listed),
        listed == name || (listed + seq!['/']).is_prefix_of(name),
    ensures
        declares(names, name),
{
    let length = listed.len() as int;
    if listed != name {
        let longer = listed + seq!['/'];
        let start = name.subrange(0, length + 1);
        assert(longer =~= start);
        assert(start[length] == name[length]);
        assert(longer[length] == '/');
        assert forall|i: int| 0 <= i < length implies name[i] == listed[i] by {
            assert(start[i] == longer[i]);
        }
    }
    assert(name.take(length) =~= listed);
    assert(covers(name, length));
}

/// A path within a declared name is declared.
pub proof fn path_within_a_declared_name_is_declared(
    names: Set<Seq<char>>,
    name: Seq<char>,
    rest: Seq<char>,
)
    requires
        declares(names, name),
    ensures
        declares(names, name + seq!['/'] + rest),
{
    let source = name + seq!['/'] + rest;
    let length = choose|length: int| #[trigger]
        covers(name, length) && names.contains(name.take(length));
    assert(source.take(length) =~= name.take(length));
    if length == name.len() {
        assert(source[length] == '/');
    }
    assert(covers(source, length));
}

/// Every kind of declaration is by its own field, and by no other.
pub proof fn each_kind_is_declared_by_its_field(dependencies: DependencyFieldsView, name: Seq<char>)
    ensures
        declared_status(dependencies, name).dependencies == declares(
            dependencies.dependencies,
            name,
        ),
        declared_status(dependencies, name).dev_dependencies == declares(
            dependencies.dev_dependencies,
            name,
        ),
        declared_status(dependencies, name).optional_dependencies == declares(
            dependencies.optional_dependencies,
            name,
        ),
        declared_status(dependencies, name).peer_dependencies == declares(
            dependencies.peer_dependencies,
            name,
        ),
        declared_status(dependencies, name).bundled_dependencies == declares(
            dependencies.bundled_dependencies,
            name,
        ),
{
}

// Core modules.

/// Whether the settings list `name` as a core module: they are an object whose field
/// `import-x/core-modules` is an array with that string at some place.
pub open spec fn settings_list(settings: JsonView, name: Seq<char>) -> bool {
    exists|modules: Seq<JsonView>, i: int|
        #![trigger modules[i]]
        {
            &&& settings.field("import-x/core-modules"@) == Some(JsonView::Array(modules))
            &&& 0 <= i < modules.len()
            &&& modules[i] == JsonView::Text(name)
        }
}

/// A specifier that begins with `node:` or that Node.js brings along is a core module whatever
/// the settings; any other is exactly where the settings list the package that it names.
pub proof fn core_modules_are_listed_by_package(settings: Option<JsonView>, source: Seq<char>)
    ensures
        (exists|rest: Seq<char>| source == #[trigger] ("node:"@ + rest)) ==> core_module(
            settings,
            source,
        ),
        nodejs_builtin(source) ==> core_module(settings, source),
        (forall|rest: Seq<char>| source != #[trigger] ("node:"@ + rest)) && !nodejs_builtin(source)
            ==> core_module(settings, source) == (settings is Some && settings_list(
            settings->0,
            named_module(source),
        )),
{
    if exists|rest: Seq<char>| source == #[trigger] ("node:"@ + rest) {
        let rest = choose|rest: Seq<char>| source == #[trigger] ("node:"@ + rest);
        assert(source.subrange(0, "node:"@.len() as int) =~= "node:"@);
    }
    if "node:"@.is_prefix_of(source) {
        let rest = source.skip("node:"@.len() as int);
        assert(source =~= "node:"@ + rest) by {
            assert("node:"@ =~= source.subrange(0, "node:"@.len() as int));
        }
    }
    if settings is Some {
        lemma_listed(settings->0, named_module(source));
    }
}

proof fn lemma_listed(settings: JsonView, name: Seq<char>)
    ensures
        listed_core_module(Some(settings), name) == settings_list(settings, name),
{
    if listed_core_module(Some(settings), name) {
        let modules = settings.field("import-x/core-modules"@)->0->Array_0;
        let i = choose|i: int|
            0 <= i < modules.len() && (#[trigger] modules[i]) == JsonView::Text(name);
        assert(modules[i] == JsonView::Text(name));
        assert(settings.field("import-x/core-modules"@) == Some(JsonView::Array(modules)));
    }
    if settings_list(settings, name) {
        let (modules, i) = choose|modules: Seq<JsonView>, i: int|
            #![trigger modules[i]]
            settings.field("import-x/core-modules"@) == Some(JsonView::Array(modules)) && 0 <= i
                < modules.len() && modules[i] == JsonView::Text(name);
        assert(JsonView::Array(modules).strings().contains(name));
    }
}

/// By the settings, specifiers of the same package are core modules alike.
pub proof fn specifiers_of_one_package_are_core_alike(
    settings: Option<JsonView>,
    left: Seq<char>,
    right: Seq<char>,
)
    requires
        named_module(left) == named_module(right),
        !core_module(None, left),
        !core_module(None, right),
    ensures
        core_module(settings, left) == core_module(settings, right),
{
}

/// A path within a package that the settings list is a core module, and so is the package itself,
/// scoped or not.
pub proof fn path_within_a_listed_package_is_core(
    settings: JsonView,
    package: Seq<char>,
    subpath: Seq<char>,
)
    requires
        settings_list(settings, package),
        named_module(package) == package,
        package.len() > 0 && package[0] == '@' ==> package.contains('/'),
    ensures
        core_module(Some(settings), package),
        core_module(Some(settings), package + seq!['/'] + subpath),
{
    lemma_listed(settings, package);
    subpath_names_the_package(package, subpath);
}

/// Settings without a list of core modules are as good as none.
pub proof fn settings_without_a_list_add_no_core_modules(settings: JsonView, source: Seq<char>)
    requires
        !(settings.field("import-x/core-modules"@) matches Some(JsonView::Array(_))),
    ensures
        core_module(Some(settings), source) == core_module(None, source),
{
    lemma_listed(settings, named_module(source));
}

} // verus!
