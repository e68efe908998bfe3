//! What holds of the contents that the contracts speak of: they are those of the values, item by
//! item and in order.
use crate::check::{
    answer_view, Action, ActionView, Event, EventView, ModuleStep, ModuleStepView, NameSearch,
    NameSearchView,
};
use crate::collections::{no_package_names, set_contents};
use crate::config::{no_options, NoExtraneousDependenciesConfig};
use crate::json::{optional_json, Json, JsonView};
use crate::module::{settings_view, DeclarationStatus};
use crate::package::{
    content_view, data_view, read_view, read_views, DependencyFields, DependencyFieldsView,
    PackageData, PackageDataView, PackageError, PackageErrorView, PackageRead,
};
use crate::path::{optional_path, path_views, FilePath, FilePathView, Search, SearchView};
use crate::session::diagnostic_views;
use crate::syntax::Reference;
use crate::text::{optional_text, texts};
use crate::verdict::{optional_diagnostic, Diagnostic};
use crate::world::World;
use vstd::prelude::*;

verus! {

/// The contents of a sequence are those of its items, in order.
pub proof fn sequences_keep_their_order(
    strings: Seq<String>,
    paths: Seq<FilePath>,
    diagnostics: Seq<Diagnostic>,
    reads: Seq<PackageRead>,
)
    ensures
        texts(strings).len() == strings.len(),
        forall|i: int| 0 <= i < strings.len() ==> #[trigger] texts(strings)[i] == strings[i]@,
        path_views(paths).len() == paths.len(),
        forall|i: int| 0 <= i < paths.len() ==> #[trigger] path_views(paths)[i] == paths[i]@,
        diagnostic_views(diagnostics).len() == diagnostics.len(),
        forall|i: int|
            0 <= i < diagnostics.len() ==> #[trigger] diagnostic_views(diagnostics)[i]
                == diagnostics[i]@,
        read_views(reads).len() == reads.len(),
        forall|i: int| 0 <= i < reads.len() ==> #[trigger] read_views(reads)[i] == reads[i]@,
{
}

/// What is there is there, and what is not is not.
pub proof fn optional_values_keep_their_contents(
    string: String,
    path: FilePath,
    diagnostic: Diagnostic,
    value: Json,
)
    ensures
        optional_text(Some(string)) == Some(string@),
        optional_text(None) is None,
        optional_path(Some(path)) == Some(path@),
        optional_path(None) is None,
        answer_view(Some(Some(path))) == Some(Some(path@)),
        answer_view(Some(None)) == Some(None::<FilePathView>),
        answer_view(None) is None,
        optional_diagnostic(Some(diagnostic)) == Some(diagnostic@),
        optional_diagnostic(None) is None,
        optional_json(Some(&value)) == Some(value@),
        optional_json(None) is None,
        settings_view(Some(value)) == Some(value@),
        settings_view(None) is None,
{
}

/// Successes and failures stay apart, each with its contents.
pub proof fn results_keep_their_contents(
    text: String,
    name: Option<String>,
    dependencies: DependencyFields,
    data: PackageData,
    error: PackageError,
)
    ensures
        content_view(Ok(text)) == Ok::<Seq<char>, Seq<char>>(text@),
        content_view(Err(text)) == Err::<Seq<char>, Seq<char>>(text@),
        read_view(Ok((dependencies, name))) == Ok::<
            (DependencyFieldsView, Option<Seq<char>>),
            Seq<char>,
        >((dependencies@, optional_text(name))),
        read_view(Err(text)) == Err::<(DependencyFieldsView, Option<Seq<char>>), Seq<char>>(text@),
        data_view(Ok(data)) == Ok::<PackageDataView, PackageErrorView>(data@),
        data_view(Err(error)) == Err::<PackageDataView, PackageErrorView>(error@),
{
}

/// The contents of a record are those of its fields, each under its own name.
pub proof fn records_keep_their_fields(
    path: FilePath,
    dependencies: DependencyFields,
    data: PackageData,
    read: PackageRead,
    reference: Reference,
    diagnostic: Diagnostic,
)
    ensures
        path@.prefix == path.prefix@,
        path@.rooted == path.rooted,
        path@.segments == texts(path.segments@),
        dependencies@.dependencies == set_contents(dependencies.dependencies),
        dependencies@.dev_dependencies == set_contents(dependencies.dev_dependencies),
        dependencies@.optional_dependencies == set_contents(dependencies.optional_dependencies),
        dependencies@.peer_dependencies == set_contents(dependencies.peer_dependencies),
        dependencies@.bundled_dependencies == set_contents(dependencies.bundled_dependencies),
        data@.dependencies == data.dependencies@,
        data@.package_root == optional_path(data.package_root),
        read@.path == read.path@,
        read@.package == read_view(read.package),
        read@.exists == read.exists,
        reference@.source == reference.source@,
        reference@.span == reference.span,
        reference@.is_type == reference.is_type,
        diagnostic@.message == diagnostic.message@,
        diagnostic@.help == optional_text(diagnostic.help),
        diagnostic@.span == diagnostic.span,
{
}

/// The contents of a variant are those of the same variant.
pub proof fn variants_stay_what_they_are(
    path: FilePath,
    text: String,
    name: Option<String>,
    found: Option<FilePath>,
    content: Result<String, String>,
    answer: bool,
    diagnostic: Diagnostic,
    action: Action,
)
    ensures
        Action::ProbeFile(path)@ == ActionView::ProbeFile(path@),
        Action::ReadFile(path)@ == ActionView::ReadFile(path@),
        Action::ProbeExists(path)@ == ActionView::ProbeExists(path@),
        Action::Resolve(text)@ == ActionView::Resolve(text@),
        Action::Finish@ == ActionView::Finish,
        Event::IsFile(answer)@ == EventView::IsFile(answer),
        Event::Content(content)@ == EventView::Content(content_view(content)),
        Event::Exists(answer)@ == EventView::Exists(answer),
        Event::Resolved(found)@ == EventView::Resolved(optional_path(found)),
        Search::Probe(path)@ == SearchView::Probe(path@),
        Search::Found(path)@ == SearchView::Found(path@),
        Search::Missing@ == SearchView::Missing,
        NameSearch::Probe(path)@ == NameSearchView::Probe(path@),
        NameSearch::Read(path)@ == NameSearchView::Read(path@),
        NameSearch::Known(name)@ == NameSearchView::Known(optional_text(name)),
        ModuleStep::Ask(action)@ == ModuleStepView::Ask(action@),
        ModuleStep::Pass@ == ModuleStepView::Pass,
        ModuleStep::Report(diagnostic)@ == ModuleStepView::Report(diagnostic@),
        PackageError::NotFound@ == PackageErrorView::NotFound,
        PackageError::Unparsable(text)@ == PackageErrorView::Unparsable(text@),
{
}

/// The contents of a JSON value are of its own sort, and those of a string are its text.
pub proof fn json_values_stay_what_they_are(
    value: bool,
    text: String,
    items: Vec<Json>,
    fields: Vec<(String, Json)>,
)
    ensures
        Json::Null@ == JsonView::Null,
        Json::Bool(value)@ == JsonView::Bool(value),
        Json::Number@ == JsonView::Number,
        Json::Text(text)@ == JsonView::Text(text@),
        Json::Array(items)@ is Array,
        Json::Array(items)@->Array_0.len() == items@.len(),
        forall|i: int|
            0 <= i < items@.len() ==> #[trigger] Json::Array(items)@->Array_0[i] == items@[i]@,
        Json::Object(fields)@ is Object,
        Json::Object(fields)@->Object_0.len() == fields@.len(),
        forall|i: int|
            0 <= i < fields@.len() ==> #[trigger] Json::Object(fields)@->Object_0[i] == (
                fields@[i].0@,
                fields@[i].1@,
            ),
        JsonView::Text(text@).text() == Some(text@),
        JsonView::Null.text() is None,
        JsonView::Bool(value).text() is None,
        JsonView::Number.text() is None,
        Json::Array(items)@.text() is None,
        Json::Object(fields)@.text() is None,
{
    crate::json::lemma_array_contents(items);
    crate::json::lemma_object_contents(fields);
}

/// Nothing is in what is empty: no name is declared, no kind is, and no package name is known.
pub proof fn empty_values_hold_nothing(name: Seq<char>, path: FilePathView)
    ensures
        !DependencyFieldsView::empty().dependencies.contains(name),
        !DependencyFieldsView::empty().dev_dependencies.contains(name),
        !DependencyFieldsView::empty().optional_dependencies.contains(name),
        !DependencyFieldsView::empty().peer_dependencies.contains(name),
        !DependencyFieldsView::empty().bundled_dependencies.contains(name),
        PackageDataView::empty().dependencies == DependencyFieldsView::empty(),
        PackageDataView::empty().package_root is None,
        !DeclarationStatus::undeclared().dependencies,
        !DeclarationStatus::undeclared().dev_dependencies,
        !DeclarationStatus::undeclared().optional_dependencies,
        !DeclarationStatus::undeclared().peer_dependencies,
        !DeclarationStatus::undeclared().bundled_dependencies,
        !no_package_names().contains_key(path),
{
}

/// Without options no directory is named, no kind is spoken of, nothing more is included, and no
/// package is exempt.
pub proof fn no_option_is_set_by_default(config: NoExtraneousDependenciesConfig)
    ensures
        no_options(config) <==> {
            &&& config.package_dir is None
            &&& config.dev_dependencies is None
            &&& config.optional_dependencies is None
            &&& config.peer_dependencies is None
            &&& config.bundled_dependencies is None
            &&& config.include_internal == false
            &&& config.include_types == false
            &&& texts(config.whitelist@).to_set() == Set::<Seq<char>>::empty()
        },
{
    let names = texts(config.whitelist@);
    if config.whitelist@.len() == 0 {
        assert(names.to_set() =~= Set::<Seq<char>>::empty());
    } else {
        assert(names.to_set().contains(names[0]));
    }
}

/// A world answers every question with what it holds on just that.
pub proof fn world_answers_what_is_asked(world: World, path: FilePathView, source: Seq<char>)
    ensures
        world.answer(ActionView::ProbeFile(path)) == EventView::IsFile((world.is_file)(path)),
        world.answer(ActionView::ReadFile(path)) == EventView::Content((world.content)(path)),
        world.answer(ActionView::ProbeExists(path)) == EventView::Exists((world.exists)(path)),
        world.answer(ActionView::Resolve(source)) == EventView::Resolved((world.resolve)(source)),
{
}

} // verus!
