use no_extraneous_dependencies::check::{Action, Event, LintContext, LoadedModule};
use no_extraneous_dependencies::config::{
    BoolOrGlobs, NoExtraneousDependencies, NoExtraneousDependenciesConfig, PackageDir,
};
use no_extraneous_dependencies::glob::PathTexts;
use no_extraneous_dependencies::json::Json;
use no_extraneous_dependencies::path::FilePath;
use no_extraneous_dependencies::syntax::{
    ExportAllDeclaration, ExportFromDeclaration, Expression, ImportDeclaration,
    ImportDeclarationSpecifier, ImportEqualsDeclaration, ImportOrExportKind, ModuleReference, Node,
    Span, StringLiteral, TemplateLiteral,
};
use no_extraneous_dependencies::verdict::Diagnostic;
use std::collections::HashMap;

const IMPORT: &str = "/repo/fixtures/import";

fn path(text: &str) -> FilePath {
    FilePath {
        prefix: String::new(),
        rooted: text.starts_with('/'),
        segments: text.split('/').filter(|part| !part.is_empty()).map(str::to_owned).collect(),
    }
}

fn text(path: &FilePath) -> String {
    let root = if path.rooted { "/" } else { "" };
    format!("{}{}{}", path.prefix, root, path.segments.join("/"))
}

/// Files by path, modules by specifier, and a record of what was asked for.
struct Host {
    files: HashMap<String, String>,
    modules: HashMap<String, String>,
    asked: Vec<String>,
}

impl Host {
    fn fixture() -> Host {
        let mut files = HashMap::new();
        let mut put = |file: &str, content: &str| {
            files.insert(format!("{IMPORT}/{file}"), content.to_owned());
        };
        put(
            "package.json",
            r#"{ "name": "fixture",
                 "dependencies": { "lodash.cond": "1", "@org/package": "1" },
                 "devDependencies": { "eslint": "1", "glob": "1", "jest": "1" },
                 "optionalDependencies": { "lodash.isarray": "1" },
                 "peerDependencies": { "eslint": "1" },
                 "bundledDependencies": ["@generated/foo"] }"#,
        );
        put(
            "monorepo/package.json",
            r#"{ "dependencies": { "left-pad": "1", "right-pad": "1" } }"#,
        );
        put("monorepo/packages/nested-package/package.json", r#"{ "dependencies": { "react": "1" } }"#);
        put(
            "bundled-dependencies/as-array-bundle-deps/package.json",
            r#"{ "bundleDependencies": ["@generated/foo"] }"#,
        );
        put(
            "bundled-dependencies/as-object/package.json",
            r#"{ "bundledDependencies": { "@generated/foo": "latest" } }"#,
        );
        put(
            "bundled-dependencies/race-condition/package.json",
            r#"{ "bundledDependencies": ["@generated/bar"],
                 "bundleDependencies": { "@generated/foo": "latest" } }"#,
        );
        put("empty/package.json", "{}");
        put("with-syntax-error/package.json", "{");
        put("foo.js", "");
        let mut modules = HashMap::new();
        for name in [
            "lodash.cond", "lodash.isarray", "eslint", "glob", "jest", "react", "left-pad",
            "right-pad", "foo", "not-a-dependency", "@org/not-a-dependency", "@generated/foo",
            "@generated/bar", "electron",
        ] {
            let directory = format!("{IMPORT}/node_modules/{name}");
            files.insert(format!("{directory}/package.json"), format!(r#"{{ "name": "{name}" }}"#));
            modules.insert(name.to_owned(), format!("{directory}/index.js"));
            modules.insert(format!("{name}/foo"), format!("{directory}/foo.js"));
            modules.insert(format!("{name}/module"), format!("{directory}/module.js"));
            modules.insert(format!("{name}/and/sub/path"), format!("{directory}/and/sub/path.js"));
        }
        modules.insert("./foo".to_owned(), format!("{IMPORT}/foo.js"));
        Host { files, modules, asked: Vec::new() }
    }

    fn answer(&mut self, action: &Action) -> Option<Event> {
        match action {
            Action::ProbeFile(path) => {
                self.asked.push(format!("file {}", text(path)));
                Some(Event::IsFile(self.files.contains_key(&text(path))))
            }
            Action::ReadFile(path) => {
                self.asked.push(format!("read {}", text(path)));
                let content = self.files.get(&text(path)).cloned();
                Some(Event::Content(content.ok_or_else(|| "no such file".to_owned())))
            }
            Action::ProbeExists(path) => {
                self.asked.push(format!("exists {}", text(path)));
                Some(Event::Exists(self.files.contains_key(&text(path))))
            }
            Action::Resolve(source) => {
                self.asked.push(format!("resolve {source}"));
                Some(Event::Resolved(self.modules.get(source).map(|file| path(file))))
            }
            Action::Finish => None,
        }
    }
}

fn context(nodes: Vec<Node>, settings: Option<Json>) -> LintContext {
    LintContext {
        file_path: path("/repo/fixtures/import/index.ts"),
        cwd: path("/repo"),
        texts: PathTexts {
            file_path: "/repo/fixtures/import/index.ts".to_owned(),
            cwd: "/repo".to_owned(),
            process_cwd: "/repo".to_owned(),
        },
        settings,
        loaded_modules: Vec::new(),
        nodes,
    }
}

fn run(host: &mut Host, config: NoExtraneousDependenciesConfig, context: LintContext) -> Vec<Diagnostic> {
    let rule = NoExtraneousDependencies(Box::new(config));
    let (mut session, mut action) = rule.run_once(context).expect("the globs are short");
    while let Some(event) = host.answer(&action) {
        (session, action) = session.step(event);
    }
    session.diagnostics().clone()
}

fn lint(nodes: Vec<Node>, config: NoExtraneousDependenciesConfig) -> Vec<Diagnostic> {
    run(&mut Host::fixture(), config, context(nodes, None))
}

fn span() -> Span {
    Span { start: 7, end: 20 }
}

fn literal(value: &str) -> StringLiteral {
    StringLiteral { value: value.to_owned(), span: span() }
}

fn import(source: &str) -> Node {
    Node::ImportDeclaration(ImportDeclaration {
        source: literal(source),
        import_kind: ImportOrExportKind::Value,
        specifiers: None,
    })
}

fn import_with(
    source: &str,
    import_kind: ImportOrExportKind,
    specifiers: Vec<ImportDeclarationSpecifier>,
) -> Node {
    let specifiers = Some(specifiers);
    Node::ImportDeclaration(ImportDeclaration { source: literal(source), import_kind, specifiers })
}

fn type_import(source: &str) -> Node {
    import_with(
        source,
        ImportOrExportKind::Type,
        vec![ImportDeclarationSpecifier::ImportDefaultSpecifier],
    )
}

fn inline_type_import(source: &str) -> Node {
    import_with(
        source,
        ImportOrExportKind::Value,
        vec![ImportDeclarationSpecifier::ImportSpecifier(ImportOrExportKind::Type)],
    )
}

fn export(source: &str, export_kind: ImportOrExportKind) -> Node {
    Node::ExportFromDeclaration(ExportFromDeclaration {
        source: literal(source),
        export_kind,
        specifiers: vec![ImportOrExportKind::Value],
    })
}

fn export_all(source: &str) -> Node {
    Node::ExportAllDeclaration(ExportAllDeclaration {
        source: literal(source),
        export_kind: ImportOrExportKind::Value,
    })
}

fn require(source: &str) -> Node {
    Node::CallExpression(Some(literal(source)))
}

fn dynamic_import(source: &str) -> Node {
    Node::ImportExpression(Expression::StringLiteral(literal(source)))
}

fn import_equals(source: &str) -> Node {
    Node::ImportEqualsDeclaration(ImportEqualsDeclaration {
        import_kind: ImportOrExportKind::Value,
        module_reference: ModuleReference::ExternalModuleReference(literal(source)),
    })
}

fn none() -> NoExtraneousDependenciesConfig {
    NoExtraneousDependenciesConfig::default()
}

fn one_dir(directory: &str) -> NoExtraneousDependenciesConfig {
    NoExtraneousDependenciesConfig { package_dir: Some(PackageDir::One(path(directory))), ..none() }
}

fn many_dirs(directories: &[&str]) -> NoExtraneousDependenciesConfig {
    let paths = directories.iter().map(|directory| path(directory)).collect();
    NoExtraneousDependenciesConfig { package_dir: Some(PackageDir::Many(paths)), ..none() }
}

fn allow(value: bool) -> Option<BoolOrGlobs> {
    Some(BoolOrGlobs::Bool(value))
}

fn dev(option: Option<BoolOrGlobs>) -> NoExtraneousDependenciesConfig {
    NoExtraneousDependenciesConfig { dev_dependencies: option, ..none() }
}

fn dev_globs(pattern: &str) -> NoExtraneousDependenciesConfig {
    dev(Some(BoolOrGlobs::Globs(vec![pattern.to_owned()])))
}

fn undeclared(name: &str) -> String {
    format!("'{name}' should be listed in the project's dependencies.")
}

fn not_dev(name: &str) -> String {
    format!("'{name}' should be listed in the project's dependencies, not devDependencies.")
}

fn not_optional(name: &str) -> String {
    format!("'{name}' should be listed in the project's dependencies, not optionalDependencies.")
}

#[test]
fn test() {
    let package_dir = IMPORT;
    let monorepo = format!("{package_dir}/monorepo");
    let nested_package = format!("{monorepo}/packages/nested-package");
    let bundled_as_array = format!("{package_dir}/bundled-dependencies/as-array-bundle-deps");
    let bundled_as_object = format!("{package_dir}/bundled-dependencies/as-object");
    let bundled_race_condition = format!("{package_dir}/bundled-dependencies/race-condition");
    let pass = vec![
        (import("lodash.cond"), none()),
        (
            import_with(
                "lodash.cond",
                ImportOrExportKind::Value,
                vec![
                    ImportDeclarationSpecifier::ImportDefaultSpecifier,
                    ImportDeclarationSpecifier::ImportSpecifier(ImportOrExportKind::Value),
                ],
            ),
            none(),
        ),
        (require("lodash.cond"), none()),
        (require("lodash.cond"), none()),
        (export("lodash.cond", ImportOrExportKind::Value), none()),
        (export_all("lodash.cond"), none()),
        (dynamic_import("lodash.cond"), none()),
        (Node::ImportExpression(Expression::Other), none()),
        (Node::CallExpression(None), none()),
        (import("fs"), none()),
        (import("./foo"), none()),
        (import("@generated/foo"), none()),
        (import("@generated/foo"), one_dir(&bundled_as_array)),
        (import("@generated/foo"), one_dir(&bundled_as_object)),
        (import("eslint"), dev(allow(true))),
        (import("jest"), dev_globs(&format!("{package_dir}/*.ts"))),
        (import("jest"), dev_globs("fixtures/import/*.ts")),
        (
            import("eslint"),
            NoExtraneousDependenciesConfig { peer_dependencies: allow(true), ..dev(allow(false)) },
        ),
        (type_import("not-a-dependency"), none()),
        (export("not-a-dependency", ImportOrExportKind::Type), none()),
        (inline_type_import("not-a-dependency"), none()),
        (import("lodash.cond"), many_dirs(&[])),
        (import("left-pad"), many_dirs(&[&format!("{package_dir}/empty"), &monorepo])),
        (import("left-pad"), one_dir("fixtures/import/monorepo")),
        (
            import("eslint"),
            NoExtraneousDependenciesConfig { peer_dependencies: allow(true), ..none() },
        ),
        (
            import("lodash.isarray"),
            NoExtraneousDependenciesConfig { optional_dependencies: allow(true), ..none() },
        ),
        (
            import("@generated/foo"),
            NoExtraneousDependenciesConfig { bundled_dependencies: allow(true), ..none() },
        ),
        (import("react"), one_dir(&nested_package)),
        (import("left-pad"), one_dir(&monorepo)),
        (import("left-pad"), many_dirs(&[&nested_package, &monorepo])),
        (import("right-pad"), many_dirs(&[&monorepo, &nested_package])),
        (
            import("not-a-dependency"),
            NoExtraneousDependenciesConfig {
                whitelist: vec!["not-a-dependency".to_owned()],
                ..one_dir(&monorepo)
            },
        ),
    ];
    for (node, config) in pass {
        let shown = format!("{node:?} {config:?}");
        let found = lint(vec![node], config);
        assert!(found.is_empty(), "{shown}: {found:?}");
    }

    let types = || NoExtraneousDependenciesConfig { include_types: true, ..none() };
    let optional =
        || NoExtraneousDependenciesConfig { optional_dependencies: allow(false), ..none() };
    let fail = vec![
        (import("not-a-dependency"), none(), undeclared("not-a-dependency")),
        (require("@org/not-a-dependency"), none(), undeclared("@org/not-a-dependency")),
        (require("@org/not-a-dependency/foo"), none(), undeclared("@org/not-a-dependency")),
        (require("not-a-dependency"), none(), undeclared("not-a-dependency")),
        (
            export("not-a-dependency", ImportOrExportKind::Value),
            none(),
            undeclared("not-a-dependency"),
        ),
        (export_all("not-a-dependency"), none(), undeclared("not-a-dependency")),
        (dynamic_import("not-a-dependency"), none(), undeclared("not-a-dependency")),
        (import_equals("not-a-dependency"), none(), undeclared("not-a-dependency")),
        (
            import("eslint"),
            NoExtraneousDependenciesConfig { peer_dependencies: allow(false), ..dev(allow(false)) },
            not_dev("eslint"),
        ),
        (import("jest"), dev_globs("*.js"), not_dev("jest")),
        (import("lodash.isarray"), optional(), not_optional("lodash.isarray")),
        (
            import("@generated/foo"),
            NoExtraneousDependenciesConfig { bundled_dependencies: allow(false), ..none() },
            undeclared("@generated/foo"),
        ),
        (import("@generated/bar"), one_dir(&bundled_race_condition), undeclared("@generated/bar")),
        (require("lodash.isarray"), optional(), not_optional("lodash.isarray")),
        (require("glob"), dev(allow(false)), not_dev("glob")),
        (
            import("./foo"),
            NoExtraneousDependenciesConfig { include_internal: true, ..none() },
            undeclared("fixture"),
        ),
        (type_import("not-a-dependency"), types(), undeclared("not-a-dependency")),
        (
            export("not-a-dependency", ImportOrExportKind::Type),
            types(),
            undeclared("not-a-dependency"),
        ),
        (inline_type_import("not-a-dependency"), types(), undeclared("not-a-dependency")),
        (
            import("not-a-dependency"),
            one_dir(&format!("{package_dir}/does-not-exist")),
            "The package.json file could not be found.".to_owned(),
        ),
        (
            import("react"),
            many_dirs(&[
                &format!("{package_dir}/does-not-exist"),
                &format!("{package_dir}/empty-folder"),
            ]),
            undeclared("react"),
        ),
        (import("react"), one_dir(&format!("{package_dir}/empty")), undeclared("react")),
        (import("left-pad"), one_dir(&nested_package), undeclared("left-pad")),
        (import("react"), one_dir(&monorepo), undeclared("react")),
        (
            import("foo"),
            one_dir(&format!("{package_dir}/with-syntax-error")),
            "The package.json file could not be parsed: EOF while parsing an object at line 1 column 1"
                .to_owned(),
        ),
    ];
    for (node, config, message) in fail {
        let shown = format!("{node:?} {config:?}");
        let found = lint(vec![node], config);
        assert_eq!(found.len(), 1, "{shown}: {found:?}");
        assert_eq!(found[0].message, message, "{shown}");
    }

    let with_settings = vec![
        ("not-a-dependency", "import-x/internal-regex", Json::Text("^not-a-dependency$".to_owned())),
        ("electron", "import-x/core-modules", names(&["electron"])),
        ("@generated/bar/module", "import-x/core-modules", names(&["@generated/bar"])),
        ("@generated/bar/and/sub/path", "import-x/core-modules", names(&["@generated/bar"])),
    ];
    for (source, key, value) in with_settings {
        assert_eq!(lint(vec![import(source)], none()).len(), 1, "{source}");
        let context = context(vec![import(source)], setting(key, value));
        assert!(run(&mut Host::fixture(), none(), context).is_empty(), "{source}");
    }
    assert!(lint(vec![import("left-pad")], one_dir(&monorepo)).is_empty());
}

fn object(fields: Vec<(&str, Json)>) -> Option<Json> {
    Some(Json::Object(fields.into_iter().map(|(key, value)| (key.to_owned(), value)).collect()))
}

fn setting(key: &str, value: Json) -> Option<Json> {
    object(vec![(key, value)])
}

fn names(values: &[&str]) -> Json {
    Json::Array(values.iter().map(|value| Json::Text((*value).to_owned())).collect())
}

#[test]
fn internal_regex_setting() {
    let lint = |pattern: &str, source: &str| {
        let settings = setting("import-x/internal-regex", Json::Text(pattern.to_owned()));
        run(&mut Host::fixture(), none(), context(vec![import(source)], settings)).len()
    };
    assert_eq!(lint("^not-a-dependency$", "not-a-dependency"), 0);
    assert_eq!(lint("^not-a-dep$", "not-a-dependency"), 1);
    assert_eq!(lint("dependency", "not-a-dependency"), 0);
    assert_eq!(lint("(", "not-a-dependency"), 1);
}

#[test]
fn core_modules_setting() {
    let lint = |core: &[&str], source: &str| {
        let settings = setting("import-x/core-modules", names(core));
        run(&mut Host::fixture(), none(), context(vec![import(source)], settings)).len()
    };
    assert_eq!(lint(&["electron"], "electron"), 0);
    assert_eq!(lint(&["@generated/bar"], "@generated/bar/module"), 0);
    assert_eq!(lint(&["@generated/bar"], "@generated/bar/and/sub/path"), 0);
    assert_eq!(lint(&["@generated"], "@generated/bar"), 1);
    assert_eq!(lint(&[], "electron"), 1);
}

#[test]
fn reports_come_in_order_and_point_at_the_source() {
    let at = |source: &str, start: u32| {
        let value = source.to_owned();
        Node::CallExpression(Some(StringLiteral { value, span: Span { start, end: start + 1 } }))
    };
    let found = lint(
        vec![
            at("not-a-dependency", 3),
            at("lodash.cond", 5),
            Node::Other,
            at("jest", 9),
            at("react", 11),
        ],
        dev(allow(false)),
    );
    let shown: Vec<(String, Option<String>, Option<Span>)> =
        found.into_iter().map(|report| (report.message, report.help, report.span)).collect();
    assert_eq!(
        shown,
        vec![
            (
                undeclared("not-a-dependency"),
                Some("Add the package to dependencies with `npm install`.".to_owned()),
                Some(Span { start: 3, end: 4 }),
            ),
            (
                not_dev("jest"),
                Some("Move the package from devDependencies to dependencies.".to_owned()),
                Some(Span { start: 9, end: 10 }),
            ),
            (
                undeclared("react"),
                Some("Add the package to dependencies with `npm install`.".to_owned()),
                Some(Span { start: 11, end: 12 }),
            ),
        ]
    );
}

#[test]
fn development_dependencies_need_an_option() {
    let mut host = Host { files: HashMap::new(), modules: HashMap::new(), asked: Vec::new() };
    for (file, content) in [
        ("/r/package.json", r#"{"devDependencies":{"eslint":"2"}}"#),
        ("/r/node_modules/eslint/package.json", r#"{"name":"eslint"}"#),
        ("/r/node_modules/eslint/index.js", ""),
    ] {
        host.files.insert(file.to_owned(), content.to_owned());
    }
    host.modules.insert("eslint".to_owned(), "/r/node_modules/eslint/index.js".to_owned());
    let mut lint = |file: &str, config: NoExtraneousDependenciesConfig| {
        let node = import_with(
            "eslint",
            ImportOrExportKind::Value,
            vec![ImportDeclarationSpecifier::ImportDefaultSpecifier],
        );
        let mut context = context(vec![node], None);
        context.file_path = path(file);
        context.cwd = path("/r");
        context.texts = PathTexts {
            file_path: file.to_owned(),
            cwd: "/r".to_owned(),
            process_cwd: "/r".to_owned(),
        };
        run(&mut host, config, context)
    };
    let found = lint("/r/index.ts", none());
    assert_eq!(found.len(), 1);
    assert_eq!(found[0].message, not_dev("eslint"));
    assert_eq!(found[0].span, Some(span()));
    let in_tests = || dev_globs("**/*.test.js");
    assert_eq!(lint("/r/index.js", in_tests()).len(), 1);
    assert!(lint("/r/index.test.js", in_tests()).is_empty());
    assert!(lint("/r/index.ts", dev(allow(true))).is_empty());
    assert_eq!(lint("/r/index.ts", dev(allow(false))).len(), 1);
}

#[test]
fn an_exemption_takes_the_reports_on_its_package_away() {
    let nodes = || {
        vec![
            import("react"),
            import("not-a-dependency"),
            import("jest"),
            require("react/foo"),
            require("lodash.cond"),
        ]
    };
    let exempt = |names: &[&str]| {
        let whitelist = names.iter().map(|name| (*name).to_owned()).collect();
        let found = lint(nodes(), NoExtraneousDependenciesConfig { whitelist, ..none() });
        found.into_iter().map(|report| report.message).collect::<Vec<String>>()
    };
    let missing = undeclared("not-a-dependency");
    assert_eq!(
        exempt(&[]),
        vec![undeclared("react"), missing.clone(), not_dev("jest"), undeclared("react")]
    );
    assert_eq!(exempt(&["react"]), vec![missing.clone(), not_dev("jest")]);
    assert_eq!(exempt(&["react", "jest"]), vec![missing]);
    assert_eq!(exempt(&["lodash.cond"]), exempt(&[]));
}

#[test]
fn internal_modules_only_add_the_reports_on_them() {
    let internal = |include_internal: bool, nodes: Vec<Node>| {
        let found = lint(nodes, NoExtraneousDependenciesConfig { include_internal, ..none() });
        found.into_iter().map(|report| report.message).collect::<Vec<String>>()
    };
    let nodes = || vec![import("react"), import("./foo"), import("jest")];
    let outside = || vec![import("react"), import("jest")];
    assert_eq!(internal(false, nodes()), vec![undeclared("react"), not_dev("jest")]);
    assert_eq!(
        internal(true, nodes()),
        vec![undeclared("react"), undeclared("fixture"), not_dev("jest")]
    );
    assert_eq!(internal(false, nodes()), internal(true, outside()));
}

#[test]
fn package_errors_have_no_span() {
    let found = lint(vec![import("react")], one_dir("/nowhere"));
    assert_eq!(found.len(), 1);
    assert_eq!(found[0].help, None);
    assert_eq!(found[0].span, None);
}

#[test]
fn package_json_that_is_no_object() {
    let mut host = Host::fixture();
    host.files.insert("/list/package.json".to_owned(), "[]".to_owned());
    let found = run(&mut host, one_dir("/list"), context(vec![import("react")], None));
    assert_eq!(
        found[0].message,
        "The package.json file could not be parsed: package.json must contain an object"
    );
}

#[test]
fn first_unreadable_package_json_ends_the_check() {
    let mut host = Host::fixture();
    let config = many_dirs(&["/nowhere", &format!("{IMPORT}/with-syntax-error"), IMPORT]);
    let found = run(&mut host, config, context(vec![import("react")], None));
    assert_eq!(found.len(), 1);
    assert!(found[0].message.starts_with("The package.json file could not be parsed: "));
    assert_eq!(
        host.asked,
        vec![
            "read /nowhere/package.json".to_owned(),
            "exists /nowhere/package.json".to_owned(),
            format!("read {IMPORT}/with-syntax-error/package.json"),
            format!("exists {IMPORT}/with-syntax-error/package.json"),
        ]
    );
}

#[test]
fn questions_come_in_order_and_names_are_read_once() {
    let mut host = Host::fixture();
    let nodes = vec![import("lodash.cond"), import("lodash.cond/foo"), import("node:fs")];
    assert!(run(&mut host, none(), context(nodes, None)).is_empty());
    assert_eq!(
        host.asked,
        vec![
            format!("file {IMPORT}/package.json"),
            format!("read {IMPORT}/package.json"),
            "resolve lodash.cond".to_owned(),
            format!("file {IMPORT}/node_modules/lodash.cond/package.json"),
            format!("read {IMPORT}/node_modules/lodash.cond/package.json"),
            "resolve lodash.cond/foo".to_owned(),
            format!("file {IMPORT}/node_modules/lodash.cond/package.json"),
        ]
    );
}

#[test]
fn nearest_package_json_is_used() {
    let mut host = Host::fixture();
    let mut context = context(vec![import("lodash.cond")], None);
    context.file_path = path("/repo/fixtures/import/src/deep/index.ts");
    assert!(run(&mut host, none(), context).is_empty());
    assert_eq!(
        host.asked[..4],
        [
            format!("file {IMPORT}/src/deep/package.json"),
            format!("file {IMPORT}/src/package.json"),
            format!("file {IMPORT}/package.json"),
            format!("read {IMPORT}/package.json"),
        ]
    );
}

#[test]
fn nothing_is_checked_without_a_package_json() {
    let mut host = Host::fixture();
    let mut context = context(vec![import("not-a-dependency")], None);
    context.file_path = path("/elsewhere/index.ts");
    assert!(run(&mut host, none(), context).is_empty());
    assert_eq!(host.asked, vec!["file /elsewhere/package.json", "file /package.json"]);
}

#[test]
fn unresolved_modules_are_not_reported() {
    assert!(lint(vec![import("unknown-module")], none()).is_empty());
}

#[test]
fn loaded_modules_are_not_resolved_again() {
    let mut host = Host::fixture();
    let mut context = context(vec![import("alias")], None);
    context.loaded_modules.push(LoadedModule {
        specifier: "alias".to_owned(),
        path: path(&format!("{IMPORT}/node_modules/lodash.cond/index.js")),
    });
    assert!(run(&mut host, none(), context).is_empty());
    assert!(host.asked.iter().all(|question| !question.starts_with("resolve")));
}

#[test]
fn the_name_that_a_package_gives_itself_counts() {
    let mut host = Host::fixture();
    host.modules.insert("alias".to_owned(), format!("{IMPORT}/node_modules/react/index.js"));
    let found = run(&mut host, none(), context(vec![import("alias")], None));
    assert_eq!(found[0].message, undeclared("react"));
    let exempt =
        |name: &str| NoExtraneousDependenciesConfig { whitelist: vec![name.to_owned()], ..none() };
    assert_eq!(run(&mut host, exempt("react"), context(vec![import("alias")], None)).len(), 0);
    assert_eq!(run(&mut host, exempt("alias"), context(vec![import("alias")], None)).len(), 1);
}

#[test]
fn template_literals_without_substitutions_are_checked() {
    let template = |no_substitution: bool, single_quasi: Option<&str>| {
        Node::ImportExpression(Expression::TemplateLiteral(TemplateLiteral {
            span: span(),
            no_substitution,
            single_quasi: single_quasi.map(str::to_owned),
        }))
    };
    assert_eq!(lint(vec![template(true, Some("not-a-dependency"))], none()).len(), 1);
    assert_eq!(lint(vec![template(false, Some("not-a-dependency"))], none()).len(), 0);
    assert_eq!(lint(vec![template(true, None)], none()).len(), 0);
}

#[test]
fn import_equals_of_types_and_of_other_references() {
    let node = |import_kind, module_reference| {
        Node::ImportEqualsDeclaration(ImportEqualsDeclaration { import_kind, module_reference })
    };
    let external = || ModuleReference::ExternalModuleReference(literal("not-a-dependency"));
    assert_eq!(lint(vec![node(ImportOrExportKind::Type, external())], none()).len(), 0);
    assert_eq!(lint(vec![node(ImportOrExportKind::Value, external())], none()).len(), 1);
    let other = node(ImportOrExportKind::Value, ModuleReference::Other);
    assert_eq!(lint(vec![other], none()).len(), 0);
}

#[test]
fn a_file_that_vanishes_is_passed_over() {
    let rule = NoExtraneousDependencies::default();
    let (session, action) = rule.run_once(context(vec![import("react")], None)).unwrap();
    assert!(matches!(action, Action::ProbeFile(_)));
    let (session, action) = session.step(Event::IsFile(true));
    assert!(matches!(action, Action::ReadFile(_)));
    let (session, action) = session.step(Event::Content(Err("gone".to_owned())));
    assert!(matches!(action, Action::ProbeExists(_)));
    let (session, action) = session.step(Event::Exists(false));
    assert!(matches!(action, Action::Finish));
    assert!(session.diagnostics().is_empty());
}

#[test]
fn stray_events_change_nothing() {
    let rule = NoExtraneousDependencies::default();
    let (session, _) = rule.run_once(context(vec![import("react")], None)).unwrap();
    let (session, action) = session.step(Event::Exists(true));
    assert!(matches!(action, Action::ProbeFile(_)));
    let (session, action) = session.step(Event::IsFile(false));
    assert_eq!(
        match &action {
            Action::ProbeFile(path) => text(path),
            other => panic!("{other:?}"),
        },
        "/repo/fixtures/package.json"
    );
    let (session, _) = session.step(Event::IsFile(true));
    let (session, action) = session.step(Event::Content(Ok("{}".to_owned())));
    assert!(matches!(action, Action::Resolve(_)));
    let (session, action) = session.step(Event::IsFile(true));
    assert!(matches!(action, Action::Resolve(_)));
    let (session, action) = session.step(Event::Resolved(None));
    assert!(matches!(action, Action::Finish));
    let (session, action) = session.step(Event::Resolved(None));
    assert!(matches!(action, Action::Finish));
    assert!(session.diagnostics().is_empty());
}
