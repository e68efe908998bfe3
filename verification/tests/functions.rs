use no_extraneous_dependencies::check::{
    package_name, remember_package_name, resolve_module, LoadedModule, NameSearch,
};
use no_extraneous_dependencies::collections::{name_set, PackageNames};
use no_extraneous_dependencies::config::{
    BoolOrGlobs, NoExtraneousDependencies, NoExtraneousDependenciesConfig, PackageDir,
};
use no_extraneous_dependencies::glob::{is_pattern_sized, matches_pattern, PathTexts};
use no_extraneous_dependencies::json::Json;
use no_extraneous_dependencies::module::{
    declaration_status, internal_regex, is_core_module, is_internal, module_name,
};
use no_extraneous_dependencies::package::{
    bundled_dependency_set, configured_package_paths, dependency_set, merge_dependencies,
    package_data, package_fields, read_package, DependencyFields, PackageError, PackageRead,
};
use no_extraneous_dependencies::path::{nearest_package_json, FilePath, Search};
use no_extraneous_dependencies::syntax::{
    is_type_only_export, is_type_only_import, ExportFromDeclaration, ImportDeclaration,
    ImportDeclarationSpecifier, ImportOrExportKind, Span, StringLiteral,
};
use no_extraneous_dependencies::verdict::{is_declared, package_error_diagnostic};

fn path(text: &str) -> FilePath {
    FilePath {
        prefix: String::new(),
        rooted: text.starts_with('/'),
        segments: text.split('/').filter(|part| !part.is_empty()).map(str::to_owned).collect(),
    }
}

fn text(path: &FilePath) -> String {
    let root = if path.rooted { "/" } else { "" };
    format!("{}{}{}", path.prefix, root, path.segments.join("/"))
}

fn texts() -> PathTexts {
    PathTexts {
        file_path: "/work/src/a.test.js".to_owned(),
        cwd: "/work".to_owned(),
        process_cwd: "/".to_owned(),
    }
}

fn read(content: &str) -> (DependencyFields, Option<String>) {
    read_package(&Ok(content.to_owned())).unwrap()
}

#[test]
fn module_names() {
    assert_eq!(module_name("lodash"), "lodash");
    assert_eq!(module_name("lodash/fp/get"), "lodash");
    assert_eq!(module_name("@org/pkg"), "@org/pkg");
    assert_eq!(module_name("@org/pkg/sub/path"), "@org/pkg");
    assert_eq!(module_name("@org"), "@org");
    assert_eq!(module_name("@org/"), "@org");
    assert_eq!(module_name("@org//pkg"), "@org");
    assert_eq!(module_name("/absolute"), "");
    assert_eq!(module_name(""), "");
    assert_eq!(module_name("@\u{fc}ber/na\u{ef}ve/x"), "@\u{fc}ber/na\u{ef}ve");
}

#[test]
fn module_names_are_stable() {
    for source in ["lodash/fp", "@org/pkg/sub", "@org//pkg", "./a/b", "", "@", "@/x/y"] {
        assert_eq!(module_name(module_name(source)), module_name(source));
    }
    for name in ["lodash", "@org/pkg"] {
        assert_eq!(module_name(&format!("{name}/sub/path")), name);
    }
    assert_eq!(module_name("@org/sub/path"), "@org/sub");
}

#[test]
fn declaration_statuses() {
    let (fields, _) = read(
        r#"{ "dependencies": { "a": "1", "@org/b": "1", "@org": "1" },
             "devDependencies": { "c": "1" },
             "optionalDependencies": { "d": "1" },
             "peerDependencies": { "e/f": "1" },
             "bundleDependencies": ["g"] }"#,
    );
    let kinds = |name: &str| {
        let status = declaration_status(&fields, name);
        (
            status.dependencies,
            status.dev_dependencies,
            status.optional_dependencies,
            status.peer_dependencies,
            status.bundled_dependencies,
        )
    };
    assert_eq!(kinds("a"), (true, false, false, false, false));
    assert_eq!(kinds("a/sub"), (true, false, false, false, false));
    assert_eq!(kinds("ab"), (false, false, false, false, false));
    assert_eq!(kinds("@org/b"), (true, false, false, false, false));
    assert_eq!(kinds("@org/b/sub"), (true, false, false, false, false));
    assert_eq!(kinds("@org/c"), (false, false, false, false, false));
    assert_eq!(kinds("@org"), (false, false, false, false, false));
    assert_eq!(kinds("c"), (false, true, false, false, false));
    assert_eq!(kinds("d"), (false, false, true, false, false));
    assert_eq!(kinds("e"), (false, false, false, false, false));
    assert_eq!(kinds("e/f/@g"), (false, false, false, true, false));
    assert_eq!(kinds("g"), (false, false, false, false, true));
    assert_eq!(kinds(""), (false, false, false, false, false));
}

#[test]
fn merged_declarations() {
    let names = ["a", "b", "c", "d"];
    let statuses = |fields: &DependencyFields| {
        names.map(|name| {
            let status = declaration_status(fields, name);
            (status.dependencies, status.dev_dependencies)
        })
    };
    let left = r#"{ "dependencies": { "a": "1" }, "devDependencies": { "b": "1" } }"#;
    let right = r#"{ "dependencies": { "b": "1", "c": "1" } }"#;
    let (mut both, _) = read(left);
    merge_dependencies(&mut both, read(right).0);
    assert_eq!(statuses(&both), [(true, false), (true, true), (true, false), (false, false)]);
    let (mut reversed, _) = read(right);
    merge_dependencies(&mut reversed, read(left).0);
    assert_eq!(statuses(&reversed), statuses(&both));
}

#[test]
fn packages_are_read() {
    let (fields, name) = read(
        r#"{ "name": "pkg", "dependencies": ["a"], "devDependencies": { "b": 1, "c": null },
             "bundleDependencies": ["d", 1, true, "e"] }"#,
    );
    assert_eq!(name, Some("pkg".to_owned()));
    assert!(fields.dependencies.is_empty());
    assert!(fields.dev_dependencies.contains("b") && fields.dev_dependencies.contains("c"));
    assert_eq!(fields.dev_dependencies.len(), 2);
    assert!(fields.bundled_dependencies.contains("d") && fields.bundled_dependencies.contains("e"));
    assert_eq!(fields.bundled_dependencies.len(), 2);
    assert_eq!(read(r#"{ "name": 1 }"#).1, None);
    assert_eq!(read("{}").1, None);
    assert_eq!(read_package(&Err("denied".to_owned())).unwrap_err(), "denied");
    assert_eq!(
        read_package(&Ok("[]".to_owned())).unwrap_err(),
        "package.json must contain an object"
    );
    assert_eq!(
        read_package(&Ok("{".to_owned())).unwrap_err(),
        "EOF while parsing an object at line 1 column 1"
    );
    assert_eq!(package_fields(&Json::Null).unwrap_err(), "package.json must contain an object");
}

#[test]
fn bundle_dependencies_win_over_bundled_dependencies() {
    let (fields, _) = read(r#"{ "bundleDependencies": ["a"], "bundledDependencies": ["b"] }"#);
    assert!(fields.bundled_dependencies.contains("a"));
    assert!(!fields.bundled_dependencies.contains("b"));
    let (fields, _) = read(r#"{ "bundleDependencies": null, "bundledDependencies": ["b"] }"#);
    assert!(fields.bundled_dependencies.is_empty());
    let (fields, _) = read(r#"{ "bundledDependencies": { "b": "1" } }"#);
    assert!(fields.bundled_dependencies.contains("b"));
}

#[test]
fn sets_of_declared_names() {
    let object = Json::Object(vec![("a".to_owned(), Json::Null), ("b".to_owned(), Json::Bool(true))]);
    let array = Json::Array(vec![Json::Text("c".to_owned()), Json::Number]);
    assert_eq!(dependency_set(Some(&object)).len(), 2);
    assert!(dependency_set(Some(&array)).is_empty());
    assert!(dependency_set(None).is_empty());
    assert!(bundled_dependency_set(Some(&object)).contains("b"));
    assert!(bundled_dependency_set(Some(&array)).contains("c"));
    assert_eq!(bundled_dependency_set(Some(&array)).len(), 1);
    assert!(bundled_dependency_set(Some(&Json::Text("d".to_owned()))).is_empty());
    let names = name_set(&vec!["x".to_owned(), "y".to_owned(), "x".to_owned()]);
    assert_eq!(names.len(), 2);
}

#[test]
fn json_fields_and_texts() {
    let value = Json::Object(vec![
        ("a".to_owned(), Json::Text("first".to_owned())),
        ("a".to_owned(), Json::Text("second".to_owned())),
    ]);
    assert_eq!(value.field("a").and_then(Json::as_str), Some("first"));
    assert!(value.field("b").is_none());
    assert!(Json::Array(Vec::new()).field("a").is_none());
    assert_eq!(Json::Number.as_str(), None);
}

#[test]
fn core_modules() {
    assert!(is_core_module(&None, "fs"));
    assert!(is_core_module(&None, "fs/promises"));
    assert!(is_core_module(&None, "node:anything"));
    assert!(!is_core_module(&None, "fs/other"));
    assert!(!is_core_module(&None, "lodash"));
    assert!(!is_core_module(&None, "nod"));
    let settings = Some(Json::Object(vec![(
        "import-x/core-modules".to_owned(),
        Json::Array(vec![Json::Number, Json::Text("@org/core".to_owned())]),
    )]));
    assert!(is_core_module(&settings, "@org/core/sub"));
    assert!(!is_core_module(&settings, "@org/other"));
    let wrong = Some(Json::Object(vec![(
        "import-x/core-modules".to_owned(),
        Json::Text("lodash".to_owned()),
    )]));
    assert!(!is_core_module(&wrong, "lodash"));
}

#[test]
fn internal_modules() {
    let outside = Some(path("/work/node_modules/x/index.js"));
    let inside = Some(path("/work/src/x.js"));
    let similar = Some(path("/work/my_node_modules/x.js"));
    assert!(!is_internal("x", &outside, None));
    assert!(is_internal("x", &inside, None));
    assert!(is_internal("x", &similar, None));
    assert!(is_internal("./x", &outside, None));
    assert!(is_internal("/x", &outside, None));
    assert!(!is_internal("x", &None, None));
    assert!(is_internal("x", &outside, Some("^x$")));
    assert!(!is_internal("xy", &outside, Some("^x$")));
    assert!(!is_internal("x", &outside, Some("[")));
    let settings = Some(Json::Object(vec![(
        "import-x/internal-regex".to_owned(),
        Json::Text("^@app/".to_owned()),
    )]));
    assert_eq!(internal_regex(&settings), Some("^@app/"));
    assert_eq!(internal_regex(&Some(Json::Null)), None);
    assert_eq!(internal_regex(&None), None);
}

#[test]
fn globs() {
    let matches = |pattern: &str| matches_pattern(pattern, &texts());
    assert!(matches("**/*.test.js"));
    assert!(matches("/work/src/*.js"));
    assert!(matches("src/*.test.js"));
    assert!(matches("work/src/*.js"));
    assert!(!matches("*.js"));
    assert!(!matches("src/*.ts"));
    assert!(!matches("other/src/*.js"));
    let windows = PathTexts {
        file_path: "src\\a.test.js".to_owned(),
        cwd: String::new(),
        process_cwd: String::new(),
    };
    assert!(matches_pattern("src/*.test.js", &windows));
    assert!(is_pattern_sized("**/*.js", &texts()));
}

#[test]
fn options_allow() {
    let globs = |patterns: &[&str]| {
        BoolOrGlobs::Globs(patterns.iter().map(|pattern| (*pattern).to_owned()).collect())
    };
    assert!(BoolOrGlobs::Bool(true).allows(&texts()));
    assert!(!BoolOrGlobs::Bool(false).allows(&texts()));
    assert!(globs(&["*.ts", "**/*.test.js"]).allows(&texts()));
    assert!(!globs(&["*.ts"]).allows(&texts()));
    assert!(!globs(&[]).allows(&texts()));
    assert!(globs(&["*.ts"]).is_sized(&texts()));
}

#[test]
fn declared_kinds() {
    let (fields, _) = read(r#"{ "devDependencies": { "a": "1" }, "peerDependencies": { "a": "1" } }"#);
    let status = declaration_status(&fields, "a");
    let mut config = NoExtraneousDependenciesConfig::default();
    assert!(config.is_sized(&texts()));
    assert!(is_declared(status, &config, &texts()));
    config.dev_dependencies = Some(BoolOrGlobs::Bool(false));
    assert!(is_declared(status, &config, &texts()));
    config.peer_dependencies = Some(BoolOrGlobs::Globs(vec!["**/*.spec.js".to_owned()]));
    assert!(!is_declared(status, &config, &texts()));
    config.peer_dependencies = Some(BoolOrGlobs::Globs(vec!["**/*.test.js".to_owned()]));
    assert!(is_declared(status, &config, &texts()));
    assert!(!is_declared(declaration_status(&fields, "b"), &config, &texts()));
}

#[test]
fn nearest_package_json_step_by_step() {
    let file = path("/a/b/c.js");
    let shown = |answers: &[bool]| match nearest_package_json(&file, &answers.to_vec()) {
        Search::Probe(path) => format!("probe {}", text(&path)),
        Search::Found(path) => format!("found {}", text(&path)),
        Search::Missing => "missing".to_owned(),
    };
    assert_eq!(shown(&[]), "probe /a/b/package.json");
    assert_eq!(shown(&[false]), "probe /a/package.json");
    assert_eq!(shown(&[false, false]), "probe /package.json");
    assert_eq!(shown(&[false, false, false]), "missing");
    assert_eq!(shown(&[true]), "found /a/b/package.json");
    assert_eq!(shown(&[false, true, true]), "found /a/package.json");
    assert!(matches!(nearest_package_json(&path("/"), &Vec::new()), Search::Missing));
}

#[test]
fn paths() {
    let directory = path("/a/b");
    assert_eq!(text(&directory.parent().unwrap()), "/a");
    assert!(path("/").parent().is_none());
    assert_eq!(text(&directory.child("c")), "/a/b/c");
    assert_eq!(text(&directory.join(&path("c/d"))), "/a/b/c/d");
    assert_eq!(text(&directory.join(&path("/c"))), "/c");
    let drive = FilePath { prefix: "C:".to_owned(), rooted: true, segments: vec!["x".to_owned()] };
    assert_eq!(text(&directory.join(&drive)), "C:/x");
    assert_eq!(text(&drive.join(&path("/c"))), "C:/c");
    assert!(directory.has_segment("b") && !directory.has_segment("c"));
}

#[test]
fn package_directories() {
    let one = PackageDir::One(path("x"));
    let many = PackageDir::Many(vec![path("x"), path("/y")]);
    assert_eq!(one.paths().iter().map(text).collect::<Vec<_>>(), vec!["x"]);
    assert_eq!(many.paths().iter().map(text).collect::<Vec<_>>(), vec!["x", "/y"]);
    let shown = |package_dir: Option<PackageDir>| {
        let paths = configured_package_paths(&package_dir, &path("/work"));
        paths.iter().map(text).collect::<Vec<_>>()
    };
    assert_eq!(shown(Some(many)), vec!["/work/x/package.json", "/y/package.json"]);
    assert_eq!(shown(Some(PackageDir::Many(Vec::new()))), Vec::<String>::new());
    assert_eq!(shown(None), Vec::<String>::new());
}

fn tried(directory: &str, content: Result<&str, &str>, exists: bool) -> PackageRead {
    let content = content.map(str::to_owned).map_err(str::to_owned);
    PackageRead { path: path(directory).child("package.json"), package: read_package(&content), exists }
}

#[test]
fn gathered_declarations() {
    let many = Some(PackageDir::Many(vec![path("/a"), path("/b")]));
    let one = Some(PackageDir::One(path("/a")));
    let cwd = path("/work");
    let missing = || tried("/a", Err("no such file"), false);
    let good = || tried("/b", Ok(r#"{ "dependencies": { "x": "1" } }"#), true);
    let bad = || tried("/a", Ok("{"), true);

    let data = package_data(&many, &cwd, vec![missing(), good()]).unwrap();
    assert_eq!(text(&data.package_root.unwrap()), "/b");
    assert!(data.dependencies.dependencies.contains("x"));

    let data = package_data(&many, &cwd, vec![missing(), missing()]).unwrap();
    assert_eq!(text(&data.package_root.unwrap()), "/work");
    assert!(data.dependencies.dependencies.is_empty());

    assert!(matches!(package_data(&one, &cwd, vec![missing()]), Err(PackageError::NotFound)));
    let message = |data| match data {
        Err(PackageError::Unparsable(message)) => message,
        other => panic!("{other:?}"),
    };
    let expected = "EOF while parsing an object at line 1 column 1";
    assert_eq!(message(package_data(&one, &cwd, vec![bad()])), expected);
    assert_eq!(message(package_data(&many, &cwd, vec![good(), bad()])), expected);
    assert!(package_data(&None, &cwd, Vec::new()).unwrap().package_root.is_none());
    assert!(package_data(&None, &cwd, vec![missing()]).unwrap().package_root.is_none());
}

#[test]
fn package_names() {
    let mut names = PackageNames::default();
    let file = path("/m/x/index.js");
    let shown = |answers: &[bool], names: &PackageNames| match package_name(&file, &answers.to_vec(), names) {
        NameSearch::Probe(path) => format!("probe {}", text(&path)),
        NameSearch::Read(path) => format!("read {}", text(&path)),
        NameSearch::Known(name) => format!("known {name:?}"),
    };
    assert_eq!(shown(&[], &names), "probe /m/x/package.json");
    assert_eq!(shown(&[true], &names), "read /m/x/package.json");
    assert_eq!(shown(&[false, false, false], &names), "known None");
    let x = path("/m/x/package.json");
    remember_package_name(&mut names, x.clone(), &Ok(r#"{ "name": "x" }"#.to_owned()));
    assert_eq!(shown(&[true], &names), "known Some(\"x\")");
    assert_eq!(shown(&[false, true], &names), "read /m/package.json");
    remember_package_name(&mut names, x, &Err("denied".to_owned()));
    assert_eq!(shown(&[true], &names), "known None");
}

#[test]
fn modules_resolve() {
    let loaded = vec![
        LoadedModule { specifier: "a".to_owned(), path: path("/1") },
        LoadedModule { specifier: "a".to_owned(), path: path("/2") },
    ];
    let shown = |source: &str, answer: Option<Option<FilePath>>| {
        resolve_module(&loaded, source, &answer).map(|path| path.map(|path| text(&path)))
    };
    assert_eq!(shown("a", None), Some(Some("/1".to_owned())));
    assert_eq!(shown("a", Some(None)), Some(Some("/1".to_owned())));
    assert_eq!(shown("b", None), None);
    assert_eq!(shown("b", Some(None)), Some(None));
    assert_eq!(shown("b", Some(Some(path("/3")))), Some(Some("/3".to_owned())));
}

#[test]
fn type_only_declarations() {
    let source = || StringLiteral { value: "x".to_owned(), span: Span { start: 0, end: 3 } };
    let value = ImportDeclarationSpecifier::ImportSpecifier(ImportOrExportKind::Value);
    let of_type = ImportDeclarationSpecifier::ImportSpecifier(ImportOrExportKind::Type);
    let import = |import_kind, specifiers| {
        is_type_only_import(&ImportDeclaration { source: source(), import_kind, specifiers })
    };
    assert!(import(ImportOrExportKind::Type, None));
    assert!(!import(ImportOrExportKind::Value, None));
    assert!(!import(ImportOrExportKind::Value, Some(Vec::new())));
    assert!(import(ImportOrExportKind::Value, Some(vec![of_type, of_type])));
    assert!(!import(ImportOrExportKind::Value, Some(vec![of_type, value])));
    assert!(!import(
        ImportOrExportKind::Value,
        Some(vec![of_type, ImportDeclarationSpecifier::ImportNamespaceSpecifier])
    ));
    let export = |export_kind, specifiers| {
        is_type_only_export(&ExportFromDeclaration { source: source(), export_kind, specifiers })
    };
    assert!(export(ImportOrExportKind::Type, Vec::new()));
    assert!(!export(ImportOrExportKind::Value, Vec::new()));
    assert!(export(ImportOrExportKind::Value, vec![ImportOrExportKind::Type]));
    assert!(!export(
        ImportOrExportKind::Value,
        vec![ImportOrExportKind::Type, ImportOrExportKind::Value]
    ));
}

#[test]
fn package_error_messages() {
    assert_eq!(
        package_error_diagnostic(PackageError::NotFound).message,
        "The package.json file could not be found."
    );
    assert_eq!(
        package_error_diagnostic(PackageError::Unparsable("why".to_owned())).message,
        "The package.json file could not be parsed: why"
    );
}

#[test]
fn default_options() {
    let rule = NoExtraneousDependencies::default();
    assert!(rule.package_dir.is_none() && rule.dev_dependencies.is_none());
    assert!(rule.optional_dependencies.is_none() && rule.peer_dependencies.is_none());
    assert!(rule.bundled_dependencies.is_none() && rule.whitelist.is_empty());
    assert!(!rule.include_internal && !rule.include_types);
}
