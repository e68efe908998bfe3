use no_extraneous_dependencies::collections::name_set;
use no_extraneous_dependencies::config::{BoolOrGlobs, NoExtraneousDependenciesConfig};
use no_extraneous_dependencies::glob::PathTexts;
use no_extraneous_dependencies::json::{parse_json, Json};
use no_extraneous_dependencies::package::{read_package, DependencyFields};
use no_extraneous_dependencies::syntax::{Reference, Span};
use no_extraneous_dependencies::verdict::judge;

fn texts() -> PathTexts {
    PathTexts {
        file_path: "/work/src/a.js".to_owned(),
        cwd: "/work".to_owned(),
        process_cwd: "/work".to_owned(),
    }
}

fn fields(content: &str) -> DependencyFields {
    read_package(&Ok(content.to_owned())).unwrap().0
}

fn message(
    config: &NoExtraneousDependenciesConfig,
    exempt: &[&str],
    declared: &str,
    source: &str,
    real_name: Option<&str>,
) -> Option<String> {
    let exempt: Vec<String> = exempt.iter().map(|name| (*name).to_owned()).collect();
    let reference =
        Reference { source: source.to_owned(), span: Span { start: 1, end: 2 }, is_type: false };
    let report = judge(
        config,
        &texts(),
        &name_set(&exempt),
        &fields(declared),
        &reference,
        &real_name.map(str::to_owned),
    );
    report.map(|report| {
        assert_eq!(report.span, Some(Span { start: 1, end: 2 }));
        report.message
    })
}

fn options(set: &str, option: Option<BoolOrGlobs>) -> NoExtraneousDependenciesConfig {
    let mut config = NoExtraneousDependenciesConfig::default();
    match set {
        "dev" => config.dev_dependencies = option,
        "optional" => config.optional_dependencies = option,
        "peer" => config.peer_dependencies = option,
        "bundled" => config.bundled_dependencies = option,
        _ => {}
    }
    config
}

const KINDS: [(&str, &str, &str); 4] = [
    ("dev", "devDependencies", ", not devDependencies"),
    ("optional", "optionalDependencies", ", not optionalDependencies"),
    ("peer", "peerDependencies", ""),
    ("bundled", "bundleDependencies", ""),
];

#[test]
fn a_dependency_counts_under_either_name() {
    let config = NoExtraneousDependenciesConfig::default();
    let declared = r#"{ "dependencies": { "own": "1" } }"#;
    assert_eq!(message(&config, &[], declared, "own/sub", None), None);
    assert_eq!(message(&config, &[], declared, "alias", Some("own")), None);
    assert_eq!(message(&config, &[], declared, "own", Some("other")), None);
    assert_eq!(
        message(&config, &[], declared, "alias", Some("other")),
        Some("'other' should be listed in the project's dependencies.".to_owned())
    );
}

#[test]
fn every_kind_counts_where_it_is_not_forbidden() {
    let no_globs = || Some(BoolOrGlobs::Globs(Vec::new()));
    let glob = |pattern: &str| Some(BoolOrGlobs::Globs(vec![pattern.to_owned()]));
    for (kind, field, words) in KINDS {
        let declared = format!(r#"{{ "{field}": {{ "pkg": "1" }} }}"#);
        let judged = |option| message(&options(kind, option), &[], &declared, "pkg", None);
        let report = Some(format!("'pkg' should be listed in the project's dependencies{words}."));
        assert_eq!(judged(None), if kind == "dev" { report.clone() } else { None });
        assert_eq!(judged(Some(BoolOrGlobs::Bool(true))), None);
        assert_eq!(judged(glob("src/*.js")), None);
        assert_eq!(judged(Some(BoolOrGlobs::Bool(false))), report);
        assert_eq!(judged(no_globs()), report);
        assert_eq!(judged(glob("**/*.test.js")), report);
    }
}

#[test]
fn a_package_that_is_forbidden_as_one_kind_may_be_allowed_as_another() {
    let declared = r#"{ "devDependencies": { "pkg": "1" }, "peerDependencies": { "pkg": "1" } }"#;
    let mut config = options("dev", Some(BoolOrGlobs::Bool(false)));
    assert_eq!(message(&config, &[], declared, "pkg", None), None);
    config.peer_dependencies = Some(BoolOrGlobs::Bool(false));
    assert_eq!(
        message(&config, &[], declared, "pkg", None),
        Some("'pkg' should be listed in the project's dependencies, not devDependencies.".to_owned())
    );
}

#[test]
fn development_dependencies_are_named_before_optional_ones() {
    let declared = r#"{ "devDependencies": { "pkg": "1" }, "optionalDependencies": { "pkg": "1" } }"#;
    let mut config = options("dev", Some(BoolOrGlobs::Bool(false)));
    config.optional_dependencies = Some(BoolOrGlobs::Bool(false));
    assert_eq!(
        message(&config, &[], declared, "pkg", None),
        Some("'pkg' should be listed in the project's dependencies, not devDependencies.".to_owned())
    );
}

#[test]
fn development_dependencies_do_not_count_without_options() {
    let config = NoExtraneousDependenciesConfig::default();
    let report = "'pkg' should be listed in the project's dependencies, not devDependencies.";
    let only = r#"{ "devDependencies": { "pkg": "1" } }"#;
    assert_eq!(message(&config, &[], only, "pkg", None).as_deref(), Some(report));
    assert_eq!(message(&config, &[], only, "alias", Some("pkg")).as_deref(), Some(report));
    assert_eq!(message(&config, &["pkg"], only, "pkg", None), None);
    for field in
        ["dependencies", "optionalDependencies", "peerDependencies", "bundledDependencies"]
    {
        let declared =
            format!(r#"{{ "devDependencies": {{ "pkg": "1" }}, "{field}": {{ "pkg": "1" }} }}"#);
        assert_eq!(message(&config, &[], &declared, "pkg", None), None);
    }
}

#[test]
fn exemptions_and_declarations_only_take_reports_away() {
    let config = NoExtraneousDependenciesConfig::default();
    assert!(message(&config, &[], "{}", "pkg", None).is_some());
    assert!(message(&config, &["pkg/sub"], "{}", "pkg/sub", None).is_some());
    assert!(message(&config, &["pkg"], "{}", "pkg/sub", None).is_none());
    assert!(message(&config, &["other", "pkg"], "{}", "pkg", None).is_none());
    let declared = r#"{ "peerDependencies": { "pkg": "1", "other": "1" } }"#;
    assert!(message(&config, &[], declared, "pkg", None).is_none());
}

#[test]
fn only_a_development_dependency_outside_test_files() {
    let declared = r#"{ "devDependencies": { "eslint": "1" } }"#;
    let in_tests = Some(BoolOrGlobs::Globs(vec!["**/*.test.js".to_owned()]));
    assert_eq!(
        message(&options("dev", in_tests), &[], declared, "eslint", None),
        Some(
            "'eslint' should be listed in the project's dependencies, not devDependencies."
                .to_owned()
        )
    );
}

#[test]
fn parsed_values_keep_their_shape() {
    let value = parse_json(r#"{ "a": [null, true, 1.5, "x", { "b": [] }], "c": {} }"#).unwrap();
    assert_eq!(
        format!("{:?}", value.field("a").unwrap()),
        "Array([Null, Bool(true), Number, Text(\"x\"), Object([(\"b\", Array([]))])])"
    );
    assert!(matches!(value.field("c"), Some(Json::Object(fields)) if fields.is_empty()));
    assert!(parse_json("").is_err());
    assert_eq!(
        parse_json("[1,").unwrap_err(),
        "EOF while parsing a value at line 1 column 3"
    );
    let twice = parse_json(r#"{ "a": 1, "a": "last" }"#).unwrap();
    assert_eq!(twice.field("a").and_then(Json::as_str), Some("last"));
}
