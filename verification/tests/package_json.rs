use farm_resolve::json::{json_to_string, JsonValue};
use farm_resolve::model::{PackageJsonInfo, ParsedSideEffects, ResolveConfig, ResolveKind};
use farm_resolve::resolver::{ExportsLookup, Resolver};

fn to_json(v: &serde_json::Value) -> JsonValue {
    match v {
        serde_json::Value::Null => JsonValue::Null,
        serde_json::Value::Bool(b) => JsonValue::Bool(*b),
        serde_json::Value::Number(n) => JsonValue::Number(n.to_string()),
        serde_json::Value::String(s) => JsonValue::String(s.clone()),
        serde_json::Value::Array(a) => JsonValue::Array(a.iter().map(to_json).collect()),
        serde_json::Value::Object(o) => {
            JsonValue::Object(o.iter().map(|(k, v)| (k.clone(), to_json(v))).collect())
        }
    }
}

fn package(dir: &str, raw: &str, side_effects: ParsedSideEffects) -> PackageJsonInfo {
    let value: serde_json::Value = serde_json::from_str(raw).unwrap();
    let fields = match to_json(&value) {
        JsonValue::Object(entries) => entries,
        _ => panic!("package.json must be an object"),
    };
    PackageJsonInfo { dir: dir.to_string(), fields, side_effects }
}

fn resolver() -> Resolver {
    Resolver::new(ResolveConfig {
        alias: vec![],
        main_fields: vec!["module".to_string(), "main".to_string()],
        main_files: vec!["index".to_string()],
        extensions: vec!["ts".to_string(), "js".to_string()],
        symlinks: false,
    })
}

#[test]
fn source_shapes() {
    let r = resolver();
    assert!(r.is_source_relative("./a"));
    assert!(r.is_source_relative("../a"));
    assert!(r.is_source_relative(".."));
    assert!(!r.is_source_relative(".a"));
    assert!(!r.is_source_relative("a"));
    assert!(r.is_source_absolute("/root/a"));
    assert!(!r.is_source_absolute("root/a"));
    assert!(!r.is_source_absolute(""));
    assert!(r.is_source_dot("."));
    assert!(!r.is_source_dot("./"));
    assert!(!r.is_source_dot(""));
}

#[test]
fn paths_equal_ignore_a_leading_root_and_extra_separators() {
    let r = resolver();
    assert!(r.are_paths_equal("/a/b", "a/b"));
    assert!(r.are_paths_equal("a/b", "/a/b"));
    assert!(r.are_paths_equal("a//b", "a/b"));
    assert!(r.are_paths_equal("a/b/", "a/b"));
    assert!(r.are_paths_equal("x", "x"));
    assert!(!r.are_paths_equal("a/b", "a/c"));
    assert!(!r.are_paths_equal("default", "import"));
}

#[test]
fn key_paths_are_taken_under_the_package_directory() {
    let r = resolver();
    assert_eq!(r.get_key_path("default", "/pkg"), "/pkg");
    assert_eq!(r.get_key_path("./a.js", "/pkg"), "/pkg/a.js");
    assert_eq!(r.get_key_path("\"./a.js\"", "/pkg"), "/pkg/a.js");
    assert_eq!(r.get_key_path("./lib/../b.js", "/pkg"), "/pkg/b.js");
    assert_eq!(r.get_key_path(".", "/pkg"), "/pkg");
    assert_eq!(r.get_key_path("", "/pkg"), "/pkg");
}

#[test]
fn field_lookup_gives_the_member() {
    let r = resolver();
    let pj = package("/pkg", r#"{"name":"p","main":"./index.js"}"#, ParsedSideEffects::Bool(true));
    assert_eq!(
        r.get_field_value_from_package_json_info(&pj, "main"),
        Some(&JsonValue::String("./index.js".to_string()))
    );
    assert_eq!(r.get_field_value_from_package_json_info(&pj, "module"), None);
}

#[test]
fn side_effects_by_flag_and_by_list() {
    let r = resolver();
    let yes = package("/pkg", "{}", ParsedSideEffects::Bool(true));
    let no = package("/pkg", "{}", ParsedSideEffects::Bool(false));
    let list = package(
        "/pkg",
        "{}",
        ParsedSideEffects::Array(vec!["/pkg/a.js".to_string(), "/pkg/b.js".to_string()]),
    );
    assert!(r.is_module_side_effects(&yes, "/pkg/x.js"));
    assert!(!r.is_module_side_effects(&no, "/pkg/x.js"));
    assert!(r.is_module_side_effects(&list, "/pkg/b.js"));
    assert!(!r.is_module_side_effects(&list, "/pkg/c.js"));
}

#[test]
fn browser_false_marks_external() {
    let r = resolver();
    let pj = package(
        "/pkg",
        r#"{"browser":{"fs":false,"./server.js":false}}"#,
        ParsedSideEffects::Bool(true),
    );
    assert!(r.is_module_external(&pj, "fs"));
    assert!(!r.is_module_external(&pj, "path"));
    assert!(r.is_module_external(&pj, "./server.js"));
    let abs = package("/pkg", r#"{"browser":{"./server.js":false}}"#, ParsedSideEffects::Bool(true));
    assert!(r.is_module_external(&abs, "/pkg/server.js"));
    assert!(!r.is_module_external(&abs, "/pkg/client.js"));
    let none = package("/pkg", r#"{"browser":"./b.js"}"#, ParsedSideEffects::Bool(true));
    assert!(!r.is_module_external(&none, "fs"));
}

#[test]
fn every_member_mapped_to_false_is_external() {
    let r = resolver();
    let pj = package(
        "/p",
        r#"{"browser":{"fs":false,"path":false,"os":"./os.js"}}"#,
        ParsedSideEffects::Bool(true),
    );
    assert!(r.is_module_external(&pj, "fs"));
    assert!(r.is_module_external(&pj, "path"));
    assert!(!r.is_module_external(&pj, "os"));
}

#[test]
fn browser_replacement() {
    let r = resolver();
    let pj = package(
        "/pkg",
        r#"{"browser":{"./node.js":"./browser.js","foo":"./foo-browser.js","bar":false}}"#,
        ParsedSideEffects::Bool(true),
    );
    assert_eq!(r.try_browser_replace(&pj, "/pkg/node.js"), Some("/pkg/browser.js".to_string()));
    assert_eq!(r.try_browser_replace(&pj, "foo"), Some("/pkg/foo-browser.js".to_string()));
    assert_eq!(r.try_browser_replace(&pj, "bar"), None);
    assert_eq!(r.try_browser_replace(&pj, "/pkg/other.js"), None);
    let plain = package("/pkg", "{}", ParsedSideEffects::Bool(true));
    assert_eq!(r.try_browser_replace(&plain, "foo"), None);
}

#[test]
fn imports_replacement() {
    let r = resolver();
    let pj = package(
        "/pkg",
        r##"{"imports":{"#dep":"./src/dep.js","#cond":{"node":"./n.js","default":"./d.js"},"#abs":"/etc/x.js"}}"##,
        ParsedSideEffects::Bool(true),
    );
    assert_eq!(r.try_imports_replace(&pj, "#dep"), Some("/pkg/src/dep.js".to_string()));
    assert_eq!(r.try_imports_replace(&pj, "#cond"), Some("/pkg/d.js".to_string()));
    assert_eq!(r.try_imports_replace(&pj, "#abs"), None);
    assert_eq!(r.try_imports_replace(&pj, "#missing"), None);
    assert_eq!(r.try_imports_replace(&pj, "dep"), None);
}

fn exports_package() -> PackageJsonInfo {
    package(
        "/pkg",
        r#"{"exports":{
            ".":{"import":"./esm/index.js","REQUIRE":"./cjs/index.js"},
            "./feature":"./lib/feature.js",
            "./nested":{"import":{"node":"./n.js","default":"./nested.js"}},
            "./plain":{"default":"./plain.js"},
            "./bad":{"require":{"default":"./x.js"}},
            "./badimport":{"import":{"default":true}}
        }}"#,
        ParsedSideEffects::Bool(true),
    )
}

#[test]
fn exports_conditions_by_kind() {
    let r = resolver();
    let pj = exports_package();
    assert_eq!(
        r.exports_lookup(&pj, "/pkg", &ResolveKind::Import),
        ExportsLookup::Found("/pkg/esm/index.js".to_string())
    );
    assert_eq!(
        r.exports_lookup(&pj, "/pkg", &ResolveKind::Require),
        ExportsLookup::Found("/pkg/cjs/index.js".to_string())
    );
    assert_eq!(
        r.exports_lookup(&pj, "/pkg/feature", &ResolveKind::Import),
        ExportsLookup::Found("/pkg/lib/feature.js".to_string())
    );
    assert_eq!(
        r.exports_lookup(&pj, "/pkg/nested", &ResolveKind::Import),
        ExportsLookup::Found("/pkg/nested.js".to_string())
    );
    assert_eq!(
        r.exports_lookup(&pj, "/pkg/plain", &ResolveKind::Import),
        ExportsLookup::Found("/pkg/plain.js".to_string())
    );
    // for a require, `default` is the fallback condition
    assert_eq!(
        r.exports_lookup(&pj, "/pkg/plain", &ResolveKind::Require),
        ExportsLookup::Found("/pkg/plain.js".to_string())
    );
    assert_eq!(r.exports_lookup(&pj, "/pkg", &ResolveKind::DynamicImport), ExportsLookup::NotFound);
    assert_eq!(r.exports_lookup(&pj, "/pkg/unknown", &ResolveKind::Import), ExportsLookup::NotFound);
    // a relative path never matches a condition
    assert_eq!(r.exports_lookup(&pj, "pkg", &ResolveKind::Import), ExportsLookup::NotFound);
}

#[test]
fn a_string_exports_is_the_entry_for_the_package() {
    let r = resolver();
    let pj = package("/p", r#"{"exports":"./index.js"}"#, ParsedSideEffects::Bool(true));
    assert_eq!(
        r.try_exports_replace(&pj, "/p", &ResolveKind::Import),
        Some("/p/index.js".to_string())
    );
    assert_eq!(
        r.try_exports_replace(&pj, "/p", &ResolveKind::Require),
        Some("/p/index.js".to_string())
    );
    assert_eq!(r.try_exports_replace(&pj, "/p/other", &ResolveKind::Import), None);
    assert_eq!(r.try_exports_replace(&pj, "p", &ResolveKind::Import), None);
}

#[test]
fn require_falls_back_to_default() {
    let r = resolver();
    let pj = package(
        "/p",
        r#"{"exports":{".":{"import":"./esm.js","default":"./index.js"}}}"#,
        ParsedSideEffects::Bool(true),
    );
    assert_eq!(
        r.try_exports_replace(&pj, "/p", &ResolveKind::Require),
        Some("/p/index.js".to_string())
    );
    assert_eq!(
        r.try_exports_replace(&pj, "/p", &ResolveKind::Import),
        Some("/p/esm.js".to_string())
    );
    let first = package(
        "/p",
        r#"{"exports":{".":{"default":"./index.js","require":"./cjs.js"}}}"#,
        ParsedSideEffects::Bool(true),
    );
    // conditions are taken in the order the object lists them
    assert_eq!(
        r.try_exports_replace(&first, "/p", &ResolveKind::Require),
        Some("/p/index.js".to_string())
    );
}

#[test]
fn paths_equal_is_symmetric() {
    let r = resolver();
    let samples = ["/a/b", "a/b", "a//b", "a/b/", "/", "", "x/./y", "x/y"];
    for a in samples.iter() {
        for b in samples.iter() {
            assert_eq!(r.are_paths_equal(a, b), r.are_paths_equal(b, a), "{} {}", a, b);
        }
        assert!(r.are_paths_equal(a, a));
    }
}

#[test]
fn exports_targets_that_are_not_strings() {
    let r = resolver();
    let pj = exports_package();
    assert_eq!(
        r.exports_lookup(&pj, "/pkg/bad", &ResolveKind::Require),
        ExportsLookup::NonStringTarget
    );
    assert_eq!(
        r.exports_lookup(&pj, "/pkg/badimport", &ResolveKind::Import),
        ExportsLookup::NonStringTarget
    );
}

#[test]
fn exports_replacement() {
    let r = resolver();
    let pj = exports_package();
    assert_eq!(
        r.try_exports_replace(&pj, "/pkg", &ResolveKind::Import),
        Some("/pkg/esm/index.js".to_string())
    );
    assert_eq!(r.try_exports_replace(&pj, "/pkg/unknown", &ResolveKind::Import), None);
}

#[test]
fn exports_default_condition_uses_the_json_text_of_its_value() {
    let r = resolver();
    let pj = package(
        "/pkg",
        r#"{"exports":{".":{"default":{"x":1}}}}"#,
        ParsedSideEffects::Bool(true),
    );
    assert_eq!(
        r.exports_lookup(&pj, "/pkg", &ResolveKind::Import),
        ExportsLookup::Found("/pkg/{\"x\":1}".to_string())
    );
}

#[test]
fn resolve_result_with_and_without_package() {
    let r = resolver();
    let pj = package(
        "/pkg",
        r#"{"browser":{"./a.js":"./b.js","./ext.js":false}}"#,
        ParsedSideEffects::Array(vec!["/pkg/a.js".to_string()]),
    );
    let res = r.get_resolve_result(Some(&pj), "/pkg/a.js".to_string(), &ResolveKind::Import);
    assert_eq!(res.resolved_path, "/pkg/b.js");
    assert!(!res.external);
    assert!(res.side_effects);
    let res = r.get_resolve_result(Some(&pj), "/pkg/c.js".to_string(), &ResolveKind::Import);
    assert_eq!(res.resolved_path, "/pkg/c.js");
    assert!(!res.side_effects);
    let res = r.get_resolve_result(None, "/pkg/a.js".to_string(), &ResolveKind::Import);
    assert_eq!(res.resolved_path, "/pkg/a.js");
    assert!(!res.external);
    assert!(!res.side_effects);
}

#[test]
fn json_text_matches_serde_json() {
    let samples = [
        r#"null"#,
        r#"true"#,
        r#"false"#,
        r#"12.5"#,
        r#"-3"#,
        r#""plain""#,
        r#""quote \" backslash \\ slash / tab \t newline \n cr \r bs \b ff \f ctl \u0001 \u001f del \u007f é""#,
        r#"[]"#,
        r#"{}"#,
        r#"[1,"a",[true,null],{"k":"v"}]"#,
        r#"{"b":1,"a":{"c":[1,2],"d":"x\ny"}}"#,
    ];
    for raw in samples.iter() {
        let value: serde_json::Value = serde_json::from_str(raw).unwrap();
        assert_eq!(json_to_string(&to_json(&value)), value.to_string(), "for {}", raw);
    }
}
