use std::collections::{HashMap, HashSet};
use std::path::Path;

use farm_resolve::facts::{AbortReason, Eval, FsFacts, FsQuery, PathKind};
use farm_resolve::json::JsonValue;
use farm_resolve::model::{
    PackageJsonInfo, ParsedSideEffects, PluginResolveHookResult, ResolveConfig, ResolveKind,
};
use farm_resolve::resolver::Resolver;

fn to_json(v: &serde_json::Value) -> JsonValue {
    match v {
        serde_json::Value::Null => JsonValue::Null,
        serde_json::Value::Bool(b) => JsonValue::Bool(*b),
        serde_json::Value::Number(n) => JsonValue::Number(n.to_string()),
        serde_json::Value::String(s) => JsonValue::String(s.clone()),
        serde_json::Value::Array(a) => JsonValue::Array(a.iter().map(to_json).collect()),
        serde_json::Value::Object(o) => {
            JsonValue::Object(o.iter().map(|(k, v)| (k.clone(), to_json(v))).collect())
        }
    }
}

/// A file system held in memory.
struct MemFs {
    files: HashSet<String>,
    dirs: HashSet<String>,
    manifests: HashMap<String, String>,
}

impl MemFs {
    fn new() -> Self {
        MemFs { files: HashSet::new(), dirs: HashSet::new(), manifests: HashMap::new() }
    }

    fn add_dir(&mut self, dir: &str) {
        let mut p = Some(Path::new(dir));
        while let Some(d) = p {
            let s = d.to_string_lossy().to_string();
            if !s.is_empty() {
                self.dirs.insert(s);
            }
            p = d.parent();
        }
    }

    fn add_file(&mut self, file: &str) {
        self.files.insert(file.to_string());
        if let Some(parent) = Path::new(file).parent() {
            self.add_dir(&parent.to_string_lossy());
        }
    }

    fn add_package(&mut self, dir: &str, raw: &str) {
        let manifest = format!("{}/package.json", dir);
        self.add_file(&manifest);
        self.manifests.insert(dir.to_string(), raw.to_string());
    }

    fn stat(&self, p: &str) -> PathKind {
        if self.files.contains(p) {
            PathKind::File
        } else if self.dirs.contains(p) {
            PathKind::Dir
        } else {
            PathKind::Missing
        }
    }

    fn load(&self, dir: &str, ancestors: bool) -> Option<PackageJsonInfo> {
        let mut p = Some(Path::new(dir));
        while let Some(d) = p {
            let key = d.to_string_lossy().to_string();
            if let Some(raw) = self.manifests.get(&key) {
                let value: serde_json::Value = serde_json::from_str(raw).unwrap();
                let fields = match to_json(&value) {
                    JsonValue::Object(entries) => entries,
                    _ => panic!("package.json must be an object"),
                };
                return Some(PackageJsonInfo {
                    dir: key,
                    fields,
                    side_effects: ParsedSideEffects::Bool(true),
                });
            }
            if !ancestors {
                return None;
            }
            p = d.parent();
        }
        None
    }
}

/// Answers each question of the resolver from the in-memory file system,
/// counting the steps taken.
fn drive(
    resolver: &Resolver,
    source: &str,
    base: &str,
    kind: &ResolveKind,
    fs: &MemFs,
    facts: &mut FsFacts,
    steps: &mut usize,
) -> Result<Option<PluginResolveHookResult>, AbortReason> {
    loop {
        *steps += 1;
        match resolver.resolve(source, base, kind, facts) {
            Eval::Done(r) => return Ok(r),
            Eval::Abort(reason) => return Err(reason),
            Eval::Need(FsQuery::Stat(p)) => {
                let k = fs.stat(&p);
                facts.record_stat(p, k);
            }
            Eval::Need(FsQuery::LoadPackageJson { dir, follow_symlinks, resolve_ancestor_dir }) => {
                let info = fs.load(&dir, resolve_ancestor_dir);
                facts.record_package_json(dir, follow_symlinks, resolve_ancestor_dir, info);
            }
            Eval::Need(FsQuery::FollowSymlinks(p)) => {
                let target = p.clone();
                facts.record_link(p, target);
            }
            Eval::Need(FsQuery::Resolve(s)) => {
                let r = drive(resolver, &s, base, kind, fs, facts, steps)?;
                facts.record_resolution(s, r);
            }
        }
    }
}

fn run(
    resolver: &Resolver,
    source: &str,
    base: &str,
    kind: &ResolveKind,
    fs: &MemFs,
) -> Result<Option<PluginResolveHookResult>, AbortReason> {
    let mut facts = FsFacts::new();
    let mut steps = 0;
    drive(resolver, source, base, kind, fs, &mut facts, &mut steps)
}

fn config(alias: Vec<(&str, &str)>, symlinks: bool) -> ResolveConfig {
    ResolveConfig {
        alias: alias.into_iter().map(|(a, b)| (a.to_string(), b.to_string())).collect(),
        main_fields: vec!["module".to_string(), "main".to_string()],
        main_files: vec!["index".to_string()],
        extensions: vec!["ts".to_string(), "js".to_string()],
        symlinks,
    }
}

fn project() -> MemFs {
    let mut fs = MemFs::new();
    fs.add_file("/proj/src/util.ts");
    fs.add_file("/proj/src/comp/index.ts");
    fs.add_file("/proj/src/main.js");
    fs.add_file("/proj/node_modules/lib/lib/index.js");
    fs.add_package("/proj/node_modules/lib", r#"{"name":"lib","main":"./lib/index.js"}"#);
    fs.add_file("/proj/node_modules/obj/index.js");
    fs.add_package(
        "/proj/node_modules/obj",
        r#"{"name":"obj","module":{"x":1},"exports":{".":{"import":"./index.js"}}}"#,
    );
    fs.add_file("/proj/node_modules/bare/index.ts");
    fs.add_package("/proj/node_modules/bare", r#"{"name":"bare"}"#);
    fs.add_package("/proj/node_modules/nomain", r#"{"name":"nomain"}"#);
    fs.add_file("/proj/node_modules/loose/file.js");
    fs
}

fn path_of(r: Result<Option<PluginResolveHookResult>, AbortReason>) -> Option<String> {
    r.unwrap().map(|h| h.resolved_path)
}

#[test]
fn relative_source_with_extension() {
    let r = Resolver::new(config(vec![], false));
    let fs = project();
    let res = run(&r, "./util", "/proj/src", &ResolveKind::Import, &fs).unwrap().unwrap();
    assert_eq!(res.resolved_path, "/proj/src/util.ts");
    assert!(!res.external);
    assert!(!res.side_effects);
}

#[test]
fn relative_source_naming_a_file() {
    let r = Resolver::new(config(vec![], false));
    let fs = project();
    assert_eq!(
        path_of(run(&r, "./main.js", "/proj/src", &ResolveKind::Import, &fs)),
        Some("/proj/src/main.js".to_string())
    );
    assert_eq!(
        path_of(run(&r, "../src/main.js", "/proj/src", &ResolveKind::Import, &fs)),
        Some("/proj/src/main.js".to_string())
    );
}

#[test]
fn relative_directory_resolves_to_its_index() {
    let r = Resolver::new(config(vec![], false));
    let fs = project();
    assert_eq!(
        path_of(run(&r, "./comp", "/proj/src", &ResolveKind::Import, &fs)),
        Some("/proj/src/comp/index.ts".to_string())
    );
}

#[test]
fn missing_relative_source_is_not_resolved() {
    let r = Resolver::new(config(vec![], false));
    let fs = project();
    assert_eq!(path_of(run(&r, "./nothing", "/proj/src", &ResolveKind::Import, &fs)), None);
}

#[test]
fn absolute_source() {
    let r = Resolver::new(config(vec![], false));
    let fs = project();
    assert_eq!(
        path_of(run(&r, "/proj/src/util", "/proj", &ResolveKind::Import, &fs)),
        Some("/proj/src/util.ts".to_string())
    );
    assert_eq!(path_of(run(&r, "/proj/src/none", "/proj", &ResolveKind::Import, &fs)), None);
}

#[test]
fn dot_source_is_the_base_directory() {
    let r = Resolver::new(config(vec![], false));
    let fs = project();
    assert_eq!(
        path_of(run(&r, ".", "/proj/src/comp", &ResolveKind::Import, &fs)),
        Some("/proj/src/comp/index.ts".to_string())
    );
}

#[test]
fn package_main_field() {
    let r = Resolver::new(config(vec![], false));
    let fs = project();
    let res = run(&r, "lib", "/proj/src", &ResolveKind::Import, &fs).unwrap().unwrap();
    assert_eq!(res.resolved_path, "/proj/node_modules/lib/lib/index.js");
    assert!(!res.external);
    assert!(res.side_effects);
}

#[test]
fn package_object_main_field_goes_through_exports() {
    let r = Resolver::new(config(vec![], false));
    let fs = project();
    assert_eq!(
        path_of(run(&r, "obj", "/proj/src", &ResolveKind::Import, &fs)),
        Some("/proj/node_modules/obj/index.js".to_string())
    );
}

#[test]
fn package_without_main_field_uses_its_index() {
    let r = Resolver::new(config(vec![], false));
    let fs = project();
    assert_eq!(
        path_of(run(&r, "bare", "/proj/src", &ResolveKind::Import, &fs)),
        Some("/proj/node_modules/bare/index.ts".to_string())
    );
    assert_eq!(path_of(run(&r, "nomain", "/proj/src", &ResolveKind::Import, &fs)), None);
}

#[test]
fn package_file_without_manifest() {
    let r = Resolver::new(config(vec![], false));
    let fs = project();
    assert_eq!(
        path_of(run(&r, "loose/file", "/proj/src", &ResolveKind::Import, &fs)),
        Some("/proj/node_modules/loose/file.js".to_string())
    );
}

#[test]
fn deep_path_under_a_package_with_manifest_gives_the_package_path() {
    let r = Resolver::new(config(vec![], false));
    let fs = project();
    let res = run(&r, "lib/missing/deep", "/proj/src", &ResolveKind::Import, &fs).unwrap().unwrap();
    assert_eq!(res.resolved_path, "/proj/node_modules/lib/missing/deep");
    assert!(!res.external);
    // side effects come from lib's own package.json
    assert!(res.side_effects);
}

fn subpath_package(target_file: &str) -> MemFs {
    let mut fs = MemFs::new();
    fs.add_dir("/app");
    fs.add_package("/app/node_modules/pkg", r#"{"name":"pkg","exports":{"./feature":"./dist/feature.js"}}"#);
    fs.add_file(target_file);
    fs
}

#[test]
fn subpath_export_through_the_package_directory() {
    let r = Resolver::new(config(vec![], false));
    let fs = subpath_package("/app/node_modules/pkg/dist/feature.js");
    let res = run(&r, "pkg/feature", "/app", &ResolveKind::Import, &fs).unwrap().unwrap();
    assert_eq!(res.resolved_path, "/app/node_modules/pkg/dist/feature.js");
    assert!(!res.external);
    assert!(res.side_effects);
}

#[test]
fn a_js_export_target_is_retried_as_ts() {
    let r = Resolver::new(config(vec![], false));
    let fs = subpath_package("/app/node_modules/pkg/dist/feature.ts");
    assert_eq!(
        path_of(run(&r, "pkg/feature", "/app", &ResolveKind::Import, &fs)),
        Some("/app/node_modules/pkg/dist/feature.ts".to_string())
    );
    let fs = subpath_package("/app/node_modules/pkg/dist/other.ts");
    assert_eq!(
        path_of(run(&r, "pkg/feature", "/app", &ResolveKind::Import, &fs)),
        Some("/app/node_modules/pkg/dist/feature.js".to_string())
    );
}

#[test]
fn an_alias_gives_what_resolving_the_rewritten_source_gives() {
    let r = Resolver::new(config(vec![("@", "/proj/src")], false));
    let fs = project();
    for (src, rewritten) in [("@/util", "/proj/src/util"), ("@/comp", "/proj/src/comp"), ("@/none", "/proj/src/none")] {
        let via_alias = run(&r, src, "/proj", &ResolveKind::Import, &fs).unwrap();
        let direct = run(&r, rewritten, "/proj", &ResolveKind::Import, &fs).unwrap();
        assert_eq!(via_alias, direct, "{}", src);
    }
}

#[test]
fn unknown_package_is_not_resolved() {
    let r = Resolver::new(config(vec![], false));
    let fs = project();
    assert_eq!(path_of(run(&r, "nope", "/proj/src", &ResolveKind::Import, &fs)), None);
}

#[test]
fn alias_prefix_and_exact() {
    let r = Resolver::new(config(vec![("@", "/proj/src"), ("entry$", "/proj/src/main.js")], false));
    let fs = project();
    assert_eq!(
        path_of(run(&r, "@/util", "/proj", &ResolveKind::Import, &fs)),
        Some("/proj/src/util.ts".to_string())
    );
    assert_eq!(
        path_of(run(&r, "entry", "/proj", &ResolveKind::Import, &fs)),
        Some("/proj/src/main.js".to_string())
    );
    // `entry$` matches only the exact source; `entry/x` falls through
    assert_eq!(path_of(run(&r, "entry/x", "/proj", &ResolveKind::Import, &fs)), None);
}

#[test]
fn alias_that_fails_falls_back_to_node_modules() {
    let r = Resolver::new(config(vec![("lib", "/nowhere")], false));
    let fs = project();
    assert_eq!(
        path_of(run(&r, "lib", "/proj/src", &ResolveKind::Import, &fs)),
        Some("/proj/node_modules/lib/lib/index.js".to_string())
    );
    let r = Resolver::new(config(vec![("lib$", "/nowhere/x")], false));
    assert_eq!(
        path_of(run(&r, "lib", "/proj/src", &ResolveKind::Import, &fs)),
        Some("/proj/node_modules/lib/lib/index.js".to_string())
    );
}

#[test]
fn browser_false_makes_a_bare_source_external() {
    let r = Resolver::new(config(vec![], false));
    let mut fs = project();
    fs.add_package("/proj", r#"{"name":"app","browser":{"fs":false,"old":"./src/main.js"}}"#);
    let res = run(&r, "fs", "/proj/src", &ResolveKind::Import, &fs).unwrap().unwrap();
    assert_eq!(res.resolved_path, "fs");
    assert!(res.external);
    assert!(!res.side_effects);
    let res = run(&r, "old", "/proj/src", &ResolveKind::Import, &fs).unwrap().unwrap();
    assert_eq!(res.resolved_path, "/proj/src/main.js");
    assert!(!res.external);
    assert!(res.side_effects);
}

#[test]
fn imports_answer_a_hash_source() {
    let r = Resolver::new(config(vec![], false));
    let mut fs = project();
    fs.add_package("/proj", r##"{"name":"app","imports":{"#util":"./src/util.ts"}}"##);
    assert_eq!(
        path_of(run(&r, "#util", "/proj/src", &ResolveKind::Import, &fs)),
        Some("/proj/src/util.ts".to_string())
    );
}

#[test]
fn following_links_asks_for_them() {
    let r = Resolver::new(config(vec![], true));
    let fs = project();
    let facts = FsFacts::new();
    match r.resolve("./util", "/proj/src", &ResolveKind::Import, &facts) {
        Eval::Need(FsQuery::LoadPackageJson { dir, follow_symlinks, resolve_ancestor_dir }) => {
            assert_eq!(dir, "/proj/src");
            assert!(follow_symlinks);
            assert!(resolve_ancestor_dir);
        }
        other => panic!("unexpected {:?}", other),
    }
    assert_eq!(
        path_of(run(&r, "./util", "/proj/src", &ResolveKind::Import, &fs)),
        Some("/proj/src/util.ts".to_string())
    );
}

#[test]
fn a_path_without_file_name_stops_resolution() {
    let r = Resolver::new(config(vec![], false));
    let fs = project();
    match run(&r, "/proj/..", "/proj", &ResolveKind::Import, &fs) {
        Err(AbortReason::NoFileName(p)) => assert_eq!(p, "/proj/.."),
        other => panic!("unexpected {:?}", other),
    }
}

#[test]
fn a_non_string_export_target_stops_resolution() {
    let r = Resolver::new(config(vec![], false));
    let mut fs = project();
    fs.add_file("/proj/node_modules/badpkg/index.js");
    fs.add_package("/proj/node_modules/badpkg", r#"{"module":{"a":1},"exports":{".":{"require":1}}}"#);
    match run(&r, "badpkg", "/proj/src", &ResolveKind::Require, &fs) {
        Err(AbortReason::NonStringExportTarget) => {}
        other => panic!("unexpected {:?}", other),
    }
}

#[test]
fn each_question_asked_is_new() {
    let r = Resolver::new(config(vec![], false));
    let fs = project();
    let mut facts = FsFacts::new();
    let mut seen: Vec<String> = Vec::new();
    loop {
        match r.resolve("lib", "/proj/src", &ResolveKind::Import, &facts) {
            Eval::Done(res) => {
                assert_eq!(res.unwrap().resolved_path, "/proj/node_modules/lib/lib/index.js");
                break;
            }
            Eval::Abort(a) => panic!("unexpected {:?}", a),
            Eval::Need(q) => {
                let key = format!("{:?}", q);
                assert!(!seen.contains(&key), "asked twice: {}", key);
                seen.push(key);
                match q {
                    FsQuery::Stat(p) => {
                        let k = fs.stat(&p);
                        facts.record_stat(p, k);
                    }
                    FsQuery::LoadPackageJson { dir, follow_symlinks, resolve_ancestor_dir } => {
                        let info = fs.load(&dir, resolve_ancestor_dir);
                        facts.record_package_json(dir, follow_symlinks, resolve_ancestor_dir, info);
                    }
                    other => panic!("unexpected {:?}", other),
                }
            }
        }
    }
}

#[test]
fn a_finished_step_keeps_its_result_when_more_is_recorded() {
    let r = Resolver::new(config(vec![], false));
    let fs = project();
    let mut facts = FsFacts::new();
    let mut steps = 0;
    let first = drive(&r, "./util", "/proj/src", &ResolveKind::Import, &fs, &mut facts, &mut steps)
        .unwrap()
        .unwrap();
    facts.record_stat("/elsewhere".to_string(), PathKind::File);
    facts.record_stat("/proj/src/util".to_string(), PathKind::File);
    facts.record_link("/proj/src".to_string(), "/x".to_string());
    match r.resolve("./util", "/proj/src", &ResolveKind::Import, &facts) {
        Eval::Done(Some(again)) => assert_eq!(again, first),
        other => panic!("unexpected {:?}", other),
    }
}

#[test]
fn the_first_recorded_answer_holds() {
    let mut facts = FsFacts::new();
    assert_eq!(facts.stat_of("/a"), None);
    facts.record_stat("/a".to_string(), PathKind::Dir);
    facts.record_stat("/a".to_string(), PathKind::File);
    assert_eq!(facts.stat_of("/a"), Some(PathKind::Dir));
    assert!(facts.link_of("/a").is_none());
    facts.record_link("/a".to_string(), "/b".to_string());
    assert_eq!(facts.link_of("/a"), Some(&"/b".to_string()));
    assert!(facts.package_json_of("/a", false, true).is_none());
    facts.record_package_json("/a".to_string(), false, true, None);
    assert!(matches!(facts.package_json_of("/a", false, true), Some(None)));
    assert!(facts.package_json_of("/a", true, true).is_none());
    assert!(facts.resolution_of("x").is_none());
    facts.record_resolution("x".to_string(), None);
    assert!(matches!(facts.resolution_of("x"), Some(None)));
}
