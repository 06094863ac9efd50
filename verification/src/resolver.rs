//! The resolver and the decisions it takes from a `package.json` alone: the
//! `browser`, `imports` and `exports` replacements, whether a module is
//! external or has side effects, and the shape of a source specifier.
use vstd::prelude::*;
use crate::json::{JsonValue, object_get, object_get_spec, json_text, json_to_string};
use crate::model::{
    ResolveConfig, ResolveKind, ParsedSideEffects, PackageJsonInfo, PluginResolveHookResult,
    HookView, opt_str_view,
};
use crate::paths::{
    logical_path, root_stripped, same_path, lowercase_of, to_logical_path, path_is_absolute,
    path_strip_root, paths_equal, to_lowercase,
};
use crate::strings::{is_prefix_of, trim_char, starts_with, str_equals, trim_matches_char};

verus! {

/// A module resolver with a fixed configuration.
pub struct Resolver {
    pub config: ResolveConfig,
}

/// The word `default`.
pub open spec fn default_word() -> Seq<char> {
    seq!['d', 'e', 'f', 'a', 'u', 'l', 't']
}

/// The word `import`.
pub open spec fn import_word() -> Seq<char> {
    seq!['i', 'm', 'p', 'o', 'r', 't']
}

/// The word `require`.
pub open spec fn require_word() -> Seq<char> {
    seq!['r', 'e', 'q', 'u', 'i', 'r', 'e']
}

/// A path is absolute when it starts with `/`.
pub open spec fn is_absolute_spec(p: Seq<char>) -> bool {
    p.len() > 0 && p[0] == '/'
}

/// A source is relative when it starts with `./` or with `..`.
pub open spec fn is_relative_spec(s: Seq<char>) -> bool {
    is_prefix_of(seq!['.', '/'], s) || is_prefix_of(seq!['.', '.'], s)
}

/// A source is the current directory when it is exactly `.`.
pub open spec fn is_dot_spec(s: Seq<char>) -> bool {
    s == seq!['.']
}

/// A path with its leading root removed, where it has one.
pub open spec fn without_root(p: Seq<char>) -> Seq<char> {
    match root_stripped(p) {
        Some(q) => q,
        None => p,
    }
}

/// Two paths are equal once a leading root is removed from each.
pub open spec fn paths_equal_spec(a: Seq<char>, b: Seq<char>) -> bool {
    same_path(without_root(a), without_root(b))
}

/// The path a key or value of `package.json` stands for, relative to `dir`:
/// `default` stands for `dir` itself, any other key has its surrounding
/// quotes removed and is taken relative to `dir`.
pub open spec fn key_path_spec(key: Seq<char>, dir: Seq<char>) -> Seq<char> {
    if key == default_word() {
        logical_path(seq![], dir)
    } else {
        logical_path(trim_char(key, '"'), dir)
    }
}

/// The value of the top-level member `field` of a `package.json`.
pub open spec fn field_spec(pj: PackageJsonInfo, field: Seq<char>) -> Option<JsonValue> {
    object_get_spec(pj.fields@, field)
}

/// The word `browser`.
pub open spec fn browser_word() -> Seq<char> {
    seq!['b', 'r', 'o', 'w', 's', 'e', 'r']
}

/// The word `imports`.
pub open spec fn imports_word() -> Seq<char> {
    seq!['i', 'm', 'p', 'o', 'r', 't', 's']
}

/// The word `exports`.
pub open spec fn exports_word() -> Seq<char> {
    seq!['e', 'x', 'p', 'o', 'r', 't', 's']
}

/// Whether the package marks `rp` as having side effects.
pub open spec fn side_effects_spec(pj: PackageJsonInfo, rp: Seq<char>) -> bool {
    match pj.side_effects {
        ParsedSideEffects::Bool(b) => b,
        ParsedSideEffects::Array(arr) => exists|i: int| 0 <= i < arr@.len() && arr@[i]@ == rp,
    }
}

/// A `browser` member that maps `rp` to `false`: its value is `false` and its
/// key is `rp` (taken as a path under `dir` when `rp` is absolute).
pub open spec fn excludes(entry: (String, JsonValue), dir: Seq<char>, rp: Seq<char>) -> bool {
    &&& entry.1 == JsonValue::Bool(false)
    &&& if is_absolute_spec(rp) {
        key_path_spec(entry.0@, dir) == rp
    } else {
        entry.0@ == rp
    }
}

/// Whether the package's `browser` field maps `rp` to `false`, which makes
/// the module external; every member mapped to `false` counts.
pub open spec fn external_spec(pj: PackageJsonInfo, rp: Seq<char>) -> bool {
    match field_spec(pj, browser_word()) {
        Some(JsonValue::Object(entries)) => exists|i: int|
            0 <= i < entries@.len() && #[trigger] excludes(entries@[i], pj.dir@, rp),
        _ => false,
    }
}

/// Scans the `browser` members from index `i` on for the first whose key
/// matches `rp` (as a path under `dir` when `rp` is absolute, as it is
/// otherwise) and whose value is a string; that value, as a path under
/// `dir`, replaces `rp`.
pub open spec fn browser_from(entries: Seq<(String, JsonValue)>, dir: Seq<char>, rp: Seq<char>, i: int) -> Option<Seq<char>>
    decreases entries.len() - i,
{
    if i < 0 || i >= entries.len() {
        None
    } else {
        let key = entries[i].0@;
        let matches = if is_absolute_spec(rp) {
            paths_equal_spec(key_path_spec(key, dir), rp)
        } else {
            paths_equal_spec(key, rp)
        };
        match entries[i].1 {
            JsonValue::String(s) if matches => Some(key_path_spec(s@, dir)),
            _ => browser_from(entries, dir, rp, i + 1),
        }
    }
}

/// What the package's `browser` field replaces `rp` with.
pub open spec fn browser_replace_spec(pj: PackageJsonInfo, rp: Seq<char>) -> Option<Seq<char>> {
    match field_spec(pj, browser_word()) {
        Some(JsonValue::Object(entries)) => browser_from(entries@, pj.dir@, rp, 0),
        _ => None,
    }
}

/// Scans the conditions of an `imports` entry from index `j` on for a
/// `default` condition whose value is a relative path.
pub open spec fn imports_default_from(conds: Seq<(String, JsonValue)>, dir: Seq<char>, j: int) -> Option<Seq<char>>
    decreases conds.len() - j,
{
    if j < 0 || j >= conds.len() {
        None
    } else {
        match conds[j].1 {
            JsonValue::String(s) if paths_equal_spec(conds[j].0@, default_word())
                && !is_absolute_spec(s@) => Some(key_path_spec(s@, dir)),
            _ => imports_default_from(conds, dir, j + 1),
        }
    }
}

/// Scans the `imports` members from index `i` on for the first whose key
/// matches `rp` and whose value gives a relative path: directly as a string,
/// or through its `default` condition.
pub open spec fn imports_from(entries: Seq<(String, JsonValue)>, dir: Seq<char>, rp: Seq<char>, i: int) -> Option<Seq<char>>
    decreases entries.len() - i,
{
    if i < 0 || i >= entries.len() {
        None
    } else if paths_equal_spec(entries[i].0@, rp) {
        match entries[i].1 {
            JsonValue::String(s) if !is_absolute_spec(s@) => Some(key_path_spec(s@, dir)),
            JsonValue::Object(conds) => match imports_default_from(conds@, dir, 0) {
                Some(p) => Some(p),
                None => imports_from(entries, dir, rp, i + 1),
            },
            _ => imports_from(entries, dir, rp, i + 1),
        }
    } else {
        imports_from(entries, dir, rp, i + 1)
    }
}

/// What the package's `imports` field replaces `rp` with; only a source
/// starting with `#` is looked up.
pub open spec fn imports_replace_spec(pj: PackageJsonInfo, rp: Seq<char>) -> Option<Seq<char>> {
    if is_prefix_of(seq!['#'], rp) {
        match field_spec(pj, imports_word()) {
            Some(JsonValue::Object(entries)) => imports_from(entries@, pj.dir@, rp, 0),
            _ => None,
        }
    } else {
        None
    }
}

/// The outcome of looking `rp` up in the `exports` field.
#[derive(Debug, PartialEq)]
pub enum ExportsLookup {
    /// The path `rp` is exported as.
    Found(String),
    /// No entry applies.
    NotFound,
    /// The entry that applies maps to a value that is not a string.
    NonStringTarget,
}

/// The mathematical outcome of an `exports` lookup.
pub enum LookupView {
    Found(Seq<char>),
    NotFound,
    NonStringTarget,
}

impl View for ExportsLookup {
    type V = LookupView;

    open spec fn view(&self) -> LookupView {
        match self {
            ExportsLookup::Found(s) => LookupView::Found(s@),
            ExportsLookup::NotFound => LookupView::NotFound,
            ExportsLookup::NonStringTarget => LookupView::NonStringTarget,
        }
    }
}

/// Scans the conditions under an `import` condition from index `k` on: a
/// `default` condition decides when `rp` is absolute.
pub open spec fn import_default_from(conds: Seq<(String, JsonValue)>, dir: Seq<char>, rp: Seq<char>, k: int) -> LookupView
    decreases conds.len() - k,
{
    if k < 0 || k >= conds.len() {
        LookupView::NotFound
    } else if paths_equal_spec(conds[k].0@, default_word()) && is_absolute_spec(rp) {
        match conds[k].1 {
            JsonValue::String(s) => LookupView::Found(key_path_spec(s@, dir)),
            _ => LookupView::NonStringTarget,
        }
    } else {
        import_default_from(conds, dir, rp, k + 1)
    }
}

/// Scans the conditions of an `exports` entry from index `j` on, for a
/// request of the given kind. For an import, a `default` condition decides
/// with the JSON text of its value, and an `import` condition decides with
/// its string value or its own `default` condition; for a require, a
/// condition spelt `require` in any case decides, and a `default` condition
/// with a string value is the fallback that decides. Conditions decide only
/// when `rp` is absolute.
pub open spec fn conditions_from(
    conds: Seq<(String, JsonValue)>,
    dir: Seq<char>,
    rp: Seq<char>,
    kind: ResolveKind,
    j: int,
) -> LookupView
    decreases conds.len() - j,
{
    if j < 0 || j >= conds.len() {
        LookupView::NotFound
    } else {
        let kw = conds[j].0@;
        let kv = conds[j].1;
        let next = conditions_from(conds, dir, rp, kind, j + 1);
        match kind {
            ResolveKind::Import => if paths_equal_spec(kw, default_word()) && is_absolute_spec(rp) {
                LookupView::Found(key_path_spec(json_text(kv), dir))
            } else if paths_equal_spec(kw, import_word()) {
                match kv {
                    JsonValue::String(iv) => if is_absolute_spec(rp) {
                        LookupView::Found(key_path_spec(iv@, dir))
                    } else {
                        next
                    },
                    JsonValue::Object(inner) => match import_default_from(inner@, dir, rp, 0) {
                        LookupView::NotFound => next,
                        other => other,
                    },
                    _ => next,
                }
            } else {
                next
            },
            ResolveKind::Require => if lowercase_of(kw) == require_word() && is_absolute_spec(rp) {
                match kv {
                    JsonValue::String(s) => LookupView::Found(key_path_spec(s@, dir)),
                    _ => LookupView::NonStringTarget,
                }
            } else if paths_equal_spec(kw, default_word()) && is_absolute_spec(rp) {
                match kv {
                    JsonValue::String(s) => LookupView::Found(key_path_spec(s@, dir)),
                    _ => next,
                }
            } else {
                next
            },
            _ => next,
        }
    }
}

/// Scans the `exports` members from index `i` on for those whose key, as a
/// path under `dir`, matches `rp`: a string value decides when `rp` is
/// absolute, an object value decides through its conditions.
pub open spec fn exports_from(
    entries: Seq<(String, JsonValue)>,
    dir: Seq<char>,
    rp: Seq<char>,
    kind: ResolveKind,
    i: int,
) -> LookupView
    decreases entries.len() - i,
{
    if i < 0 || i >= entries.len() {
        LookupView::NotFound
    } else {
        let next = exports_from(entries, dir, rp, kind, i + 1);
        if paths_equal_spec(key_path_spec(entries[i].0@, dir), rp) {
            match entries[i].1 {
                JsonValue::String(v) => if is_absolute_spec(rp) {
                    LookupView::Found(key_path_spec(v@, dir))
                } else {
                    next
                },
                JsonValue::Object(conds) => match conditions_from(conds@, dir, rp, kind, 0) {
                    LookupView::NotFound => next,
                    other => other,
                },
                _ => next,
            }
        } else {
            next
        }
    }
}

/// What the package's `exports` field gives for `rp` requested with `kind`.
/// A string `exports` is the entry for `.`: it gives its path for the
/// package directory itself, requested by an absolute path.
pub open spec fn exports_spec(pj: PackageJsonInfo, rp: Seq<char>, kind: ResolveKind) -> LookupView {
    match field_spec(pj, exports_word()) {
        Some(JsonValue::Object(entries)) => exports_from(entries@, pj.dir@, rp, kind, 0),
        Some(JsonValue::String(target)) => if paths_equal_spec(key_path_spec(seq!['.'], pj.dir@), rp)
            && is_absolute_spec(rp) {
            LookupView::Found(key_path_spec(target@, pj.dir@))
        } else {
            LookupView::NotFound
        },
        _ => LookupView::NotFound,
    }
}

/// What `exports` replaces `rp` with, where the lookup is well defined.
pub open spec fn exports_replace_spec(pj: PackageJsonInfo, rp: Seq<char>, kind: ResolveKind) -> Option<Seq<char>> {
    match exports_spec(pj, rp, kind) {
        LookupView::Found(p) => Some(p),
        _ => None,
    }
}

/// The result for a module found at `rp`, given the `package.json` that
/// governs the importer: the `browser` field may replace the path, and the
/// package decides external and side effects. Without a `package.json` the
/// path stands as it is, neither external nor with side effects.
pub open spec fn resolve_result_spec(pj: Option<PackageJsonInfo>, rp: Seq<char>) -> HookView {
    match pj {
        Some(p) => HookView {
            resolved_path: match browser_replace_spec(p, rp) {
                Some(q) => q,
                None => rp,
            },
            external: external_spec(p, rp),
            side_effects: side_effects_spec(p, rp),
        },
        None => HookView { resolved_path: rp, external: false, side_effects: false },
    }
}

impl Resolver {
    /// A resolver with the given configuration.
    pub fn new(config: ResolveConfig) -> (r: Self)
        ensures
            r.config == config,
    {
        Resolver { config }
    }

    /// Whether `source` is relative: it starts with `./` or `..`.
    pub fn is_source_relative(&self, source: &str) -> (r: bool)
        ensures
            r == is_relative_spec(source@),
    {
        proof {
            reveal_strlit("./");
            reveal_strlit("..");
            assert("./"@ =~= seq!['.', '/']);
            assert(".."@ =~= seq!['.', '.']);
        }
        starts_with(source, "./") || starts_with(source, "..")
    }

    /// Whether `source` is an absolute path.
    pub fn is_source_absolute(&self, source: &str) -> (r: bool)
        ensures
            r == is_absolute_spec(source@),
    {
        path_is_absolute(source)
    }

    /// Whether `source` is `.`.
    pub fn is_source_dot(&self, source: &str) -> (r: bool)
        ensures
            r == is_dot_spec(source@),
    {
        proof {
            reveal_strlit(".");
            assert("."@ =~= seq!['.']);
        }
        str_equals(source, ".")
    }

    /// Whether two paths are equal once a leading root is removed from each.
    pub fn are_paths_equal(&self, path1: &str, path2: &str) -> (r: bool)
        ensures
            r == paths_equal_spec(path1@, path2@),
            r == paths_equal_spec(path2@, path1@),
            path1@ == path2@ ==> r,
    {
        let s1 = path_strip_root(path1);
        let s2 = path_strip_root(path2);
        match (s1, s2) {
            (Some(a), Some(b)) => paths_equal(a.as_str(), b.as_str()),
            (Some(a), None) => paths_equal(a.as_str(), path2),
            (None, Some(b)) => paths_equal(path1, b.as_str()),
            (None, None) => paths_equal(path1, path2),
        }
    }

    /// The path a key or value of `package.json` stands for under `dir`.
    pub fn get_key_path(&self, key: &str, dir: &str) -> (r: String)
        ensures
            r@ == key_path_spec(key@, dir@),
            key@ == default_word() ==> r@ == dir@,
    {
        proof {
            reveal_strlit("default");
            reveal_strlit("");
            assert("default"@ =~= default_word());
            assert(""@ =~= Seq::<char>::empty());
        }
        if str_equals(key, "default") {
            to_logical_path("", dir)
        } else {
            let resolve_key = trim_matches_char(key, '"');
            to_logical_path(resolve_key, dir)
        }
    }

    /// The value of the top-level member `field` of the `package.json`.
    pub fn get_field_value_from_package_json_info<'a>(&self, package_json_info: &'a PackageJsonInfo, field: &str) -> (r: Option<&'a JsonValue>)
        ensures
            r is None <==> field_spec(*package_json_info, field@) is None,
            r matches Some(v) ==> field_spec(*package_json_info, field@) == Some(*v),
    {
        object_get(&package_json_info.fields, field)
    }

    /// Whether the package marks `resolved_path` as having side effects.
    pub fn is_module_side_effects(&self, package_json_info: &PackageJsonInfo, resolved_path: &str) -> (r: bool)
        ensures
            r == side_effects_spec(*package_json_info, resolved_path@),
    {
        match package_json_info.side_effects() {
            ParsedSideEffects::Bool(b) => *b,
            ParsedSideEffects::Array(arr) => {
                let n = arr.len();
                let mut i: usize = 0;
                while i < n
                    invariant
                        n == arr@.len(),
                        i <= n,
                        package_json_info.side_effects == ParsedSideEffects::Array(*arr),
                        forall|j: int| 0 <= j < i ==> arr@[j]@ != resolved_path@,
                    decreases n - i,
                {
                    if str_equals(arr[i].as_str(), resolved_path) {
                        assert(arr@[i as int]@ == resolved_path@);
                        let ghost a = package_json_info.side_effects->Array_0;
                        assert(a == *arr);
                        assert(a@[i as int]@ == resolved_path@);
                        assert(exists|j: int| 0 <= j < a@.len() && a@[j]@ == resolved_path@);
                        assert(side_effects_spec(*package_json_info, resolved_path@));
                        return true;
                    }
                    i = i + 1;
                }
                false
            },
        }
    }

    /// Whether the package's `browser` field maps `resolved_path` to `false`.
    pub fn is_module_external(&self, package_json_info: &PackageJsonInfo, resolved_path: &str) -> (r: bool)
        ensures
            r == external_spec(*package_json_info, resolved_path@),
    {
        proof {
            reveal_strlit("browser");
            assert("browser"@ =~= browser_word());
        }
        let browser_field = self.get_field_value_from_package_json_info(package_json_info, "browser");
        if let Some(JsonValue::Object(obj)) = browser_field {
            let dir = package_json_info.dir();
            let absolute = path_is_absolute(resolved_path);
            let n = obj.len();
            let mut i: usize = 0;
            while i < n
                invariant
                    n == obj@.len(),
                    i <= n,
                    *dir == package_json_info.dir,
                    absolute == is_absolute_spec(resolved_path@),
                    field_spec(*package_json_info, browser_word()) == Some(JsonValue::Object(*obj)),
                    forall|j: int| 0 <= j < i ==> !#[trigger] excludes(obj@[j], dir@, resolved_path@),
                decreases n - i,
            {
                if let JsonValue::Bool(false) = &obj[i].1 {
                    let matched = if absolute {
                        let key_path = self.get_key_path(obj[i].0.as_str(), dir.as_str());
                        str_equals(key_path.as_str(), resolved_path)
                    } else {
                        str_equals(obj[i].0.as_str(), resolved_path)
                    };
                    if matched {
                        assert(excludes(obj@[i as int], dir@, resolved_path@));
                        let ghost entries = field_spec(*package_json_info, browser_word())->Some_0->Object_0;
                        assert(entries == *obj);
                        assert(excludes(entries@[i as int], package_json_info.dir@, resolved_path@));
                        return true;
                    }
                }
                i = i + 1;
            }
            false
        } else {
            false
        }
    }

    /// What the package's `browser` field replaces `resolved_path` with.
    pub fn try_browser_replace(&self, package_json_info: &PackageJsonInfo, resolved_path: &str) -> (r: Option<String>)
        ensures
            opt_str_view(r) == browser_replace_spec(*package_json_info, resolved_path@),
    {
        proof {
            reveal_strlit("browser");
            assert("browser"@ =~= browser_word());
        }
        let browser_field = self.get_field_value_from_package_json_info(package_json_info, "browser");
        if let Some(JsonValue::Object(obj)) = browser_field {
            let dir = package_json_info.dir();
            let absolute = path_is_absolute(resolved_path);
            let n = obj.len();
            let mut i: usize = 0;
            while i < n
                invariant
                    n == obj@.len(),
                    i <= n,
                    *dir == package_json_info.dir,
                    absolute == is_absolute_spec(resolved_path@),
                    field_spec(*package_json_info, browser_word()) == Some(JsonValue::Object(*obj)),
                    browser_from(obj@, dir@, resolved_path@, 0) == browser_from(obj@, dir@, resolved_path@, i as int),
                decreases n - i,
            {
                let key = obj[i].0.as_str();
                let matches = if absolute {
                    let key_path = self.get_key_path(key, dir.as_str());
                    self.are_paths_equal(key_path.as_str(), resolved_path)
                } else {
                    self.are_paths_equal(key, resolved_path)
                };
                if matches {
                    if let JsonValue::String(s) = &obj[i].1 {
                        return Some(self.get_key_path(s.as_str(), dir.as_str()));
                    }
                }
                i = i + 1;
            }
            None
        } else {
            None
        }
    }

    /// What the package's `imports` field replaces `resolved_path` with.
    pub fn try_imports_replace(&self, package_json_info: &PackageJsonInfo, resolved_path: &str) -> (r: Option<String>)
        ensures
            opt_str_view(r) == imports_replace_spec(*package_json_info, resolved_path@),
    {
        proof {
            reveal_strlit("#");
            assert("#"@ =~= seq!['#']);
            reveal_strlit("imports");
            assert("imports"@ =~= imports_word());
        }
        if !starts_with(resolved_path, "#") {
            return None;
        }
        let imports_field = self.get_field_value_from_package_json_info(package_json_info, "imports");
        if let Some(JsonValue::Object(obj)) = imports_field {
            let dir = package_json_info.dir();
            let n = obj.len();
            let mut i: usize = 0;
            while i < n
                invariant
                    n == obj@.len(),
                    i <= n,
                    *dir == package_json_info.dir,
                    field_spec(*package_json_info, imports_word()) == Some(JsonValue::Object(*obj)),
                    is_prefix_of(seq!['#'], resolved_path@),
                    imports_from(obj@, dir@, resolved_path@, 0) == imports_from(obj@, dir@, resolved_path@, i as int),
                decreases n - i,
            {
                if self.are_paths_equal(obj[i].0.as_str(), resolved_path) {
                    match &obj[i].1 {
                        JsonValue::String(s) => {
                            if !path_is_absolute(s.as_str()) {
                                return Some(self.get_key_path(s.as_str(), dir.as_str()));
                            }
                        },
                        JsonValue::Object(conds) => {
                            if let Some(p) = self.imports_default(conds, dir.as_str()) {
                                return Some(p);
                            }
                        },
                        _ => {},
                    }
                }
                i = i + 1;
            }
            None
        } else {
            None
        }
    }

    /// The `default` condition of an `imports` entry, where its value is a
    /// relative path.
    fn imports_default(&self, conds: &Vec<(String, JsonValue)>, dir: &str) -> (r: Option<String>)
        ensures
            opt_str_view(r) == imports_default_from(conds@, dir@, 0),
    {
        proof {
            reveal_strlit("default");
            assert("default"@ =~= default_word());
        }
        let n = conds.len();
        let mut j: usize = 0;
        while j < n
            invariant
                n == conds@.len(),
                j <= n,
                "default"@ == default_word(),
                imports_default_from(conds@, dir@, 0) == imports_default_from(conds@, dir@, j as int),
            decreases n - j,
        {
            if self.are_paths_equal(conds[j].0.as_str(), "default") {
                if let JsonValue::String(s) = &conds[j].1 {
                    if !path_is_absolute(s.as_str()) {
                        return Some(self.get_key_path(s.as_str(), dir));
                    }
                }
            }
            j = j + 1;
        }
        None
    }

    /// Looks `resolved_path`, requested with `kind`, up in the package's
    /// `exports` field; the lookup reports a target that is not a string.
    pub fn exports_lookup(&self, package_json_info: &PackageJsonInfo, resolved_path: &str, kind: &ResolveKind) -> (r: ExportsLookup)
        ensures
            r@ == exports_spec(*package_json_info, resolved_path@, *kind),
    {
        proof {
            reveal_strlit("exports");
            assert("exports"@ =~= exports_word());
        }
        let exports_field = self.get_field_value_from_package_json_info(package_json_info, "exports");
        if let Some(JsonValue::Object(obj)) = exports_field {
            let dir = package_json_info.dir();
            let absolute = path_is_absolute(resolved_path);
            let n = obj.len();
            let mut i: usize = 0;
            while i < n
                invariant
                    n == obj@.len(),
                    i <= n,
                    *dir == package_json_info.dir,
                    absolute == is_absolute_spec(resolved_path@),
                    field_spec(*package_json_info, exports_word()) == Some(JsonValue::Object(*obj)),
                    exports_from(obj@, dir@, resolved_path@, *kind, 0) == exports_from(obj@, dir@, resolved_path@, *kind, i as int),
                decreases n - i,
            {
                let key_path = self.get_key_path(obj[i].0.as_str(), dir.as_str());
                if self.are_paths_equal(key_path.as_str(), resolved_path) {
                    match &obj[i].1 {
                        JsonValue::String(v) => {
                            if absolute {
                                return ExportsLookup::Found(self.get_key_path(v.as_str(), dir.as_str()));
                            }
                        },
                        JsonValue::Object(conds) => {
                            let found = self.exports_conditions(conds, dir.as_str(), resolved_path, kind);
                            match found {
                                ExportsLookup::NotFound => {},
                                _ => {
                                    return found;
                                },
                            }
                        },
                        _ => {},
                    }
                }
                i = i + 1;
            }
            ExportsLookup::NotFound
        } else if let Some(JsonValue::String(target)) = exports_field {
            proof {
                reveal_strlit(".");
                assert("."@ =~= seq!['.']);
            }
            let dir = package_json_info.dir();
            let key_path = self.get_key_path(".", dir.as_str());
            if self.are_paths_equal(key_path.as_str(), resolved_path) && path_is_absolute(resolved_path) {
                ExportsLookup::Found(self.get_key_path(target.as_str(), dir.as_str()))
            } else {
                ExportsLookup::NotFound
            }
        } else {
            ExportsLookup::NotFound
        }
    }

    /// The conditions of one `exports` entry.
    fn exports_conditions(&self, conds: &Vec<(String, JsonValue)>, dir: &str, resolved_path: &str, kind: &ResolveKind) -> (r: ExportsLookup)
        ensures
            r@ == conditions_from(conds@, dir@, resolved_path@, *kind, 0),
    {
        proof {
            reveal_strlit("default");
            reveal_strlit("import");
            reveal_strlit("require");
            assert("default"@ =~= default_word());
            assert("import"@ =~= import_word());
            assert("require"@ =~= require_word());
        }
        let absolute = path_is_absolute(resolved_path);
        let n = conds.len();
        let mut j: usize = 0;
        while j < n
            invariant
                n == conds@.len(),
                j <= n,
                absolute == is_absolute_spec(resolved_path@),
                "default"@ == default_word(),
                "import"@ == import_word(),
                "require"@ == require_word(),
                conditions_from(conds@, dir@, resolved_path@, *kind, 0) == conditions_from(conds@, dir@, resolved_path@, *kind, j as int),
            decreases n - j,
        {
            let key_word = conds[j].0.as_str();
            let key_value = &conds[j].1;
            match kind {
                ResolveKind::Import => {
                    if self.are_paths_equal(key_word, "default") && absolute {
                        let text = json_to_string(key_value);
                        return ExportsLookup::Found(self.get_key_path(text.as_str(), dir));
                    }
                    if self.are_paths_equal(key_word, "import") {
                        match key_value {
                            JsonValue::String(import_value) => {
                                if absolute {
                                    return ExportsLookup::Found(self.get_key_path(import_value.as_str(), dir));
                                }
                            },
                            JsonValue::Object(inner) => {
                                let found = self.import_default(inner, dir, resolved_path);
                                match found {
                                    ExportsLookup::NotFound => {},
                                    _ => {
                                        return found;
                                    },
                                }
                            },
                            _ => {},
                        }
                    }
                },
                ResolveKind::Require => {
                    let lower = to_lowercase(key_word);
                    if str_equals(lower.as_str(), "require") && absolute {
                        match key_value {
                            JsonValue::String(s) => {
                                return ExportsLookup::Found(self.get_key_path(s.as_str(), dir));
                            },
                            _ => {
                                return ExportsLookup::NonStringTarget;
                            },
                        }
                    }
                    if self.are_paths_equal(key_word, "default") && absolute {
                        if let JsonValue::String(s) = key_value {
                            return ExportsLookup::Found(self.get_key_path(s.as_str(), dir));
                        }
                    }
                },
                _ => {},
            }
            j = j + 1;
        }
        ExportsLookup::NotFound
    }

    /// The `default` condition under an `import` condition.
    fn import_default(&self, conds: &Vec<(String, JsonValue)>, dir: &str, resolved_path: &str) -> (r: ExportsLookup)
        ensures
            r@ == import_default_from(conds@, dir@, resolved_path@, 0),
    {
        proof {
            reveal_strlit("default");
            assert("default"@ =~= default_word());
        }
        let absolute = path_is_absolute(resolved_path);
        let n = conds.len();
        let mut k: usize = 0;
        while k < n
            invariant
                n == conds@.len(),
                k <= n,
                absolute == is_absolute_spec(resolved_path@),
                "default"@ == default_word(),
                import_default_from(conds@, dir@, resolved_path@, 0) == import_default_from(conds@, dir@, resolved_path@, k as int),
            decreases n - k,
        {
            if self.are_paths_equal(conds[k].0.as_str(), "default") && absolute {
                match &conds[k].1 {
                    JsonValue::String(s) => {
                        return ExportsLookup::Found(self.get_key_path(s.as_str(), dir));
                    },
                    _ => {
                        return ExportsLookup::NonStringTarget;
                    },
                }
            }
            k = k + 1;
        }
        ExportsLookup::NotFound
    }

    /// What the package's `exports` field replaces `resolved_path` with; the
    /// entry that applies must map to a string.
    pub fn try_exports_replace(&self, package_json_info: &PackageJsonInfo, resolved_path: &str, kind: &ResolveKind) -> (r: Option<String>)
        requires
            exports_spec(*package_json_info, resolved_path@, *kind) != LookupView::NonStringTarget,
        ensures
            opt_str_view(r) == exports_replace_spec(*package_json_info, resolved_path@, *kind),
    {
        match self.exports_lookup(package_json_info, resolved_path, kind) {
            ExportsLookup::Found(p) => Some(p),
            _ => None,
        }
    }

    /// The result for a module found at `resolved_path`, given the
    /// `package.json` that governs the importer, where there is one.
    pub fn get_resolve_result(&self, package_json_info: Option<&PackageJsonInfo>, resolved_path: String, _kind: &ResolveKind) -> (r: PluginResolveHookResult)
        ensures
            r@ == resolve_result_spec(
                match package_json_info {
                    Some(p) => Some(*p),
                    None => None,
                },
                resolved_path@,
            ),
    {
        match package_json_info {
            Some(pj) => {
                let external = self.is_module_external(pj, resolved_path.as_str());
                let side_effects = self.is_module_side_effects(pj, resolved_path.as_str());
                let replaced = self.try_browser_replace(pj, resolved_path.as_str());
                let path = match replaced {
                    Some(p) => p,
                    None => resolved_path,
                };
                PluginResolveHookResult { resolved_path: path, external, side_effects }
            },
            None => PluginResolveHookResult { resolved_path, external: false, side_effects: false },
        }
    }
}

} // verus!
