//! The values the resolver works on: its configuration, the kind of a
//! request, what a `package.json` holds, and the result of a resolution.
use vstd::prelude::*;
use crate::json::JsonValue;

verus! {

/// How the resolver is configured.
#[derive(Debug, Clone)]
pub struct ResolveConfig {
    /// Alias rules, in the order they are tried: a key ending in `$` matches
    /// a source equal to the key without the `$`; any other key matches a
    /// source that starts with it.
    pub alias: Vec<(String, String)>,
    /// The `package.json` fields that name a package's entry, in order.
    pub main_fields: Vec<String>,
    /// The file names tried inside a directory, in order.
    pub main_files: Vec<String>,
    /// The extensions tried after a file name, in order.
    pub extensions: Vec<String>,
    /// Whether symbolic links are followed.
    pub symlinks: bool,
}

/// How a module is requested.
#[derive(Debug, Clone)]
pub enum ResolveKind {
    Entry(String),
    Import,
    ExportFrom,
    DynamicImport,
    Require,
    CssAtImport,
    CssUrl,
    ScriptSrc,
    LinkHref,
    HmrUpdate,
    Custom(String),
}

/// The `sideEffects` of a package: one answer for every module, or the list
/// of modules that have side effects.
#[derive(Debug, Clone)]
pub enum ParsedSideEffects {
    Bool(bool),
    Array(Vec<String>),
}

/// What the resolver reads of a `package.json`: the directory that holds it,
/// its top-level members (each key once, as parsing JSON text gives them; a
/// lookup takes the first member with the key) and its `sideEffects`.
#[derive(Debug)]
pub struct PackageJsonInfo {
    pub dir: String,
    pub fields: Vec<(String, JsonValue)>,
    pub side_effects: ParsedSideEffects,
}

impl PackageJsonInfo {
    /// The directory that holds the `package.json`.
    pub fn dir(&self) -> (r: &String)
        ensures
            r == &self.dir,
    {
        &self.dir
    }

    /// The package's `sideEffects`.
    pub fn side_effects(&self) -> (r: &ParsedSideEffects)
        ensures
            r == &self.side_effects,
    {
        &self.side_effects
    }
}

/// The result of resolving a module: where it is, whether it is left to the
/// runtime, and whether it has side effects.
#[derive(Debug, Clone, PartialEq)]
pub struct PluginResolveHookResult {
    pub resolved_path: String,
    pub external: bool,
    pub side_effects: bool,
}

/// The mathematical value of a resolution result.
pub struct HookView {
    pub resolved_path: Seq<char>,
    pub external: bool,
    pub side_effects: bool,
}

impl View for PluginResolveHookResult {
    type V = HookView;

    open spec fn view(&self) -> HookView {
        HookView {
            resolved_path: self.resolved_path@,
            external: self.external,
            side_effects: self.side_effects,
        }
    }
}

impl PluginResolveHookResult {
    /// A copy of this result.
    pub fn duplicate(&self) -> (r: Self)
        ensures
            r@ == self@,
    {
        PluginResolveHookResult {
            resolved_path: self.resolved_path.clone(),
            external: self.external,
            side_effects: self.side_effects,
        }
    }
}

/// The view of an optional resolution result.
pub open spec fn opt_hook_view(r: Option<PluginResolveHookResult>) -> Option<HookView> {
    match r {
        Some(h) => Some(h@),
        None => None,
    }
}

/// The view of an optional string.
pub open spec fn opt_str_view(r: Option<String>) -> Option<Seq<char>> {
    match r {
        Some(s) => Some(s@),
        None => None,
    }
}

} // verus!
