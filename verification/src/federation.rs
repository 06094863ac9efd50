//! The options of the module federation plugin, their validation and their
//! normalization.
use vstd::prelude::*;
use crate::json::JsonValue;

verus! {

/// One exposed module.
#[derive(Debug)]
pub struct ExposesConfig {
    pub import: String,
}

/// How a shared dependency is configured.
#[derive(Debug)]
pub struct Share {}

/// How the manifest is configured.
#[derive(Debug)]
pub struct PluginManifestOptions {}

/// How type declarations are generated.
#[derive(Debug)]
pub struct PluginDtsOptions {}

/// How development reloads are configured.
#[derive(Debug)]
pub struct PluginDevOptions {}

/// The options of module federation.
#[derive(Debug)]
pub struct ModuleFederationOptions {
    /// The name of this federated module.
    pub name: String,
    /// The name of the remote entry.
    pub file_name: Option<String>,
    /// Each remote: its alias mapped to its entry information.
    pub remotes: Option<Vec<Vec<(String, Vec<(String, String)>)>>>,
    /// The exposed modules, by the name they are exposed under.
    pub exposes: Option<Vec<(String, JsonValue)>>,
    /// The shared dependencies.
    pub shared: Option<Vec<(String, Result<String, Share>)>>,
    /// The public path computed at runtime.
    pub get_public_path: Option<String>,
    /// The runtime plugins.
    pub runtime_plugins: Option<Vec<String>>,
    /// The runtime package.
    pub implementation: Option<String>,
    /// The manifest configuration.
    pub manifest: Option<Result<bool, PluginManifestOptions>>,
    /// Page reload or type reload.
    pub dev: Option<Result<bool, PluginDevOptions>>,
    /// Type declaration generation.
    pub dts: Option<Result<bool, PluginDtsOptions>>,
}

/// Why options are refused.
#[derive(PartialEq, Eq, Structural, Debug)]
pub enum FederationOptionsError {
    /// The name is empty.
    NameIsEmpty,
    /// Neither remotes nor exposes are configured.
    MissingRemotesAndExposes,
}

/// Options are accepted when they have a name and configure remotes or exposes.
pub open spec fn options_valid(o: ModuleFederationOptions) -> bool {
    o.name@.len() > 0 && (o.remotes is Some || o.exposes is Some)
}

/// Normalization fills in the remote entry name of options that expose
/// modules without one.
pub open spec fn fills_file_name(o: ModuleFederationOptions) -> bool {
    o.file_name is None && o.exposes is Some
}

/// `n` is `o` normalized with the project's entry file name `entry`: where
/// `o` exposes modules without a remote entry name, the entry file name
/// becomes it; every other option, the name included, is kept.
pub open spec fn normalizes(o: ModuleFederationOptions, entry: Option<String>, n: ModuleFederationOptions) -> bool {
    &&& n.name == o.name
    &&& n.file_name == if fills_file_name(o) {
        entry
    } else {
        o.file_name
    }
    &&& n.remotes == o.remotes
    &&& n.exposes == o.exposes
    &&& n.shared == o.shared
    &&& n.get_public_path == o.get_public_path
    &&& n.runtime_plugins == o.runtime_plugins
    &&& n.implementation == o.implementation
    &&& n.manifest == o.manifest
    &&& n.dev == o.dev
    &&& n.dts == o.dts
}

/// Checks the options: the name must not be empty, and remotes or exposes
/// must be configured; the name is checked first.
pub fn validate_options(options: &ModuleFederationOptions) -> (r: Result<(), FederationOptionsError>)
    ensures
        r == Err::<(), FederationOptionsError>(FederationOptionsError::NameIsEmpty) <==> options.name@.len() == 0,
        r == Err::<(), FederationOptionsError>(FederationOptionsError::MissingRemotesAndExposes) <==> (
        options.name@.len() > 0 && options.remotes is None && options.exposes is None),
        r is Ok <==> options_valid(*options),
{
    if options.name.as_str().unicode_len() == 0 {
        return Err(FederationOptionsError::NameIsEmpty);
    }
    if options.remotes.is_none() && options.exposes.is_none() {
        return Err(FederationOptionsError::MissingRemotesAndExposes);
    }
    Ok(())
}

/// Normalizes accepted options: where modules are exposed and no remote
/// entry name is given, the project's entry file name, when there is one,
/// becomes the remote entry name; everything else is kept.
pub fn normalize_options(options: ModuleFederationOptions, entry_file_name: Option<String>) -> (r: ModuleFederationOptions)
    requires
        options_valid(options),
    ensures
        normalizes(options, entry_file_name, r),
{
    let mut options = options;
    if options.file_name.is_none() && !options.exposes.is_none() {
        options.file_name = entry_file_name;
    }
    options
}

/// Law: normalization keeps options accepted.
pub proof fn lemma_normalized_revalidates(o: ModuleFederationOptions, entry: Option<String>, n: ModuleFederationOptions)
    requires
        options_valid(o),
        normalizes(o, entry, n),
    ensures
        options_valid(n),
{
}

/// Law: normalizing normalized options again, with the same entry file
/// name, changes nothing.
pub proof fn lemma_normalize_idempotent(
    o: ModuleFederationOptions,
    entry: Option<String>,
    n: ModuleFederationOptions,
    m: ModuleFederationOptions,
)
    requires
        normalizes(o, entry, n),
        normalizes(n, entry, m),
    ensures
        normalizes(o, entry, m),
        m.name == n.name && m.file_name == n.file_name,
{
}

/// The module federation plugin.
pub struct FarmfeModuleFederation {
    pub options: ModuleFederationOptions,
}

impl FarmfeModuleFederation {
    /// The plugin for accepted options, normalized with the project's entry
    /// file name.
    pub fn new(options: ModuleFederationOptions, entry_file_name: Option<String>) -> (r: Self)
        requires
            options_valid(options),
        ensures
            normalizes(options, entry_file_name, r.options),
    {
        let options = normalize_options(options, entry_file_name);
        FarmfeModuleFederation { options }
    }

    /// The plugin's name.
    pub fn name(&self) -> (r: &'static str)
        ensures
            r@ == seq!['F', 'a', 'r', 'm', 'f', 'e', 'M', 'o', 'd', 'u', 'l', 'e', 'F', 'e', 'd', 'e', 'r', 'a', 't', 'i', 'o', 'n'],
    {
        proof {
            reveal_strlit("FarmfeModuleFederation");
        }
        let r = "FarmfeModuleFederation";
        assert(r@ =~= seq!['F', 'a', 'r', 'm', 'f', 'e', 'M', 'o', 'd', 'u', 'l', 'e', 'F', 'e', 'd', 'e', 'r', 'a', 't', 'i', 'o', 'n']);
        r
    }
}

} // verus!
