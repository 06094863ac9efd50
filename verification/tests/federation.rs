use farm_resolve::federation::{
    normalize_options, validate_options, ExposesConfig, FarmfeModuleFederation,
    FederationOptionsError, ModuleFederationOptions, PluginDevOptions, PluginDtsOptions,
    PluginManifestOptions, Share,
};
use farm_resolve::json::JsonValue;

fn options(name: &str, file_name: Option<&str>, remotes: bool, exposes: bool) -> ModuleFederationOptions {
    ModuleFederationOptions {
        name: name.to_string(),
        file_name: file_name.map(|s| s.to_string()),
        remotes: if remotes {
            Some(vec![vec![(
                "app2".to_string(),
                vec![("entry".to_string(), "http://localhost:3002/remoteEntry.js".to_string())],
            )]])
        } else {
            None
        },
        exposes: if exposes {
            Some(vec![("./Button".to_string(), JsonValue::String("./src/Button".to_string()))])
        } else {
            None
        },
        shared: Some(vec![("react".to_string(), Ok("^18".to_string())), ("vue".to_string(), Err(Share {}))]),
        get_public_path: None,
        runtime_plugins: Some(vec!["./plugin.js".to_string()]),
        implementation: None,
        manifest: Some(Err(PluginManifestOptions {})),
        dev: Some(Ok(true)),
        dts: Some(Err(PluginDtsOptions {})),
    }
}

#[test]
fn an_empty_name_is_refused_first() {
    assert_eq!(
        validate_options(&options("", None, false, false)),
        Err(FederationOptionsError::NameIsEmpty)
    );
    assert_eq!(
        validate_options(&options("", None, true, true)),
        Err(FederationOptionsError::NameIsEmpty)
    );
}

#[test]
fn remotes_or_exposes_are_required() {
    assert_eq!(
        validate_options(&options("host", None, false, false)),
        Err(FederationOptionsError::MissingRemotesAndExposes)
    );
    assert_eq!(validate_options(&options("host", None, true, false)), Ok(()));
    assert_eq!(validate_options(&options("host", None, false, true)), Ok(()));
}

#[test]
fn exposing_without_file_name_takes_the_entry_file_name() {
    let n = normalize_options(options("host", None, false, true), Some("main.js".to_string()));
    assert_eq!(n.name, "host");
    assert_eq!(n.file_name.as_deref(), Some("main.js"));
    assert!(n.exposes.is_some());
    assert_eq!(validate_options(&n), Ok(()));
    // normalizing again changes nothing
    let again = normalize_options(n, Some("other.js".to_string()));
    assert_eq!(again.name, "host");
    assert_eq!(again.file_name.as_deref(), Some("main.js"));
}

#[test]
fn without_an_entry_file_name_the_file_name_stays_unset() {
    let n = normalize_options(options("host", None, false, true), None);
    assert_eq!(n.name, "host");
    assert!(n.file_name.is_none());
    assert_eq!(validate_options(&n), Ok(()));
}

#[test]
fn a_given_file_name_or_remotes_only_are_kept() {
    let n = normalize_options(options("host", Some("remoteEntry.js"), false, true), Some("main.js".to_string()));
    assert_eq!(n.name, "host");
    assert_eq!(n.file_name.as_deref(), Some("remoteEntry.js"));
    assert_eq!(validate_options(&n), Ok(()));
    let n = normalize_options(options("host", None, true, false), Some("main.js".to_string()));
    assert_eq!(n.name, "host");
    assert!(n.file_name.is_none());
    assert!(n.remotes.is_some());
    assert_eq!(n.runtime_plugins, Some(vec!["./plugin.js".to_string()]));
    assert!(matches!(n.dev, Some(Ok(true))));
}

#[test]
fn plugin_is_built_from_normalized_options() {
    let plugin = FarmfeModuleFederation::new(options("host", None, false, true), Some("index.ts".to_string()));
    assert_eq!(plugin.options.name, "host");
    assert_eq!(plugin.options.file_name.as_deref(), Some("index.ts"));
    let plugin = FarmfeModuleFederation::new(options("host", Some("entry.js"), true, true), None);
    assert_eq!(plugin.options.file_name.as_deref(), Some("entry.js"));
    assert_eq!(plugin.name(), "FarmfeModuleFederation");
}

#[test]
fn option_parts_can_be_written() {
    let e = ExposesConfig { import: "./src/Button".to_string() };
    assert_eq!(e.import, "./src/Button");
    let _ = PluginDevOptions {};
}
