use jereko::config::{merge_opencode, OpenCodeConfig, PluginEntry};
use jereko::layer::ConfigLayer;
use jereko::loader::{CliOverrides, ConfigLoader};

#[test]
fn plugin_entry_parsing_from_config() {
    let entries = [
        PluginEntry::Bun("@acme/server-plugin".into()),
        PluginEntry::Native {
            native: "./tools.so".into(),
        },
    ];
    assert_eq!(entries[0].display_name(), "@acme/server-plugin");
    assert_eq!(entries[1].display_name(), "./tools.so");
}

#[test]
fn later_layer_overrides_scalar() {
    let base = OpenCodeConfig {
        provider: Some("openai".into()),
        model: Some("gpt-4".into()),
        ..Default::default()
    };
    let overlay = OpenCodeConfig {
        model: Some("gpt-4o".into()),
        ..Default::default()
    };

    let merged = merge_opencode(&base, &overlay);
    assert_eq!(merged.provider.as_deref(), Some("openai"));
    assert_eq!(merged.model.as_deref(), Some("gpt-4o"));
}

#[test]
fn precedence_order_is_documented() {
    assert!(ConfigLayer::Default < ConfigLayer::Global);
    assert!(ConfigLayer::Global < ConfigLayer::Project);
    assert!(ConfigLayer::Project < ConfigLayer::Environment);
    assert!(ConfigLayer::Environment < ConfigLayer::Cli);
}

#[test]
fn cli_overrides_env() {
    let mut loader = ConfigLoader::new();
    loader.opencode.provider = Some("openai".into());
    loader.loaded_layers.push(ConfigLayer::Environment);

    loader.apply_cli_overrides(&CliOverrides {
        provider: Some("anthropic".into()),
        ..Default::default()
    });

    assert_eq!(loader.opencode().provider.as_deref(), Some("anthropic"));
    assert!(loader.loaded_layers().contains(&ConfigLayer::Cli));
}
