use jereko::providers::Provider;
use jereko::registry::ProviderRegistry;

#[test]
fn registers_and_resolves_providers() {
    let registry = ProviderRegistry::with_stubs();
    assert_eq!(registry.len(), 3);
    assert!(registry.get("openai").is_some());
    assert!(registry.get("unknown").is_none());
}

#[test]
fn defaults_register_three_real_providers() {
    let registry = ProviderRegistry::with_defaults();
    assert_eq!(registry.len(), 3);
    assert_eq!(registry.get("openai").unwrap().display_name(), "OpenAI");
}
