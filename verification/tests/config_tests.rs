use identity::config::Config;
use identity::config::ConfigError;
use identity::config::IdentityConfig;
use identity::config::LazyConfig;
use identity::config::{default_config, identity_by_id, verify_config};

fn bare_identity(id: &str) -> IdentityConfig {
    IdentityConfig {
        id: id.to_string(),
        user: None,
        email: None,
        description: None,
        account: None,
    }
}

fn config_of(identities: Vec<IdentityConfig>) -> Config {
    Config { version: "1.0".to_string(), identity: identities }
}

#[test]
fn verify_rejects_duplicate_ids() {
    let config = config_of(vec![bare_identity("a"), bare_identity("a")]);
    assert_eq!(verify_config(&config), Err(ConfigError::DuplicateId));
}

#[test]
fn verify_accepts_distinct_ids() {
    let config = config_of(vec![bare_identity("a"), bare_identity("b")]);
    assert_eq!(verify_config(&config), Ok(()));
}

#[test]
fn verify_accepts_empty_config() {
    let config = config_of(vec![]);
    assert_eq!(verify_config(&config), Ok(()));
}

#[test]
fn verify_rejects_duplicate_among_many() {
    let config = config_of(vec![
        bare_identity("a"),
        bare_identity("b"),
        bare_identity("c"),
        bare_identity("b"),
    ]);
    assert_eq!(verify_config(&config), Err(ConfigError::DuplicateId));
}

#[test]
fn identity_by_id_finds_first_match() {
    let mut first = bare_identity("work");
    first.email = Some("first@x.com".to_string());
    let mut second = bare_identity("work");
    second.email = Some("second@x.com".to_string());
    let config = config_of(vec![bare_identity("other"), first, second]);

    let found = identity_by_id(&config, "work").expect("should find the identity");
    assert_eq!(found.email.as_deref(), Some("first@x.com"));
    assert!(identity_by_id(&config, "absent").is_none());
}

#[test]
fn default_config_is_version_one_with_no_identities() {
    let config = default_config();
    assert_eq!(config.version, "1.0");
    assert!(config.identity.is_empty());
}

#[test]
fn lazy_config_loads_once_and_updates() {
    let mut lazy = LazyConfig::new();
    assert!(!lazy.is_loaded());

    lazy.required(config_of(vec![bare_identity("a")]));
    assert!(lazy.is_loaded());
    assert_eq!(lazy.get().identity.len(), 1);

    // A second load never replaces what is already held.
    lazy.required(config_of(vec![]));
    assert_eq!(lazy.get().identity.len(), 1);

    lazy.update(config_of(vec![bare_identity("a"), bare_identity("b")]));
    assert_eq!(lazy.get().identity.len(), 2);
}

#[test]
fn identity_config_display_names_id_and_email() {
    let mut with_email = bare_identity("work");
    with_email.email = Some("a@x.com".to_string());
    assert_eq!(with_email.display_string(), "work - a@x.com");

    let without_email = bare_identity("home");
    assert_eq!(without_email.display_string(), "home - No email");
}
