use identity::config::AccountConfig;
use identity::config::Config;
use identity::config::IdentityConfig;
use identity::config::ResolutionError;
use identity::identity::Identity;
use identity::switch::{
    apply_switch, apply_writes, prepare_switch, strategy_for_service, SwitchError, SwitchStrategy,
    SwitchWrites, VcsFields,
};

fn account(service: &str, match_url: Option<&str>) -> AccountConfig {
    AccountConfig {
        service: service.to_string(),
        user: None,
        match_url: match_url.map(|s| s.to_string()),
        description: None,
        token: None,
    }
}

fn identity_with(id: &str, user: Option<&str>, email: Option<&str>) -> IdentityConfig {
    IdentityConfig {
        id: id.to_string(),
        user: user.map(|s| s.to_string()),
        email: email.map(|s| s.to_string()),
        description: None,
        account: None,
    }
}

#[test]
fn each_service_selects_its_strategy() {
    assert_eq!(strategy_for_service("git"), Some(SwitchStrategy::VcsConfig));
    assert_eq!(strategy_for_service("cargo"), Some(SwitchStrategy::RegistryToken));
    assert_eq!(strategy_for_service("npm"), None);
    assert_eq!(strategy_for_service(""), None);
}

#[test]
fn preparing_outside_a_repository_is_refused_before_resolution() {
    // Even a configuration that would resolve is never consulted.
    let mut ic = identity_with("work", Some("alice"), Some("a@x.com"));
    ic.account = Some(vec![account("git", Some("*"))]);
    let config = Config { version: "1.0".to_string(), identity: vec![ic] };

    let err = prepare_switch(&config, false, "https://github.com/org/repo.git")
        .expect_err("not a repository");
    assert!(matches!(err, SwitchError::NotARepository));
}

#[test]
fn preparing_inside_a_repository_resolves_the_identity() {
    let mut ic = identity_with("work", Some("alice"), Some("a@x.com"));
    ic.account = Some(vec![account("git", Some("https://github.com/*"))]);
    let config = Config { version: "1.0".to_string(), identity: vec![ic] };

    let resolved = prepare_switch(&config, true, "https://github.com/org/repo.git")
        .expect("should resolve");
    assert_eq!(resolved.id(), "work");

    let err = prepare_switch(&config, true, "https://gitlab.com/x").expect_err("no match");
    assert!(matches!(
        err,
        SwitchError::Resolution(ResolutionError::NoMatch)
    ));
}

#[test]
fn applying_needs_both_username_and_email() {
    let with_both = Identity::from(
        &identity_with("work", Some("alice"), Some("a@x.com")),
        &account("git", None),
    );
    let writes = apply_switch(&with_both).expect("both fields are present");
    assert_eq!(writes.username, "alice");
    assert_eq!(writes.email, "a@x.com");

    let without_user = Identity::from(
        &identity_with("work", None, Some("a@x.com")),
        &account("git", None),
    );
    assert!(matches!(
        apply_switch(&without_user).unwrap_err(),
        SwitchError::MissingUsername
    ));

    let without_email = Identity::from(
        &identity_with("work", Some("alice"), None),
        &account("git", None),
    );
    assert!(matches!(
        apply_switch(&without_email).unwrap_err(),
        SwitchError::MissingEmail
    ));
}

#[test]
fn both_writes_landing_switch_both_fields() {
    let writes = SwitchWrites { username: "alice".to_string(), email: "a@x.com".to_string() };
    let live = VcsFields { user: "old".to_string(), email: "old@x.com".to_string() };

    let (after, outcome) = apply_writes(&writes, live, true, true);
    assert!(outcome.is_ok());
    assert_eq!(after.user, "alice");
    assert_eq!(after.email, "a@x.com");
}

#[test]
fn a_failed_username_write_changes_nothing() {
    let writes = SwitchWrites { username: "alice".to_string(), email: "a@x.com".to_string() };
    let live = VcsFields { user: "old".to_string(), email: "old@x.com".to_string() };

    let (after, outcome) = apply_writes(&writes, live, false, true);
    assert!(matches!(outcome, Err(SwitchError::ExternalCommandFailed)));
    assert_eq!(after.user, "old");
    assert_eq!(after.email, "old@x.com");
}

#[test]
fn a_failed_email_write_keeps_the_username_already_written() {
    let writes = SwitchWrites { username: "alice".to_string(), email: "a@x.com".to_string() };
    let live = VcsFields { user: "old".to_string(), email: "old@x.com".to_string() };

    let (after, outcome) = apply_writes(&writes, live, true, false);
    assert!(matches!(outcome, Err(SwitchError::ExternalCommandFailed)));
    // Reading the fields back shows the username switch stayed in effect:
    // nothing is rolled back.
    assert_eq!(after.user, "alice");
    assert_eq!(after.email, "old@x.com");
}
