use identity::config::AccountConfig;
use identity::config::Config;
use identity::config::IdentityConfig;
use identity::config::ResolutionError;

fn account(service: &str, match_url: Option<&str>) -> AccountConfig {
    AccountConfig {
        service: service.to_string(),
        user: None,
        match_url: match_url.map(|s| s.to_string()),
        description: None,
        token: None,
    }
}

fn identity_with(id: &str, user: Option<&str>, accounts: Vec<AccountConfig>) -> IdentityConfig {
    IdentityConfig {
        id: id.to_string(),
        user: user.map(|s| s.to_string()),
        email: None,
        description: None,
        account: Some(accounts),
    }
}

fn config_of(identities: Vec<IdentityConfig>) -> Config {
    Config { version: "1.0".to_string(), identity: identities }
}

#[test]
fn resolves_the_single_matching_account() {
    let config = config_of(vec![
        identity_with("work", None, vec![account("git", Some("https://github.com/work/*"))]),
        identity_with("home", None, vec![account("git", Some("https://github.com/home/*"))]),
    ]);

    let resolved = config
        .account_for_url("git", "https://github.com/work/repo.git")
        .expect("should resolve");
    assert_eq!(resolved.id(), "work");
}

#[test]
fn no_account_of_the_service_is_no_match() {
    let config = config_of(vec![identity_with(
        "work",
        None,
        vec![account("cargo", Some("https://github.com/*"))],
    )]);

    let err = config
        .account_for_url("git", "https://github.com/work/repo.git")
        .expect_err("nothing should match");
    assert!(matches!(err, ResolutionError::NoMatch));
}

#[test]
fn two_matching_accounts_are_ambiguous_with_both_reported() {
    let config = config_of(vec![
        identity_with("work", None, vec![account("git", Some("https://github.com/*"))]),
        identity_with("home", None, vec![account("git", Some("github.com/*"))]),
    ]);

    let err = config
        .account_for_url("git", "https://github.com/org/repo.git")
        .expect_err("two candidates should be ambiguous");
    match err {
        ResolutionError::MultipleMatches(list) => {
            assert_eq!(list.len(), 2);
            assert_eq!(list[0].id(), "work");
            assert_eq!(list[1].id(), "home");
        }
        other => panic!("expected MultipleMatches, got {:?}", other),
    }
}

#[test]
fn two_matching_accounts_of_one_identity_are_ambiguous() {
    let config = config_of(vec![identity_with(
        "work",
        None,
        vec![
            account("git", Some("https://github.com/*")),
            account("git", Some("*")),
        ],
    )]);

    let err = config
        .account_for_url("git", "https://github.com/org/repo.git")
        .expect_err("two candidates should be ambiguous");
    assert!(matches!(err, ResolutionError::MultipleMatches(list) if list.len() == 2));
}

#[test]
fn non_matching_urls_are_filtered_out() {
    let config = config_of(vec![identity_with(
        "work",
        None,
        vec![account("git", Some("https://gitlab.com/*"))],
    )]);

    let err = config
        .account_for_url("git", "https://github.com/org/repo.git")
        .expect_err("nothing should match");
    assert!(matches!(err, ResolutionError::NoMatch));
}

#[test]
fn account_without_pattern_never_resolves() {
    let config = config_of(vec![identity_with("work", None, vec![account("git", None)])]);

    let err = config
        .account_for_url("git", "https://github.com/org/repo.git")
        .expect_err("nothing should match");
    assert!(matches!(err, ResolutionError::NoMatch));
}

#[test]
fn identity_for_service_picks_the_single_account() {
    let ic = identity_with("work", None, vec![account("cargo", None), account("git", None)]);
    let resolved = ic
        .identity_for_service("cargo")
        .expect("one account is fine")
        .expect("should be found");
    assert_eq!(resolved.id(), "work");
}

#[test]
fn identity_for_service_without_account_is_none() {
    let ic = identity_with("work", None, vec![account("git", None)]);
    assert!(ic.identity_for_service("cargo").expect("no account is fine").is_none());

    let bare = IdentityConfig {
        id: "bare".to_string(),
        user: None,
        email: None,
        description: None,
        account: None,
    };
    assert!(bare.identity_for_service("cargo").expect("no account is fine").is_none());
}

#[test]
fn identity_for_service_rejects_several_accounts() {
    let ic = identity_with("work", None, vec![account("cargo", None), account("cargo", None)]);
    let err = ic.identity_for_service("cargo").expect_err("two accounts are an error");
    assert!(matches!(err, ResolutionError::MultipleAccountsForService));
}

#[test]
fn accounts_for_url_keeps_configuration_order() {
    let ic = identity_with(
        "work",
        None,
        vec![
            account("git", Some("https://github.com/*")),
            account("git", Some("https://gitlab.com/*")),
            account("git", Some("*")),
        ],
    );
    let matching = ic.accounts_for_url("git", "https://github.com/org/repo.git");
    assert_eq!(matching.len(), 2);
    assert_eq!(matching[0].match_url.as_deref(), Some("https://github.com/*"));
    assert_eq!(matching[1].match_url.as_deref(), Some("*"));
}

#[test]
fn account_user_overrides_identity_default() {
    let mut with_override = account("git", Some("*"));
    with_override.user = Some("bob".to_string());
    let config = config_of(vec![identity_with("work", Some("alice"), vec![with_override])]);

    let resolved = config.account_for_url("git", "anything").expect("should resolve");
    assert_eq!(resolved.user().map(|u| u.as_str()), Some("bob"));
}

#[test]
fn account_without_user_falls_back_to_identity_default() {
    let config = config_of(vec![identity_with(
        "work",
        Some("alice"),
        vec![account("git", Some("*"))],
    )]);

    let resolved = config.account_for_url("git", "anything").expect("should resolve");
    assert_eq!(resolved.user().map(|u| u.as_str()), Some("alice"));
}

#[test]
fn resolved_identity_reads_both_levels() {
    let mut ac = account("git", Some("https://github.com/*"));
    ac.token = Some("tok".to_string());
    ac.description = Some("work account".to_string());
    let mut ic = identity_with("work", Some("alice"), vec![ac]);
    ic.email = Some("a@x.com".to_string());
    ic.description = Some("identity description".to_string());
    let config = config_of(vec![ic]);

    let resolved = config
        .account_for_url("git", "https://github.com/org/repo.git")
        .expect("should resolve");
    assert_eq!(resolved.id(), "work");
    assert_eq!(resolved.email().map(|e| e.as_str()), Some("a@x.com"));
    assert_eq!(resolved.user().map(|u| u.as_str()), Some("alice"));
    assert_eq!(resolved.match_url().map(|m| m.as_str()), Some("https://github.com/*"));
    assert_eq!(resolved.description().map(|d| d.as_str()), Some("work account"));
    assert_eq!(resolved.token().map(|t| t.as_str()), Some("tok"));
    assert_eq!(
        resolved.display_string(),
        "work, [user=alice, email=a@x.com, desc=work account]"
    );
}

#[test]
fn resolved_identity_display_uses_placeholders() {
    let config = config_of(vec![identity_with("work", None, vec![account("git", Some("*"))])]);
    let resolved = config.account_for_url("git", "x").expect("should resolve");
    assert_eq!(
        resolved.display_string(),
        "work, [user=no username, email=no email, desc=no description]"
    );
}
