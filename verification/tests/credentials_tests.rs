use identity::config::AccountConfig;
use identity::config::IdentityConfig;
use identity::credentials::{
    build_credential_query, extract_password, read_secret_reply, split_str, strip_trailing_star,
    OracleError,
};
use identity::identity::Identity;

fn resolved(user: Option<&str>, match_url: Option<&str>) -> Identity {
    let ic = IdentityConfig {
        id: "work".to_string(),
        user: user.map(|s| s.to_string()),
        email: None,
        description: None,
        account: None,
    };
    let ac = AccountConfig {
        service: "git".to_string(),
        user: None,
        match_url: match_url.map(|s| s.to_string()),
        description: None,
        token: None,
    };
    Identity::from(&ic, &ac)
}

#[test]
fn split_separates_on_every_occurrence() {
    assert_eq!(split_str("a=b", '='), vec!["a".to_string(), "b".to_string()]);
    assert_eq!(
        split_str("a\nb\n", '\n'),
        vec!["a".to_string(), "b".to_string(), "".to_string()]
    );
    assert_eq!(split_str("", '\n'), vec!["".to_string()]);
    assert_eq!(split_str("abc", '='), vec!["abc".to_string()]);
    assert_eq!(
        split_str("==", '='),
        vec!["".to_string(), "".to_string(), "".to_string()]
    );
}

#[test]
fn the_password_line_yields_the_secret() {
    let reply = "protocol=https\nhost=github.com\nusername=alice\npassword=s3cret\n";
    assert_eq!(extract_password(reply), Some("s3cret".to_string()));
}

#[test]
fn a_reply_without_password_yields_nothing() {
    assert_eq!(extract_password("username=alice\nhost=github.com\n"), None);
    assert_eq!(extract_password(""), None);
}

#[test]
fn the_first_password_line_wins() {
    let reply = "password=first\npassword=second\n";
    assert_eq!(extract_password(reply), Some("first".to_string()));
}

#[test]
fn a_value_containing_the_separator_yields_its_last_piece() {
    assert_eq!(extract_password("password=a=b\n"), Some("b".to_string()));
}

#[test]
fn a_bare_password_line_yields_the_key_itself() {
    assert_eq!(extract_password("password\n"), Some("password".to_string()));
}

#[test]
fn read_secret_reply_reports_a_missing_secret() {
    assert_eq!(read_secret_reply("password=tok\n"), Ok("tok".to_string()));
    assert_eq!(
        read_secret_reply("username=alice\n"),
        Err(OracleError::NoSecretFound)
    );
}

#[test]
fn stripping_removes_only_a_trailing_star() {
    assert_eq!(strip_trailing_star("https://github.com/*"), "https://github.com/");
    assert_eq!(strip_trailing_star("https://github.com/"), "https://github.com/");
    assert_eq!(strip_trailing_star("*"), "");
    assert_eq!(strip_trailing_star(""), "");
    assert_eq!(strip_trailing_star("a*b"), "a*b");
}

#[test]
fn a_query_inside_a_repository_is_scoped_to_the_remote() {
    let identity = resolved(Some("alice"), None);
    let query = build_credential_query(&identity, "osxkeychain", "https://github.com/org/repo.git")
        .expect("the remote should scope the query");
    assert_eq!(query.username, "alice");
    assert_eq!(query.url.as_deref(), Some("https://github.com/org/repo.git"));
    assert_eq!(query.protocol, "https");
    assert_eq!(query.host, "github.com");
}

#[test]
fn a_query_outside_a_repository_falls_back_to_the_match_pattern() {
    let identity = resolved(Some("alice"), Some("https://github.com/org/*"));
    let query =
        build_credential_query(&identity, "osxkeychain", "").expect("the pattern should scope it");
    assert_eq!(query.username, "alice");
    assert_eq!(query.url, None);
    assert_eq!(query.protocol, "https");
    assert_eq!(query.host, "github.com");
}

#[test]
fn an_empty_helper_name_refuses_the_query() {
    let identity = resolved(Some("alice"), None);
    assert_eq!(
        build_credential_query(&identity, "", "https://github.com/org/repo.git").unwrap_err(),
        OracleError::NoCredentialsHelper
    );
}

#[test]
fn a_missing_username_refuses_the_query() {
    let identity = resolved(None, None);
    assert_eq!(
        build_credential_query(&identity, "osxkeychain", "https://github.com/org/repo.git")
            .unwrap_err(),
        OracleError::MissingUsername
    );
}

#[test]
fn no_remote_and_no_pattern_refuses_the_query() {
    let identity = resolved(Some("alice"), None);
    assert_eq!(
        build_credential_query(&identity, "osxkeychain", "").unwrap_err(),
        OracleError::NoUrlAvailable
    );
}

#[test]
fn an_unparsable_url_refuses_the_query() {
    let identity = resolved(Some("alice"), None);
    assert_eq!(
        build_credential_query(&identity, "osxkeychain", "not a url").unwrap_err(),
        OracleError::InvalidUrl
    );
}

#[test]
fn a_url_without_host_refuses_the_query() {
    let identity = resolved(Some("alice"), None);
    assert_eq!(
        build_credential_query(&identity, "osxkeychain", "unix:/run/foo.socket").unwrap_err(),
        OracleError::UrlWithoutHost
    );
}
