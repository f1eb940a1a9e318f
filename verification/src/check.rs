//! The consistency checker: an ordered, fail-fast pipeline that holds the
//! configured identity against live external state. The stages run in a
//! fixed order — version report, credential helper, repository hook,
//! identity resolution, field comparison — and the first failing stage ends
//! the check; later stages never run after an earlier one fails.

use vstd::prelude::*;

use crate::config::candidates;
use crate::config::Config;
use crate::config::ResolutionError;
use crate::identity::Identity;
use crate::matcher::contains_sub;
use crate::matcher::str_contains;
use crate::matcher::str_eq;

verus! {

/// A decimal digit.
pub open spec fn is_digit(c: char) -> bool {
    '0' <= c && c <= '9'
}

/// The end of the run of digits starting at position `i`.
pub open spec fn digits_end(s: Seq<char>, i: int) -> int
    decreases s.len() - i,
{
    if i >= s.len() || !is_digit(s[i]) {
        i
    } else {
        digits_end(s, i + 1)
    }
}

/// A dotted version triple `digits.digits.digits` begins at position `i`,
/// each digit run taken as long as possible.
pub open spec fn version_match_at(s: Seq<char>, i: int) -> bool {
    let e1 = digits_end(s, i);
    let e2 = digits_end(s, e1 + 1);
    let e3 = digits_end(s, e2 + 1);
    &&& e1 > i
    &&& e1 < s.len()
    &&& s[e1] == '.'
    &&& e2 > e1 + 1
    &&& e2 < s.len()
    &&& s[e2] == '.'
    &&& e3 > e2 + 1
}

/// The first position a dotted version triple begins at, scanning from `i`.
pub open spec fn first_version_match(s: Seq<char>, i: int) -> Option<int>
    decreases s.len() - i,
{
    if i >= s.len() {
        Option::None
    } else if version_match_at(s, i) {
        Option::Some(i)
    } else {
        first_version_match(s, i + 1)
    }
}

/// The major component of the first dotted version triple in a version
/// report, if the report holds one.
pub open spec fn spec_major_version(s: Seq<char>) -> Option<Seq<char>> {
    match first_version_match(s, 0) {
        Option::None => Option::None,
        Option::Some(i) => Option::Some(s.subrange(i, digits_end(s, i))),
    }
}

/// Scans the run of digits starting at `from`.
fn scan_digits(s: &str, from: usize) -> (r: usize)
    requires
        from <= s@.len(),
    ensures
        r == digits_end(s@, from as int),
        from <= r <= s@.len(),
{
    let n = s.unicode_len();
    let mut i: usize = from;
    while i < n
        invariant
            from <= i <= n,
            n == s@.len(),
            digits_end(s@, from as int) == digits_end(s@, i as int),
        decreases n - i,
    {
        let c = s.get_char(i);
        if !('0' <= c && c <= '9') {
            return i;
        }
        i = i + 1;
    }
    i
}

/// Whether a dotted version triple begins at position `i`.
fn version_triple_at(s: &str, i: usize) -> (r: bool)
    requires
        i < s@.len(),
    ensures
        r == version_match_at(s@, i as int),
{
    let n = s.unicode_len();
    let e1 = scan_digits(s, i);
    if e1 == i || e1 >= n || s.get_char(e1) != '.' {
        return false;
    }
    let e2 = scan_digits(s, e1 + 1);
    if e2 == e1 + 1 || e2 >= n || s.get_char(e2) != '.' {
        return false;
    }
    let e3 = scan_digits(s, e2 + 1);
    e3 > e2 + 1
}

/// Whether a version report names a supported external VCS: the first
/// dotted version triple in the report has major component exactly `2`.
pub fn check_git_version(version: &str) -> (r: bool)
    ensures
        r == (spec_major_version(version@) == Option::Some("2"@)),
{
    let n = version.unicode_len();
    let mut i: usize = 0;
    while i < n
        invariant
            i <= n,
            n == version@.len(),
            first_version_match(version@, 0) == first_version_match(version@, i as int),
        decreases n - i,
    {
        if version_triple_at(version, i) {
            let e1 = scan_digits(version, i);
            let ghost major = version@.subrange(i as int, e1 as int);
            proof {
                reveal_strlit("2");
            }
            if e1 == i + 1 && version.get_char(i) == '2' {
                assert(major =~= "2"@);
                return true;
            } else {
                assert(major != "2"@) by {
                    if e1 == i + 1 {
                        assert(major.len() == 1 && major[0] == version@[i as int]);
                    } else {
                        assert(e1 > i + 1);
                        assert(major.len() != "2"@.len());
                    }
                }
                return false;
            }
        }
        i = i + 1;
    }
    false
}

/// The marker proving a repository hook invokes this tool's check.
pub open spec fn spec_hook_marker() -> Seq<char> {
    "identity git hook --pre-commit"@
}

/// The marker a repository hook must contain to count as wired.
pub fn hook_marker() -> (r: &'static str)
    ensures
        r@ == spec_hook_marker(),
{
    "identity git hook --pre-commit"
}

/// Whether hook content is wired to this tool's verification entrypoint.
pub fn hook_is_wired(content: &str) -> (r: bool)
    ensures
        r == contains_sub(content@, spec_hook_marker()),
{
    str_contains(content, hook_marker())
}

/// The script installed as the repository hook; it carries the marker the
/// consistency check looks for, so a hook installed by this tool always
/// counts as wired.
pub fn hook_script() -> (r: &'static str)
    ensures
        r@ == "#!/usr/bin/env bash\nidentity git hook --pre-commit\n"@,
        contains_sub(r@, spec_hook_marker()),
{
    let script = "#!/usr/bin/env bash\nidentity git hook --pre-commit\n";
    proof {
        reveal_strlit("#!/usr/bin/env bash\nidentity git hook --pre-commit\n");
        reveal_strlit("identity git hook --pre-commit");
        assert(script@.subrange(20, 20 + spec_hook_marker().len() as int) =~= spec_hook_marker());
    }
    script
}

/// Drift between a resolved identity and live external state.
#[derive(Debug, PartialEq, Eq)]
pub enum VerificationError {
    /// The live user name differs from the resolved identity's.
    UsernameMismatch { expected: Option<String>, actual: String },
    /// The live email differs from the resolved identity's.
    EmailMismatch { expected: Option<String>, actual: String },
    /// The live secret differs from the resolved account's token; the
    /// values themselves are never carried.
    TokenMismatch,
}

fn clone_opt_ref(o: Option<&String>) -> (r: Option<String>)
    ensures
        r.deep_view() == o.deep_view(),
{
    match o {
        Option::Some(s) => Option::Some(s.clone()),
        Option::None => Option::None,
    }
}

/// Compares a resolved identity's user and email against the live values,
/// in that order, stopping at the first mismatch.
pub fn check_fields(identity: &Identity, username: &String, email: &String) -> (r: Result<
    (),
    VerificationError,
>)
    ensures
        ({
            let expected_user = identity@.effective_user();
            let expected_email = identity@.identity_config.email;
            match r {
                Result::Ok(()) => expected_user == Option::Some(username@) && expected_email
                    == Option::Some(email@),
                Result::Err(VerificationError::UsernameMismatch { expected, actual }) => {
                    &&& expected_user != Option::Some(username@)
                    &&& expected.deep_view() == expected_user
                    &&& actual@ == username@
                },
                Result::Err(VerificationError::EmailMismatch { expected, actual }) => {
                    &&& expected_user == Option::Some(username@)
                    &&& expected_email != Option::Some(email@)
                    &&& expected.deep_view() == expected_email
                    &&& actual@ == email@
                },
                Result::Err(VerificationError::TokenMismatch) => false,
            }
        }),
{
    let user_ok = match identity.user() {
        Option::Some(u) => str_eq(u.as_str(), username.as_str()),
        Option::None => false,
    };
    if !user_ok {
        return Result::Err(
            VerificationError::UsernameMismatch {
                expected: clone_opt_ref(identity.user()),
                actual: username.clone(),
            },
        );
    }
    let email_ok = match identity.email() {
        Option::Some(e) => str_eq(e.as_str(), email.as_str()),
        Option::None => false,
    };
    if !email_ok {
        return Result::Err(
            VerificationError::EmailMismatch {
                expected: clone_opt_ref(identity.email()),
                actual: email.clone(),
            },
        );
    }
    Result::Ok(())
}

/// Compares a resolved account's token, where it has one, against the live
/// secret. An account without a token has nothing to check.
pub fn check_token(identity: &Identity, live_secret: &String) -> (r: Result<(), VerificationError>)
    ensures
        ({
            let configured = identity@.account_config.token;
            match r {
                Result::Ok(()) => configured is None || configured == Option::Some(live_secret@),
                Result::Err(e) => {
                    &&& e == VerificationError::TokenMismatch
                    &&& configured is Some
                    &&& configured != Option::Some(live_secret@)
                },
            }
        }),
{
    match identity.token() {
        Option::None => Result::Ok(()),
        Option::Some(t) => {
            if str_eq(t.as_str(), live_secret.as_str()) {
                Result::Ok(())
            } else {
                Result::Err(VerificationError::TokenMismatch)
            }
        },
    }
}

/// Resolves the identity for the remote and holds its configured token,
/// where it has one, against the live secret the helper reports; a secret
/// the helper does not know counts as drift.
pub fn check_credentials(
    config: &Config,
    origin_url: &str,
    live_secret: Option<&String>,
) -> (r: Result<(), CheckFailure>)
    ensures
        ({
            let cs = candidates(config@, crate::spec_git_service(), origin_url@);
            match r {
                Result::Ok(()) => cs.len() == 1 && (cs[0].account_config.token is None
                    || cs[0].account_config.token == live_secret.deep_view()),
                Result::Err(CheckFailure::Resolution(ResolutionError::NoMatch)) => cs.len() == 0,
                Result::Err(
                    CheckFailure::Resolution(ResolutionError::MultipleMatches(l)),
                ) => cs.len() >= 2 && l.deep_view() == cs,
                Result::Err(
                    CheckFailure::Verification(VerificationError::TokenMismatch),
                ) => cs.len() == 1 && cs[0].account_config.token is Some
                    && cs[0].account_config.token != live_secret.deep_view(),
                Result::Err(_) => false,
            }
        }),
{
    let identity = match config.account_for_url(crate::git_service(), origin_url) {
        Result::Ok(identity) => identity,
        Result::Err(e) => {
            return Result::Err(CheckFailure::Resolution(e));
        },
    };
    match identity.token() {
        Option::None => Result::Ok(()),
        Option::Some(configured) => match live_secret {
            Option::Some(actual) => {
                if str_eq(configured.as_str(), actual.as_str()) {
                    Result::Ok(())
                } else {
                    Result::Err(CheckFailure::Verification(VerificationError::TokenMismatch))
                }
            },
            Option::None => Result::Err(
                CheckFailure::Verification(VerificationError::TokenMismatch),
            ),
        },
    }
}

/// One oracle reading handed to the consistency check.
#[derive(Debug)]
pub enum CheckEvent {
    /// The external VCS version report.
    GitVersion(String),
    /// The configured credential helper name, empty when none is set.
    CredentialHelper(String),
    /// The repository hook's content, `None` where the hook file is missing.
    HookContent(Option<String>),
    /// The remote URL of the current repository.
    RemoteUrl(String),
    /// The live user name and email, and the helper's secret where the
    /// resolved account carries a token.
    LiveState { username: String, email: String, secret: Option<String> },
}

/// Why the consistency check failed.
#[derive(Debug)]
pub enum CheckFailure {
    /// The version report names no supported major version.
    UnsupportedGitVersion(String),
    /// No credential helper is configured.
    NoCredentialsHelper,
    /// The repository hook is missing.
    HookMissing,
    /// The repository hook does not invoke this tool's check.
    HookNotWired,
    /// No single identity could be resolved for the remote.
    Resolution(ResolutionError),
    /// A resolved field differs from the live value.
    Verification(VerificationError),
}

/// The consistency check's position in its ordered pipeline.
#[derive(Debug)]
pub enum CheckState {
    /// Awaiting the version report.
    GitVersion,
    /// Awaiting the credential helper name.
    CredentialHelper,
    /// Awaiting the repository hook content.
    Hook,
    /// Awaiting the remote URL to resolve an identity for.
    Resolve,
    /// Awaiting the live values to compare the resolved identity against.
    Fields(Identity),
    /// Every stage passed.
    Pass,
    /// A stage failed; the check is over.
    Failed(CheckFailure),
}

/// The state the consistency check starts in.
pub fn start_check() -> (r: CheckState)
    ensures
        r is GitVersion,
{
    CheckState::GitVersion
}

/// Advances the consistency check by one oracle reading. The stages run in
/// a fixed order, and a failed or passed check absorbs every further
/// reading, as does a reading that answers another stage's question: later
/// checks never run after an earlier one fails.
///
/// A resolved account carrying a token passes only if the live secret was
/// supplied and equals it: a missing live secret counts as drift.
pub fn advance(state: CheckState, config: &Config, event: CheckEvent) -> (r: CheckState)
    ensures
        ({
            match (state, event) {
                (CheckState::GitVersion, CheckEvent::GitVersion(v)) => {
                    if spec_major_version(v@) == Option::Some("2"@) {
                        r is CredentialHelper
                    } else {
                        match r {
                            CheckState::Failed(CheckFailure::UnsupportedGitVersion(v2)) => v2@
                                == v@,
                            _ => false,
                        }
                    }
                },
                (CheckState::CredentialHelper, CheckEvent::CredentialHelper(h)) => {
                    if h@.len() == 0 {
                        r == CheckState::Failed(CheckFailure::NoCredentialsHelper)
                    } else {
                        r is Hook
                    }
                },
                (CheckState::Hook, CheckEvent::HookContent(c)) => {
                    match c {
                        Option::None => r == CheckState::Failed(CheckFailure::HookMissing),
                        Option::Some(content) => if contains_sub(content@, spec_hook_marker()) {
                            r is Resolve
                        } else {
                            r == CheckState::Failed(CheckFailure::HookNotWired)
                        },
                    }
                },
                (CheckState::Resolve, CheckEvent::RemoteUrl(url)) => {
                    let cs = candidates(config@, crate::spec_git_service(), url@);
                    match r {
                        CheckState::Fields(identity) => cs.len() == 1 && identity@ == cs[0],
                        CheckState::Failed(
                            CheckFailure::Resolution(ResolutionError::NoMatch),
                        ) => cs.len() == 0,
                        CheckState::Failed(
                            CheckFailure::Resolution(ResolutionError::MultipleMatches(l)),
                        ) => cs.len() >= 2 && l.deep_view() == cs,
                        _ => false,
                    }
                },
                (
                    CheckState::Fields(identity),
                    CheckEvent::LiveState { username, email, secret },
                ) => {
                    let expected_user = identity@.effective_user();
                    let expected_email = identity@.identity_config.email;
                    let configured = identity@.account_config.token;
                    match r {
                        CheckState::Pass => {
                            &&& expected_user == Option::Some(username@)
                            &&& expected_email == Option::Some(email@)
                            &&& (configured is None || configured == secret.deep_view())
                        },
                        CheckState::Failed(CheckFailure::Verification(e)) => match e {
                            VerificationError::UsernameMismatch { expected, actual } => {
                                &&& expected_user != Option::Some(username@)
                                &&& expected.deep_view() == expected_user
                                &&& actual@ == username@
                            },
                            VerificationError::EmailMismatch { expected, actual } => {
                                &&& expected_user == Option::Some(username@)
                                &&& expected_email != Option::Some(email@)
                                &&& expected.deep_view() == expected_email
                                &&& actual@ == email@
                            },
                            VerificationError::TokenMismatch => {
                                &&& expected_user == Option::Some(username@)
                                &&& expected_email == Option::Some(email@)
                                &&& configured is Some
                                &&& configured != secret.deep_view()
                            },
                        },
                        _ => false,
                    }
                },
                _ => r == state,
            }
        }),
{
    match (state, event) {
        (CheckState::GitVersion, CheckEvent::GitVersion(v)) => {
            if check_git_version(v.as_str()) {
                CheckState::CredentialHelper
            } else {
                CheckState::Failed(CheckFailure::UnsupportedGitVersion(v))
            }
        },
        (CheckState::CredentialHelper, CheckEvent::CredentialHelper(h)) => {
            if h.as_str().is_empty() {
                CheckState::Failed(CheckFailure::NoCredentialsHelper)
            } else {
                CheckState::Hook
            }
        },
        (CheckState::Hook, CheckEvent::HookContent(c)) => match c {
            Option::None => CheckState::Failed(CheckFailure::HookMissing),
            Option::Some(content) => {
                if hook_is_wired(content.as_str()) {
                    CheckState::Resolve
                } else {
                    CheckState::Failed(CheckFailure::HookNotWired)
                }
            },
        },
        (CheckState::Resolve, CheckEvent::RemoteUrl(url)) => {
            match config.account_for_url(crate::git_service(), url.as_str()) {
                Result::Ok(identity) => CheckState::Fields(identity),
                Result::Err(e) => CheckState::Failed(CheckFailure::Resolution(e)),
            }
        },
        (CheckState::Fields(identity), CheckEvent::LiveState { username, email, secret }) => {
            match check_fields(&identity, &username, &email) {
                Result::Err(e) => CheckState::Failed(CheckFailure::Verification(e)),
                Result::Ok(()) => match secret {
                    Option::Some(s) => match check_token(&identity, &s) {
                        Result::Ok(()) => CheckState::Pass,
                        Result::Err(e) => CheckState::Failed(CheckFailure::Verification(e)),
                    },
                    Option::None => match identity.token() {
                        Option::Some(_) => CheckState::Failed(
                            CheckFailure::Verification(VerificationError::TokenMismatch),
                        ),
                        Option::None => CheckState::Pass,
                    },
                },
            }
        },
        (s, _) => s,
    }
}

} // verus!
