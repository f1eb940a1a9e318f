//! The switch executor for the version-control service: resolving the
//! target identity, deciding what to write, and the write semantics — the
//! username is written first and the email second, each by an independent
//! external call, and nothing already written is ever rolled back.

use vstd::prelude::*;

use crate::config::candidates;
use crate::config::Config;
use crate::config::ResolutionError;
use crate::identity::Identity;
use crate::matcher::str_eq;

verus! {

/// Reasons preparing or applying a switch fails.
#[derive(Debug)]
pub enum SwitchError {
    /// The working context is not a repository, though the service needs
    /// one.
    NotARepository,
    /// Resolution selected no single identity.
    Resolution(ResolutionError),
    /// The resolved identity has no username to write.
    MissingUsername,
    /// The resolved identity has no email to write.
    MissingEmail,
    /// The service supports no switch.
    UnsupportedForService,
    /// The resolved identity carries no token for the registry.
    MissingToken,
    /// The token stored for the registry is empty.
    EmptyCurrentToken,
    /// The stored token is unknown and overwriting it was declined.
    UnrecognizedTokenRejected,
    /// An external write failed.
    ExternalCommandFailed,
}

/// How a service switches identity.
#[derive(Debug, PartialEq, Eq)]
pub enum SwitchStrategy {
    /// Write the user and email fields of the VCS configuration.
    VcsConfig,
    /// Overwrite the token stored for the registry.
    RegistryToken,
}

/// The switch policy a service tag selects; an unknown service has none.
pub fn strategy_for_service(service: &str) -> (r: Option<SwitchStrategy>)
    ensures
        service@ == crate::spec_git_service() ==> r == Option::Some(SwitchStrategy::VcsConfig),
        service@ == crate::spec_cargo_service() ==> r == Option::Some(
            SwitchStrategy::RegistryToken,
        ),
        service@ != crate::spec_git_service() && service@ != crate::spec_cargo_service() ==> r
            is None,
{
    proof {
        reveal_strlit("git");
        reveal_strlit("cargo");
        assert("git"@.len() == 3);
        assert("cargo"@.len() == 5);
    }
    if str_eq(service, crate::git_service()) {
        Option::Some(SwitchStrategy::VcsConfig)
    } else if str_eq(service, crate::cargo_service()) {
        Option::Some(SwitchStrategy::RegistryToken)
    } else {
        Option::None
    }
}

/// Resolves the identity a VCS switch would apply. The working context must
/// be a repository; that is checked before resolution, for the clearer
/// error.
pub fn prepare_switch(config: &Config, in_repository: bool, origin_url: &str) -> (r: Result<
    Identity,
    SwitchError,
>)
    ensures
        ({
            let cs = candidates(config@, crate::spec_git_service(), origin_url@);
            if !in_repository {
                r matches Result::Err(SwitchError::NotARepository)
            } else {
                match r {
                    Result::Ok(identity) => cs.len() == 1 && identity@ == cs[0],
                    Result::Err(SwitchError::Resolution(ResolutionError::NoMatch)) => cs.len()
                        == 0,
                    Result::Err(
                        SwitchError::Resolution(ResolutionError::MultipleMatches(l)),
                    ) => cs.len() >= 2 && l.deep_view() == cs,
                    Result::Err(_) => false,
                }
            }
        }),
{
    if !in_repository {
        return Result::Err(SwitchError::NotARepository);
    }
    match config.account_for_url(crate::git_service(), origin_url) {
        Result::Ok(identity) => Result::Ok(identity),
        Result::Err(e) => Result::Err(SwitchError::Resolution(e)),
    }
}

/// Spec-level image of a [`SwitchWrites`].
pub struct SwitchWritesView {
    pub username: Seq<char>,
    pub email: Seq<char>,
}

/// The two values a VCS switch writes.
#[derive(Debug)]
pub struct SwitchWrites {
    pub username: String,
    pub email: String,
}

impl View for SwitchWrites {
    type V = SwitchWritesView;

    open spec fn view(&self) -> SwitchWritesView {
        SwitchWritesView { username: self.username@, email: self.email@ }
    }
}

/// Decides what a switch writes: the resolved identity must carry both a
/// username and an email.
pub fn apply_switch(identity: &Identity) -> (r: Result<SwitchWrites, SwitchError>)
    ensures
        ({
            let user = identity@.effective_user();
            let email = identity@.identity_config.email;
            match r {
                Result::Ok(w) => user == Option::Some(w@.username) && email == Option::Some(
                    w@.email,
                ),
                Result::Err(SwitchError::MissingUsername) => user is None,
                Result::Err(SwitchError::MissingEmail) => user is Some && email is None,
                Result::Err(_) => false,
            }
        }),
{
    let username = match identity.user() {
        Option::Some(u) => u.clone(),
        Option::None => {
            return Result::Err(SwitchError::MissingUsername);
        },
    };
    let email = match identity.email() {
        Option::Some(e) => e.clone(),
        Option::None => {
            return Result::Err(SwitchError::MissingEmail);
        },
    };
    Result::Ok(SwitchWrites { username, email })
}

/// Spec-level image of a [`VcsFields`].
pub struct VcsFieldsView {
    pub user: Seq<char>,
    pub email: Seq<char>,
}

/// The two identity fields of the live VCS configuration.
#[derive(Debug)]
pub struct VcsFields {
    pub user: String,
    pub email: String,
}

impl View for VcsFields {
    type V = VcsFieldsView;

    open spec fn view(&self) -> VcsFieldsView {
        VcsFieldsView { user: self.user@, email: self.email@ }
    }
}

/// How the two external writes land on the live fields. The username write
/// comes first, the email write second; a refused write aborts the switch
/// with the external failure, and whatever was already written stays in
/// effect — there is no rollback. In particular, when the email write fails
/// after the username write succeeded, the new username remains live.
pub fn apply_writes(
    writes: &SwitchWrites,
    live: VcsFields,
    user_write_ok: bool,
    email_write_ok: bool,
) -> (r: (VcsFields, Result<(), SwitchError>))
    ensures
        user_write_ok && email_write_ok ==> r.0@.user == writes@.username && r.0@.email
            == writes@.email && r.1 is Ok,
        !user_write_ok ==> r.0@ == live@ && r.1 == Result::<(), SwitchError>::Err(
            SwitchError::ExternalCommandFailed,
        ),
        user_write_ok && !email_write_ok ==> r.0@.user == writes@.username && r.0@.email
            == live@.email && r.1 == Result::<(), SwitchError>::Err(
            SwitchError::ExternalCommandFailed,
        ),
{
    if !user_write_ok {
        return (live, Result::Err(SwitchError::ExternalCommandFailed));
    }
    let after_user = VcsFields { user: writes.username.clone(), email: live.email };
    if !email_write_ok {
        return (after_user, Result::Err(SwitchError::ExternalCommandFailed));
    }
    let after_email = VcsFields { user: after_user.user, email: writes.email.clone() };
    (after_email, Result::Ok(()))
}

} // verus!
