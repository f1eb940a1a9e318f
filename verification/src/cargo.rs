//! The package-registry side: the stored credential file's shape, the scan
//! that tells whether a stored token is known to the configuration, the
//! registry switch policy, and the reverse lookup from a stored token to
//! the identity it belongs to.

use vstd::prelude::*;

use crate::config::service_accounts;
use crate::config::AccountConfigView;
use crate::config::Config;
use crate::config::IdentityConfigView;
use crate::config::ResolutionError;
use crate::identity::Identity;
use crate::identity::IdentityView;
use crate::matcher::str_eq;
use crate::switch::SwitchError;

verus! {

/// Spec-level image of a [`CargoRegistryCredentials`].
pub struct CargoRegistryCredentialsView {
    pub token: Seq<char>,
}

/// The registry section of the stored credential file.
#[derive(Debug)]
pub struct CargoRegistryCredentials {
    pub token: String,
}

impl View for CargoRegistryCredentials {
    type V = CargoRegistryCredentialsView;

    open spec fn view(&self) -> CargoRegistryCredentialsView {
        CargoRegistryCredentialsView { token: self.token@ }
    }
}

/// Spec-level image of a [`CargoCredentials`].
pub struct CargoCredentialsView {
    pub registry: CargoRegistryCredentialsView,
}

/// The stored credential file: one registry section holding one token.
#[derive(Debug)]
pub struct CargoCredentials {
    pub registry: CargoRegistryCredentials,
}

impl View for CargoCredentials {
    type V = CargoCredentialsView;

    open spec fn view(&self) -> CargoCredentialsView {
        CargoCredentialsView { registry: self.registry@ }
    }
}

/// What scanning the configuration for a stored token turns up.
#[derive(Debug, PartialEq, Eq)]
pub enum TokenScan {
    /// Some identity's single registry account carries the token.
    Known,
    /// No identity's registry account carries the token.
    Unknown,
    /// The scan hit an identity with several registry accounts first.
    Invalid,
}

/// Scans the identities in order for a stored registry token: an identity
/// with several registry accounts ends the scan as invalid; one whose
/// single registry account carries the token ends it as known.
pub open spec fn token_scan(identities: Seq<IdentityConfigView>, token: Seq<char>) -> TokenScan
    decreases identities.len(),
{
    if identities.len() == 0 {
        TokenScan::Unknown
    } else {
        let sa = service_accounts(identities[0].accounts_or_empty(), crate::spec_cargo_service());
        if sa.len() >= 2 {
            TokenScan::Invalid
        } else if sa.len() == 1 && sa[0].token == Option::Some(token) {
            TokenScan::Known
        } else {
            token_scan(identities.drop_first(), token)
        }
    }
}

/// Whether the configuration knows a stored registry token: some identity's
/// registry account carries it. An identity with several registry accounts
/// is a configuration error that ends the scan.
pub fn is_token_known(config: &Config, token: &String) -> (r: Result<bool, ResolutionError>)
    ensures
        ({
            let scan = token_scan(config@.identity, token@);
            match r {
                Result::Ok(true) => scan == TokenScan::Known,
                Result::Ok(false) => scan == TokenScan::Unknown,
                Result::Err(ResolutionError::MultipleAccountsForService) => scan
                    == TokenScan::Invalid,
                Result::Err(_) => false,
            }
        }),
{
    let n = config.identity.len();
    assert(config@.identity.skip(0) =~= config@.identity);
    let mut i: usize = 0;
    while i < n
        invariant
            n == config.identity.len(),
            i <= n,
            token_scan(config@.identity, token@) == token_scan(
                config@.identity.skip(i as int),
                token@,
            ),
        decreases n - i,
    {
        assert(config@.identity.skip(i as int)[0] == config@.identity[i as int]);
        match config.identity[i].identity_for_service(crate::cargo_service()) {
            Result::Err(_) => {
                return Result::Err(ResolutionError::MultipleAccountsForService);
            },
            Result::Ok(Option::Some(identity)) => {
                match identity.token() {
                    Option::Some(t) => {
                        if str_eq(t.as_str(), token.as_str()) {
                            return Result::Ok(true);
                        }
                    },
                    Option::None => {},
                }
            },
            Result::Ok(Option::None) => {},
        }
        assert(config@.identity.skip(i as int).drop_first() =~= config@.identity.skip(i + 1));
        i = i + 1;
    }
    assert(config@.identity.skip(n as int).len() == 0);
    Result::Ok(false)
}

/// Applies a registry switch by deciding the updated credential file: the
/// resolved identity must carry a token, the stored token must be
/// non-empty, and a stored token the configuration does not know is only
/// overwritten when the caller has confirmed it.
pub fn switch_profile(
    config: &Config,
    identity: &Identity,
    current: CargoCredentials,
    overwrite_unknown: bool,
) -> (r: Result<CargoCredentials, SwitchError>)
    ensures
        ({
            let configured = identity@.account_config.token;
            let stored = current@.registry.token;
            let scan = token_scan(config@.identity, stored);
            match r {
                Result::Ok(updated) => {
                    &&& configured is Some
                    &&& stored.len() > 0
                    &&& (scan == TokenScan::Known || (scan == TokenScan::Unknown
                        && overwrite_unknown))
                    &&& updated@.registry.token == configured->0
                },
                Result::Err(SwitchError::MissingToken) => configured is None,
                Result::Err(SwitchError::EmptyCurrentToken) => configured is Some && stored.len()
                    == 0,
                Result::Err(SwitchError::UnrecognizedTokenRejected) => {
                    &&& configured is Some
                    &&& stored.len() > 0
                    &&& scan == TokenScan::Unknown
                    &&& !overwrite_unknown
                },
                Result::Err(SwitchError::Resolution(ResolutionError::MultipleAccountsForService)) => {
                    &&& configured is Some
                    &&& stored.len() > 0
                    &&& scan == TokenScan::Invalid
                },
                Result::Err(_) => false,
            }
        }),
{
    let configured_token = match identity.token() {
        Option::Some(t) => t.clone(),
        Option::None => {
            return Result::Err(SwitchError::MissingToken);
        },
    };
    if current.registry.token.as_str().is_empty() {
        return Result::Err(SwitchError::EmptyCurrentToken);
    }
    match is_token_known(config, &current.registry.token) {
        Result::Err(e) => Result::Err(SwitchError::Resolution(e)),
        Result::Ok(false) if !overwrite_unknown => Result::Err(
            SwitchError::UnrecognizedTokenRejected,
        ),
        Result::Ok(_) => Result::Ok(
            CargoCredentials { registry: CargoRegistryCredentials { token: configured_token } },
        ),
    }
}

/// An account belongs to the registry service and carries the token.
pub open spec fn token_account_matches(a: AccountConfigView, token: Seq<char>) -> bool {
    a.service == crate::spec_cargo_service() && a.token == Option::Some(token)
}

/// The registry accounts of a list that carry the token, in list order.
pub open spec fn accounts_with_token(accounts: Seq<AccountConfigView>, token: Seq<char>) -> Seq<
    AccountConfigView,
>
    decreases accounts.len(),
{
    if accounts.len() == 0 {
        Seq::empty()
    } else {
        let rest = accounts_with_token(accounts.drop_last(), token);
        if token_account_matches(accounts.last(), token) {
            rest.push(accounts.last())
        } else {
            rest
        }
    }
}

/// The candidate pairs one identity contributes to a token lookup.
pub open spec fn identity_token_candidates(ic: IdentityConfigView, token: Seq<char>) -> Seq<
    IdentityView,
> {
    accounts_with_token(ic.accounts_or_empty(), token).map_values(
        |a: AccountConfigView| IdentityView { identity_config: ic, account_config: a },
    )
}

/// The candidate pairs of a whole identity list for a token lookup.
pub open spec fn config_token_candidates(
    identities: Seq<IdentityConfigView>,
    token: Seq<char>,
) -> Seq<IdentityView>
    decreases identities.len(),
{
    if identities.len() == 0 {
        Seq::empty()
    } else {
        config_token_candidates(identities.drop_last(), token) + identity_token_candidates(
            identities.last(),
            token,
        )
    }
}

/// Resolves the identity a stored registry token belongs to: the single
/// identity whose registry account carries it. Zero candidates are
/// `NoMatch`; two or more are `MultipleMatches` carrying every candidate.
pub fn identity_for_token(config: &Config, token: &String) -> (r: Result<
    Identity,
    ResolutionError,
>)
    ensures
        ({
            let cs = config_token_candidates(config@.identity, token@);
            match r {
                Result::Ok(identity) => cs.len() == 1 && identity@ == cs[0],
                Result::Err(ResolutionError::NoMatch) => cs.len() == 0,
                Result::Err(ResolutionError::MultipleMatches(l)) => cs.len() >= 2 && l.deep_view()
                    == cs,
                Result::Err(ResolutionError::MultipleAccountsForService) => false,
            }
        }),
{
    let mut found: Vec<Identity> = Vec::new();
    let n = config.identity.len();
    assert(config@.identity.take(0) =~= Seq::empty());
    let mut i: usize = 0;
    while i < n
        invariant
            n == config.identity.len(),
            i <= n,
            found.deep_view() == config_token_candidates(config@.identity.take(i as int), token@),
        decreases n - i,
    {
        let ghost prefix = config@.identity.take(i as int);
        let ghost step = config@.identity.take(i + 1);
        assert(step.drop_last() =~= prefix);
        assert(step.last() == config@.identity[i as int]);
        let identity_config = &config.identity[i];
        let ghost ic = config@.identity[i as int];
        let ghost pair_of = |a: AccountConfigView| IdentityView {
            identity_config: ic,
            account_config: a,
        };
        match &identity_config.account {
            Option::None => {
                assert(identity_token_candidates(ic, token@) =~= Seq::empty());
            },
            Option::Some(accounts) => {
                let m = accounts.len();
                assert(accounts.deep_view().take(0) =~= Seq::empty());
                assert(accounts.deep_view().take(0).map_values(pair_of) =~= Seq::empty());
                let mut j: usize = 0;
                while j < m
                    invariant
                        m == accounts.len(),
                        j <= m,
                        accounts.deep_view() == ic.accounts_or_empty(),
                        found.deep_view() == config_token_candidates(
                            config@.identity.take(i as int),
                            token@,
                        ) + accounts_with_token(
                            accounts.deep_view().take(j as int),
                            token@,
                        ).map_values(pair_of),
                        pair_of == (|a: AccountConfigView| IdentityView {
                            identity_config: ic,
                            account_config: a,
                        }),
                        0 <= i < config.identity.len(),
                        ic == config@.identity[i as int],
                        identity_config@ == ic,
                    decreases m - j,
                {
                    let ghost aprefix = accounts.deep_view().take(j as int);
                    let ghost astep = accounts.deep_view().take(j + 1);
                    assert(astep.drop_last() =~= aprefix);
                    assert(astep.last() == accounts.deep_view()[j as int]);
                    let account = &accounts[j];
                    let token_here = match &account.token {
                        Option::Some(t) => str_eq(t.as_str(), token.as_str()),
                        Option::None => false,
                    };
                    if token_here && str_eq(account.service.as_str(), crate::cargo_service()) {
                        let ghost pre = found.deep_view();
                        let pair = Identity::from(identity_config, account);
                        found.push(pair);
                        assert(found.deep_view() =~= pre.push(
                            pair_of(accounts.deep_view()[j as int]),
                        ));
                        assert(accounts.deep_view().take(j + 1).map_values(pair_of)
                            =~= accounts.deep_view().take(j as int).map_values(pair_of).push(
                            pair_of(accounts.deep_view()[j as int]),
                        ));
                    } else {
                        assert(!token_account_matches(accounts.deep_view()[j as int], token@));
                    }
                    j = j + 1;
                }
                assert(accounts.deep_view().take(m as int) =~= accounts.deep_view());
            },
        }
        assert(found.deep_view() == config_token_candidates(step, token@));
        i = i + 1;
    }
    assert(config@.identity.take(n as int) =~= config@.identity);
    if found.len() == 0 {
        Result::Err(ResolutionError::NoMatch)
    } else if found.len() == 1 {
        let only = match found.pop() {
            Option::Some(identity) => identity,
            Option::None => unreached(),
        };
        Result::Ok(only)
    } else {
        Result::Err(ResolutionError::MultipleMatches(found))
    }
}

} // verus!
