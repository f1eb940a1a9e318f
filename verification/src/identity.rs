//! A resolved identity: one identity paired with the account that was
//! selected for it. Account fields override the identity's defaults for
//! `user` and `description`; `id`, `email` come from the identity alone and
//! `match_url`, `token` from the account alone.

use vstd::prelude::*;

use crate::config::AccountConfig;
use crate::config::AccountConfigView;
use crate::config::IdentityConfig;
use crate::config::IdentityConfigView;

verus! {

/// Spec-level image of an [`Identity`].
pub struct IdentityView {
    pub identity_config: IdentityConfigView,
    pub account_config: AccountConfigView,
}

impl IdentityView {
    /// The user the pair resolves to: the account's, or the identity's
    /// default when the account has none.
    pub open spec fn effective_user(self) -> Option<Seq<char>> {
        match self.account_config.user {
            Option::Some(u) => Option::Some(u),
            Option::None => self.identity_config.user,
        }
    }

    /// The description the pair resolves to: the account's, or the
    /// identity's default when the account has none.
    pub open spec fn effective_description(self) -> Option<Seq<char>> {
        match self.account_config.description {
            Option::Some(d) => Option::Some(d),
            Option::None => self.identity_config.description,
        }
    }
}

/// One identity together with the account selected for it.
#[derive(Debug)]
pub struct Identity {
    identity_config: IdentityConfig,
    account_config: AccountConfig,
}

impl View for Identity {
    type V = IdentityView;

    closed spec fn view(&self) -> IdentityView {
        IdentityView { identity_config: self.identity_config@, account_config: self.account_config@ }
    }
}

impl DeepView for Identity {
    type V = IdentityView;

    open spec fn deep_view(&self) -> IdentityView {
        self.view()
    }
}

impl Clone for Identity {
    fn clone(&self) -> (r: Self)
        ensures
            r@ == self@,
    {
        Identity {
            identity_config: self.identity_config.clone(),
            account_config: self.account_config.clone(),
        }
    }
}

impl Identity {
    /// Pairs an identity with one of its accounts.
    pub fn from(identity_config: &IdentityConfig, account_config: &AccountConfig) -> (r: Identity)
        ensures
            r@ == (IdentityView { identity_config: identity_config@, account_config: account_config@ }),
    {
        Identity {
            identity_config: identity_config.clone(),
            account_config: account_config.clone(),
        }
    }

    /// The identity's unique id.
    pub fn id(&self) -> (r: &str)
        ensures
            r@ == self@.identity_config.id,
    {
        self.identity_config.id.as_str()
    }

    /// The identity's email; there is one per identity, never per account.
    pub fn email(&self) -> (r: Option<&String>)
        ensures
            r.deep_view() == self@.identity_config.email,
    {
        self.identity_config.email.as_ref()
    }

    /// The effective user: the account's, falling back to the identity's.
    pub fn user(&self) -> (r: Option<&String>)
        ensures
            r.deep_view() == self@.effective_user(),
    {
        match &self.account_config.user {
            Option::Some(u) => Option::Some(u),
            Option::None => self.identity_config.user.as_ref(),
        }
    }

    /// The account's match pattern.
    pub fn match_url(&self) -> (r: Option<&String>)
        ensures
            r.deep_view() == self@.account_config.match_url,
    {
        self.account_config.match_url.as_ref()
    }

    /// The effective description: the account's, falling back to the
    /// identity's.
    pub fn description(&self) -> (r: Option<&String>)
        ensures
            r.deep_view() == self@.effective_description(),
    {
        match &self.account_config.description {
            Option::Some(d) => Option::Some(d),
            Option::None => self.identity_config.description.as_ref(),
        }
    }

    /// The account's token.
    pub fn token(&self) -> (r: Option<&String>)
        ensures
            r.deep_view() == self@.account_config.token,
    {
        self.account_config.token.as_ref()
    }
}

/// The one-line rendering of a resolved identity: its id and the effective
/// user, email and description, with placeholders where a field is absent.
pub open spec fn spec_identity_display(identity: IdentityView) -> Seq<char> {
    identity.identity_config.id + ", [user="@ + (match identity.effective_user() {
        Option::Some(u) => u,
        Option::None => "no username"@,
    }) + ", email="@ + (match identity.identity_config.email {
        Option::Some(e) => e,
        Option::None => "no email"@,
    }) + ", desc="@ + (match identity.effective_description() {
        Option::Some(d) => d,
        Option::None => "no description"@,
    }) + "]"@
}

impl Identity {
    /// Renders the resolved identity for messages and confirmations.
    pub fn display_string(&self) -> (r: String)
        ensures
            r@ == spec_identity_display(self@),
    {
        let mut out = self.identity_config.id.clone();
        out.append(", [user=");
        match self.user() {
            Option::Some(u) => out.append(u.as_str()),
            Option::None => out.append("no username"),
        }
        out.append(", email=");
        match &self.identity_config.email {
            Option::Some(e) => out.append(e.as_str()),
            Option::None => out.append("no email"),
        }
        out.append(", desc=");
        match self.description() {
            Option::Some(d) => out.append(d.as_str()),
            Option::None => out.append("no description"),
        }
        out.append("]");
        out
    }
}

/// Law: an account without a user falls back to the owning identity's user,
/// and an account with a user keeps it whatever the identity's default says.
pub proof fn lemma_user_override_fallback(identity: IdentityView)
    ensures
        identity.account_config.user is None ==> identity.effective_user()
            == identity.identity_config.user,
        identity.account_config.user is Some ==> identity.effective_user()
            == identity.account_config.user,
{
}

} // verus!
