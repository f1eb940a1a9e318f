//! The identity store: the configuration data model (a schema version and an
//! ordered sequence of identities, each with optional per-service accounts),
//! its uniqueness invariant, and lookups over it.

use vstd::prelude::*;

use crate::identity::Identity;
use crate::identity::IdentityView;
use crate::matcher::spec_matches;
use crate::matcher::str_eq;
use crate::matcher::url_matches;

verus! {

/// Spec-level image of an [`AccountConfig`].
pub struct AccountConfigView {
    pub service: Seq<char>,
    pub user: Option<Seq<char>>,
    pub match_url: Option<Seq<char>>,
    pub description: Option<Seq<char>>,
    pub token: Option<Seq<char>>,
}

/// A per-service binding within an identity. `user` and `description`
/// override the owning identity's defaults; `match_url` selects which remote
/// URLs the account applies to; `token` is an opaque service-specific secret.
#[derive(Debug)]
pub struct AccountConfig {
    pub service: String,
    pub user: Option<String>,
    pub match_url: Option<String>,
    pub description: Option<String>,
    pub token: Option<String>,
}

impl View for AccountConfig {
    type V = AccountConfigView;

    open spec fn view(&self) -> AccountConfigView {
        AccountConfigView {
            service: self.service@,
            user: self.user.deep_view(),
            match_url: self.match_url.deep_view(),
            description: self.description.deep_view(),
            token: self.token.deep_view(),
        }
    }
}

impl DeepView for AccountConfig {
    type V = AccountConfigView;

    open spec fn deep_view(&self) -> AccountConfigView {
        self.view()
    }
}

/// Spec-level image of an [`IdentityConfig`].
pub struct IdentityConfigView {
    pub id: Seq<char>,
    pub user: Option<Seq<char>>,
    pub email: Option<Seq<char>>,
    pub description: Option<Seq<char>>,
    pub account: Option<Seq<AccountConfigView>>,
}

impl IdentityConfigView {
    /// The identity's accounts, with a missing account list read as empty.
    pub open spec fn accounts_or_empty(self) -> Seq<AccountConfigView> {
        match self.account {
            Option::Some(accounts) => accounts,
            Option::None => Seq::empty(),
        }
    }
}

/// A named identity: a unique `id`, optional default `user`, one optional
/// `email` shared by all its accounts, an optional `description`, and zero or
/// more per-service accounts.
#[derive(Debug)]
pub struct IdentityConfig {
    pub id: String,
    pub user: Option<String>,
    pub email: Option<String>,
    pub description: Option<String>,
    pub account: Option<Vec<AccountConfig>>,
}

impl View for IdentityConfig {
    type V = IdentityConfigView;

    open spec fn view(&self) -> IdentityConfigView {
        IdentityConfigView {
            id: self.id@,
            user: self.user.deep_view(),
            email: self.email.deep_view(),
            description: self.description.deep_view(),
            account: self.account.deep_view(),
        }
    }
}

impl DeepView for IdentityConfig {
    type V = IdentityConfigView;

    open spec fn deep_view(&self) -> IdentityConfigView {
        self.view()
    }
}

/// Spec-level image of a [`Config`].
pub struct ConfigView {
    pub version: Seq<char>,
    pub identity: Seq<IdentityConfigView>,
}

/// The configuration root: a schema version and the ordered identities.
#[derive(Debug)]
pub struct Config {
    pub version: String,
    pub identity: Vec<IdentityConfig>,
}

impl View for Config {
    type V = ConfigView;

    open spec fn view(&self) -> ConfigView {
        ConfigView { version: self.version@, identity: self.identity.deep_view() }
    }
}

impl DeepView for Config {
    type V = ConfigView;

    open spec fn deep_view(&self) -> ConfigView {
        self.view()
    }
}

fn clone_opt_string(o: &Option<String>) -> (r: Option<String>)
    ensures
        r == *o,
{
    match o {
        Option::Some(s) => Option::Some(s.clone()),
        Option::None => Option::None,
    }
}

impl Clone for AccountConfig {
    fn clone(&self) -> (r: Self)
        ensures
            r == *self,
    {
        AccountConfig {
            service: self.service.clone(),
            user: clone_opt_string(&self.user),
            match_url: clone_opt_string(&self.match_url),
            description: clone_opt_string(&self.description),
            token: clone_opt_string(&self.token),
        }
    }
}

impl Clone for IdentityConfig {
    fn clone(&self) -> (r: Self)
        ensures
            r@ == self@,
    {
        let account: Option<Vec<AccountConfig>> = match &self.account {
            Option::Some(accounts) => {
                let mut copies: Vec<AccountConfig> = Vec::new();
                let mut i: usize = 0;
                while i < accounts.len()
                    invariant
                        i <= accounts.len(),
                        copies@.len() == i,
                        forall|k: int|
                            0 <= k < i ==> #[trigger] copies.deep_view()[k]
                                == accounts.deep_view()[k],
                    decreases accounts.len() - i,
                {
                    let copy = accounts[i].clone();
                    assert(copy@ == accounts.deep_view()[i as int]);
                    let ghost pre = copies.deep_view();
                    copies.push(copy);
                    assert forall|k: int| 0 <= k < i + 1 implies #[trigger] copies.deep_view()[k]
                        == accounts.deep_view()[k] by {
                        if k < i {
                            assert(copies.deep_view()[k] == pre[k]);
                        } else {
                            assert(copies.deep_view()[k] == copy@);
                        }
                    }
                    i = i + 1;
                }
                assert(copies.deep_view() =~= accounts.deep_view());
                Option::Some(copies)
            },
            Option::None => Option::None,
        };
        IdentityConfig {
            id: self.id.clone(),
            user: clone_opt_string(&self.user),
            email: clone_opt_string(&self.email),
            description: clone_opt_string(&self.description),
            account,
        }
    }
}

impl AccountConfig {
    /// Whether this account's match pattern accepts the candidate URL.
    pub fn account_matches_url(&self, url: &str) -> (r: bool)
        ensures
            r == spec_matches(self@.match_url, url@),
    {
        match &self.match_url {
            Option::Some(pattern) => url_matches(Option::Some(pattern.as_str()), url),
            Option::None => false,
        }
    }
}

/// Reasons resolving an identity for a request fails.
#[derive(Debug)]
pub enum ResolutionError {
    /// No account of the requested service matches the URL.
    NoMatch,
    /// Several accounts match; the full candidate list is carried for
    /// diagnostics, and no best match is ever guessed.
    MultipleMatches(Vec<Identity>),
    /// One identity holds more than one account for the same service.
    MultipleAccountsForService,
}

/// An account applies to a request: it is of the requested service and its
/// match pattern accepts the URL.
pub open spec fn account_matches(a: AccountConfigView, service: Seq<char>, url: Seq<char>) -> bool {
    a.service == service && spec_matches(a.match_url, url)
}

/// The accounts of a list that apply to a request, in list order.
pub open spec fn matching_accounts(
    accounts: Seq<AccountConfigView>,
    service: Seq<char>,
    url: Seq<char>,
) -> Seq<AccountConfigView>
    decreases accounts.len(),
{
    if accounts.len() == 0 {
        Seq::empty()
    } else {
        let rest = matching_accounts(accounts.drop_last(), service, url);
        if account_matches(accounts.last(), service, url) {
            rest.push(accounts.last())
        } else {
            rest
        }
    }
}

/// The accounts of a list that belong to a service, in list order.
pub open spec fn service_accounts(
    accounts: Seq<AccountConfigView>,
    service: Seq<char>,
) -> Seq<AccountConfigView>
    decreases accounts.len(),
{
    if accounts.len() == 0 {
        Seq::empty()
    } else {
        let rest = service_accounts(accounts.drop_last(), service);
        if accounts.last().service == service {
            rest.push(accounts.last())
        } else {
            rest
        }
    }
}

/// The candidate pairs a single identity contributes to a request.
pub open spec fn identity_candidates(
    ic: IdentityConfigView,
    service: Seq<char>,
    url: Seq<char>,
) -> Seq<IdentityView> {
    matching_accounts(ic.accounts_or_empty(), service, url).map_values(
        |a: AccountConfigView| IdentityView { identity_config: ic, account_config: a },
    )
}

/// The candidate pairs of a whole identity list, in configuration order.
pub open spec fn config_candidates(
    identities: Seq<IdentityConfigView>,
    service: Seq<char>,
    url: Seq<char>,
) -> Seq<IdentityView>
    decreases identities.len(),
{
    if identities.len() == 0 {
        Seq::empty()
    } else {
        config_candidates(identities.drop_last(), service, url) + identity_candidates(
            identities.last(),
            service,
            url,
        )
    }
}

/// All candidate pairs of a configuration for a request.
pub open spec fn candidates(c: ConfigView, service: Seq<char>, url: Seq<char>) -> Seq<
    IdentityView,
> {
    config_candidates(c.identity, service, url)
}

impl IdentityConfig {
    /// The accounts of this identity that apply to the request, in order.
    pub fn accounts_for_url(&self, service: &str, url: &str) -> (r: Vec<AccountConfig>)
        ensures
            r.deep_view() == matching_accounts(self@.accounts_or_empty(), service@, url@),
    {
        let mut found: Vec<AccountConfig> = Vec::new();
        match &self.account {
            Option::None => {
                assert(found.deep_view() =~= matching_accounts(
                    self@.accounts_or_empty(),
                    service@,
                    url@,
                ));
            },
            Option::Some(accounts) => {
                let n = accounts.len();
                assert(accounts.deep_view().take(0) =~= Seq::empty());
                let mut j: usize = 0;
                while j < n
                    invariant
                        n == accounts.len(),
                        j <= n,
                        accounts.deep_view() == self@.accounts_or_empty(),
                        found.deep_view() == matching_accounts(
                            accounts.deep_view().take(j as int),
                            service@,
                            url@,
                        ),
                    decreases n - j,
                {
                    let ghost prefix = accounts.deep_view().take(j as int);
                    let ghost step = accounts.deep_view().take(j + 1);
                    assert(step.drop_last() =~= prefix);
                    assert(step.last() == accounts.deep_view()[j as int]);
                    if str_eq(accounts[j].service.as_str(), service) && accounts[
                        j
                    ].account_matches_url(url) {
                        let ghost pre = found.deep_view();
                        let copy = accounts[j].clone();
                        assert(copy@ == accounts.deep_view()[j as int]);
                        found.push(copy);
                        assert(found.deep_view() =~= pre.push(accounts.deep_view()[j as int]));
                    } else {
                        assert(!account_matches(accounts.deep_view()[j as int], service@, url@));
                    }
                    j = j + 1;
                }
                assert(accounts.deep_view().take(n as int) =~= accounts.deep_view());
            },
        }
        found
    }

    /// The account this identity holds for a service, when it holds exactly
    /// one; several accounts for the same service are a configuration error,
    /// never silently resolved.
    pub fn identity_for_service(&self, service: &str) -> (r: Result<
        Option<Identity>,
        ResolutionError,
    >)
        ensures
            ({
                let sa = service_accounts(self@.accounts_or_empty(), service@);
                match r {
                    Result::Ok(Option::None) => sa.len() == 0,
                    Result::Ok(Option::Some(identity)) => sa.len() == 1 && identity@
                        == (IdentityView { identity_config: self@, account_config: sa[0] }),
                    Result::Err(ResolutionError::MultipleAccountsForService) => sa.len() >= 2,
                    Result::Err(_) => false,
                }
            }),
    {
        let mut found: Vec<AccountConfig> = Vec::new();
        match &self.account {
            Option::None => {
                assert(found.deep_view() =~= service_accounts(self@.accounts_or_empty(), service@));
            },
            Option::Some(accounts) => {
                let n = accounts.len();
                assert(accounts.deep_view().take(0) =~= Seq::empty());
                let mut j: usize = 0;
                while j < n
                    invariant
                        n == accounts.len(),
                        j <= n,
                        accounts.deep_view() == self@.accounts_or_empty(),
                        found.deep_view() == service_accounts(
                            accounts.deep_view().take(j as int),
                            service@,
                        ),
                    decreases n - j,
                {
                    let ghost prefix = accounts.deep_view().take(j as int);
                    let ghost step = accounts.deep_view().take(j + 1);
                    assert(step.drop_last() =~= prefix);
                    assert(step.last() == accounts.deep_view()[j as int]);
                    if str_eq(accounts[j].service.as_str(), service) {
                        let ghost pre = found.deep_view();
                        let copy = accounts[j].clone();
                        assert(copy@ == accounts.deep_view()[j as int]);
                        found.push(copy);
                        assert(found.deep_view() =~= pre.push(accounts.deep_view()[j as int]));
                    }
                    j = j + 1;
                }
                assert(accounts.deep_view().take(n as int) =~= accounts.deep_view());
            },
        }
        if found.len() == 0 {
            Result::Ok(Option::None)
        } else if found.len() == 1 {
            let first = &found[0];
            Result::Ok(Option::Some(Identity::from(self, first)))
        } else {
            Result::Err(ResolutionError::MultipleAccountsForService)
        }
    }
}

impl Config {
    /// Resolves the single identity whose account applies to the request.
    /// Zero candidates over the whole configuration are `NoMatch`; two or
    /// more are `MultipleMatches` carrying every candidate in order.
    pub fn account_for_url(&self, service: &str, url: &str) -> (r: Result<
        Identity,
        ResolutionError,
    >)
        ensures
            ({
                let cs = candidates(self@, service@, url@);
                match r {
                    Result::Ok(identity) => cs.len() == 1 && identity@ == cs[0],
                    Result::Err(ResolutionError::NoMatch) => cs.len() == 0,
                    Result::Err(ResolutionError::MultipleMatches(l)) => cs.len() >= 2
                        && l.deep_view() == cs,
                    Result::Err(ResolutionError::MultipleAccountsForService) => false,
                }
            }),
    {
        let mut found: Vec<Identity> = Vec::new();
        let n = self.identity.len();
        assert(self@.identity.take(0) =~= Seq::empty());
        let mut i: usize = 0;
        while i < n
            invariant
                n == self.identity.len(),
                i <= n,
                found.deep_view() == config_candidates(
                    self@.identity.take(i as int),
                    service@,
                    url@,
                ),
            decreases n - i,
        {
            let ghost prefix = self@.identity.take(i as int);
            let ghost step = self@.identity.take(i + 1);
            assert(step.drop_last() =~= prefix);
            assert(step.last() == self@.identity[i as int]);
            let identity_config = &self.identity[i];
            let matches_here = identity_config.accounts_for_url(service, url);
            let ghost ic = self@.identity[i as int];
            let ghost pair_of = |a: AccountConfigView| IdentityView {
                identity_config: ic,
                account_config: a,
            };
            let m = matches_here.len();
            assert(matches_here.deep_view().take(0) =~= Seq::empty());
            assert(matches_here.deep_view().take(0).map_values(pair_of) =~= Seq::empty());
            let mut j: usize = 0;
            while j < m
                invariant
                    m == matches_here.len(),
                    j <= m,
                    found.deep_view() == config_candidates(
                        self@.identity.take(i as int),
                        service@,
                        url@,
                    ) + matches_here.deep_view().take(j as int).map_values(pair_of),
                    pair_of == (|a: AccountConfigView| IdentityView {
                        identity_config: ic,
                        account_config: a,
                    }),
                    0 <= i < self.identity.len(),
                    ic == self@.identity[i as int],
                    identity_config@ == ic,
                decreases m - j,
            {
                let ghost pre = found.deep_view();
                let pair = Identity::from(identity_config, &matches_here[j]);
                found.push(pair);
                assert(found.deep_view() =~= pre.push(
                    pair_of(matches_here.deep_view()[j as int]),
                ));
                assert(matches_here.deep_view().take(j + 1).map_values(pair_of)
                    =~= matches_here.deep_view().take(j as int).map_values(pair_of).push(
                    pair_of(matches_here.deep_view()[j as int]),
                ));
                j = j + 1;
            }
            assert(matches_here.deep_view().take(m as int) =~= matches_here.deep_view());
            assert(matches_here.deep_view().map_values(pair_of) == identity_candidates(
                ic,
                service@,
                url@,
            ));
            i = i + 1;
        }
        assert(self@.identity.take(n as int) =~= self@.identity);
        if found.len() == 0 {
            Result::Err(ResolutionError::NoMatch)
        } else if found.len() == 1 {
            let only = match found.pop() {
                Option::Some(identity) => identity,
                Option::None => unreached(),
            };
            Result::Ok(only)
        } else {
            Result::Err(ResolutionError::MultipleMatches(found))
        }
    }
}

proof fn lemma_matching_accounts_some(
    accounts: Seq<AccountConfigView>,
    service: Seq<char>,
    url: Seq<char>,
    j: int,
)
    requires
        0 <= j < accounts.len(),
        account_matches(accounts[j], service, url),
    ensures
        matching_accounts(accounts, service, url).len() >= 1,
    decreases accounts.len(),
{
    if j < accounts.len() - 1 {
        lemma_matching_accounts_some(accounts.drop_last(), service, url, j);
    }
}

proof fn lemma_matching_accounts_two(
    accounts: Seq<AccountConfigView>,
    service: Seq<char>,
    url: Seq<char>,
    j1: int,
    j2: int,
)
    requires
        0 <= j1 < j2 < accounts.len(),
        account_matches(accounts[j1], service, url),
        account_matches(accounts[j2], service, url),
    ensures
        matching_accounts(accounts, service, url).len() >= 2,
    decreases accounts.len(),
{
    if j2 == accounts.len() - 1 {
        lemma_matching_accounts_some(accounts.drop_last(), service, url, j1);
    } else {
        lemma_matching_accounts_two(accounts.drop_last(), service, url, j1, j2);
    }
}

proof fn lemma_matching_accounts_contains(
    accounts: Seq<AccountConfigView>,
    service: Seq<char>,
    url: Seq<char>,
    j: int,
)
    requires
        0 <= j < accounts.len(),
        account_matches(accounts[j], service, url),
    ensures
        matching_accounts(accounts, service, url).contains(accounts[j]),
    decreases accounts.len(),
{
    let m = matching_accounts(accounts, service, url);
    if j == accounts.len() - 1 {
        assert(m[m.len() - 1] == accounts[j]);
    } else {
        lemma_matching_accounts_contains(accounts.drop_last(), service, url, j);
        let rest = matching_accounts(accounts.drop_last(), service, url);
        let k = choose|k: int| 0 <= k < rest.len() && rest[k] == accounts.drop_last()[j];
        assert(m[k] == accounts[j]);
    }
}

proof fn lemma_config_candidates_some(
    identities: Seq<IdentityConfigView>,
    service: Seq<char>,
    url: Seq<char>,
    i: int,
    j: int,
)
    requires
        0 <= i < identities.len(),
        0 <= j < identities[i].accounts_or_empty().len(),
        account_matches(identities[i].accounts_or_empty()[j], service, url),
    ensures
        config_candidates(identities, service, url).len() >= 1,
    decreases identities.len(),
{
    if i == identities.len() - 1 {
        lemma_matching_accounts_some(identities[i].accounts_or_empty(), service, url, j);
    } else {
        lemma_config_candidates_some(identities.drop_last(), service, url, i, j);
    }
}

proof fn lemma_config_candidates_two(
    identities: Seq<IdentityConfigView>,
    service: Seq<char>,
    url: Seq<char>,
    i1: int,
    j1: int,
    i2: int,
    j2: int,
)
    requires
        0 <= i1 <= i2 < identities.len(),
        0 <= j1 < identities[i1].accounts_or_empty().len(),
        0 <= j2 < identities[i2].accounts_or_empty().len(),
        i1 == i2 ==> j1 < j2,
        account_matches(identities[i1].accounts_or_empty()[j1], service, url),
        account_matches(identities[i2].accounts_or_empty()[j2], service, url),
    ensures
        config_candidates(identities, service, url).len() >= 2,
    decreases identities.len(),
{
    if i2 == identities.len() - 1 {
        if i1 == i2 {
            lemma_matching_accounts_two(identities[i2].accounts_or_empty(), service, url, j1, j2);
        } else {
            lemma_config_candidates_some(identities.drop_last(), service, url, i1, j1);
            lemma_matching_accounts_some(identities[i2].accounts_or_empty(), service, url, j2);
        }
    } else {
        lemma_config_candidates_two(identities.drop_last(), service, url, i1, j1, i2, j2);
    }
}

proof fn lemma_config_candidates_contains(
    identities: Seq<IdentityConfigView>,
    service: Seq<char>,
    url: Seq<char>,
    i: int,
    j: int,
)
    requires
        0 <= i < identities.len(),
        0 <= j < identities[i].accounts_or_empty().len(),
        account_matches(identities[i].accounts_or_empty()[j], service, url),
    ensures
        config_candidates(identities, service, url).contains(
            IdentityView {
                identity_config: identities[i],
                account_config: identities[i].accounts_or_empty()[j],
            },
        ),
    decreases identities.len(),
{
    let pair = IdentityView {
        identity_config: identities[i],
        account_config: identities[i].accounts_or_empty()[j],
    };
    let full = config_candidates(identities, service, url);
    if i == identities.len() - 1 {
        let accounts = identities[i].accounts_or_empty();
        lemma_matching_accounts_contains(accounts, service, url, j);
        let ma = matching_accounts(accounts, service, url);
        let k = choose|k: int| 0 <= k < ma.len() && ma[k] == accounts[j];
        let rest = config_candidates(identities.drop_last(), service, url);
        assert(identity_candidates(identities[i], service, url)[k] == pair);
        assert(full[rest.len() + k] == pair);
    } else {
        lemma_config_candidates_contains(identities.drop_last(), service, url, i, j);
        let rest = config_candidates(identities.drop_last(), service, url);
        let k = choose|k: int| 0 <= k < rest.len() && rest[k] == pair;
        assert(full[k] == pair);
    }
}

/// Law: two distinct accounts of the requested service, both matching the
/// same URL, leave resolution ambiguous: the candidate list holds at least
/// two entries and carries both pairs, so the resolver reports them all
/// rather than picking one. The two accounts stand at positions
/// `(i1, j1)` and `(i2, j2)` of the configuration, in order.
pub proof fn lemma_resolve_ambiguous(
    c: ConfigView,
    service: Seq<char>,
    url: Seq<char>,
    i1: int,
    j1: int,
    i2: int,
    j2: int,
)
    requires
        0 <= i1 <= i2 < c.identity.len(),
        0 <= j1 < c.identity[i1].accounts_or_empty().len(),
        0 <= j2 < c.identity[i2].accounts_or_empty().len(),
        i1 == i2 ==> j1 < j2,
        account_matches(c.identity[i1].accounts_or_empty()[j1], service, url),
        account_matches(c.identity[i2].accounts_or_empty()[j2], service, url),
    ensures
        candidates(c, service, url).len() >= 2,
        candidates(c, service, url).contains(
            IdentityView {
                identity_config: c.identity[i1],
                account_config: c.identity[i1].accounts_or_empty()[j1],
            },
        ),
        candidates(c, service, url).contains(
            IdentityView {
                identity_config: c.identity[i2],
                account_config: c.identity[i2].accounts_or_empty()[j2],
            },
        ),
{
    lemma_config_candidates_two(c.identity, service, url, i1, j1, i2, j2);
    lemma_config_candidates_contains(c.identity, service, url, i1, j1);
    lemma_config_candidates_contains(c.identity, service, url, i2, j2);
}

proof fn lemma_matching_accounts_empty(
    accounts: Seq<AccountConfigView>,
    service: Seq<char>,
    url: Seq<char>,
)
    requires
        forall|j: int| 0 <= j < accounts.len() ==> (#[trigger] accounts[j]).service != service,
    ensures
        matching_accounts(accounts, service, url).len() == 0,
    decreases accounts.len(),
{
    if accounts.len() > 0 {
        lemma_matching_accounts_empty(accounts.drop_last(), service, url);
    }
}

/// Law: a configuration holding no account of the requested service yields
/// an empty candidate list, so resolution reports that nothing matched.
pub proof fn lemma_resolve_no_service(c: ConfigView, service: Seq<char>, url: Seq<char>)
    requires
        forall|i: int, j: int|
            0 <= i < c.identity.len() && 0 <= j < c.identity[i].accounts_or_empty().len()
                ==> (#[trigger] c.identity[i].accounts_or_empty()[j]).service != service,
    ensures
        candidates(c, service, url).len() == 0,
{
    lemma_config_candidates_empty(c.identity, service, url);
}

proof fn lemma_config_candidates_empty(
    identities: Seq<IdentityConfigView>,
    service: Seq<char>,
    url: Seq<char>,
)
    requires
        forall|i: int, j: int|
            0 <= i < identities.len() && 0 <= j < identities[i].accounts_or_empty().len()
                ==> (#[trigger] identities[i].accounts_or_empty()[j]).service != service,
    ensures
        config_candidates(identities, service, url).len() == 0,
    decreases identities.len(),
{
    if identities.len() > 0 {
        let last = identities.len() - 1;
        assert forall|j: int|
            0 <= j < identities[last].accounts_or_empty().len() implies (#[trigger] identities[
            last
        ].accounts_or_empty()[j]).service != service by {}
        lemma_matching_accounts_empty(identities[last].accounts_or_empty(), service, url);
        lemma_config_candidates_empty(identities.drop_last(), service, url);
    }
}

/// The one-line rendering of an identity entry: its id and its email, or
/// `No email` where it has none.
pub open spec fn spec_identity_config_display(ic: IdentityConfigView) -> Seq<char> {
    ic.id + " - "@ + (match ic.email {
        Option::Some(e) => e,
        Option::None => "No email"@,
    })
}

impl IdentityConfig {
    /// Renders the entry for listings and prompts.
    pub fn display_string(&self) -> (r: String)
        ensures
            r@ == spec_identity_config_display(self@),
    {
        let mut out = self.id.clone();
        out.append(" - ");
        match &self.email {
            Option::Some(e) => out.append(e.as_str()),
            Option::None => out.append("No email"),
        }
        out
    }
}

/// All identity ids in the configuration are pairwise distinct.
pub open spec fn unique_ids(c: ConfigView) -> bool {
    forall|i: int, j: int|
        0 <= i < j < c.identity.len() ==> c.identity[i].id != c.identity[j].id
}

/// Reasons loading or validating a configuration fails.
#[derive(Debug, PartialEq, Eq)]
pub enum ConfigError {
    NotFound,
    ParseFailure,
    DuplicateId,
}

/// Checks the store's uniqueness invariant: every identity id occurs once.
pub fn verify_config(config: &Config) -> (r: Result<(), ConfigError>)
    ensures
        r is Ok <==> unique_ids(config@),
        r is Err ==> r == Result::<(), ConfigError>::Err(ConfigError::DuplicateId),
{
    let n = config.identity.len();
    let mut i: usize = 1;
    while i < n
        invariant
            n == config.identity.len(),
            1 <= i,
            forall|i2: int, j2: int|
                0 <= j2 < i2 < i ==> config@.identity[i2].id != config@.identity[j2].id,
        decreases n - i,
    {
        let mut j: usize = 0;
        while j < i
            invariant
                n == config.identity.len(),
                j <= i < n,
                forall|j2: int| 0 <= j2 < j ==> config@.identity[i as int].id != config@.identity[j2].id,
            decreases i - j,
        {
            if str_eq(config.identity[i].id.as_str(), config.identity[j].id.as_str()) {
                assert(!unique_ids(config@)) by {
                    assert(config@.identity[j as int].id == config@.identity[i as int].id);
                }
                return Result::Err(ConfigError::DuplicateId);
            }
            j = j + 1;
        }
        i = i + 1;
    }
    Result::Ok(())
}

/// The first identity carrying the given id, if any.
pub open spec fn first_with_id(ids: Seq<IdentityConfigView>, id: Seq<char>) -> Option<
    IdentityConfigView,
>
    decreases ids.len(),
{
    if ids.len() == 0 {
        Option::None
    } else if ids[0].id == id {
        Option::Some(ids[0])
    } else {
        first_with_id(ids.drop_first(), id)
    }
}

/// Looks an identity up by its id; returns the first one carrying it.
pub fn identity_by_id(config: &Config, id: &str) -> (r: Option<IdentityConfig>)
    ensures
        r.deep_view() == first_with_id(config@.identity, id@),
{
    let n = config.identity.len();
    assert(config@.identity.skip(0) =~= config@.identity);
    let mut i: usize = 0;
    while i < n
        invariant
            n == config.identity.len(),
            i <= n,
            first_with_id(config@.identity, id@) == first_with_id(
                config@.identity.skip(i as int),
                id@,
            ),
        decreases n - i,
    {
        if str_eq(config.identity[i].id.as_str(), id) {
            assert(config@.identity.skip(i as int)[0] == config@.identity[i as int]);
            return Option::Some(config.identity[i].clone());
        }
        assert(config@.identity.skip(i as int).drop_first() =~= config@.identity.skip(i + 1));
        i = i + 1;
    }
    assert(config@.identity.skip(n as int).len() == 0);
    Option::None
}

/// The configuration a fresh installation starts from: schema version `1.0`
/// and no identities.
pub fn default_config() -> (r: Config)
    ensures
        r@.version == "1.0"@,
        r@.identity == Seq::<IdentityConfigView>::empty(),
{
    let c = Config { version: "1.0".to_owned(), identity: Vec::new() };
    assert(c@.identity =~= Seq::<IdentityConfigView>::empty());
    c
}

/// A configuration slot filled on first need: empty until the caller loads
/// the persisted configuration and hands it over.
pub struct LazyConfig {
    config: Option<Config>,
}

impl View for LazyConfig {
    type V = Option<ConfigView>;

    closed spec fn view(&self) -> Option<ConfigView> {
        self.config.deep_view()
    }
}

impl LazyConfig {
    /// An empty slot; nothing is loaded yet.
    pub fn new() -> (r: Self)
        ensures
            r@ is None,
    {
        LazyConfig { config: Option::None }
    }

    /// Whether a configuration has been installed.
    pub fn is_loaded(&self) -> (r: bool)
        ensures
            r == (self@ is Some),
    {
        self.config.is_some()
    }

    /// Installs a freshly loaded configuration, unless one is already held:
    /// loading happens at most once.
    pub fn required(&mut self, loaded: Config)
        ensures
            final(self)@ is Some,
            old(self)@ is Some ==> final(self)@ == old(self)@,
            old(self)@ is None ==> final(self)@ == Option::Some(loaded@),
    {
        if self.config.is_none() {
            self.config = Option::Some(loaded);
        }
    }

    /// Replaces the held configuration with an updated one, after the caller
    /// has persisted it.
    pub fn update(&mut self, updated: Config)
        ensures
            final(self)@ == Option::Some(updated@),
    {
        self.config = Option::Some(updated);
    }

    /// The held configuration.
    pub fn get(&self) -> (r: &Config)
        requires
            self@ is Some,
        ensures
            r@ == self@->0,
    {
        match &self.config {
            Option::Some(c) => c,
            Option::None => unreached(),
        }
    }
}

} // verus!
