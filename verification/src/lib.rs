//! Identity management core: a data model for named identities with
//! per-service accounts, a URL matcher that selects the account applying to a
//! remote, a resolver with an explicit ambiguity policy, a consistency check
//! that compares configured identities against live values, and the decision
//! logic for switching the live values to a resolved identity.

use vstd::prelude::*;

pub mod cargo;
pub mod check;
pub mod config;
pub mod credentials;
pub mod identity;
pub mod matcher;
pub mod switch;

verus! {

/// The service tag identities use for the version-control integration.
pub open spec fn spec_git_service() -> Seq<char> {
    "git"@
}

/// The service tag identities use for the version-control integration.
pub fn git_service() -> (r: &'static str)
    ensures
        r@ == spec_git_service(),
{
    "git"
}

/// The service tag identities use for the package-registry integration.
pub open spec fn spec_cargo_service() -> Seq<char> {
    "cargo"@
}

/// The service tag identities use for the package-registry integration.
pub fn cargo_service() -> (r: &'static str)
    ensures
        r@ == spec_cargo_service(),
{
    "cargo"
}

} // verus!
