//! The pure side of the credential oracle for the VCS service: building the
//! request handed to the external credential helper, and reading the secret
//! out of the helper's reply.
//!
//! The helper speaks a line protocol: the request carries `username`,
//! optionally the remote `url`, and the `protocol` and `host` of the URL the
//! secret is scoped to; the reply is `key=value` lines from which the
//! `password` line is read.

use vstd::prelude::*;

use crate::identity::Identity;
use crate::identity::IdentityView;

verus! {

/// Reasons reading live external state fails.
#[derive(Debug, PartialEq, Eq)]
pub enum OracleError {
    /// The working context is not a repository.
    NotARepository,
    /// No credential helper is configured.
    NoCredentialsHelper,
    /// The helper's reply carries no secret.
    NoSecretFound,
    /// The identity resolves to no username to hand to the helper.
    MissingUsername,
    /// Not in a repository and the account has no match pattern to stand in
    /// for the remote URL.
    NoUrlAvailable,
    /// The URL the helper request would be scoped to does not parse.
    InvalidUrl,
    /// The URL the helper request would be scoped to has no host.
    UrlWithoutHost,
    /// An external command failed.
    ExternalCommandFailed,
}

/// The components of a URL string as the URL library computes them:
/// `Some((scheme, host))` when the string parses as an absolute URL (the
/// host absent where the URL has none), `None` where it does not parse.
pub uninterp spec fn url_parts_of(s: Seq<char>) -> Option<(Seq<char>, Option<Seq<char>>)>;

/// Relies on url::Url::parse, with Url::scheme and Url::host_str, to split a
/// URL string into its scheme and host; the result is a function of the
/// input string alone.
#[verifier::external_body]
fn split_url(s: &str) -> (r: Option<(String, Option<String>)>)
    ensures
        r.deep_view() == url_parts_of(s@),
{
    match url::Url::parse(s) {
        Ok(u) => Some((u.scheme().to_string(), u.host_str().map(|h| h.to_string()))),
        Err(_) => None,
    }
}

/// A match pattern read as a URL: a trailing `*` is stripped.
pub open spec fn stripped_match_url(mu: Seq<char>) -> Seq<char> {
    if mu.len() > 0 && mu.last() == '*' {
        mu.drop_last()
    } else {
        mu
    }
}

/// Strips the trailing `*` of a match pattern, if it carries one.
pub fn strip_trailing_star(s: &str) -> (r: String)
    ensures
        r@ == stripped_match_url(s@),
{
    let n = s.unicode_len();
    if n > 0 && s.get_char(n - 1) == '*' {
        let stripped = s.substring_char(0, n - 1);
        assert(stripped@ =~= s@.drop_last());
        stripped.to_owned()
    } else {
        s.to_owned()
    }
}

/// Spec-level image of a [`CredentialQuery`].
pub struct CredentialQueryView {
    pub username: Seq<char>,
    pub url: Option<Seq<char>>,
    pub protocol: Seq<char>,
    pub host: Seq<char>,
}

/// The request handed to the external credential helper.
#[derive(Debug)]
pub struct CredentialQuery {
    pub username: String,
    pub url: Option<String>,
    pub protocol: String,
    pub host: String,
}

impl View for CredentialQuery {
    type V = CredentialQueryView;

    open spec fn view(&self) -> CredentialQueryView {
        CredentialQueryView {
            username: self.username@,
            url: self.url.deep_view(),
            protocol: self.protocol@,
            host: self.host@,
        }
    }
}

/// A query scoped to `info_url`, once the user is known: the URL must parse
/// and carry a host.
pub open spec fn query_with(
    user: Seq<char>,
    url_line: Option<Seq<char>>,
    info_url: Seq<char>,
) -> Result<CredentialQueryView, OracleError> {
    match url_parts_of(info_url) {
        Option::None => Result::Err(OracleError::InvalidUrl),
        Option::Some(parts) => match parts.1 {
            Option::None => Result::Err(OracleError::UrlWithoutHost),
            Option::Some(host) => Result::Ok(
                CredentialQueryView { username: user, url: url_line, protocol: parts.0, host },
            ),
        },
    }
}

/// Which request the helper is handed for an identity, given the configured
/// helper name and the remote URL (empty outside a repository): the
/// username is the identity's effective user; inside a repository the query
/// carries the remote URL and is scoped to it; outside, it is scoped to the
/// account's match pattern with a trailing `*` stripped.
pub open spec fn credential_query_plan(
    identity: IdentityView,
    helper: Seq<char>,
    origin_url: Seq<char>,
) -> Result<CredentialQueryView, OracleError> {
    if helper.len() == 0 {
        Result::Err(OracleError::NoCredentialsHelper)
    } else if identity.effective_user() is None {
        Result::Err(OracleError::MissingUsername)
    } else {
        let user = identity.effective_user()->0;
        if origin_url.len() > 0 {
            query_with(user, Option::Some(origin_url), origin_url)
        } else if identity.account_config.match_url is Some {
            query_with(
                user,
                Option::None,
                stripped_match_url(identity.account_config.match_url->0),
            )
        } else {
            Result::Err(OracleError::NoUrlAvailable)
        }
    }
}

/// Builds the request handed to the external credential helper, or says why
/// none can be built.
pub fn build_credential_query(identity: &Identity, helper: &str, origin_url: &str) -> (r: Result<
    CredentialQuery,
    OracleError,
>)
    ensures
        ({
            let plan = credential_query_plan(identity@, helper@, origin_url@);
            match r {
                Result::Ok(q) => plan == Result::<CredentialQueryView, OracleError>::Ok(q@),
                Result::Err(e) => plan == Result::<CredentialQueryView, OracleError>::Err(e),
            }
        }),
{
    if helper.unicode_len() == 0 {
        return Result::Err(OracleError::NoCredentialsHelper);
    }
    let username = match identity.user() {
        Option::Some(u) => u.clone(),
        Option::None => {
            return Result::Err(OracleError::MissingUsername);
        },
    };
    if origin_url.unicode_len() > 0 {
        match split_url(origin_url) {
            Option::None => Result::Err(OracleError::InvalidUrl),
            Option::Some((protocol, host_opt)) => match host_opt {
                Option::None => Result::Err(OracleError::UrlWithoutHost),
                Option::Some(host) => Result::Ok(
                    CredentialQuery {
                        username,
                        url: Option::Some(origin_url.to_owned()),
                        protocol,
                        host,
                    },
                ),
            },
        }
    } else {
        match identity.match_url() {
            Option::None => Result::Err(OracleError::NoUrlAvailable),
            Option::Some(mu) => {
                let info_url = strip_trailing_star(mu.as_str());
                match split_url(info_url.as_str()) {
                    Option::None => Result::Err(OracleError::InvalidUrl),
                    Option::Some((protocol, host_opt)) => match host_opt {
                        Option::None => Result::Err(OracleError::UrlWithoutHost),
                        Option::Some(host) => Result::Ok(
                            CredentialQuery { username, url: Option::None, protocol, host },
                        ),
                    },
                }
            },
        }
    }
}

/// The pieces of `s[start..]` between occurrences of `sep`, scanning from
/// position `i`; `start` is where the piece under construction began.
pub open spec fn split_from(s: Seq<char>, sep: char, start: int, i: int) -> Seq<Seq<char>>
    decreases s.len() - i,
{
    if i >= s.len() {
        seq![s.subrange(start, s.len() as int)]
    } else if s[i] == sep {
        seq![s.subrange(start, i)] + split_from(s, sep, i + 1, i + 1)
    } else {
        split_from(s, sep, start, i + 1)
    }
}

/// The pieces of `s` between occurrences of `sep`, in order; the empty
/// string splits into one empty piece, as the standard splitter has it.
pub open spec fn split_seq(s: Seq<char>, sep: char) -> Seq<Seq<char>> {
    split_from(s, sep, 0, 0)
}

/// Splitting yields at least one piece.
pub proof fn lemma_split_from_nonempty(s: Seq<char>, sep: char, start: int, i: int)
    ensures
        split_from(s, sep, start, i).len() >= 1,
    decreases s.len() - i,
{
    if i >= s.len() {
    } else if s[i] == sep {
        lemma_split_from_nonempty(s, sep, i + 1, i + 1);
    } else {
        lemma_split_from_nonempty(s, sep, start, i + 1);
    }
}

/// Splits a string at every occurrence of a separator.
pub fn split_str(s: &str, sep: char) -> (r: Vec<String>)
    ensures
        r.deep_view() == split_seq(s@, sep),
{
    let n = s.unicode_len();
    let mut parts: Vec<String> = Vec::new();
    let mut start: usize = 0;
    let mut i: usize = 0;
    while i < n
        invariant
            n == s@.len(),
            start <= i <= n,
            split_seq(s@, sep) == parts.deep_view() + split_from(
                s@,
                sep,
                start as int,
                i as int,
            ),
        decreases n - i,
    {
        if s.get_char(i) == sep {
            let ghost pre = parts.deep_view();
            let piece = s.substring_char(start, i).to_owned();
            parts.push(piece);
            assert(parts.deep_view() =~= pre.push(s@.subrange(start as int, i as int)));
            assert(split_seq(s@, sep) =~= parts.deep_view() + split_from(s@, sep, i + 1, i + 1));
            start = i + 1;
        }
        i = i + 1;
    }
    let ghost pre = parts.deep_view();
    let piece = s.substring_char(start, n).to_owned();
    parts.push(piece);
    assert(parts.deep_view() =~= pre.push(s@.subrange(start as int, n as int)));
    assert(parts.deep_view() =~= pre + split_from(s@, sep, start as int, n as int));
    parts
}

/// The secret in a helper reply, read line by line: the first line whose
/// first `=`-piece is `password` yields its last `=`-piece.
pub open spec fn password_in_lines(lines: Seq<Seq<char>>) -> Option<Seq<char>>
    decreases lines.len(),
{
    if lines.len() == 0 {
        Option::None
    } else {
        let pieces = split_seq(lines[0], '=');
        if pieces.len() > 0 && pieces[0] == "password"@ {
            Option::Some(pieces.last())
        } else {
            password_in_lines(lines.drop_first())
        }
    }
}

/// The secret in a credential helper reply of `key=value` lines, if any.
pub open spec fn spec_extract_password(output: Seq<char>) -> Option<Seq<char>> {
    password_in_lines(split_seq(output, '\n'))
}

/// Reads the secret out of a credential helper reply.
pub fn extract_password(output: &str) -> (r: Option<String>)
    ensures
        r.deep_view() == spec_extract_password(output@),
{
    let lines = split_str(output, '\n');
    let n = lines.len();
    assert(lines.deep_view().skip(0) =~= lines.deep_view());
    let mut i: usize = 0;
    while i < n
        invariant
            n == lines@.len(),
            i <= n,
            lines.deep_view() == split_seq(output@, '\n'),
            spec_extract_password(output@) == password_in_lines(lines.deep_view().skip(i as int)),
        decreases n - i,
    {
        let line = &lines[i];
        let pieces = split_str(line.as_str(), '=');
        proof {
            lemma_split_from_nonempty(line@, '=', 0, 0);
            assert(lines.deep_view().skip(i as int)[0] == lines.deep_view()[i as int]);
        }
        if str_eq_password(&pieces[0]) {
            let secret = pieces[pieces.len() - 1].clone();
            assert(secret@ == split_seq(line@, '=').last());
            return Option::Some(secret);
        }
        assert(lines.deep_view().skip(i as int).drop_first() =~= lines.deep_view().skip(i + 1));
        i = i + 1;
    }
    assert(lines.deep_view().skip(n as int).len() == 0);
    Option::None
}

/// Whether a reply piece is the `password` key.
fn str_eq_password(piece: &String) -> (r: bool)
    ensures
        r == (piece@ == "password"@),
{
    crate::matcher::str_eq(piece.as_str(), "password")
}

/// Reads the secret out of the helper's reply, `NoSecretFound` where the
/// reply carries none.
pub fn read_secret_reply(output: &str) -> (r: Result<String, OracleError>)
    ensures
        match r {
            Result::Ok(secret) => spec_extract_password(output@) == Option::Some(secret@),
            Result::Err(e) => spec_extract_password(output@) is None && e
                == OracleError::NoSecretFound,
        },
{
    match extract_password(output) {
        Option::Some(secret) => Result::Ok(secret),
        Option::None => Result::Err(OracleError::NoSecretFound),
    }
}

} // verus!
