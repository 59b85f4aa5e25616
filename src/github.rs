//! The repository host's side: push events, app tokens and API locations.
use vstd::prelude::*;
use crate::text::{decimal, push_decimal};

verus! {

pub struct RepositoryOwner {
    pub name: String,
}

pub struct Repository {
    pub id: u64,
    pub name: String,
    pub full_name: String,
    pub private: bool,
    pub clone_url: String,
    pub owner: RepositoryOwner,
}

pub struct Installation {
    pub id: u64,
}

/// A push event as delivered by the webhook.
pub struct GitHubPushEvent {
    pub before: String,
    pub after: String,
    pub repository: Repository,
    pub installation: Installation,
}

/// Claims of the app token: issued at `iat`, expiring at `exp`, issued by
/// the app `iss`.
pub struct Claims {
    pub iat: usize,
    pub exp: usize,
    pub iss: String,
}

/// Lifetime of an app token, in seconds.
pub const TOKEN_LIFETIME_SECS: usize = 600;

impl Claims {
    /// Claims of a token issued now (`now`, in seconds since the epoch) by
    /// the app `app_id`; `None` when the expiry does not fit in a `usize`.
    pub fn issued_at(app_id: &str, now: usize) -> (r: Option<Claims>)
        ensures
            r is Some <==> now + TOKEN_LIFETIME_SECS <= usize::MAX,
            r matches Some(c) ==> c.iat == now && c.exp == now + TOKEN_LIFETIME_SECS && c.iss@ == app_id@,
    {
        match now.checked_add(TOKEN_LIFETIME_SECS) {
            Some(exp) => Some(Claims { iat: now, exp, iss: app_id.to_owned() }),
            None => None,
        }
    }
}

pub open spec fn installation_token_url_of(installation_id: u64) -> Seq<char> {
    "https://api.github.com/app/installations/"@ + decimal(installation_id as nat) + "/access_tokens"@
}

pub open spec fn check_runs_url_of(owner: Seq<char>, repo: Seq<char>) -> Seq<char> {
    "https://api.github.com/repos/"@ + owner + seq!['/'] + repo + "/check-runs"@
}

/// Where an installation's access token is requested.
pub fn installation_token_url(installation_id: u64) -> (r: String)
    ensures
        r@ == installation_token_url_of(installation_id),
{
    let mut url = "https://api.github.com/app/installations/".to_owned();
    push_decimal(&mut url, installation_id);
    url.append("/access_tokens");
    url
}

/// Where check runs of a repository are created.
pub fn check_runs_url(owner: &str, repo: &str) -> (r: String)
    ensures
        r@ == check_runs_url_of(owner@, repo@),
{
    let mut url = "https://api.github.com/repos/".to_owned();
    url.append(owner);
    url.append("/");
    url.append(repo);
    url.append("/check-runs");
    proof {
        reveal_strlit("/");
    }
    assert(url@ =~= check_runs_url_of(owner@, repo@));
    url
}

/// Where one check run of a repository is updated.
pub fn check_run_url(owner: &str, repo: &str, check_run_id: u64) -> (r: String)
    ensures
        r@ == check_runs_url_of(owner@, repo@) + seq!['/'] + decimal(check_run_id as nat),
{
    let mut url = check_runs_url(owner, repo);
    url.append("/");
    push_decimal(&mut url, check_run_id);
    proof {
        reveal_strlit("/");
    }
    assert(url@ =~= check_runs_url_of(owner@, repo@) + seq!['/'] + decimal(check_run_id as nat));
    url
}

} // verus!
