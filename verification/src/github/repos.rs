//! `GET /v1/github/installations/{id}/available-repos`: the repositories that an
//! installation of the tenant can see.

use crate::caller::{require_verified_session, verified_session, AuthContext};
use crate::error::AppError;
use crate::ids::Uuid;
use vstd::prelude::*;
use vstd::string::*;

verus! {

#[derive(Debug, Clone, Copy)]
pub struct QueryParams {
    pub page: u32,
    pub per_page: u32,
    pub include_archived: bool,
}

/// The page that is shown when the query does not say.
pub fn default_page() -> (n: u32)
    ensures
        n == 1,
{
    1
}

/// The page size when the query does not say.
pub fn default_per_page() -> (n: u32)
    ensures
        n == 30,
{
    30
}

#[derive(Debug)]
pub struct RepoItemResponse {
    pub id: i64,
    pub name: String,
    pub full_name: String,
    pub private: bool,
    pub archived: bool,
    pub default_branch: String,
    pub html_url: String,
}

#[derive(Debug)]
pub struct ListReposResponse {
    pub total_count: u64,
    pub page: u32,
    pub per_page: u32,
    pub repositories: Vec<RepoItemResponse>,
}

/// One page of repositories, as GitHub lists them.
#[derive(Debug)]
pub struct RepoPage {
    pub total_count: u64,
    pub repositories: Vec<RepoItemResponse>,
}

/// How the request for an installation token ended.
#[derive(Debug, Clone, Copy, PartialEq, Eq)]
pub enum TokenMint {
    Minted,
    /// GitHub answered with this status.
    ApiError { status: u16 },
    /// Anything else went wrong.
    OtherError,
}

/// What is known so far.
#[derive(Debug)]
pub struct ReposFacts {
    /// GitHub's number of the tenant's installation, if it is neither deleted nor suspended.
    pub installation: Option<Option<i64>>,
    pub token: Option<TokenMint>,
    /// The slug of the active App, if there is one.
    pub active_slug: Option<Option<String>>,
    /// The page; `Some(None)` where GitHub did not list it.
    pub listed: Option<Option<RepoPage>>,
}

/// What to do next.
#[derive(Debug)]
pub enum ReposAction {
    /// Look the installation up, among those of the tenant.
    FindInstallation { id: Uuid, tenant_id: Uuid },
    /// Ask GitHub for an installation token.
    MintToken { installation_id: i64 },
    /// Look the slug of the active App up.
    FindActiveSlug,
    /// Ask GitHub for a page.
    ListPage { installation_id: i64, page: u32, per_page: u32 },
    /// Answer.
    Answer(ListReposResponse),
    /// Refuse.
    Refuse(AppError),
}

/// The page size that is asked for.
pub open spec fn page_size(requested: u32) -> u32 {
    if requested < 1 {
        1
    } else if requested > 100 {
        100
    } else {
        requested
    }
}

/// The page that is asked for.
pub open spec fn page_number(requested: u32) -> u32 {
    if requested < 1 {
        1
    } else {
        requested
    }
}

/// Where the App with `slug` is installed again.
pub open spec fn reinstall_url(slug: Option<Seq<char>>) -> Seq<char> {
    match slug {
        Some(s) => "https://github.com/apps/"@ + s + "/installations/new"@,
        None => "https://github.com/apps"@,
    }
}

/// The error for an installation that the active App cannot act for.
fn different_app(slug: &Option<String>) -> (e: AppError)
    ensures
        e matches AppError::InstallationForDifferentApp { install_url } && install_url@ == reinstall_url(
            match *slug {
                Some(s) => Some(s@),
                None => None,
            },
        ),
{
    let mut install_url = "https://github.com/apps".to_owned();
    match slug {
        Some(s) => {
            install_url = "https://github.com/apps/".to_owned();
            install_url.append(s.as_str());
            install_url.append("/installations/new");
        },
        None => {},
    }
    AppError::InstallationForDifferentApp { install_url }
}

/// What the failure to mint a token means: with 404 or 401 the installation
/// belongs to another App, anything else is an internal error.
pub fn token_mint_error(mint: TokenMint, active_slug: &Option<String>) -> (r: Option<AppError>)
    ensures
        match mint {
            TokenMint::Minted => r is None,
            TokenMint::ApiError { status } if status == 404 || status == 401 => r matches Some(
                AppError::InstallationForDifferentApp { install_url },
            ) && install_url@ == reinstall_url(
                match *active_slug {
                    Some(s) => Some(s@),
                    None => None,
                },
            ),
            _ => r == Some(AppError::Internal),
        },
        mint matches TokenMint::ApiError { status } && (status == 404 || status == 401) ==> match *active_slug {
            Some(slug) => r matches Some(AppError::InstallationForDifferentApp { install_url }) && install_url@
                == "https://github.com/apps/"@ + slug@ + "/installations/new"@,
            None => r matches Some(AppError::InstallationForDifferentApp { install_url }) && install_url@
                == "https://github.com/apps"@,
        },
{
    match mint {
        TokenMint::Minted => None,
        TokenMint::ApiError { status } => if status == 404 || status == 401 {
            Some(different_app(active_slug))
        } else {
            Some(AppError::Internal)
        },
        TokenMint::OtherError => Some(AppError::Internal),
    }
}

/// Whether a repository is shown.
pub open spec fn shown(include_archived: bool) -> spec_fn(RepoItemResponse) -> bool {
    |r: RepoItemResponse| include_archived || !r.archived
}

/// The repositories that are shown, in their order.
pub fn shown_repositories(repositories: Vec<RepoItemResponse>, include_archived: bool) -> (r: Vec<RepoItemResponse>)
    ensures
        r@ == repositories@.filter(shown(include_archived)),
        include_archived ==> r@ == repositories@,
        !include_archived ==> r@ == repositories@.filter(|x: RepoItemResponse| !x.archived),
{
    let mut kept: Vec<RepoItemResponse> = Vec::new();
    let ghost all = repositories@;
    assert(all.take(0).filter(shown(include_archived)) =~= Seq::empty()) by {
        reveal(Seq::filter);
    }
    for repo in it: repositories
        invariant
            it.seq() == all,
            kept@ == all.take(it.index() as int).filter(shown(include_archived)),
    {
        proof {
            let i = it.index() as int;
            assert(all.take(i + 1).drop_last() =~= all.take(i));
            assert(all.take(i + 1).last() == repo);
            reveal(Seq::filter);
        }
        if include_archived || !repo.archived {
            kept.push(repo);
        }
    }
    assert(all.take(all.len() as int) =~= all);
    proof {
        if include_archived {
            lemma_all_shown(all);
        } else {
            assert(shown(include_archived) =~= (|x: RepoItemResponse| !x.archived));
        }
    }
    kept
}

proof fn lemma_all_shown(all: Seq<RepoItemResponse>)
    ensures
        all.filter(shown(true)) == all,
    decreases all.len(),
{
    reveal(Seq::filter);
    if all.len() > 0 {
        lemma_all_shown(all.drop_last());
        assert(all.drop_last().push(all.last()) =~= all);
    } else {
        assert(all.filter(shown(true)) =~= all);
    }
}

/// The next step of listing repositories.
///
/// The installation must be one of the caller's tenant. A token is minted first,
/// so that an installation of another App is told apart from other failures.
pub fn list_available_repos(
    auth: &AuthContext,
    installation_id: Uuid,
    params: &QueryParams,
    configured: bool,
    facts: ReposFacts,
) -> (action: ReposAction)
    ensures
        match verified_session(*auth) {
            Err(e) => action == ReposAction::Refuse(e),
            Ok(session) => if !configured {
                action == ReposAction::Refuse(AppError::GithubAppNotConfigured)
            } else {
                match facts.installation {
                    None => action == (ReposAction::FindInstallation {
                        id: installation_id,
                        tenant_id: session.tenant_id,
                    }),
                    Some(None) => action == ReposAction::Refuse(AppError::NotFound),
                    Some(Some(number)) => match facts.token {
                        None => action == (ReposAction::MintToken { installation_id: number }),
                        Some(TokenMint::ApiError { status }) if status == 404 || status == 401 => match facts.active_slug {
                            None => action is FindActiveSlug,
                            Some(slug) => action matches ReposAction::Refuse(
                                AppError::InstallationForDifferentApp { install_url },
                            ) && install_url@ == reinstall_url(
                                match slug {
                                    Some(s) => Some(s@),
                                    None => None,
                                },
                            ),
                        },
                        Some(TokenMint::Minted) => match facts.listed {
                            None => action == (ReposAction::ListPage {
                                installation_id: number,
                                page: page_number(params.page),
                                per_page: page_size(params.per_page),
                            }),
                            Some(None) => action == ReposAction::Refuse(AppError::Internal),
                            Some(Some(listed)) => {
                                &&& action matches ReposAction::Answer(resp)
                                &&& resp.total_count == listed.total_count
                                &&& resp.page == page_number(params.page)
                                &&& resp.per_page == page_size(params.per_page)
                                &&& resp.repositories@ == listed.repositories@.filter(shown(params.include_archived))
                            },
                        },
                        _ => action == ReposAction::Refuse(AppError::Internal),
                    },
                }
            },
        },
        action matches ReposAction::ListPage { page, per_page, .. } ==> {
            &&& params.page >= 1 ==> page == params.page
            &&& params.page == 0 ==> page == 1
            &&& 1 <= params.per_page <= 100 ==> per_page == params.per_page
            &&& params.per_page == 0 ==> per_page == 1
            &&& params.per_page > 100 ==> per_page == 100
        },
        action matches ReposAction::Answer(resp) ==> {
            &&& resp.page == if params.page == 0 {
                1
            } else {
                params.page
            }
            &&& resp.per_page == if params.per_page == 0 {
                1
            } else if params.per_page > 100 {
                100
            } else {
                params.per_page
            }
        },
{
    let session = match require_verified_session(auth) {
        Ok(s) => s,
        Err(e) => return ReposAction::Refuse(e),
    };
    let per_page: u32 = if params.per_page < 1 {
        1
    } else if params.per_page > 100 {
        100
    } else {
        params.per_page
    };
    let page: u32 = if params.page < 1 {
        1
    } else {
        params.page
    };
    if !configured {
        return ReposAction::Refuse(AppError::GithubAppNotConfigured);
    }
    let number: i64 = match facts.installation {
        None => return ReposAction::FindInstallation { id: installation_id, tenant_id: session.tenant_id },
        Some(None) => return ReposAction::Refuse(AppError::NotFound),
        Some(Some(n)) => n,
    };
    let mint = match facts.token {
        None => return ReposAction::MintToken { installation_id: number },
        Some(mint) => mint,
    };
    let failure = match (mint, facts.active_slug) {
        (TokenMint::ApiError { status }, None) if status == 404 || status == 401 => return ReposAction::FindActiveSlug,
        (_, Some(slug)) => token_mint_error(mint, &slug),
        (_, None) => token_mint_error(mint, &None),
    };
    match failure {
        Some(e) => return ReposAction::Refuse(e),
        None => {},
    }
    match facts.listed {
        None => ReposAction::ListPage { installation_id: number, page, per_page },
        Some(None) => ReposAction::Refuse(AppError::Internal),
        Some(Some(listed)) => ReposAction::Answer(
            ListReposResponse {
                total_count: listed.total_count,
                page,
                per_page,
                repositories: shown_repositories(listed.repositories, params.include_archived),
            },
        ),
    }
}

} // verus!
