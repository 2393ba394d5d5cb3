//! The requests the tracker makes of GitHub's API, and how it reads their answers.

use vstd::prelude::*;
use vstd::string::*;

verus! {

/// The address of a repository in GitHub's API.
pub open spec fn repo_url_text(owner: Seq<char>, repo: Seq<char>) -> Seq<char> {
    "https://api.github.com/repos/"@ + owner + "/"@ + repo
}

/// The address of a repository's latest release in GitHub's API.
pub open spec fn latest_release_url_text(owner: Seq<char>, repo: Seq<char>) -> Seq<char> {
    repo_url_text(owner, repo) + "/releases/latest"@
}

/// The `Authorization` header that a token gives.
pub open spec fn auth_header_text(token: Seq<char>) -> Seq<char> {
    "Bearer "@ + token
}

/// Whether an HTTP status code reports success: 200 to 299.
pub open spec fn status_is_success(code: u16) -> bool {
    200 <= code <= 299
}

/// How the tracker reads the answer to a request for a repository's latest release.
#[derive(Debug, Clone, Copy, PartialEq, Eq, Structural)]
pub enum ReleaseAnswer {
    /// The repository has no release yet (status 404).
    NoRelease,
    /// The body describes the latest release.
    Release,
    /// The request failed.
    Failed,
}

/// The address of a repository in GitHub's API.
pub fn repo_url(owner: &str, repo: &str) -> (url: String)
    ensures
        url@ == repo_url_text(owner@, repo@),
{
    let mut url = String::from_str("https://api.github.com/repos/");
    url.append(owner);
    url.append("/");
    url.append(repo);
    url
}

/// The address of a repository's latest release in GitHub's API.
pub fn latest_release_url(owner: &str, repo: &str) -> (url: String)
    ensures
        url@ == latest_release_url_text(owner@, repo@),
{
    let mut url = repo_url(owner, repo);
    url.append("/releases/latest");
    url
}

/// The `Authorization` header sent with each request: `Bearer <token>` where there is a
/// token, none otherwise.
pub fn auth_header(token: &Option<String>) -> (header: Option<String>)
    ensures
        header is Some <==> token is Some,
        header matches Some(h) ==> h@ == auth_header_text(token->0@),
{
    match token {
        Some(t) => {
            let mut h = String::from_str("Bearer ");
            h.append(t.as_str());
            Some(h)
        },
        None => None,
    }
}

/// Whether an HTTP status code reports success.
pub fn is_success(code: u16) -> (b: bool)
    ensures
        b == status_is_success(code),
{
    200 <= code && code <= 299
}

/// How the answer with status `code` to a request for the latest release is read:
/// 404 means that there is no release yet, another failing status is a failure.
pub fn read_release_status(code: u16) -> (a: ReleaseAnswer)
    ensures
        code == 404 ==> a == ReleaseAnswer::NoRelease,
        code != 404 && status_is_success(code) ==> a == ReleaseAnswer::Release,
        code != 404 && !status_is_success(code) ==> a == ReleaseAnswer::Failed,
{
    if code == 404 {
        ReleaseAnswer::NoRelease
    } else if is_success(code) {
        ReleaseAnswer::Release
    } else {
        ReleaseAnswer::Failed
    }
}

/// The error of a request that could not be made.
pub open spec fn request_failed_text(detail: Seq<char>) -> Seq<char> {
    "Requête échouée: "@ + detail
}

/// The error of an answer whose status reports failure.
pub open spec fn bad_status_text(status: Seq<char>) -> Seq<char> {
    "GitHub API a retourné "@ + status
}

/// The error of an answer whose body could not be read.
pub open spec fn unreadable_answer_text(detail: Seq<char>) -> Seq<char> {
    "Échec de parsing de la réponse: "@ + detail
}

/// The error of a request that could not be made, with the reason.
pub fn request_failed(detail: &str) -> (e: String)
    ensures
        e@ == request_failed_text(detail@),
{
    String::from_str("Requête échouée: ").concat(detail)
}

/// The error of an answer whose status (as `status`, such as `403 Forbidden`) reports failure.
pub fn bad_status(status: &str) -> (e: String)
    ensures
        e@ == bad_status_text(status@),
{
    String::from_str("GitHub API a retourné ").concat(status)
}

/// The error of an answer whose body could not be read, with the reason.
pub fn unreadable_answer(detail: &str) -> (e: String)
    ensures
        e@ == unreadable_answer_text(detail@),
{
    String::from_str("Échec de parsing de la réponse: ").concat(detail)
}

} // verus!
