//! Everything about the remote host that can be computed without talking to
//! it: the addresses to ask, the headers to send, and how to read the answer.

use vstd::prelude::*;
use vstd::string::*;
use crate::json::{as_string, document_strings, member, parse, strings_in};
use crate::text::{trim, trimmed};

verus! {

/// Why the repository could not be brought in sync.
#[derive(Clone, Copy, Debug, PartialEq, Eq, Structural)]
pub enum SyncError {
    /// The host answered 401: the token is invalid or missing.
    Unauthorized,
    /// The host answered 404: no such repository or branch is visible.
    NotFound,
    /// The host answered with another status outside 200..=299.
    ApiFailure { status: u16 },
    /// The request did not come through, or its answer cannot be read.
    NetworkFailure,
}

/// The token that counts: the configured one without surrounding white
/// space, and none at all where that leaves nothing.
pub open spec fn effective(token: Option<Seq<char>>) -> Option<Seq<char>> {
    match token {
        Some(t) if trimmed(t).len() > 0 => Some(trimmed(t)),
        _ => None,
    }
}

/// The view of an optional string slice.
pub open spec fn view_of(token: Option<&str>) -> Option<Seq<char>> {
    match token {
        Some(t) => Some(t@),
        None => None,
    }
}

/// Where the repository is cloned from.
pub open spec fn clone_url_of(
    account: Seq<char>,
    repository: Seq<char>,
    token: Option<Seq<char>>,
) -> Seq<char> {
    match token {
        Some(t) => "https://"@ + t + "@github.com/"@ + account + "/"@ + repository + ".git"@,
        None => "https://github.com/"@ + account + "/"@ + repository + ".git"@,
    }
}

/// Where the head of a branch is asked for.
pub open spec fn branch_url_of(
    account: Seq<char>,
    repository: Seq<char>,
    branch: Seq<char>,
) -> Seq<char> {
    "https://api.github.com/repos/"@ + account + "/"@ + repository + "/branches/"@ + branch
}

/// The path under which a document names the head commit of a branch.
pub open spec fn sha_path() -> Seq<Seq<char>> {
    seq!["commit"@, "sha"@]
}

/// The head commit that a branch document names; empty where it names none.
pub open spec fn commit_sha_of(strings: Map<Seq<Seq<char>>, Seq<char>>) -> Seq<char> {
    if strings.contains_key(sha_path()) {
        strings[sha_path()]
    } else {
        Seq::empty()
    }
}

/// What an answer with this status means before its body is read.
pub open spec fn status_verdict(status: u16) -> Result<(), SyncError> {
    if status == 401 {
        Err(SyncError::Unauthorized)
    } else if status == 404 {
        Err(SyncError::NotFound)
    } else if 200 <= status < 300 {
        Ok(())
    } else {
        Err(SyncError::ApiFailure { status })
    }
}

/// The head commit that an answer with this status and body names.
pub open spec fn remote_head_of(status: u16, body: Seq<u8>) -> Result<Seq<char>, SyncError> {
    match status_verdict(status) {
        Err(e) => Err(e),
        Ok(_) => match document_strings(body) {
            Some(strings) => Ok(commit_sha_of(strings)),
            None => Err(SyncError::NetworkFailure),
        },
    }
}

/// The product name sent with every request.
pub fn user_agent() -> (agent: &'static str)
    ensures
        agent@ == "mittorch"@,
{
    "mittorch"
}

/// The directory, relative to the working directory, under which checkouts
/// live.
pub fn data_root() -> (root: &'static str)
    ensures
        root@ == ".data"@,
{
    ".data"
}

/// The token that counts: a blank one is treated as absent, and white space
/// around one is dropped.
pub fn effective_token<'a>(token: Option<&'a str>) -> (r: Option<&'a str>)
    ensures
        view_of(r) == effective(view_of(token)),
{
    match token {
        Some(t) => {
            let t = trim(t);
            if t.is_empty() {
                None
            } else {
                Some(t)
            }
        },
        None => None,
    }
}

/// The checkout directory of a repository: one directory under the data
/// root, named after the repository.
pub fn checkout_dir(repository: &str) -> (dir: String)
    ensures
        dir@ == ".data/"@ + repository@,
{
    let mut dir = String::from_str(".data/");
    dir.append(repository);
    dir
}

/// The reference that a checkout's head is set to.
pub fn head_ref(branch: &str) -> (name: String)
    ensures
        name@ == "refs/heads/"@ + branch@,
{
    let mut name = String::from_str("refs/heads/");
    name.append(branch);
    name
}

/// The address to clone the repository from. A token that counts is sent as
/// the user part of the address.
pub fn clone_url(account: &str, repository: &str, token: Option<&str>) -> (url: String)
    ensures
        url@ == clone_url_of(account@, repository@, effective(view_of(token))),
{
    let mut url = String::from_str("https://");
    match effective_token(token) {
        Some(t) => {
            url.append(t);
            url.append("@github.com/");
        },
        None => {
            url.append("github.com/");
        },
    }
    url.append(account);
    url.append("/");
    url.append(repository);
    url.append(".git");
    proof {
        reveal_strlit("https://");
        reveal_strlit("github.com/");
        reveal_strlit("https://github.com/");
        assert("https://"@ + "github.com/"@ =~= "https://github.com/"@);
    }
    url
}

/// The address that answers with the head of `branch`.
pub fn branch_url(account: &str, repository: &str, branch: &str) -> (url: String)
    ensures
        url@ == branch_url_of(account@, repository@, branch@),
{
    let mut url = String::from_str("https://api.github.com/repos/");
    url.append(account);
    url.append("/");
    url.append(repository);
    url.append("/branches/");
    url.append(branch);
    url
}

/// The value of the authorization header, where a token counts.
pub fn authorization(token: Option<&str>) -> (header: Option<String>)
    ensures
        match effective(view_of(token)) {
            Some(t) => header is Some && header->Some_0@ == "token "@ + t,
            None => header is None,
        },
{
    match effective_token(token) {
        Some(t) => {
            let mut header = String::from_str("token ");
            header.append(t);
            Some(header)
        },
        None => None,
    }
}

/// Judges an answer by its status: 401 and 404 have errors of their own, any
/// other status outside 200..=299 is an API failure, and the rest is fine.
pub fn check_status(status: u16) -> (r: Result<(), SyncError>)
    ensures
        r == status_verdict(status),
{
    if status == 401 {
        Err(SyncError::Unauthorized)
    } else if status == 404 {
        Err(SyncError::NotFound)
    } else if status < 200 || status >= 300 {
        Err(SyncError::ApiFailure { status })
    } else {
        Ok(())
    }
}

/// The head commit that a branch document names: the string under `commit`,
/// `sha`. Where the document holds no string there, the hash is empty.
pub fn commit_sha(document: &serde_json::Value) -> (sha: String)
    ensures
        sha@ == commit_sha_of(strings_in(*document)),
{
    let commit = member(document, "commit");
    let sha = member(commit, "sha");
    proof {
        assert(seq!["commit"@] + (seq!["sha"@] + Seq::<Seq<char>>::empty()) =~= sha_path());
        assert(seq!["sha"@] + Seq::<Seq<char>>::empty() =~= seq!["sha"@]);
        assert(Seq::<Seq<char>>::empty() =~= seq![]);
    }
    match as_string(sha) {
        Some(s) => s.to_owned(),
        None => String::new(),
    }
}

/// Reads the answer to a request for a branch's head: the status decides
/// first, then the body must be a JSON document, and the head is the commit
/// it names.
pub fn remote_head(status: u16, body: &[u8]) -> (r: Result<String, SyncError>)
    ensures
        match remote_head_of(status, body@) {
            Ok(sha) => r is Ok && r->Ok_0@ == sha,
            Err(e) => r == Err::<String, SyncError>(e),
        },
{
    match check_status(status) {
        Err(e) => Err(e),
        Ok(_) => match parse(body) {
            Ok(document) => Ok(commit_sha(&document)),
            Err(_) => Err(SyncError::NetworkFailure),
        },
    }
}

} // verus!
