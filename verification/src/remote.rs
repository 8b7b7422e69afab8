//! The request for the head of the remote branch, and the reading of what
//! comes back. The request itself is made elsewhere, once and without
//! retries: retrying is the loop's business.

use vstd::prelude::*;
use vstd::string::*;
use crate::config::{text_of, Config, ConfigView};
use crate::cycle::RemoteError;

verus! {

/// The base address of the hosting service's repository interface.
pub const GITHUB_API_URL: &'static str = "https://api.github.com/repos";

/// The value by which the client names itself.
pub const USER_AGENT: &'static str = "rust-script";

/// A `GET` request: its address, the value of its `User-Agent` header, and
/// the value of its `Authorization` header where one is sent.
#[derive(Debug)]
pub struct RemoteRequest {
    pub url: String,
    pub user_agent: String,
    pub authorization: Option<String>,
}

/// A request as plain values.
pub struct RemoteRequestView {
    pub url: Seq<char>,
    pub user_agent: Seq<char>,
    pub authorization: Option<Seq<char>>,
}

impl View for RemoteRequest {
    type V = RemoteRequestView;

    open spec fn view(&self) -> RemoteRequestView {
        RemoteRequestView {
            url: self.url@,
            user_agent: self.user_agent@,
            authorization: text_of(self.authorization),
        }
    }
}

/// The address of the head commit of a branch:
/// `{base}/{owner}/{repo}/commits/{branch}`.
pub open spec fn commit_url(owner: Seq<char>, repo: Seq<char>, branch: Seq<char>) -> Seq<char> {
    GITHUB_API_URL@ + "/"@ + owner + "/"@ + repo + "/commits/"@ + branch
}

/// The value of the authorization header for a credential.
pub open spec fn token_header(token: Seq<char>) -> Seq<char> {
    "token "@ + token
}

/// The request that asks for the head of the configured branch.
pub open spec fn request_for(cfg: ConfigView) -> RemoteRequestView {
    RemoteRequestView {
        url: commit_url(cfg.owner, cfg.repo, cfg.target_branch),
        user_agent: USER_AGENT@,
        authorization: match cfg.access_token {
            Some(token) => Some(token_header(token)),
            None => None,
        },
    }
}

/// Builds the request that asks for the head of the configured branch. The
/// client always names itself; the credential is sent only where one is
/// configured.
pub fn latest_commit_request(config: &Config) -> (request: RemoteRequest)
    ensures
        request@ == request_for(config@),
{
    let mut url = String::from_str(GITHUB_API_URL);
    url.append("/");
    url.append(config.github.owner.as_str());
    url.append("/");
    url.append(config.github.repo.as_str());
    url.append("/commits/");
    url.append(config.github.target_branch.as_str());
    let authorization = match &config.github.access_token {
        Some(token) => {
            let mut value = String::from_str("token ");
            value.append(token.as_str());
            Some(value)
        },
        None => None,
    };
    RemoteRequest { url, user_agent: String::from_str(USER_AGENT), authorization }
}

/// What came of the request.
#[derive(Debug)]
pub enum RemoteReply {
    /// No answer: the service could not be reached, or the request timed
    /// out.
    NoResponse,
    /// An answer with this status code; `sha` is the commit identifier
    /// found in its body, if the body held one.
    Response { status: u16, sha: Option<String> },
}

/// A reply as plain values.
pub enum RemoteReplyView {
    NoResponse,
    Response { status: u16, sha: Option<Seq<char>> },
}

impl View for RemoteReply {
    type V = RemoteReplyView;

    open spec fn view(&self) -> RemoteReplyView {
        match self {
            RemoteReply::NoResponse => RemoteReplyView::NoResponse,
            RemoteReply::Response { status, sha } => RemoteReplyView::Response {
                status: *status,
                sha: text_of(*sha),
            },
        }
    }
}

/// Whether a status code reports success.
pub open spec fn is_success(status: u16) -> bool {
    200 <= status <= 299
}

/// The head that a reply gives: the identifier in the body of a successful
/// answer. No answer means the service is unavailable; any other answer
/// breaks the protocol.
pub open spec fn head_of_reply(reply: RemoteReplyView) -> Result<Seq<char>, RemoteError> {
    match reply {
        RemoteReplyView::NoResponse => Err(RemoteError::Unavailable),
        RemoteReplyView::Response { status, sha } => if is_success(status) && sha is Some {
            Ok(sha->0)
        } else {
            Err(RemoteError::Protocol)
        },
    }
}

/// The text of a string, or the error that stands in its place.
pub open spec fn text_or_error(r: Result<String, RemoteError>) -> Result<Seq<char>, RemoteError> {
    match r {
        Ok(head) => Ok(head@),
        Err(e) => Err(e),
    }
}

/// Reads the remote head out of a reply.
pub fn latest_commit_from_reply(reply: RemoteReply) -> (head: Result<String, RemoteError>)
    ensures
        text_or_error(head) == head_of_reply(reply@),
{
    match reply {
        RemoteReply::NoResponse => Err(RemoteError::Unavailable),
        RemoteReply::Response { status, sha } => {
            if 200 <= status && status <= 299 {
                match sha {
                    Some(head) => Ok(head),
                    None => Err(RemoteError::Protocol),
                }
            } else {
                Err(RemoteError::Protocol)
            }
        },
    }
}

} // verus!
