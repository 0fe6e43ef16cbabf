//! What is asked of the hosting service, and how its answers are read.
//!
//! Nothing here touches the network.  A [`Request`] says what is to be sent;
//! whoever sends it hands back a [`Reply`], and the functions of
//! [`RepositoryClient`] turn that into a name, a list or an outcome.

use crate::json::{json_views, parse, parsed_document, Json, JsonView};
use crate::list::{listing, string_views, GithubContent, Status};
use vstd::prelude::*;
use vstd::string::StringExecFns;

verus! {

/// The status with which the service confirms a deletion.
pub const NO_CONTENT: u16 = 204;

/// The request methods in use.
#[derive(Debug, Clone, Copy, PartialEq, Eq, Structural)]
pub enum Method {
    /// Read.
    Get,
    /// Delete.
    Delete,
}

/// A request to the service, ready to be sent.
#[derive(Debug)]
pub struct Request {
    /// The method.
    pub method: Method,
    /// The address.
    pub url: String,
    /// The header fields, as name and value.
    pub headers: Vec<(String, String)>,
}

/// A [`Request`] as mathematics.
pub struct RequestView {
    /// The method.
    pub method: Method,
    /// The address.
    pub url: Seq<char>,
    /// The header fields, as name and value.
    pub headers: Seq<(Seq<char>, Seq<char>)>,
}

impl View for Request {
    type V = RequestView;

    open spec fn view(&self) -> RequestView {
        RequestView {
            method: self.method,
            url: self.url@,
            headers: Seq::new(
                self.headers@.len(),
                |i: int| (self.headers@[i].0@, self.headers@[i].1@),
            ),
        }
    }
}

/// What the service answered.
#[derive(Debug)]
pub struct Response {
    /// The status code.
    pub status: u16,
    /// The body, as text.
    pub body: String,
}

/// How a request ended.
#[derive(Debug)]
pub enum Reply {
    /// The service answered.
    Response(Response),
    /// No answer could be had: the connection failed, timed out or broke.
    Failed,
}

/// Why a call to the service gave no result.
#[derive(Debug, Clone, Copy, PartialEq, Eq, Structural)]
pub enum ClientError {
    /// The account could not be read: the service refused, or its answer
    /// names no account.
    Auth,
    /// The repositories could not be listed: the service refused, or its
    /// answer is no list.
    Fetch,
    /// No answer could be had.
    Transport,
}

/// How the service took a deletion.
#[derive(Debug, Clone, Copy, PartialEq, Eq, Structural)]
pub enum DeleteOutcome {
    /// The repository is gone.
    Success,
    /// The service turned the deletion down: the token may not delete the
    /// repository, or there is no such repository.
    ClientRejected,
    /// Anything else.
    Other,
}

/// The status is one of success, 200 to 299.
pub open spec fn is_success(status: u16) -> bool {
    200 <= status < 300
}

/// The status blames the request, 400 to 499.
pub open spec fn is_client_error(status: u16) -> bool {
    400 <= status < 500
}

/// How a deletion ended, by the status of the answer: only
/// [`NO_CONTENT`] confirms it.
pub open spec fn delete_outcome(status: u16) -> DeleteOutcome {
    if status == NO_CONTENT {
        DeleteOutcome::Success
    } else if is_client_error(status) {
        DeleteOutcome::ClientRejected
    } else {
        DeleteOutcome::Other
    }
}

/// Where the account behind a token is read.
pub const USER_URL: &'static str = "https://api.github.com/user";

/// Where the repositories of `owner` are listed.
pub open spec fn repos_url(owner: Seq<char>) -> Seq<char> {
    "https://api.github.com/users/"@ + owner + "/repos"@
}

/// The address of the repository `repo` of `owner`.
pub open spec fn repo_url(owner: Seq<char>, repo: Seq<char>) -> Seq<char> {
    "https://api.github.com/repos/"@ + owner + "/"@ + repo
}

/// The header fields that every request carries for the holder of `token`.
pub open spec fn request_headers(token: Seq<char>) -> Seq<(Seq<char>, Seq<char>)> {
    seq![
        ("Accept"@, "application/vnd.github+json"@),
        ("Authorization"@, "Bearer "@ + token),
        ("X-GitHub-Api-Version"@, "2022-11-28"@),
        ("User-Agent"@, "knife"@),
    ]
}

/// The request that the holder of `token` sends to `url`.
pub open spec fn request_to(token: Seq<char>, method: Method, url: Seq<char>) -> RequestView {
    RequestView { method, url, headers: request_headers(token) }
}

/// The account that a user document names: the text under `login`.
pub open spec fn owner_in(document: JsonView) -> Option<Seq<char>> {
    match document.member("login"@) {
        Some(login) => login.text(),
        None => None,
    }
}

/// The repository that a listing's entry names: the text under `name`.
pub open spec fn name_in(entry: JsonView) -> Option<Seq<char>> {
    match entry.member("name"@) {
        Some(name) => name.text(),
        None => None,
    }
}

/// [`name_in`] as a function value.
pub open spec fn entry_name() -> spec_fn(JsonView) -> Option<Seq<char>> {
    |entry: JsonView| name_in(entry)
}

/// The names in the entries of a listing, in order; an entry that names no
/// repository is passed over.
pub open spec fn names_in_entries(entries: Seq<JsonView>) -> Seq<Seq<char>> {
    entries.filter_map(entry_name())
}

/// The repository names in a listing, where the document is an array.
pub open spec fn names_in(document: JsonView) -> Option<Seq<Seq<char>>> {
    match document.items() {
        Some(entries) => Some(names_in_entries(entries)),
        None => None,
    }
}

/// The account that `reply` names, or why it names none.
pub open spec fn read_owner(reply: Reply) -> Result<Seq<char>, ClientError> {
    match reply {
        Reply::Failed => Err(ClientError::Transport),
        Reply::Response(response) => if !is_success(response.status) {
            Err(ClientError::Auth)
        } else {
            match parsed_document(response.body@) {
                Some(document) => match owner_in(document) {
                    Some(owner) => Ok(owner),
                    None => Err(ClientError::Auth),
                },
                None => Err(ClientError::Auth),
            }
        },
    }
}

/// The repository names that `reply` lists, or why it lists none.
pub open spec fn read_names(reply: Reply) -> Result<Seq<Seq<char>>, ClientError> {
    match reply {
        Reply::Failed => Err(ClientError::Transport),
        Reply::Response(response) => if !is_success(response.status) {
            Err(ClientError::Fetch)
        } else {
            match parsed_document(response.body@) {
                Some(document) => match names_in(document) {
                    Some(names) => Ok(names),
                    None => Err(ClientError::Fetch),
                },
                None => Err(ClientError::Fetch),
            }
        },
    }
}

/// How the deletion that `reply` answers has ended.
pub open spec fn read_deletion(reply: Reply) -> Result<DeleteOutcome, ClientError> {
    match reply {
        Reply::Failed => Err(ClientError::Transport),
        Reply::Response(response) => Ok(delete_outcome(response.status)),
    }
}

/// Whether `status` is one of success.
pub fn status_is_success(status: u16) -> (success: bool)
    ensures
        success == is_success(status),
{
    200 <= status && status < 300
}

/// How a deletion ended, by the status of the answer.
pub fn classify_deletion(status: u16) -> (outcome: DeleteOutcome)
    ensures
        outcome == delete_outcome(status),
{
    if status == NO_CONTENT {
        DeleteOutcome::Success
    } else if 400 <= status && status < 500 {
        DeleteOutcome::ClientRejected
    } else {
        DeleteOutcome::Other
    }
}

/// The account that a user document names.
pub fn owner_from_document(document: &Json) -> (owner: Option<String>)
    ensures
        match owner {
            Some(owner) => owner_in(document@) == Some(owner@),
            None => owner_in(document@) is None,
        },
{
    match document.get("login") {
        Some(login) => match login.as_str() {
            Some(text) => Some(text.to_owned()),
            None => None,
        },
        None => None,
    }
}

/// The repository names in a listing, in order.  `None` where the document
/// is no array; an entry without a name is passed over.
pub fn names_from_document(document: &Json) -> (names: Option<Vec<String>>)
    ensures
        match names {
            Some(names) => names_in(document@) == Some(string_views(names@)),
            None => names_in(document@) is None,
        },
{
    match document.as_array() {
        Some(entries) => {
            let mut names: Vec<String> = Vec::new();
            let mut i: usize = 0;
            while i < entries.len()
                invariant
                    i <= entries@.len(),
                    string_views(names@) == names_in_entries(json_views(entries@).take(i as int)),
                decreases entries@.len() - i,
            {
                proof {
                    json_views(entries@).lemma_filter_map_take_succ(entry_name(), i as int);
                }
                match entries[i].get("name") {
                    Some(name) => match name.as_str() {
                        Some(text) => {
                            names.push(text.to_owned());
                        },
                        None => {},
                    },
                    None => {},
                }
                i = i + 1;
            }
            assert(json_views(entries@).take(i as int) == json_views(entries@));
            Some(names)
        },
        None => None,
    }
}

/// The one who asks the service on behalf of the holder of a token.
pub struct RepositoryClient {
    token: String,
}

impl View for RepositoryClient {
    type V = Seq<char>;

    /// The token.
    closed spec fn view(&self) -> Seq<char> {
        self.token@
    }
}

impl RepositoryClient {
    /// A client for the holder of `token`.
    pub fn new(token: &str) -> (client: RepositoryClient)
        ensures
            client@ == token@,
    {
        RepositoryClient { token: token.to_owned() }
    }

    /// The request with `method` to `uri`, with the header fields that the
    /// service asks for and the token as bearer.
    pub fn build_request(&self, method: Method, uri: &str) -> (request: Request)
        ensures
            request@ == request_to(self@, method, uri@),
    {
        let mut headers: Vec<(String, String)> = Vec::new();
        headers.push((String::from_str("Accept"), String::from_str("application/vnd.github+json")));
        headers.push(
            (String::from_str("Authorization"), String::from_str("Bearer ").concat(self.token.as_str())),
        );
        headers.push((String::from_str("X-GitHub-Api-Version"), String::from_str("2022-11-28")));
        headers.push((String::from_str("User-Agent"), String::from_str("knife")));
        let request = Request { method, url: uri.to_owned(), headers };
        assert(request@.headers =~= request_headers(self@));
        request
    }

    /// The request that reads the account behind the token.
    pub fn owner_request(&self) -> (request: Request)
        ensures
            request@ == request_to(self@, Method::Get, USER_URL@),
    {
        self.build_request(Method::Get, USER_URL)
    }

    /// The request that lists the repositories of `owner`.
    pub fn repos_request(&self, owner: &str) -> (request: Request)
        ensures
            request@ == request_to(self@, Method::Get, repos_url(owner@)),
    {
        let url = String::from_str("https://api.github.com/users/").concat(owner).concat("/repos");
        self.build_request(Method::Get, url.as_str())
    }

    /// The request that deletes the repository `repo` of `owner`.
    pub fn delete_request(&self, owner: &str, repo: &str) -> (request: Request)
        ensures
            request@ == request_to(self@, Method::Delete, repo_url(owner@, repo@)),
    {
        let url = String::from_str("https://api.github.com/repos/").concat(owner).concat(
            "/",
        ).concat(repo);
        self.build_request(Method::Delete, url.as_str())
    }

    /// Reads the account's name out of the answer to [`owner_request`].
    ///
    /// [`owner_request`]: RepositoryClient::owner_request
    pub fn get_owner(reply: &Reply) -> (result: Result<String, ClientError>)
        ensures
            match result {
                Ok(owner) => read_owner(*reply) == Ok::<Seq<char>, ClientError>(owner@),
                Err(error) => read_owner(*reply) == Err::<Seq<char>, ClientError>(error),
            },
    {
        match reply {
            Reply::Failed => Err(ClientError::Transport),
            Reply::Response(response) => {
                if !status_is_success(response.status) {
                    return Err(ClientError::Auth);
                }
                match parse(response.body.as_str()) {
                    Some(document) => match owner_from_document(&document) {
                        Some(owner) => Ok(owner),
                        None => Err(ClientError::Auth),
                    },
                    None => Err(ClientError::Auth),
                }
            },
        }
    }

    /// Reads the repositories of `owner` out of the answer to
    /// [`repos_request`]; each gets the mark `status`.
    ///
    /// [`repos_request`]: RepositoryClient::repos_request
    pub fn get_repos(reply: &Reply, owner: &str, status: Status) -> (result: Result<
        GithubContent,
        ClientError,
    >)
        ensures
            match result {
                Ok(content) => match read_names(*reply) {
                    Ok(names) => content@ == listing(owner@, names, status),
                    Err(_) => false,
                },
                Err(error) => read_names(*reply) == Err::<Seq<Seq<char>>, ClientError>(error),
            },
    {
        match reply {
            Reply::Failed => Err(ClientError::Transport),
            Reply::Response(response) => {
                if !status_is_success(response.status) {
                    return Err(ClientError::Fetch);
                }
                match parse(response.body.as_str()) {
                    Some(document) => match names_from_document(&document) {
                        Some(names) => Ok(GithubContent::from_names(owner, &names, status)),
                        None => Err(ClientError::Fetch),
                    },
                    None => Err(ClientError::Fetch),
                }
            },
        }
    }

    /// Reads how a deletion ended out of the answer to [`delete_request`].
    ///
    /// [`delete_request`]: RepositoryClient::delete_request
    pub fn delete_repo(reply: &Reply) -> (result: Result<DeleteOutcome, ClientError>)
        ensures
            result == read_deletion(*reply),
    {
        match reply {
            Reply::Failed => Err(ClientError::Transport),
            Reply::Response(response) => Ok(classify_deletion(response.status)),
        }
    }
}

} // verus!
