//! The GitHub API client: where it sends its requests, which headers they
//! carry, and the exchanges it begins.

use crate::check_run::{exchange_start, Exchange, Transition};
use crate::exchange::{read_key, Action};
use crate::http::{
    authorization, copy_headers, header_views, headers_with, Header, HeaderView, PostRequest,
    PostRequestView,
};
use crate::text::{append_decimal, decimal};
use crate::token::{token_start, TokenExchange};
use vstd::prelude::*;
use vstd::string::*;

verus! {

/// The base of every URL of the GitHub API.
pub open spec fn root_endpoint() -> Seq<char> {
    "https://api.github.com"@
}

/// The headers that every request carries.
pub open spec fn default_headers() -> Seq<HeaderView> {
    seq![
        HeaderView { name: "Accept"@, value: "application/vnd.github.machine-man-preview+json"@ },
        HeaderView { name: "Accept"@, value: "application/vnd.github.antiope-preview+json"@ },
        HeaderView { name: "User-Agent"@, value: "dollar-ci"@ },
        HeaderView { name: "Content-Type"@, value: "application/json"@ },
    ]
}

/// A client as mathematical values.
pub struct ClientView {
    pub root_endpoint: Seq<char>,
    pub headers: Seq<HeaderView>,
}

/// The client that `GithubClient::new` makes.
pub open spec fn github_client() -> ClientView {
    ClientView { root_endpoint: root_endpoint(), headers: default_headers() }
}

/// An HTTP client that talks to the GitHub API.
#[derive(Debug)]
pub struct GithubClient {
    root_endpoint: String,
    headers: Vec<Header>,
}

impl View for GithubClient {
    type V = ClientView;

    closed spec fn view(&self) -> ClientView {
        ClientView { root_endpoint: self.root_endpoint@, headers: header_views(self.headers@) }
    }
}

/// The request that trades an assertion in for a token of an installation.
pub open spec fn token_request(
    client: ClientView,
    installation_id: nat,
    assertion: Seq<char>,
) -> PostRequestView {
    PostRequestView {
        url: client.root_endpoint + "/app/installations/"@ + decimal(installation_id)
            + "/access_tokens"@,
        headers: client.headers.push(authorization("Bearer"@, assertion)),
        body: None,
    }
}

/// The request that posts a check-run payload for the repository
/// `full_name`, with the installation token as its credential.
pub open spec fn check_run_request(
    client: ClientView,
    full_name: Seq<char>,
    token: Seq<char>,
    body: Seq<char>,
) -> PostRequestView {
    PostRequestView {
        url: client.root_endpoint + "/repos/"@ + full_name + "/check-runs"@,
        headers: client.headers.push(authorization("token"@, token)),
        body: Some(body),
    }
}

impl GithubClient {
    /// A client for `https://api.github.com` that sends the headers GitHub
    /// asks of an App.
    pub fn new() -> (client: GithubClient)
        ensures
            client@ == github_client(),
    {
        let mut headers: Vec<Header> = Vec::new();
        headers.push(Header::new("Accept", "application/vnd.github.machine-man-preview+json"));
        headers.push(Header::new("Accept", "application/vnd.github.antiope-preview+json"));
        headers.push(Header::new("User-Agent", "dollar-ci"));
        headers.push(Header::new("Content-Type", "application/json"));
        let client = GithubClient {
            root_endpoint: String::from_str("https://api.github.com"),
            headers,
        };
        assert(client@.headers =~= default_headers());
        client
    }

    /// A client that equals this one.
    pub(crate) fn duplicate(&self) -> (copy: GithubClient)
        ensures
            copy@ == self@,
    {
        GithubClient {
            root_endpoint: self.root_endpoint.clone(),
            headers: copy_headers(&self.headers),
        }
    }

    /// The request for a token of `installation_id`, with `assertion` as its
    /// bearer credential.
    pub fn token_request(&self, installation_id: u64, assertion: &str) -> (request: PostRequest)
        ensures
            request@ == token_request(self@, installation_id as nat, assertion@),
    {
        let mut url = self.root_endpoint.clone();
        url.append("/app/installations/");
        append_decimal(&mut url, installation_id);
        url.append("/access_tokens");
        let headers = headers_with(&self.headers, Header::authorization("Bearer", assertion));
        PostRequest { url, headers, body: None }
    }

    /// Begins the exchange that obtains a token for `installation_id`, with
    /// an assertion issued for `name`.
    pub fn get_installation_token(&self, name: &str, installation_id: u64) -> (start: (
        TokenExchange,
        Action<String>,
    ))
        ensures
            (start.0@, start.1@) == token_start(self@, name@, installation_id as nat),
    {
        (TokenExchange::begin(self, name, installation_id), read_key())
    }

    /// The request that posts `body` as a check run of `full_name`, with
    /// `token` as the installation's credential.
    pub fn check_run_request(&self, full_name: &str, token: &str, body: String) -> (request:
        PostRequest)
        ensures
            request@ == check_run_request(self@, full_name@, token@, body@),
    {
        let mut url = self.root_endpoint.clone();
        url.append("/repos/");
        url.append(full_name);
        url.append("/check-runs");
        let headers = headers_with(&self.headers, Header::authorization("token", token));
        PostRequest { url, headers, body: Some(body) }
    }

    /// Begins the exchange that makes `transition` for the check run of
    /// commit `head_sha` in the repository `full_name`.
    pub fn check_run(
        &self,
        transition: Transition,
        full_name: &str,
        head_sha: &str,
        installation_id: u64,
    ) -> (start: (Exchange, Action<u16>))
        ensures
            (start.0@, start.1@) == exchange_start(
                self@,
                transition,
                full_name@,
                head_sha@,
                installation_id as nat,
            ),
    {
        (Exchange::begin(self, transition, full_name, head_sha, installation_id), read_key())
    }

    /// Begins the exchange that tells GitHub to create a check run.
    pub fn check_run_create(&self, full_name: &str, head_sha: &str, installation_id: u64) -> (start:
        (Exchange, Action<u16>))
        ensures
            (start.0@, start.1@) == exchange_start(
                self@,
                Transition::Create,
                full_name@,
                head_sha@,
                installation_id as nat,
            ),
    {
        self.check_run(Transition::Create, full_name, head_sha, installation_id)
    }

    /// Begins the exchange that marks a check run as in progress.
    pub fn check_run_start(&self, full_name: &str, head_sha: &str, installation_id: u64) -> (start:
        (Exchange, Action<u16>))
        ensures
            (start.0@, start.1@) == exchange_start(
                self@,
                Transition::Start,
                full_name@,
                head_sha@,
                installation_id as nat,
            ),
    {
        self.check_run(Transition::Start, full_name, head_sha, installation_id)
    }

    /// Begins the exchange that marks a check run as completed, as a success
    /// or as a failure.
    pub fn check_run_complete(
        &self,
        full_name: &str,
        head_sha: &str,
        success: bool,
        installation_id: u64,
    ) -> (start: (Exchange, Action<u16>))
        ensures
            (start.0@, start.1@) == exchange_start(
                self@,
                Transition::Complete { success },
                full_name@,
                head_sha@,
                installation_id as nat,
            ),
    {
        self.check_run(Transition::Complete { success }, full_name, head_sha, installation_id)
    }
}

} // verus!
