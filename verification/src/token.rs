//! The exchange that obtains an installation token.

use crate::client::{token_request, ClientView, GithubClient};
use crate::exchange::{key_path, Action, ActionView, Reply, ReplyView};
use crate::http::{is_success, successful, text_view};
use crate::json::{document_text_at, text_member};
use crate::jwt::{create, created, rsa_pem_accepted, token_view, ASSERTION_LIFETIME};
use crate::models::HandlersErr;
use vstd::prelude::*;

verus! {

/// How far a token exchange has come.
#[derive(Debug)]
pub enum TokenStage {
    /// The key file is being read.
    AwaitingKey,
    /// The request for a token is under way.
    AwaitingResponse,
    /// The exchange has ended.
    Finished { result: Result<String, HandlersErr> },
}

/// A token stage as mathematical values.
pub enum TokenStageView {
    AwaitingKey,
    AwaitingResponse,
    Finished { result: Result<Seq<char>, HandlersErr> },
}

impl View for TokenStage {
    type V = TokenStageView;

    open spec fn view(&self) -> TokenStageView {
        match self {
            TokenStage::AwaitingKey => TokenStageView::AwaitingKey,
            TokenStage::AwaitingResponse => TokenStageView::AwaitingResponse,
            TokenStage::Finished { result } => TokenStageView::Finished { result: token_view(*result) },
        }
    }
}

/// The exchange that obtains an installation token: an assertion is signed
/// with the App's key and traded in at GitHub for a token of one installation.
#[derive(Debug)]
pub struct TokenExchange {
    client: GithubClient,
    name: String,
    installation_id: u64,
    stage: TokenStage,
}

/// A token exchange as mathematical values.
pub struct TokenExchangeView {
    pub client: ClientView,
    pub name: Seq<char>,
    pub installation_id: nat,
    pub stage: TokenStageView,
}

impl View for TokenExchange {
    type V = TokenExchangeView;

    closed spec fn view(&self) -> TokenExchangeView {
        TokenExchangeView {
            client: self.client@,
            name: self.name@,
            installation_id: self.installation_id as nat,
            stage: self.stage@,
        }
    }
}

/// What the answer to a token request amounts to. A status that does not
/// mean success is `RemoteRejected`, whatever the body holds. Otherwise the
/// token is the string member `token` of the JSON object in the body.
pub open spec fn token_from_response(status: int, body: Option<Seq<char>>) -> Result<
    Seq<char>,
    HandlersErr,
> {
    if !is_success(status) {
        Err(HandlersErr::RemoteRejected)
    } else {
        match body {
            None => Err(HandlersErr::TransportError),
            Some(document) => match document_text_at(document, "token"@) {
                Some(token) => Ok(token),
                None => Err(HandlersErr::ResponseParseError),
            },
        }
    }
}

/// A token exchange that ends with `result`.
pub open spec fn token_finish(
    state: TokenExchangeView,
    result: Result<Seq<char>, HandlersErr>,
) -> (TokenExchangeView, ActionView<Seq<char>>) {
    (
        TokenExchangeView { stage: TokenStageView::Finished { result }, ..state },
        ActionView::Finish { result },
    )
}

/// How a token exchange begins: the key file is to be read.
pub open spec fn token_start(client: ClientView, name: Seq<char>, installation_id: nat) -> (
    TokenExchangeView,
    ActionView<Seq<char>>,
) {
    (
        TokenExchangeView { client, name, installation_id, stage: TokenStageView::AwaitingKey },
        ActionView::ReadKey { path: key_path() },
    )
}

/// One step of a token exchange, with `assertion` as the outcome of issuing
/// the assertion: the state and the action that follow from `state` on
/// `reply`. The assertion is read only where the reply brings the key to an
/// exchange that waits for it.
///
/// A reply that does not answer the pending action counts as a failure of
/// that action. A finished exchange stays as it is.
pub open spec fn token_step_with(
    state: TokenExchangeView,
    reply: ReplyView,
    assertion: Result<Seq<char>, HandlersErr>,
) -> (TokenExchangeView, ActionView<Seq<char>>) {
    match state.stage {
        TokenStageView::AwaitingKey => match reply {
            ReplyView::Key { pem } => match assertion {
                Ok(token) => (
                    TokenExchangeView { stage: TokenStageView::AwaitingResponse, ..state },
                    ActionView::Send {
                        request: token_request(state.client, state.installation_id, token),
                    },
                ),
                Err(error) => token_finish(state, Err(error)),
            },
            _ => token_finish(state, Err(HandlersErr::KeyLoadError)),
        },
        TokenStageView::AwaitingResponse => match reply {
            ReplyView::Response { status, body } => token_finish(
                state,
                token_from_response(status, body),
            ),
            _ => token_finish(state, Err(HandlersErr::TransportError)),
        },
        TokenStageView::Finished { result } => (state, ActionView::Finish { result }),
    }
}

/// The assertion that is issued where `reply` brings the key at the time
/// `now`: the one for the name of the exchange, signed with that key.
pub open spec fn assertion_at(state: TokenExchangeView, reply: ReplyView, now: int) -> Result<
    Seq<char>,
    HandlersErr,
> {
    match reply {
        ReplyView::Key { pem } => created(state.name, pem, now),
        _ => Err(HandlersErr::KeyLoadError),
    }
}

/// One step of a token exchange: the state and the action that follow from
/// `state` on `reply`, which came in at the time `now`. Where the reply
/// brings the key, the assertion is issued at that time and signed with it.
pub open spec fn token_step(state: TokenExchangeView, reply: ReplyView, now: int) -> (
    TokenExchangeView,
    ActionView<Seq<char>>,
) {
    token_step_with(state, reply, assertion_at(state, reply, now))
}

/// Reads the installation token out of the answer to a token request.
pub fn installation_token(status: u16, body: &Option<String>) -> (token: Result<
    String,
    HandlersErr,
>)
    ensures
        token_view(token) == token_from_response(status as int, text_view(*body)),
{
    if !successful(status) {
        return Err(HandlersErr::RemoteRejected);
    }
    match body {
        None => Err(HandlersErr::TransportError),
        Some(document) => match text_member(document.as_str(), "token") {
            Some(token) => Ok(token),
            None => Err(HandlersErr::ResponseParseError),
        },
    }
}

impl TokenExchange {
    /// The exchange as it begins: it waits for the key.
    pub(crate) fn begin(client: &GithubClient, name: &str, installation_id: u64) -> (exchange:
        TokenExchange)
        ensures
            exchange@ == token_start(client@, name@, installation_id as nat).0,
    {
        TokenExchange {
            client: client.duplicate(),
            name: name.to_owned(),
            installation_id,
            stage: TokenStage::AwaitingKey,
        }
    }

    fn finish(self, result: Result<String, HandlersErr>) -> (next: (
        TokenExchange,
        Action<String>,
    ))
        ensures
            (next.0@, next.1@) == token_finish(self@, token_view(result)),
    {
        let kept = match &result {
            Ok(token) => Ok(token.clone()),
            Err(error) => Err(*error),
        };
        let exchange = TokenExchange {
            client: self.client,
            name: self.name,
            installation_id: self.installation_id,
            stage: TokenStage::Finished { result: kept },
        };
        (exchange, Action::Finish { result })
    }

    /// Takes one step, with `assertion` as the outcome of issuing the
    /// assertion.
    pub fn advance_with(self, reply: Reply, assertion: Result<String, HandlersErr>) -> (next: (
        TokenExchange,
        Action<String>,
    ))
        ensures
            (next.0@, next.1@) == token_step_with(self@, reply@, token_view(assertion)),
    {
        match self.stage {
            TokenStage::AwaitingKey => match reply {
                Reply::Key { pem: _ } => match assertion {
                    Ok(token) => {
                        let request = self.client.token_request(
                            self.installation_id,
                            token.as_str(),
                        );
                        let exchange = TokenExchange {
                            client: self.client,
                            name: self.name,
                            installation_id: self.installation_id,
                            stage: TokenStage::AwaitingResponse,
                        };
                        (exchange, Action::Send { request })
                    },
                    Err(error) => self.finish(Err(error)),
                },
                _ => self.finish(Err(HandlersErr::KeyLoadError)),
            },
            TokenStage::AwaitingResponse => match reply {
                Reply::Response { status, body } => {
                    let token = installation_token(status, &body);
                    self.finish(token)
                },
                _ => self.finish(Err(HandlersErr::TransportError)),
            },
            TokenStage::Finished { result } => {
                let again = match &result {
                    Ok(token) => Ok(token.clone()),
                    Err(error) => Err(*error),
                };
                let exchange = TokenExchange {
                    client: self.client,
                    name: self.name,
                    installation_id: self.installation_id,
                    stage: TokenStage::Finished { result },
                };
                (exchange, Action::Finish { result: again })
            },
        }
    }

    /// Issues the assertion where the exchange waits for the key that `pem`
    /// brings. In every other stage nothing is signed.
    pub(crate) fn assertion_for(&self, pem: &Vec<u8>, now: i64) -> (assertion: Result<
        String,
        HandlersErr,
    >)
        requires
            now + ASSERTION_LIFETIME <= i64::MAX,
        ensures
            self@.stage is AwaitingKey ==> token_view(assertion) == created(
                self@.name,
                pem@,
                now as int,
            ),
    {
        match self.stage {
            TokenStage::AwaitingKey => create(self.name.as_str(), pem.as_slice(), now),
            _ => Err(HandlersErr::KeyLoadError),
        }
    }

    /// Takes one step: `reply` is what the driver got for the action that the
    /// exchange handed out last, and `now` the time on the clock, in seconds
    /// since the epoch, as it came in. Where the reply brings the key, the
    /// assertion is issued at that time and signed with it here.
    pub fn advance(self, reply: Reply, now: i64) -> (next: (TokenExchange, Action<String>))
        requires
            now + ASSERTION_LIFETIME <= i64::MAX,
        ensures
            (next.0@, next.1@) == token_step(self@, reply@, now as int),
    {
        let assertion = match &reply {
            Reply::Key { pem } => self.assertion_for(pem, now),
            _ => Err(HandlersErr::KeyLoadError),
        };
        self.advance_with(reply, assertion)
    }
}

/// A token request that GitHub turns down ends the exchange with
/// `RemoteRejected`, and the body has no part in it: no token is looked for.
pub proof fn lemma_rejection_ignores_the_body(
    state: TokenExchangeView,
    status: int,
    body: Option<Seq<char>>,
    other: Option<Seq<char>>,
    assertion: Result<Seq<char>, HandlersErr>,
)
    requires
        state.stage is AwaitingResponse,
        !is_success(status),
    ensures
        token_step_with(state, ReplyView::Response { status, body }, assertion).1 == (ActionView::<
            Seq<char>,
        >::Finish { result: Err(HandlersErr::RemoteRejected) }),
        token_step_with(state, ReplyView::Response { status, body }, assertion) == token_step_with(
            state,
            ReplyView::Response { status, body: other },
            assertion,
        ),
{
}

/// A key that cannot be read, or that is not accepted as an RSA key, ends
/// the exchange with `KeyLoadError`, and no request is sent.
pub proof fn lemma_unusable_key_sends_nothing(
    state: TokenExchangeView,
    reply: ReplyView,
    now: int,
)
    requires
        state.stage is AwaitingKey,
        reply is KeyUnreadable || (reply is Key && !rsa_pem_accepted(reply->pem)),
    ensures
        token_step(state, reply, now).1 == (ActionView::<Seq<char>>::Finish {
            result: Err(HandlersErr::KeyLoadError),
        }),
{
}

/// The token request carries the assertion that was issued: where the key
/// is accepted and signing gives a token, that token, made of the claims for
/// the name of the exchange at the time of the step, is the bearer
/// credential of the request.
pub proof fn lemma_token_request_carries_the_assertion(
    state: TokenExchangeView,
    pem: Seq<u8>,
    now: int,
)
    requires
        state.stage is AwaitingKey,
        created(state.name, pem, now) is Ok,
    ensures
        token_step(state, ReplyView::Key { pem }, now).1 == (ActionView::<Seq<char>>::Send {
            request: token_request(
                state.client,
                state.installation_id,
                created(state.name, pem, now)->Ok_0,
            ),
        }),
{
}

} // verus!
