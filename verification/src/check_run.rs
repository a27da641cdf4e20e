//! The exchange that makes one transition of a check run, and the payload
//! that it posts.

use crate::client::{check_run_request, token_request, ClientView, GithubClient};
use crate::exchange::{key_path, Action, ActionView, Reply, ReplyView};
use crate::http::{authorization, check_status, is_success, status_outcome};
use crate::json::{document_text_at, object_text, JsonObject, JsonView, Members, Scalar};
use crate::jwt::{created, token_view, ASSERTION_LIFETIME};
use crate::models::HandlersErr;
use crate::token::{
    assertion_at, token_start, token_step_with, TokenExchange, TokenExchangeView,
};
use vstd::prelude::*;
use vstd::string::*;

verus! {

/// A step in the life of a check run.
#[derive(Debug, Clone, Copy, PartialEq, Eq, Structural)]
pub enum Transition {
    /// The check run is created.
    Create,
    /// The check run is marked as in progress.
    Start,
    /// The check run is marked as completed, with its conclusion.
    Complete { success: bool },
}

/// Where a check run stands after a transition, with the time it got there.
#[derive(Debug, Clone, Copy, PartialEq, Eq, Structural)]
pub enum Progress {
    Created,
    InProgress { started_at: i64 },
    Completed { success: bool, completed_at: i64 },
}

/// Where `transition`, made at `now`, takes a check run.
pub open spec fn progress_at(transition: Transition, now: i64) -> Progress {
    match transition {
        Transition::Create => Progress::Created,
        Transition::Start => Progress::InProgress { started_at: now },
        Transition::Complete { success } => Progress::Completed { success, completed_at: now },
    }
}

/// The payload of a check-run request: the run's name, the commit it is
/// about, and where it stands.
#[derive(Debug)]
pub struct CheckRunRequest {
    pub name: String,
    pub head_sha: String,
    pub progress: Progress,
}

/// A payload as mathematical values.
pub struct CheckRunRequestView {
    pub name: Seq<char>,
    pub head_sha: Seq<char>,
    pub progress: Progress,
}

impl View for CheckRunRequest {
    type V = CheckRunRequestView;

    open spec fn view(&self) -> CheckRunRequestView {
        CheckRunRequestView { name: self.name@, head_sha: self.head_sha@, progress: self.progress }
    }
}

/// The `conclusion` of a completed check run.
pub open spec fn conclusion(success: bool) -> Seq<char> {
    if success {
        "success"@
    } else {
        "failure"@
    }
}

/// The JSON object that carries a payload: `name` and `headSha` always;
/// `status` and `startedAt` for a run in progress; `status`, `conclusion` and
/// `completedAt` for a completed one.
pub open spec fn payload_members(payload: CheckRunRequestView) -> Members {
    let common = Members::empty().insert("name"@, JsonView::Text(payload.name)).insert(
        "headSha"@,
        JsonView::Text(payload.head_sha),
    );
    match payload.progress {
        Progress::Created => common,
        Progress::InProgress { started_at } => common.insert(
            "status"@,
            JsonView::Text("in_progress"@),
        ).insert("startedAt"@, JsonView::Integer(started_at as int)),
        Progress::Completed { success, completed_at } => common.insert(
            "status"@,
            JsonView::Text("completed"@),
        ).insert("conclusion"@, JsonView::Text(conclusion(success))).insert(
            "completedAt"@,
            JsonView::Integer(completed_at as int),
        ),
    }
}

impl CheckRunRequest {
    /// The payload for `transition`, made at `now`, of the check run `name`
    /// on commit `head_sha`.
    pub fn new(transition: Transition, name: &str, head_sha: &str, now: i64) -> (payload:
        CheckRunRequest)
        ensures
            payload@ == (CheckRunRequestView {
                name: name@,
                head_sha: head_sha@,
                progress: progress_at(transition, now),
            }),
    {
        let progress = match transition {
            Transition::Create => Progress::Created,
            Transition::Start => Progress::InProgress { started_at: now },
            Transition::Complete { success } => Progress::Completed { success, completed_at: now },
        };
        CheckRunRequest { name: name.to_owned(), head_sha: head_sha.to_owned(), progress }
    }

    /// The payload as a JSON object.
    pub fn to_object(&self) -> (object: JsonObject)
        ensures
            object@ == payload_members(self@),
    {
        let common = JsonObject::new().with("name", Scalar::Text(self.name.clone())).with(
            "headSha",
            Scalar::Text(self.head_sha.clone()),
        );
        match self.progress {
            Progress::Created => common,
            Progress::InProgress { started_at } => common.with(
                "status",
                Scalar::Text(String::from_str("in_progress")),
            ).with("startedAt", Scalar::Integer(started_at)),
            Progress::Completed { success, completed_at } => {
                let outcome = if success {
                    String::from_str("success")
                } else {
                    String::from_str("failure")
                };
                common.with("status", Scalar::Text(String::from_str("completed"))).with(
                    "conclusion",
                    Scalar::Text(outcome),
                ).with("completedAt", Scalar::Integer(completed_at))
            },
        }
    }
}

/// How far a check-run exchange has come.
#[derive(Debug)]
pub enum Stage {
    /// The installation token is being obtained.
    Token { exchange: TokenExchange },
    /// The check-run request is under way.
    AwaitingCheckRun,
    /// The exchange has ended.
    Finished { result: Result<u16, HandlersErr> },
}

/// A stage as mathematical values.
pub enum StageView {
    Token { exchange: TokenExchangeView },
    AwaitingCheckRun,
    Finished { result: Result<u16, HandlersErr> },
}

impl View for Stage {
    type V = StageView;

    open spec fn view(&self) -> StageView {
        match self {
            Stage::Token { exchange } => StageView::Token { exchange: exchange@ },
            Stage::AwaitingCheckRun => StageView::AwaitingCheckRun,
            Stage::Finished { result } => StageView::Finished { result: *result },
        }
    }
}

/// The exchange that makes one transition of a check run: it obtains an
/// installation token, then posts the transition with it.
#[derive(Debug)]
pub struct Exchange {
    client: GithubClient,
    transition: Transition,
    full_name: String,
    head_sha: String,
    stage: Stage,
}

/// A check-run exchange as mathematical values.
pub struct ExchangeView {
    pub client: ClientView,
    pub transition: Transition,
    pub full_name: Seq<char>,
    pub head_sha: Seq<char>,
    pub stage: StageView,
}

impl View for Exchange {
    type V = ExchangeView;

    closed spec fn view(&self) -> ExchangeView {
        ExchangeView {
            client: self.client@,
            transition: self.transition,
            full_name: self.full_name@,
            head_sha: self.head_sha@,
            stage: self.stage@,
        }
    }
}

/// A check-run exchange that ends with `result`.
pub open spec fn finish(state: ExchangeView, result: Result<u16, HandlersErr>) -> (
    ExchangeView,
    ActionView<u16>,
) {
    (ExchangeView { stage: StageView::Finished { result }, ..state }, ActionView::Finish { result })
}

/// What a check-run exchange does once it holds the installation token: it
/// posts the payload of its transition, made at `now`, or ends with
/// `SerializationError` where the payload has no JSON text.
pub open spec fn submit(state: ExchangeView, token: Seq<char>, now: i64) -> (
    ExchangeView,
    ActionView<u16>,
) {
    let payload = CheckRunRequestView {
        name: state.full_name,
        head_sha: state.head_sha,
        progress: progress_at(state.transition, now),
    };
    match object_text(payload_members(payload)) {
        Some(body) => (
            ExchangeView { stage: StageView::AwaitingCheckRun, ..state },
            ActionView::Send {
                request: check_run_request(state.client, state.full_name, token, body),
            },
        ),
        None => finish(state, Err(HandlersErr::SerializationError)),
    }
}

/// How a check-run exchange begins: with the token exchange for the
/// installation, under the repository's name.
pub open spec fn exchange_start(
    client: ClientView,
    transition: Transition,
    full_name: Seq<char>,
    head_sha: Seq<char>,
    installation_id: nat,
) -> (ExchangeView, ActionView<u16>) {
    (
        ExchangeView {
            client,
            transition,
            full_name,
            head_sha,
            stage: StageView::Token { exchange: token_start(client, full_name, installation_id).0 },
        },
        ActionView::ReadKey { path: key_path() },
    )
}

/// One step of a check-run exchange, with `assertion` as the outcome of
/// issuing the assertion: the state and the action that follow from `state`
/// on `reply`, which came in at `now`. The assertion and the time are each
/// read only in the step that needs them.
///
/// While the token is being obtained, the token exchange decides. Its
/// failure ends this exchange with the same error; its token leads to the
/// check-run request, whose payload is stamped with `now`. The answer to
/// that request is judged by its status alone. A finished exchange stays as
/// it is.
pub open spec fn check_run_step_with(
    state: ExchangeView,
    reply: ReplyView,
    assertion: Result<Seq<char>, HandlersErr>,
    now: i64,
) -> (ExchangeView, ActionView<u16>) {
    match state.stage {
        StageView::Token { exchange } => {
            let (token_state, action) = token_step_with(exchange, reply, assertion);
            let waiting = ExchangeView { stage: StageView::Token { exchange: token_state }, ..state };
            match action {
                ActionView::ReadKey { path } => (waiting, ActionView::ReadKey { path }),
                ActionView::Send { request } => (waiting, ActionView::Send { request }),
                ActionView::Finish { result } => match result {
                    Ok(token) => submit(state, token, now),
                    Err(error) => finish(state, Err(error)),
                },
            }
        },
        StageView::AwaitingCheckRun => match reply {
            ReplyView::Response { status, body } => finish(state, status_outcome(status)),
            _ => finish(state, Err(HandlersErr::TransportError)),
        },
        StageView::Finished { result } => (state, ActionView::Finish { result }),
    }
}

/// The assertion that is issued where `reply` brings the key at `now` to an
/// exchange that is obtaining its token.
pub open spec fn exchange_assertion_at(state: ExchangeView, reply: ReplyView, now: i64) -> Result<
    Seq<char>,
    HandlersErr,
> {
    match state.stage {
        StageView::Token { exchange } => assertion_at(exchange, reply, now as int),
        _ => Err(HandlersErr::KeyLoadError),
    }
}

/// One step of a check-run exchange: the state and the action that follow
/// from `state` on `reply`, which came in at the time `now`. Where the reply
/// brings the key, the assertion is issued at that time and signed with it;
/// where it brings the token, the payload is stamped with that time.
pub open spec fn check_run_step(state: ExchangeView, reply: ReplyView, now: i64) -> (
    ExchangeView,
    ActionView<u16>,
) {
    check_run_step_with(state, reply, exchange_assertion_at(state, reply, now), now)
}

impl Exchange {
    /// The exchange as it begins: with the token exchange for the
    /// installation.
    pub(crate) fn begin(
        client: &GithubClient,
        transition: Transition,
        full_name: &str,
        head_sha: &str,
        installation_id: u64,
    ) -> (exchange: Exchange)
        ensures
            exchange@ == exchange_start(
                client@,
                transition,
                full_name@,
                head_sha@,
                installation_id as nat,
            ).0,
    {
        Exchange {
            client: client.duplicate(),
            transition,
            full_name: full_name.to_owned(),
            head_sha: head_sha.to_owned(),
            stage: Stage::Token { exchange: TokenExchange::begin(client, full_name, installation_id) },
        }
    }

    fn finish(self, result: Result<u16, HandlersErr>) -> (next: (Exchange, Action<u16>))
        ensures
            (next.0@, next.1@) == finish(self@, result),
    {
        let exchange = Exchange {
            client: self.client,
            transition: self.transition,
            full_name: self.full_name,
            head_sha: self.head_sha,
            stage: Stage::Finished { result },
        };
        (exchange, Action::Finish { result })
    }

    /// Posts the transition, now that `token` is at hand and the clock shows
    /// `now`.
    fn submit(self, token: &str, now: i64) -> (next: (Exchange, Action<u16>))
        ensures
            (next.0@, next.1@) == submit(self@, token@, now),
    {
        let payload = CheckRunRequest::new(
            self.transition,
            self.full_name.as_str(),
            self.head_sha.as_str(),
            now,
        );
        match payload.to_object().to_text() {
            Ok(body) => {
                let request = self.client.check_run_request(self.full_name.as_str(), token, body);
                let exchange = Exchange {
                    client: self.client,
                    transition: self.transition,
                    full_name: self.full_name,
                    head_sha: self.head_sha,
                    stage: Stage::AwaitingCheckRun,
                };
                (exchange, Action::Send { request })
            },
            Err(_) => self.finish(Err(HandlersErr::SerializationError)),
        }
    }

    /// Takes one step, with `assertion` as the outcome of issuing the
    /// assertion and `now` as the time on the clock.
    pub fn advance_with(self, reply: Reply, assertion: Result<String, HandlersErr>, now: i64) -> (next:
        (Exchange, Action<u16>))
        ensures
            (next.0@, next.1@) == check_run_step_with(self@, reply@, token_view(assertion), now),
    {
        let Exchange { client, transition, full_name, head_sha, stage } = self;
        match stage {
            Stage::Token { exchange } => {
                let (token_state, action) = exchange.advance_with(reply, assertion);
                match action {
                    Action::ReadKey { path } => (
                        Exchange {
                            client,
                            transition,
                            full_name,
                            head_sha,
                            stage: Stage::Token { exchange: token_state },
                        },
                        Action::ReadKey { path },
                    ),
                    Action::Send { request } => (
                        Exchange {
                            client,
                            transition,
                            full_name,
                            head_sha,
                            stage: Stage::Token { exchange: token_state },
                        },
                        Action::Send { request },
                    ),
                    Action::Finish { result } => {
                        let waiting = Exchange {
                            client,
                            transition,
                            full_name,
                            head_sha,
                            stage: Stage::Token { exchange: token_state },
                        };
                        match result {
                            Ok(token) => waiting.submit(token.as_str(), now),
                            Err(error) => waiting.finish(Err(error)),
                        }
                    },
                }
            },
            Stage::AwaitingCheckRun => {
                let waiting = Exchange {
                    client,
                    transition,
                    full_name,
                    head_sha,
                    stage: Stage::AwaitingCheckRun,
                };
                match reply {
                    Reply::Response { status, body: _ } => waiting.finish(check_status(status)),
                    _ => waiting.finish(Err(HandlersErr::TransportError)),
                }
            },
            Stage::Finished { result } => (
                Exchange { client, transition, full_name, head_sha, stage: Stage::Finished { result } },
                Action::Finish { result },
            ),
        }
    }

    /// Takes one step: `reply` is what the driver got for the action that the
    /// exchange handed out last, and `now` the time on the clock, in seconds
    /// since the epoch, as it came in. Where the reply brings the key, the
    /// assertion is issued at that time and signed with it here; where it
    /// brings the token, the payload is stamped with that time.
    pub fn advance(self, reply: Reply, now: i64) -> (next: (Exchange, Action<u16>))
        requires
            now + ASSERTION_LIFETIME <= i64::MAX,
        ensures
            (next.0@, next.1@) == check_run_step(self@, reply@, now),
    {
        let assertion = match (&self.stage, &reply) {
            (Stage::Token { exchange }, Reply::Key { pem }) => exchange.assertion_for(pem, now),
            _ => Err(HandlersErr::KeyLoadError),
        };
        self.advance_with(reply, assertion, now)
    }
}

/// An exchange that has ended stays as it is: whatever the reply, it hands
/// out its result again and sends nothing.
pub proof fn lemma_finished_stays_finished(
    state: ExchangeView,
    reply: ReplyView,
    assertion: Result<Seq<char>, HandlersErr>,
    now: i64,
)
    requires
        state.stage is Finished,
    ensures
        check_run_step_with(state, reply, assertion, now) == (
            state,
            ActionView::<u16>::Finish { result: state.stage->result },
        ),
{
}

/// Every step leaves the client, the transition, the repository and the
/// commit of an exchange as they were, and hands out no second request for
/// the key.
pub proof fn lemma_step_keeps_the_call(
    state: ExchangeView,
    reply: ReplyView,
    assertion: Result<Seq<char>, HandlersErr>,
    now: i64,
)
    ensures
        check_run_step_with(state, reply, assertion, now).0.client == state.client,
        check_run_step_with(state, reply, assertion, now).0.transition == state.transition,
        check_run_step_with(state, reply, assertion, now).0.full_name == state.full_name,
        check_run_step_with(state, reply, assertion, now).0.head_sha == state.head_sha,
        !(check_run_step_with(state, reply, assertion, now).1 is ReadKey),
{
}

/// A failure to obtain the installation token ends the check-run exchange
/// with the same error, and the check-run request is not sent.
pub proof fn lemma_token_failure_ends_the_exchange(
    state: ExchangeView,
    reply: ReplyView,
    assertion: Result<Seq<char>, HandlersErr>,
    now: i64,
    error: HandlersErr,
)
    requires
        state.stage is Token,
        token_step_with(state.stage->exchange, reply, assertion).1 == (ActionView::<Seq<char>>::Finish {
            result: Err(error),
        }),
    ensures
        check_run_step_with(state, reply, assertion, now) == finish(state, Err(error)),
{
}

/// The check-run request is sent only with a token that GitHub handed out:
/// where a step of an exchange that waits for the token response sends a
/// request, the response had a status of success, its body holds the token,
/// and the request carries that token as its credential, goes to the
/// check runs of the exchange's repository and holds the payload of its
/// transition.
pub proof fn lemma_check_run_carries_the_token(
    state: ExchangeView,
    reply: ReplyView,
    assertion: Result<Seq<char>, HandlersErr>,
    now: i64,
)
    requires
        state.stage is Token,
        state.stage->exchange.stage is AwaitingResponse,
        check_run_step_with(state, reply, assertion, now).1 is Send,
    ensures
        reply is Response,
        is_success(reply->status),
        reply->body is Some,
        document_text_at(reply->body->0, "token"@) is Some,
        check_run_step_with(state, reply, assertion, now) == submit(
            state,
            document_text_at(reply->body->0, "token"@)->0,
            now,
        ),
        check_run_step_with(state, reply, assertion, now).1->request.headers.last() == authorization(
            "token"@,
            document_text_at(reply->body->0, "token"@)->0,
        ),
        check_run_step_with(state, reply, assertion, now).1->request.url == state.client.root_endpoint
            + "/repos/"@ + state.full_name + "/check-runs"@,
{
}

/// The whole course of a check-run exchange that meets no failure. It asks
/// for the key; sends the token request, whose bearer credential is the
/// assertion issued for the repository's name at the time the key came in;
/// sends the check-run request with the token from the answer and the
/// payload stamped with the time of that answer; and ends with the status of
/// the second answer.
pub proof fn lemma_course_of_an_exchange(
    client: ClientView,
    transition: Transition,
    full_name: Seq<char>,
    head_sha: Seq<char>,
    installation_id: nat,
    pem: Seq<u8>,
    issued_at: i64,
    granted: int,
    document: Seq<char>,
    granted_at: i64,
    status: int,
    ended_at: i64,
)
    requires
        created(full_name, pem, issued_at as int) is Ok,
        is_success(granted),
        document_text_at(document, "token"@) is Some,
        object_text(
            payload_members(
                CheckRunRequestView {
                    name: full_name,
                    head_sha,
                    progress: progress_at(transition, granted_at),
                },
            ),
        ) is Some,
        is_success(status),
    ensures
        ({
            let begun = exchange_start(client, transition, full_name, head_sha, installation_id);
            let signed = check_run_step(begun.0, ReplyView::Key { pem }, issued_at);
            let granted_step = check_run_step(
                signed.0,
                ReplyView::Response { status: granted, body: Some(document) },
                granted_at,
            );
            let ended = check_run_step(
                granted_step.0,
                ReplyView::Response { status, body: None },
                ended_at,
            );
            &&& begun.1 == (ActionView::<u16>::ReadKey { path: key_path() })
            &&& signed.1 == (ActionView::<u16>::Send {
                request: token_request(
                    client,
                    installation_id,
                    created(full_name, pem, issued_at as int)->Ok_0,
                ),
            })
            &&& granted_step.1 == (ActionView::<u16>::Send {
                request: check_run_request(
                    client,
                    full_name,
                    document_text_at(document, "token"@)->0,
                    object_text(
                        payload_members(
                            CheckRunRequestView {
                                name: full_name,
                                head_sha,
                                progress: progress_at(transition, granted_at),
                            },
                        ),
                    )->0,
                ),
            })
            &&& ended.1 == (ActionView::<u16>::Finish { result: Ok(status as u16) })
        }),
{
}

/// Whether `reply` grants a token to the exchange `begun`, at a time `now`
/// for which the payload of the exchange has a JSON text.
pub open spec fn grants_token(begun: ExchangeView, reply: ReplyView, now: i64) -> bool {
    &&& reply is Response
    &&& is_success(reply->status)
    &&& reply->body is Some
    &&& document_text_at(reply->body->0, "token"@) is Some
    &&& object_text(
        payload_members(
            CheckRunRequestView {
                name: begun.full_name,
                head_sha: begun.head_sha,
                progress: progress_at(begun.transition, now),
            },
        ),
    ) is Some
}

/// Whether the exchange that began as `begun` and was handed the assertion
/// `assertion` answers `reply` by sending the check-run request, to the check
/// runs of its repository and with the token that the reply holds.
pub open spec fn posts_with_token(
    begun: ExchangeView,
    pem: Seq<u8>,
    assertion: Seq<char>,
    reply: ReplyView,
    now: i64,
) -> bool {
    let waiting = check_run_step_with(begun, ReplyView::Key { pem }, Ok(assertion), now).0;
    let step = check_run_step_with(waiting, reply, Ok(assertion), now);
    &&& step.1 is Send
    &&& step.1->request.url == begun.client.root_endpoint + "/repos/"@ + begun.full_name
        + "/check-runs"@
    &&& step.1->request.headers.last() == authorization(
        "token"@,
        document_text_at(reply->body->0, "token"@)->0,
    )
}

/// Completing a check run twice posts twice. Nothing of an exchange is kept
/// when it ends, so a second completion of the same commit begins as the
/// first did, and each of the two, once it is granted a token, sends its own
/// check-run request with that token.
pub proof fn lemma_completion_is_not_deduplicated(
    client: ClientView,
    full_name: Seq<char>,
    head_sha: Seq<char>,
    success: bool,
    installation_id: nat,
    pem: Seq<u8>,
    first_assertion: Seq<char>,
    first_reply: ReplyView,
    first_now: i64,
    second_assertion: Seq<char>,
    second_reply: ReplyView,
    second_now: i64,
)
    requires
        grants_token(
            exchange_start(
                client,
                Transition::Complete { success },
                full_name,
                head_sha,
                installation_id,
            ).0,
            first_reply,
            first_now,
        ),
        grants_token(
            exchange_start(
                client,
                Transition::Complete { success },
                full_name,
                head_sha,
                installation_id,
            ).0,
            second_reply,
            second_now,
        ),
    ensures
        posts_with_token(
            exchange_start(
                client,
                Transition::Complete { success },
                full_name,
                head_sha,
                installation_id,
            ).0,
            pem,
            first_assertion,
            first_reply,
            first_now,
        ),
        posts_with_token(
            exchange_start(
                client,
                Transition::Complete { success },
                full_name,
                head_sha,
                installation_id,
            ).0,
            pem,
            second_assertion,
            second_reply,
            second_now,
        ),
{
}

} // verus!
