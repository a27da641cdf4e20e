//! The event router: which check-run transition a webhook event asks for,
//! and what the sender of the webhook is told.

use crate::check_run::{exchange_start, Exchange, ExchangeView, Transition};
use crate::client::{github_client, GithubClient};
use crate::exchange::{Action, ActionView};
use crate::models::{Event, HandlersErr};
use crate::text::same_text;
use vstd::prelude::*;

verus! {

/// The status that acknowledges a webhook: 200 OK.
pub const OK: u16 = 200;

/// The status that turns a webhook down: 400 Bad Request.
pub const BAD_REQUEST: u16 = 400;

/// The transition that an event's action asks for: a check run is created
/// when a check suite is requested or requested again, and started when it
/// has been created. Every other action asks for nothing.
pub open spec fn route(action: Seq<char>) -> Option<Transition> {
    if action == "requested"@ || action == "rerequested"@ {
        Some(Transition::Create)
    } else if action == "created"@ {
        Some(Transition::Start)
    } else {
        None
    }
}

/// The status that answers a webhook with the given action: 200 where the
/// action asks for a transition, 400 where it does not. What becomes of the
/// transition has no part in it.
pub open spec fn response_status(action: Seq<char>) -> u16 {
    if route(action) is Some {
        OK
    } else {
        BAD_REQUEST
    }
}

/// What is to be done about an event: the status to answer the webhook
/// with, and the exchange to run before answering, if the event asks for one.
#[derive(Debug)]
pub struct Dispatch {
    pub status: u16,
    pub start: Option<(Exchange, Action<u16>)>,
}

/// The beginning of an exchange as mathematical values, if there is one.
pub open spec fn start_view(start: Option<(Exchange, Action<u16>)>) -> Option<
    (ExchangeView, ActionView<u16>),
> {
    match start {
        Some(begun) => Some((begun.0@, begun.1@)),
        None => None,
    }
}

/// What `event` decides for an event with these values.
pub open spec fn dispatched(
    action: Seq<char>,
    full_name: Seq<char>,
    head_sha: Seq<char>,
    installation_id: nat,
) -> Option<(ExchangeView, ActionView<u16>)> {
    match route(action) {
        Some(transition) => Some(
            exchange_start(github_client(), transition, full_name, head_sha, installation_id),
        ),
        None => None,
    }
}

impl Dispatch {
    /// The status to answer the webhook with once the exchange has ended
    /// with `outcome`. The outcome is for the log: the answer does not depend
    /// on it.
    pub fn respond(&self, outcome: &Result<u16, HandlersErr>) -> (status: u16)
        ensures
            status == self.status,
    {
        self.status
    }
}

/// Routes a webhook event by its action.
pub fn event(received: Event) -> (dispatch: Dispatch)
    ensures
        dispatch.status == response_status(received.action@),
        start_view(dispatch.start) == dispatched(
            received.action@,
            received.repository.full_name@,
            received.check_suite.head_sha@,
            received.installation.id as nat,
        ),
{
    let action = received.action.as_str();
    if same_text(action, "requested") || same_text(action, "rerequested") {
        let client = GithubClient::new();
        let start = client.check_run_create(
            received.repository.full_name.as_str(),
            received.check_suite.head_sha.as_str(),
            received.installation.id,
        );
        Dispatch { status: OK, start: Some(start) }
    } else if same_text(action, "created") {
        let client = GithubClient::new();
        let start = client.check_run_start(
            received.repository.full_name.as_str(),
            received.check_suite.head_sha.as_str(),
            received.installation.id,
        );
        Dispatch { status: OK, start: Some(start) }
    } else {
        Dispatch { status: BAD_REQUEST, start: None }
    }
}

/// An event whose action is `created` asks for exactly one transition, the
/// start of the check run, and is answered with 200, whatever becomes of
/// that transition.
pub proof fn lemma_created_starts_the_run(
    full_name: Seq<char>,
    head_sha: Seq<char>,
    installation_id: nat,
)
    ensures
        route("created"@) == Some(Transition::Start),
        response_status("created"@) == 200,
        dispatched("created"@, full_name, head_sha, installation_id) == Some(
            exchange_start(github_client(), Transition::Start, full_name, head_sha, installation_id),
        ),
{
    reveal_strlit("created");
    reveal_strlit("requested");
    reveal_strlit("rerequested");
    assert("created"@.len() == 7);
    assert("requested"@.len() == 9);
    assert("rerequested"@.len() == 11);
}

/// An event whose action is none of `requested`, `rerequested` and `created`
/// is answered with 400 and asks for no exchange, so nothing is sent.
pub proof fn lemma_unmatched_is_turned_down(
    action: Seq<char>,
    full_name: Seq<char>,
    head_sha: Seq<char>,
    installation_id: nat,
)
    requires
        action != "requested"@,
        action != "rerequested"@,
        action != "created"@,
    ensures
        response_status(action) == 400,
        dispatched(action, full_name, head_sha, installation_id) is None,
{
}

/// The answer to a webhook is 200 exactly where its action is one of
/// `requested`, `rerequested` and `created`, and 400 for every other.
pub proof fn lemma_acknowledged_actions(action: Seq<char>)
    ensures
        response_status(action) == 200 <==> (action == "requested"@ || action == "rerequested"@
            || action == "created"@),
        response_status(action) == 200 || response_status(action) == 400,
        (action == "requested"@ || action == "rerequested"@) ==> route(action) == Some(
            Transition::Create,
        ),
{
}

} // verus!
