//! Check-run orchestration for a GitHub App.
//!
//! The library decides what a webhook delivery leads to: which check-run
//! transition an event asks for, which requests that transition sends to the
//! GitHub API and in which order, and how each response is judged. It performs
//! no I/O itself. A driver reads the key file and sends the requests that the
//! library hands out, and feeds back what it got and when.
//!
//! - `handlers` routes an event to a transition and fixes the answer to the
//!   webhook.
//! - `client` holds the endpoint and headers of the GitHub API and begins the
//!   exchanges; `token` and `check_run` are the exchanges themselves, and
//!   `exchange` is the vocabulary they share with the driver.
//! - `jwt` issues the App assertion; `json`, `http` and `text` are what the
//!   others are built from.
//! - `models` holds the event record and the error type.

use vstd::prelude::*;

pub mod check_run;
pub mod client;
pub mod exchange;
pub mod handlers;
pub mod http;
pub mod json;
pub mod jwt;
pub mod models;
pub mod text;
pub mod token;

verus! {

/// Runs the checks of a commit and says whether they passed.
///
/// No check is defined yet, so every commit passes.
pub fn run_check(_head_sha: String) -> (passed: bool)
    ensures
        passed,
{
    true
}

} // verus!
