//! The webhook event record and the error type of the library.

use vstd::prelude::*;
use vstd::string::*;

verus! {

/// A "check suite" webhook notification.
#[derive(Debug)]
pub struct Event {
    pub action: String,
    pub check_suite: CheckSuite,
    pub repository: Repo,
    pub installation: Installation,
}

/// The check suite that an event is about.
#[derive(Debug)]
pub struct CheckSuite {
    pub id: u64,
    pub status: String,
    pub head_sha: String,
    pub check_runs_url: String,
}

/// The repository that an event is about.
#[derive(Debug)]
pub struct Repo {
    pub full_name: String,
    pub clone_url: String,
}

/// The installation of the App that an event was sent for.
#[derive(Debug)]
pub struct Installation {
    pub id: u64,
}

/// Why an operation of the library failed.
#[derive(Debug, Clone, Copy, PartialEq, Eq, Structural)]
pub enum HandlersErr {
    /// The private key could not be read, or is no RSA private key in PEM form.
    KeyLoadError,
    /// The assertion could not be encoded and signed.
    SigningError,
    /// A request body could not be encoded as JSON.
    SerializationError,
    /// GitHub could not be reached, or its answer could not be read.
    TransportError,
    /// GitHub answered with a status outside 200..=299.
    RemoteRejected,
    /// GitHub answered 2xx, but the body is not the JSON that was expected.
    ResponseParseError,
}

impl HandlersErr {
    /// The text of `message`.
    pub open spec fn description(self) -> Seq<char> {
        match self {
            HandlersErr::KeyLoadError => "key load error"@,
            HandlersErr::SigningError => "signing error"@,
            HandlersErr::SerializationError => "serialization error"@,
            HandlersErr::TransportError => "transport error"@,
            HandlersErr::RemoteRejected => "remote rejected"@,
            HandlersErr::ResponseParseError => "response parse error"@,
        }
    }

    /// A short text that names the failure, for logs.
    pub fn message(&self) -> (text: String)
        ensures
            text@ == self.description(),
    {
        match self {
            HandlersErr::KeyLoadError => String::from_str("key load error"),
            HandlersErr::SigningError => String::from_str("signing error"),
            HandlersErr::SerializationError => String::from_str("serialization error"),
            HandlersErr::TransportError => String::from_str("transport error"),
            HandlersErr::RemoteRejected => String::from_str("remote rejected"),
            HandlersErr::ResponseParseError => String::from_str("response parse error"),
        }
    }
}

} // verus!
