//! The conversation between an exchange and its driver.
//!
//! The library performs no I/O. An exchange hands out an `Action` (read the
//! key file, send a request, or finish with a result), the driver carries it
//! out and answers with a `Reply` and the time on its clock, and the exchange
//! turns the two into the next action.

use crate::http::{text_view, PostRequest, PostRequestView};
use crate::models::HandlersErr;
use vstd::prelude::*;
use vstd::string::*;

verus! {

/// Where the driver finds the App's private key.
pub open spec fn key_path() -> Seq<char> {
    "/home/ec2-user/dollar-ci.2020-04-18.private-key.pem"@
}

/// What the driver is asked to do next.
#[derive(Debug)]
pub enum Action<T> {
    /// Read the file at `path` and answer with its bytes.
    ReadKey { path: String },
    /// Send `request` and answer with the response.
    Send { request: PostRequest },
    /// Nothing more: the exchange has ended with `result`.
    Finish { result: Result<T, HandlersErr> },
}

/// An action as mathematical values.
pub enum ActionView<V> {
    ReadKey { path: Seq<char> },
    Send { request: PostRequestView },
    Finish { result: Result<V, HandlersErr> },
}

impl<T: View> View for Action<T> {
    type V = ActionView<T::V>;

    open spec fn view(&self) -> ActionView<T::V> {
        match self {
            Action::ReadKey { path } => ActionView::ReadKey { path: path@ },
            Action::Send { request } => ActionView::Send { request: request@ },
            Action::Finish { result } => ActionView::Finish {
                result: match result {
                    Ok(value) => Ok(value@),
                    Err(error) => Err(*error),
                },
            },
        }
    }
}

/// What the driver got when it carried out an action.
#[derive(Debug)]
pub enum Reply {
    /// The bytes of the key file.
    Key { pem: Vec<u8> },
    /// The key file could not be read.
    KeyUnreadable,
    /// GitHub answered. `body` is `None` where the body could not be read.
    Response { status: u16, body: Option<String> },
    /// The request got no answer.
    Unreachable,
}

/// A reply as mathematical values.
pub enum ReplyView {
    Key { pem: Seq<u8> },
    KeyUnreadable,
    Response { status: int, body: Option<Seq<char>> },
    Unreachable,
}

impl View for Reply {
    type V = ReplyView;

    open spec fn view(&self) -> ReplyView {
        match self {
            Reply::Key { pem } => ReplyView::Key { pem: pem@ },
            Reply::KeyUnreadable => ReplyView::KeyUnreadable,
            Reply::Response { status, body } => ReplyView::Response {
                status: *status as int,
                body: text_view(*body),
            },
            Reply::Unreachable => ReplyView::Unreachable,
        }
    }
}

/// The action that asks for the App's private key.
pub(crate) fn read_key<T: View>() -> (action: Action<T>)
    ensures
        action@ == (ActionView::<T::V>::ReadKey { path: key_path() }),
{
    Action::ReadKey { path: String::from_str("/home/ec2-user/dollar-ci.2020-04-18.private-key.pem") }
}

} // verus!
