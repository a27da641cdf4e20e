//! HTTP as the library sees it: the POST requests it hands out and the rule
//! by which it judges a response status.

use crate::models::HandlersErr;
use vstd::prelude::*;
use vstd::string::*;

verus! {

/// One header of a request.
#[derive(Debug)]
pub struct Header {
    pub name: String,
    pub value: String,
}

/// A header as mathematical values.
pub struct HeaderView {
    pub name: Seq<char>,
    pub value: Seq<char>,
}

impl View for Header {
    type V = HeaderView;

    open spec fn view(&self) -> HeaderView {
        HeaderView { name: self.name@, value: self.value@ }
    }
}

/// The views of a list of headers, in order.
pub open spec fn header_views(headers: Seq<Header>) -> Seq<HeaderView> {
    Seq::new(headers.len(), |i: int| headers[i]@)
}

/// The text of an optional string.
pub open spec fn text_view(text: Option<String>) -> Option<Seq<char>> {
    match text {
        Some(t) => Some(t@),
        None => None,
    }
}

/// A POST request that the driver is to send.
#[derive(Debug)]
pub struct PostRequest {
    pub url: String,
    pub headers: Vec<Header>,
    pub body: Option<String>,
}

/// A POST request as mathematical values.
pub struct PostRequestView {
    pub url: Seq<char>,
    pub headers: Seq<HeaderView>,
    pub body: Option<Seq<char>>,
}

impl View for PostRequest {
    type V = PostRequestView;

    open spec fn view(&self) -> PostRequestView {
        PostRequestView {
            url: self.url@,
            headers: header_views(self.headers@),
            body: text_view(self.body),
        }
    }
}

/// The header that carries a credential: `Authorization`, with the scheme,
/// a space and the credential as its value.
pub open spec fn authorization(scheme: Seq<char>, credential: Seq<char>) -> HeaderView {
    HeaderView { name: "Authorization"@, value: scheme + " "@ + credential }
}

impl Header {
    /// The header `name: value`.
    pub fn new(name: &str, value: &str) -> (header: Header)
        ensures
            header@ == (HeaderView { name: name@, value: value@ }),
    {
        Header { name: name.to_owned(), value: value.to_owned() }
    }

    /// The `Authorization` header for a credential under a scheme.
    pub fn authorization(scheme: &str, credential: &str) -> (header: Header)
        ensures
            header@ == authorization(scheme@, credential@),
    {
        let mut value = scheme.to_owned();
        value.append(" ");
        value.append(credential);
        Header { name: String::from_str("Authorization"), value }
    }
}

/// A copy of `headers`.
pub fn copy_headers(headers: &Vec<Header>) -> (copy: Vec<Header>)
    ensures
        header_views(copy@) == header_views(headers@),
{
    let mut copy: Vec<Header> = Vec::new();
    let mut i: usize = 0;
    while i < headers.len()
        invariant
            i <= headers.len(),
            copy.len() == i,
            forall|k: int| 0 <= k < i ==> copy[k]@ == headers[k]@,
        decreases headers.len() - i,
    {
        let header = Header { name: headers[i].name.clone(), value: headers[i].value.clone() };
        copy.push(header);
        i = i + 1;
    }
    assert(header_views(copy@) =~= header_views(headers@));
    copy
}

/// A copy of `headers` with `last` behind it.
pub fn headers_with(headers: &Vec<Header>, last: Header) -> (all: Vec<Header>)
    ensures
        header_views(all@) == header_views(headers@).push(last@),
{
    let mut all = copy_headers(headers);
    let ghost copied = all@;
    all.push(last);
    assert(header_views(all@) =~= header_views(copied).push(last@));
    all
}

/// Whether a response status means success: 200 to 299.
pub open spec fn is_success(status: int) -> bool {
    200 <= status <= 299
}

/// What a response status amounts to: the status itself where it means
/// success, and `RemoteRejected` for every other.
pub open spec fn status_outcome(status: int) -> Result<u16, HandlersErr> {
    if is_success(status) {
        Ok(status as u16)
    } else {
        Err(HandlersErr::RemoteRejected)
    }
}

/// Whether a response status means success.
pub fn successful(status: u16) -> (success: bool)
    ensures
        success == is_success(status as int),
{
    200 <= status && status <= 299
}

/// Judges a response by its status alone.
pub fn check_status(status: u16) -> (outcome: Result<u16, HandlersErr>)
    ensures
        outcome == status_outcome(status as int),
{
    if successful(status) {
        Ok(status)
    } else {
        Err(HandlersErr::RemoteRejected)
    }
}

} // verus!
