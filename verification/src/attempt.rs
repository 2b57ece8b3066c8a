//! One attempt to send a file: where it goes, and what its result means.

use vstd::prelude::*;
use vstd::string::*;
use crate::outcome::ErrorKind;
use crate::text::contains_text;
use crate::text::occurs_in;

verus! {

/// What came of one attempt to send a file, as the caller observed it.
pub enum AttemptResult {
    /// The file could not be rewound to its start; nothing was sent.
    RewindFailed,
    /// The request failed in transport: no response came back.
    TransportFailed,
    /// The server answered. The body is read where `body_matters` says so and
    /// may be left empty elsewhere.
    Response { status: u16, body: String },
}

/// What an attempt's result means for the upload.
#[derive(Clone, Copy, Debug, PartialEq, Eq, Structural)]
pub enum Verdict {
    /// The file is uploaded.
    Success,
    /// The upload has failed for good.
    Fatal(ErrorKind),
    /// The attempt may be repeated, if the budget allows.
    Retry,
}

/// The text in a server error's body that says the object exists already.
pub open spec fn exists_marker() -> Seq<char> {
    "File already exists"@
}

/// What a response means, by its status code and, for a server error, its body.
pub open spec fn response_verdict(status: u16, body: Seq<char>) -> Verdict {
    if status == 200 {
        Verdict::Success
    } else if status == 401 {
        Verdict::Fatal(ErrorKind::Unauthorized)
    } else if status == 500 && occurs_in(exists_marker(), body) {
        Verdict::Fatal(ErrorKind::FileExists)
    } else {
        Verdict::Retry
    }
}

/// What an attempt's result means.
pub open spec fn verdict(result: AttemptResult) -> Verdict {
    match result {
        AttemptResult::RewindFailed => Verdict::Retry,
        AttemptResult::TransportFailed => Verdict::Retry,
        AttemptResult::Response { status, body } => response_verdict(status, body@),
    }
}

/// The URL that a file is sent to. Without leave to overwrite, the query asks
/// the server to turn a duplicate down quietly.
pub open spec fn destination(prefix: Seq<char>, name: Seq<char>, overwrite: bool) -> Seq<char> {
    prefix + "/"@ + name + if overwrite {
        Seq::<char>::empty()
    } else {
        "?quiet=true"@
    }
}

/// Whether the body of a response with this status bears on its verdict.
pub fn body_matters(status: u16) -> (matters: bool)
    ensures
        matters == (status == 500),
        !matters ==> forall|a: Seq<char>, b: Seq<char>|
            response_verdict(status, a) == response_verdict(status, b),
{
    status == 500
}

/// Classifies a response by its status code and body.
pub fn classify_response(status: u16, body: &str) -> (v: Verdict)
    ensures
        v == response_verdict(status, body@),
{
    if status == 200 {
        Verdict::Success
    } else if status == 401 {
        Verdict::Fatal(ErrorKind::Unauthorized)
    } else if status == 500 && contains_text(body, "File already exists") {
        Verdict::Fatal(ErrorKind::FileExists)
    } else {
        Verdict::Retry
    }
}

/// Classifies the result of one attempt.
pub fn classify(result: &AttemptResult) -> (v: Verdict)
    ensures
        v == verdict(*result),
{
    match result {
        AttemptResult::RewindFailed => Verdict::Retry,
        AttemptResult::TransportFailed => Verdict::Retry,
        AttemptResult::Response { status, body } => classify_response(*status, body.as_str()),
    }
}

/// Builds the URL that a file named `name` is sent to.
pub fn destination_url(prefix: &str, name: &str, overwrite: bool) -> (url: String)
    ensures
        url@ == destination(prefix@, name@, overwrite),
{
    let mut url = String::from_str(prefix);
    url.append("/");
    url.append(name);
    if !overwrite {
        url.append("?quiet=true");
    }
    assert(url@ =~= destination(prefix@, name@, overwrite));
    url
}

} // verus!
