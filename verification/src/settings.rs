//! The configuration of a batch.

use vstd::prelude::*;
use vstd::string::*;
use std::sync::Arc;
use crate::text::trim_slashes;
use crate::text::trimmed;

verus! {

/// How many uploads run at once where the caller has no preference.
pub const DEFAULT_CONCURRENCY: usize = 10;

/// The retry budget of one file where the caller has no preference.
pub const DEFAULT_RETRIES: usize = 3;

/// A configuration, as plain values.
pub struct Configuration {
    /// The destination URL prefix.
    pub prefix: Seq<char>,
    /// The token that authorises the uploads.
    pub token: Seq<char>,
    /// How many uploads may run at once.
    pub concurrency: nat,
    /// The retry budget of one file.
    pub retries: nat,
    /// Whether an object that exists on the server is to be replaced.
    pub overwrite: bool,
}

/// The configuration of a batch: made once, then only read.
pub struct Settings {
    prefix: String,
    token: String,
    concurrency: usize,
    retries: usize,
    overwrite: bool,
}

impl View for Settings {
    type V = Configuration;

    closed spec fn view(&self) -> Configuration {
        Configuration {
            prefix: self.prefix@,
            token: self.token@,
            concurrency: self.concurrency as nat,
            retries: self.retries as nat,
            overwrite: self.overwrite,
        }
    }
}

/// Whether a character may stand in the value of a request header: a tab, or
/// anything from the space upwards but the delete character.
pub open spec fn header_char(c: char) -> bool {
    (c as u32 >= 32 && c as u32 != 127) || c as u32 == 9
}

/// Whether a text may be sent as the value of a request header.
pub open spec fn header_text(text: Seq<char>) -> bool {
    forall|i: int| 0 <= i < text.len() ==> header_char(#[trigger] text[i])
}

/// The name of the request header that carries the token.
pub open spec fn auth_header_name() -> Seq<char> {
    "x-auth-token"@
}

/// `HeaderValue::from_str` of the `http` crate, as `reqwest::header` offers it:
/// whether the text is accepted as a header value. Trusted. It accepts a text
/// exactly when each of its bytes is a tab, or at least 32 and not 127; the
/// bytes of a character beyond ASCII are all above 127, so this is
/// `header_text`.
#[verifier::external_body]
fn accepted_as_header_value(text: &str) -> (ok: bool)
    ensures
        ok == header_text(text@),
{
    reqwest::header::HeaderValue::from_str(text).is_ok()
}

/// The destination URL prefix for a directory of an endpoint: the two joined
/// by one slash, whatever slashes stand at their ends.
pub open spec fn prefix_of(endpoint: Seq<char>, path: Seq<char>) -> Seq<char> {
    trim_slashes(endpoint) + "/"@ + trim_slashes(path)
}

/// Builds the destination URL prefix for the directory `path` of `endpoint`.
pub fn resolve_prefix(endpoint: &str, path: &str) -> (prefix: String)
    ensures
        prefix@ == prefix_of(endpoint@, path@),
{
    let mut prefix = String::from_str(trimmed(endpoint));
    prefix.append("/");
    prefix.append(trimmed(path));
    prefix
}

impl Settings {
    /// A configuration, ready to be shared by the uploads of a batch.
    pub fn new(
        prefix: String,
        token: String,
        concurrency: usize,
        retries: usize,
        overwrite: bool,
    ) -> (settings: Arc<Settings>)
        ensures
            settings@ == (Configuration {
                prefix: prefix@,
                token: token@,
                concurrency: concurrency as nat,
                retries: retries as nat,
                overwrite,
            }),
    {
        Arc::new(Settings { prefix, token, concurrency, retries, overwrite })
    }

    /// The destination URL prefix.
    pub fn prefix(&self) -> (prefix: &String)
        ensures
            prefix@ == self@.prefix,
    {
        &self.prefix
    }

    /// The token that authorises the uploads.
    pub fn token(&self) -> (token: &String)
        ensures
            token@ == self@.token,
    {
        &self.token
    }

    /// How many uploads may run at once.
    pub fn concurrency(&self) -> (limit: usize)
        ensures
            limit == self@.concurrency,
    {
        self.concurrency
    }

    /// The retry budget of one file.
    pub fn retries(&self) -> (budget: usize)
        ensures
            budget == self@.retries,
    {
        self.retries
    }

    /// Whether an object that exists on the server is to be replaced.
    pub fn overwrite(&self) -> (replace: bool)
        ensures
            replace == self@.overwrite,
    {
        self.overwrite
    }

    /// The header that every request of the batch carries: its name and its
    /// value, the token. `None` when the token cannot be sent as a header
    /// value.
    pub fn auth_header(&self) -> (header: Option<(String, String)>)
        ensures
            match header {
                Some((name, value)) => {
                    &&& header_text(self@.token)
                    &&& name@ == auth_header_name()
                    &&& value@ == self@.token
                },
                None => !header_text(self@.token),
            },
    {
        if accepted_as_header_value(self.token.as_str()) {
            Some((String::from_str("x-auth-token"), self.token.clone()))
        } else {
            None
        }
    }
}

} // verus!
