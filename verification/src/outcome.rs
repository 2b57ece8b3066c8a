//! The record of one file's upload.

use vstd::prelude::*;
use std::time::Instant;
use crate::clock::micros_since;

verus! {

/// Why an upload ended without success.
#[derive(Clone, Copy, Debug, PartialEq, Eq, Structural)]
pub enum ErrorKind {
    /// The local file is missing, is not a regular file, or cannot be read.
    ReadError,
    /// The server holds an object of that name and was not asked to replace it.
    FileExists,
    /// The server rejected the token.
    Unauthorized,
    /// Any other terminal failure, among them a spent retry budget.
    Other,
}

/// What an upload record says, as plain values.
pub struct Outcome {
    /// The source path.
    pub path: Seq<char>,
    /// Microseconds from the record's creation to its success; absent otherwise.
    pub time: Option<nat>,
    /// The file's length, once it has been probed.
    pub bytes: nat,
    /// The failure, if the upload has not succeeded.
    pub error: Option<ErrorKind>,
    /// Retries consumed.
    pub retries: nat,
}

impl Outcome {
    /// A record as it stands before anything is known of the file.
    pub open spec fn fresh(path: Seq<char>) -> Outcome {
        Outcome { path, time: None, bytes: 0, error: Some(ErrorKind::Other), retries: 0 }
    }

    /// The record of a success that took `micros` microseconds.
    pub open spec fn succeeded(self, micros: nat) -> Outcome {
        Outcome { time: Some(micros), error: None, ..self }
    }

    /// The record of a failure of the given kind.
    pub open spec fn failed(self, kind: ErrorKind) -> Outcome {
        Outcome { time: None, error: Some(kind), ..self }
    }

    /// A failed record carries no elapsed time.
    pub open spec fn consistent(self) -> bool {
        self.error is Some ==> self.time is None
    }
}

/// The per-file result record. It is created when the file's upload begins and
/// passed on by value through each step, until it is final.
pub struct UploadInfo {
    path: String,
    time: Option<u128>,
    bytes: u64,
    error: Option<ErrorKind>,
    retries: usize,
    timer: Instant,
}

impl View for UploadInfo {
    type V = Outcome;

    closed spec fn view(&self) -> Outcome {
        Outcome {
            path: self.path@,
            time: match self.time {
                Some(t) => Some(t as nat),
                None => None,
            },
            bytes: self.bytes as nat,
            error: self.error,
            retries: self.retries as nat,
        }
    }
}

impl UploadInfo {
    #[verifier::type_invariant]
    spec fn inv(&self) -> bool {
        self.error is Some ==> self.time is None
    }

    /// A record for `path`, not yet successful, with its clock started.
    pub fn new(path: String) -> (info: UploadInfo)
        ensures
            info@ == Outcome::fresh(path@),
    {
        UploadInfo {
            path,
            time: None,
            bytes: 0,
            error: Some(ErrorKind::Other),
            retries: 0,
            timer: Instant::now(),
        }
    }

    /// Records the file's length.
    pub fn set_bytes(&mut self, bytes: u64)
        ensures
            final(self)@ == (Outcome { bytes: bytes as nat, ..old(self)@ }),
    {
        proof {
            use_type_invariant(&*self);
        }
        self.bytes = bytes;
    }

    /// Microseconds since the record was created, by the record's own clock.
    pub fn elapsed(&self) -> u128 {
        micros_since(&self.timer)
    }

    /// The record of a success, timed by the record's own clock.
    pub fn with_success(self) -> (info: UploadInfo)
        ensures
            info@.time is Some,
            info@ == self@.succeeded(info@.time->0),
    {
        let micros = self.elapsed();
        self.succeeded_after(micros)
    }

    /// The record of a success that took `micros` microseconds.
    pub fn succeeded_after(self, micros: u128) -> (info: UploadInfo)
        ensures
            info@ == self@.succeeded(micros as nat),
    {
        UploadInfo { error: None, time: Some(micros), ..self }
    }

    /// The record of a failure. Whatever time was recorded is dropped.
    pub fn with_error(self, kind: ErrorKind) -> (info: UploadInfo)
        ensures
            info@ == self@.failed(kind),
    {
        UploadInfo { error: Some(kind), time: None, ..self }
    }

    /// Counts one more retry and returns the new count.
    pub fn incr_retries(&mut self) -> (count: usize)
        requires
            old(self)@.retries < usize::MAX,
        ensures
            count == old(self)@.retries + 1,
            final(self)@ == (Outcome { retries: old(self)@.retries + 1, ..old(self)@ }),
    {
        proof {
            use_type_invariant(&*self);
        }
        self.retries += 1;
        self.retries
    }

    /// The source path.
    pub fn path(&self) -> (path: &String)
        ensures
            path@ == self@.path,
    {
        &self.path
    }

    /// Microseconds from creation to success; `None` unless the upload succeeded.
    pub fn time(&self) -> (time: Option<u128>)
        ensures
            time is Some == self@.time is Some,
            time is Some ==> time->0 == self@.time->0,
            self@.consistent(),
    {
        proof {
            use_type_invariant(self);
        }
        self.time
    }

    /// The file's length in bytes; zero until it has been probed.
    pub fn bytes(&self) -> (bytes: u64)
        ensures
            bytes == self@.bytes,
    {
        self.bytes
    }

    /// The failure, if the upload has not succeeded.
    pub fn error(&self) -> (error: Option<ErrorKind>)
        ensures
            error == self@.error,
    {
        self.error
    }

    /// Retries consumed so far.
    pub fn retries(&self) -> (count: usize)
        ensures
            count == self@.retries,
    {
        self.retries
    }
}

} // verus!
