//! The retrying uploader: one file's way from its probe to its final record.
//!
//! The caller does the outside work and reports it. It probes the path of a
//! `Probing` and calls `probed`. While the answer is `Step::Attempt`, it sends
//! the file to the URL given there and calls `attempted` with what came of it.
//! `Step::Done` holds the file's final record.

use vstd::prelude::*;
use vstd::string::*;
use crate::attempt::classify;
use crate::attempt::destination;
use crate::attempt::destination_url;
use crate::attempt::verdict;
use crate::attempt::AttemptResult;
use crate::attempt::Verdict;
use crate::outcome::ErrorKind;
use crate::outcome::Outcome;
use crate::outcome::UploadInfo;
use crate::probe::file_info;
use crate::probe::final_component;
use crate::probe::found_view;
use crate::probe::probe_outcome;
use crate::probe::FileStat;
use crate::settings::Configuration;
use crate::settings::Settings;

verus! {

/// An upload between two attempts, as plain values.
pub struct Transfer {
    /// The record so far.
    pub outcome: Outcome,
    /// Where the file is sent.
    pub url: Seq<char>,
    /// The retry budget.
    pub max_retries: nat,
}

/// Where an upload stands, as plain values.
pub enum Progress {
    /// Another attempt is due.
    Going(Transfer),
    /// The record is final.
    Ended(Outcome),
}

/// How many attempts in a row may be turned down as retryable before the
/// upload fails: the retry budget, and one attempt where the budget is zero.
pub open spec fn attempts_allowed(max_retries: nat) -> nat {
    if max_retries == 0 {
        1
    } else {
        max_retries
    }
}

/// Where an upload stands once its file has been probed.
pub open spec fn begin(fresh: Outcome, found: Option<(Seq<char>, u64)>, config: Configuration)
    -> Progress {
    match found {
        None => Progress::Ended(fresh.failed(ErrorKind::ReadError)),
        Some((name, len)) => Progress::Going(
            Transfer {
                outcome: Outcome { bytes: len as nat, ..fresh },
                url: destination(config.prefix, name, config.overwrite),
                max_retries: config.retries,
            },
        ),
    }
}

impl Transfer {
    /// The record with one more retry counted.
    pub open spec fn retried(self) -> Outcome {
        Outcome { retries: self.outcome.retries + 1, ..self.outcome }
    }

    /// Where the upload stands after an attempt with the given verdict;
    /// `micros` is the time that a success is recorded with.
    pub open spec fn step(self, v: Verdict, micros: nat) -> Progress {
        match v {
            Verdict::Success => Progress::Ended(self.outcome.succeeded(micros)),
            Verdict::Fatal(kind) => Progress::Ended(self.outcome.failed(kind)),
            Verdict::Retry => if self.outcome.retries + 1 >= self.max_retries {
                Progress::Ended(self.retried().failed(ErrorKind::Other))
            } else {
                Progress::Going(Transfer { outcome: self.retried(), ..self })
            },
        }
    }
}

/// Where an upload stands after a run of attempts, each given by its verdict
/// and the time that a success would be recorded with. A final record stays.
pub open spec fn drive(from: Progress, attempts: Seq<(Verdict, nat)>) -> Progress
    decreases attempts.len(),
{
    if attempts.len() == 0 {
        from
    } else {
        match drive(from, attempts.drop_last()) {
            Progress::Going(t) => t.step(attempts.last().0, attempts.last().1),
            Progress::Ended(o) => Progress::Ended(o),
        }
    }
}

impl Progress {
    /// What holds wherever an upload stands: between two attempts it has
    /// counted fewer retries than `attempts_allowed` and recorded no time; at
    /// the end it has a time only if it succeeded.
    pub open spec fn wf(self) -> bool {
        match self {
            Progress::Going(t) => t.outcome.retries < attempts_allowed(t.max_retries)
                && t.outcome.time is None,
            Progress::Ended(o) => o.consistent(),
        }
    }
}

/// Whatever the attempts bring, an upload stays within its budget, and its
/// final record never claims a time together with an error.
pub proof fn lemma_drive_wf(from: Progress, attempts: Seq<(Verdict, nat)>)
    requires
        from.wf(),
    ensures
        drive(from, attempts).wf(),
    decreases attempts.len(),
{
    if attempts.len() > 0 {
        lemma_drive_wf(from, attempts.drop_last());
    }
}

/// An upload whose attempts are all turned down as retryable goes on for as
/// long as fewer than `attempts_allowed` of them were made, counting one retry
/// for each, and fails as `Other` with the attempt that reaches that number.
pub proof fn lemma_retries_exhaust(start: Transfer, attempts: Seq<(Verdict, nat)>)
    requires
        start.outcome.retries == 0,
        forall|i: int| 0 <= i < attempts.len() ==> (#[trigger] attempts[i]).0 == Verdict::Retry,
        attempts.len() <= attempts_allowed(start.max_retries),
    ensures
        attempts.len() < attempts_allowed(start.max_retries) ==> drive(
            Progress::Going(start),
            attempts,
        ) == Progress::Going(
            Transfer { outcome: Outcome { retries: attempts.len(), ..start.outcome }, ..start },
        ),
        attempts.len() == attempts_allowed(start.max_retries) ==> drive(
            Progress::Going(start),
            attempts,
        ) == Progress::Ended(
            (Outcome { retries: attempts.len(), ..start.outcome }).failed(ErrorKind::Other),
        ),
    decreases attempts.len(),
{
    if attempts.len() > 0 {
        let before = attempts.drop_last();
        lemma_retries_exhaust(start, before);
        assert(attempts.last().0 == Verdict::Retry);
    }
}

/// With a retry budget of at least one, an upload whose attempts all fail in
/// a retryable way makes exactly as many attempts as the budget says, and
/// then fails as `Other` with the whole budget counted as spent.
pub proof fn lemma_budget_spent(start: Transfer, attempts: Seq<(Verdict, nat)>)
    requires
        start.outcome.retries == 0,
        start.max_retries >= 1,
        forall|i: int| 0 <= i < attempts.len() ==> (#[trigger] attempts[i]).0 == Verdict::Retry,
    ensures
        attempts.len() < start.max_retries ==> drive(Progress::Going(start), attempts) is Going,
        attempts.len() == start.max_retries ==> drive(Progress::Going(start), attempts)
            == Progress::Ended(
            (Outcome { retries: start.max_retries, ..start.outcome }).failed(ErrorKind::Other),
        ),
{
    if attempts.len() <= start.max_retries {
        lemma_retries_exhaust(start, attempts);
    }
}

/// A file whose upload has begun and whose probe is due.
pub struct Probing {
    info: UploadInfo,
}

/// A file that has been probed and is being sent.
pub struct Uploading {
    info: UploadInfo,
    url: String,
    max_retries: usize,
}

/// What the caller does next for a file.
pub enum Step {
    /// Send the file to the URL of the `Uploading`, then call `attempted`.
    Attempt(Uploading),
    /// Nothing: this is the file's final record.
    Done(UploadInfo),
}

impl View for Probing {
    type V = Outcome;

    closed spec fn view(&self) -> Outcome {
        self.info@
    }
}

impl View for Uploading {
    type V = Transfer;

    closed spec fn view(&self) -> Transfer {
        Transfer { outcome: self.info@, url: self.url@, max_retries: self.max_retries as nat }
    }
}

impl View for Step {
    type V = Progress;

    open spec fn view(&self) -> Progress {
        match self {
            Step::Attempt(u) => Progress::Going(u@),
            Step::Done(info) => Progress::Ended(info@),
        }
    }
}

impl Probing {
    #[verifier::type_invariant]
    spec fn inv(&self) -> bool {
        self.info@ == Outcome::fresh(self.info@.path)
    }

    /// Begins the upload of `file_path`: the record is made and its clock runs.
    pub fn start(file_path: String) -> (probing: Probing)
        ensures
            probing@ == Outcome::fresh(file_path@),
    {
        Probing { info: UploadInfo::new(file_path) }
    }

    /// The path to probe.
    pub fn path(&self) -> (path: &String)
        ensures
            path@ == self@.path,
    {
        self.info.path()
    }

    /// Takes what the file system reported of the path; `stat` is `None` where
    /// the path could not be opened. A file that cannot be uploaded fails as
    /// `ReadError`, with no retry counted and no time recorded.
    pub fn probed(self, stat: Option<FileStat>, settings: &Settings) -> (step: Step)
        ensures
            step@ == begin(
                self@,
                probe_outcome(final_component(self@.path), stat),
                settings@,
            ),
            self@ == Outcome::fresh(self@.path),
            stat is None ==> step@ == Progress::Ended(
                Outcome {
                    path: self@.path,
                    time: None,
                    bytes: 0,
                    error: Some(ErrorKind::ReadError),
                    retries: 0,
                },
            ),
    {
        proof {
            use_type_invariant(&self);
        }
        let found = file_info(self.info.path().as_str(), stat);
        self.probed_as(found, settings)
    }

    /// Takes the result of the probe: the name to upload under and the file's
    /// length, or `None` where the file cannot be uploaded.
    pub fn probed_as(self, found: Option<(String, u64)>, settings: &Settings) -> (step: Step)
        ensures
            step@ == begin(self@, found_view(found), settings@),
            self@ == Outcome::fresh(self@.path),
    {
        proof {
            use_type_invariant(&self);
        }
        let mut info = self.info;
        match found {
            None => Step::Done(info.with_error(ErrorKind::ReadError)),
            Some((name, len)) => {
                info.set_bytes(len);
                let url = destination_url(
                    settings.prefix().as_str(),
                    name.as_str(),
                    settings.overwrite(),
                );
                Step::Attempt(Uploading { info, url, max_retries: settings.retries() })
            },
        }
    }
}

impl Uploading {
    #[verifier::type_invariant]
    spec fn inv(&self) -> bool {
        &&& self.info@.retries < attempts_allowed(self.max_retries as nat)
        &&& self.info@.time is None
    }

    /// Where the file is sent.
    pub fn url(&self) -> (url: &String)
        ensures
            url@ == self@.url,
    {
        &self.url
    }

    /// The path of the file that is sent.
    pub fn path(&self) -> (path: &String)
        ensures
            path@ == self@.outcome.path,
    {
        self.info.path()
    }

    /// Retries consumed so far: fewer than `attempts_allowed` of the budget.
    pub fn retries(&self) -> (count: usize)
        ensures
            count == self@.outcome.retries,
            count < attempts_allowed(self@.max_retries),
    {
        proof {
            use_type_invariant(self);
        }
        self.info.retries()
    }

    /// Takes what came of the attempt. A success is timed by the record's
    /// clock; everything else is decided by the result alone.
    pub fn attempted(self, result: AttemptResult) -> (step: Step)
        ensures
            exists|micros: nat| step@ == #[trigger] self@.step(verdict(result), micros),
            verdict(result) != Verdict::Success ==> step@ == self@.step(verdict(result), 0),
    {
        let v = classify(&result);
        let micros = match v {
            Verdict::Success => self.info.elapsed(),
            _ => 0,
        };
        self.settle(v, micros)
    }

    /// Takes the verdict on the attempt and, for a success, the time to
    /// record, in microseconds.
    pub fn settle(self, v: Verdict, micros: u128) -> (step: Step)
        ensures
            step@ == self@.step(v, micros as nat),
    {
        proof {
            use_type_invariant(&self);
        }
        let mut info = self.info;
        match v {
            Verdict::Success => Step::Done(info.succeeded_after(micros)),
            Verdict::Fatal(kind) => Step::Done(info.with_error(kind)),
            Verdict::Retry => {
                let count = info.incr_retries();
                if count >= self.max_retries {
                    Step::Done(info.with_error(ErrorKind::Other))
                } else {
                    Step::Attempt(Uploading { info, url: self.url, max_retries: self.max_retries })
                }
            },
        }
    }
}

} // verus!
