//! Running totals of a batch, and the one-line status drawn from them.

use vstd::prelude::*;
use vstd::string::*;
use vstd::arithmetic::div_mod::lemma_basic_div;
use vstd::arithmetic::div_mod::lemma_small_mod;
use std::time::Instant;
use crate::clock::micros_since;
use crate::outcome::Outcome;
use crate::outcome::UploadInfo;
use crate::text::decimal;
use crate::text::fixed2;
use crate::text::push_decimal;
use crate::text::push_fixed2;
use crate::text::round_div;
use crate::text::rounded_quotient;

verus! {

/// The totals of a batch, as unbounded numbers.
pub struct Totals {
    /// Files in the batch; fixed when the batch starts.
    pub total: nat,
    /// Uploads that succeeded.
    pub success: nat,
    /// Uploads that failed.
    pub error: nat,
    /// Retries consumed, over all files.
    pub n_retries: nat,
    /// Files that consumed at least one retry.
    pub f_retries: nat,
    /// Bytes of the uploads that succeeded.
    pub bytes: nat,
}

impl Totals {
    /// The totals of a batch of `total` files before any outcome.
    pub open spec fn initial(total: nat) -> Totals {
        Totals { total, success: 0, error: 0, n_retries: 0, f_retries: 0, bytes: 0 }
    }

    /// The totals after one more final outcome.
    pub open spec fn absorb(self, outcome: Outcome) -> Totals {
        Totals {
            total: self.total,
            success: if outcome.error is None {
                self.success + 1
            } else {
                self.success
            },
            error: if outcome.error is Some {
                self.error + 1
            } else {
                self.error
            },
            n_retries: self.n_retries + outcome.retries,
            f_retries: if outcome.retries > 0 {
                self.f_retries + 1
            } else {
                self.f_retries
            },
            bytes: if outcome.error is None {
                self.bytes + outcome.bytes
            } else {
                self.bytes
            },
        }
    }

    /// Whether every total fits the machine type that holds it.
    pub open spec fn fits(self) -> bool {
        &&& self.total <= usize::MAX
        &&& self.success <= usize::MAX
        &&& self.error <= usize::MAX
        &&& self.n_retries <= usize::MAX
        &&& self.f_retries <= usize::MAX
        &&& self.bytes <= u64::MAX
    }
}

/// The totals of a batch of `total` files after the given outcomes, in order.
pub open spec fn tally(total: nat, outcomes: Seq<Outcome>) -> Totals
    decreases outcomes.len(),
{
    if outcomes.len() == 0 {
        Totals::initial(total)
    } else {
        tally(total, outcomes.drop_last()).absorb(outcomes.last())
    }
}

/// The bytes of the successful outcomes among `outcomes`.
pub open spec fn successful_bytes(outcomes: Seq<Outcome>) -> nat
    decreases outcomes.len(),
{
    if outcomes.len() == 0 {
        0
    } else if outcomes.last().error is None {
        successful_bytes(outcomes.drop_last()) + outcomes.last().bytes
    } else {
        successful_bytes(outcomes.drop_last())
    }
}

/// How many of `outcomes` consumed at least one retry.
pub open spec fn retried_files(outcomes: Seq<Outcome>) -> nat
    decreases outcomes.len(),
{
    if outcomes.len() == 0 {
        0
    } else if outcomes.last().retries > 0 {
        retried_files(outcomes.drop_last()) + 1
    } else {
        retried_files(outcomes.drop_last())
    }
}

/// The retries consumed by `outcomes`, summed.
pub open spec fn retries_spent(outcomes: Seq<Outcome>) -> nat
    decreases outcomes.len(),
{
    if outcomes.len() == 0 {
        0
    } else {
        retries_spent(outcomes.drop_last()) + outcomes.last().retries
    }
}

/// Whatever outcomes a batch has seen, each counts once, as a success or as an
/// error and never as both; the bytes are those of the successes alone; and
/// the two retry counters are the number of outcomes that retried and the sum
/// of their retries, successful or not.
pub proof fn lemma_tally_accounts(total: nat, outcomes: Seq<Outcome>)
    ensures
        tally(total, outcomes).total == total,
        tally(total, outcomes).success + tally(total, outcomes).error == outcomes.len(),
        tally(total, outcomes).bytes == successful_bytes(outcomes),
        tally(total, outcomes).f_retries == retried_files(outcomes),
        tally(total, outcomes).n_retries == retries_spent(outcomes),
    decreases outcomes.len(),
{
    if outcomes.len() > 0 {
        lemma_tally_accounts(total, outcomes.drop_last());
    }
}

/// An outcome that retried adds one to the files that retried and its own
/// retry count to the retries, whether it succeeded or failed; one that did
/// not retry leaves both counters alone.
pub proof fn lemma_retries_counted(before: Totals, outcome: Outcome)
    ensures
        outcome.retries > 0 ==> before.absorb(outcome).f_retries == before.f_retries + 1,
        outcome.retries == 0 ==> before.absorb(outcome).f_retries == before.f_retries,
        before.absorb(outcome).n_retries == before.n_retries + outcome.retries,
{
}

/// Megabytes (of 1024 x 1024 bytes), in hundredths, rounded.
pub open spec fn megabyte_hundredths(bytes: nat) -> nat {
    rounded_quotient(bytes * 100, 1048576)
}

/// Seconds, in hundredths, rounded, of a time in microseconds.
pub open spec fn second_hundredths(micros: nat) -> nat {
    rounded_quotient(micros, 10000)
}

/// Megabytes per second, in hundredths, rounded. The elapsed time counts for
/// one microsecond more than it is, so that it is never zero.
pub open spec fn rate_hundredths(bytes: nat, micros: nat) -> nat {
    rounded_quotient(bytes * 100000000, 1048576 * (micros + 1))
}

/// The status line for the given totals, `micros` microseconds into the batch.
pub open spec fn status_text(totals: Totals, micros: nat) -> Seq<char> {
    "Uploaded "@ + decimal(totals.success) + "/"@ + decimal(totals.total)
        + " files, "@ + decimal(totals.error)
        + " errors "@ + decimal(totals.f_retries) + "|"@ + decimal(totals.n_retries)
        + " retries "@ + fixed2(megabyte_hundredths(totals.bytes))
        + " MB in "@ + fixed2(second_hundredths(micros))
        + " seconds ("@ + fixed2(rate_hundredths(totals.bytes, micros)) + " MB/s)"@
}

/// Before any outcome the status shows no success, no error, no retry and no
/// byte, whatever the size of the batch and the time that has passed.
pub proof fn lemma_initial_status(total: nat, micros: nat)
    ensures
        status_text(Totals::initial(total), micros) == "Uploaded 0/"@ + decimal(total)
            + " files, 0 errors 0|0 retries 0.00 MB in "@ + fixed2(second_hundredths(micros))
            + " seconds (0.00 MB/s)"@,
{
    reveal_strlit("Uploaded ");
    reveal_strlit("/");
    reveal_strlit(" files, ");
    reveal_strlit(" errors ");
    reveal_strlit("|");
    reveal_strlit(" retries ");
    reveal_strlit(" MB in ");
    reveal_strlit(" seconds (");
    reveal_strlit(" MB/s)");
    reveal_strlit("Uploaded 0/");
    reveal_strlit(" files, 0 errors 0|0 retries 0.00 MB in ");
    reveal_strlit(" seconds (0.00 MB/s)");
    let den = 1048576 * (micros + 1);
    lemma_basic_div(0, den as int);
    lemma_small_mod(0, den as nat);
    assert(rate_hundredths(0, micros) == 0);
    assert(megabyte_hundredths(0) == 0);
    assert(decimal(0) =~= seq!['0']);
    assert(fixed2(0) =~= seq!['0', '.', '0', '0']);
    assert(status_text(Totals::initial(total), micros) =~= "Uploaded 0/"@ + decimal(total)
        + " files, 0 errors 0|0 retries 0.00 MB in "@ + fixed2(second_hundredths(micros))
        + " seconds (0.00 MB/s)"@);
}

/// The progress of a batch. It is fed one final outcome at a time, by the one
/// place that collects them.
pub struct UploadProgress {
    total: usize,
    success: usize,
    error: usize,
    n_retries: usize,
    f_retries: usize,
    bytes: u64,
    timer: Instant,
    seen: Ghost<Seq<Outcome>>,
}

impl View for UploadProgress {
    type V = Totals;

    closed spec fn view(&self) -> Totals {
        Totals {
            total: self.total as nat,
            success: self.success as nat,
            error: self.error as nat,
            n_retries: self.n_retries as nat,
            f_retries: self.f_retries as nat,
            bytes: self.bytes as nat,
        }
    }
}

impl UploadProgress {
    #[verifier::type_invariant]
    spec fn inv(&self) -> bool {
        self@ == tally(self.total as nat, self.seen@)
    }

    /// The outcomes that have been fed in so far, oldest first.
    pub closed spec fn history(&self) -> Seq<Outcome> {
        self.seen@
    }

    /// The progress of a batch of `total` files, with its clock started.
    pub fn new(total: usize) -> (progress: UploadProgress)
        ensures
            progress@ == Totals::initial(total as nat),
            progress.history() == Seq::<Outcome>::empty(),
    {
        UploadProgress {
            total,
            success: 0,
            error: 0,
            n_retries: 0,
            f_retries: 0,
            bytes: 0,
            timer: Instant::now(),
            seen: Ghost(Seq::empty()),
        }
    }

    /// Whether `update` may be called with `info`: whether the totals would
    /// still fit their machine types.
    pub fn can_update(&self, info: &UploadInfo) -> (ok: bool)
        ensures
            ok == self@.absorb(info@).fits(),
    {
        let counted = if info.error().is_some() {
            self.error < usize::MAX
        } else {
            self.success < usize::MAX && info.bytes() <= u64::MAX - self.bytes
        };
        let retried = info.retries() == 0 || (self.f_retries < usize::MAX && info.retries()
            <= usize::MAX - self.n_retries);
        counted && retried
    }

    /// The progress after one more final outcome; the clock stays the same.
    pub fn absorbed(&self, info: &UploadInfo) -> (next: UploadProgress)
        requires
            self@.absorb(info@).fits(),
        ensures
            next@ == self@.absorb(info@),
            next.history() == self.history().push(info@),
            next@ == tally(self@.total, next.history()),
    {
        proof {
            use_type_invariant(self);
        }
        let ghost before = self.seen@;
        let failed = info.error().is_some();
        let retried = info.retries() > 0;
        proof {
            let after = before.push(info@);
            assert(after.drop_last() =~= before);
            assert(after.last() == info@);
            assert(tally(self.total as nat, after) == tally(self.total as nat, before).absorb(
                info@,
            ));
        }
        UploadProgress {
            total: self.total,
            success: if failed {
                self.success
            } else {
                self.success + 1
            },
            error: if failed {
                self.error + 1
            } else {
                self.error
            },
            n_retries: if retried {
                self.n_retries + info.retries()
            } else {
                self.n_retries
            },
            f_retries: if retried {
                self.f_retries + 1
            } else {
                self.f_retries
            },
            bytes: if failed {
                self.bytes
            } else {
                self.bytes + info.bytes()
            },
            timer: self.timer,
            seen: Ghost(before.push(info@)),
        }
    }

    /// Folds one final outcome into the totals. With `write_status` the text
    /// that redraws the status line comes back, for the caller to write.
    pub fn update(&mut self, info: &UploadInfo, write_status: bool) -> (redraw: Option<String>)
        requires
            old(self)@.absorb(info@).fits(),
        ensures
            final(self)@ == old(self)@.absorb(info@),
            final(self).history() == old(self).history().push(info@),
            final(self)@ == tally(old(self)@.total, final(self).history()),
            info@.error is None ==> {
                &&& final(self)@.success == old(self)@.success + 1
                &&& final(self)@.error == old(self)@.error
                &&& final(self)@.bytes == old(self)@.bytes + info@.bytes
            },
            info@.error is Some ==> {
                &&& final(self)@.error == old(self)@.error + 1
                &&& final(self)@.success == old(self)@.success
                &&& final(self)@.bytes == old(self)@.bytes
            },
            info@.retries > 0 ==> final(self)@.f_retries == old(self)@.f_retries + 1,
            info@.retries == 0 ==> final(self)@.f_retries == old(self)@.f_retries,
            final(self)@.n_retries == old(self)@.n_retries + info@.retries,
            write_status == redraw is Some,
            redraw is Some ==> exists|micros: nat|
                redraw->0@ == seq!['\r'] + #[trigger] status_text(final(self)@, micros),
    {
        let next = self.absorbed(info);
        *self = next;
        if write_status {
            Some(self.write_status_bar())
        } else {
            None
        }
    }

    /// The status line, timed by the progress's own clock.
    pub fn status_bar(&self) -> (line: String)
        ensures
            exists|micros: nat| line@ == #[trigger] status_text(self@, micros),
    {
        let micros = micros_since(&self.timer);
        self.status_at(micros)
    }

    /// The status line `micros` microseconds into the batch.
    pub fn status_at(&self, micros: u128) -> (line: String)
        ensures
            line@ == status_text(self@, micros as nat),
    {
        let mut line = String::new();
        line.append("Uploaded ");
        push_decimal(&mut line, self.success as u128);
        line.append("/");
        push_decimal(&mut line, self.total as u128);
        line.append(" files, ");
        push_decimal(&mut line, self.error as u128);
        line.append(" errors ");
        push_decimal(&mut line, self.f_retries as u128);
        line.append("|");
        push_decimal(&mut line, self.n_retries as u128);
        line.append(" retries ");
        push_fixed2(&mut line, megabytes_shown(self.bytes));
        line.append(" MB in ");
        push_fixed2(&mut line, round_div(micros, 10000));
        line.append(" seconds (");
        push_fixed2(&mut line, rate_shown(self.bytes, micros));
        line.append(" MB/s)");
        line
    }

    /// The text that redraws the status line in place: a carriage return, then
    /// the status.
    pub fn write_status_bar(&self) -> (redraw: String)
        ensures
            exists|micros: nat| redraw@ == seq!['\r'] + #[trigger] status_text(self@, micros),
    {
        let line = self.status_bar();
        let mut redraw = String::new();
        proof {
            reveal_strlit("\r");
        }
        redraw.append("\r");
        redraw.append(line.as_str());
        assert(redraw@ =~= seq!['\r'] + line@);
        redraw
    }

    /// Files in the batch.
    pub fn total(&self) -> (n: usize)
        ensures
            n == self@.total,
    {
        self.total
    }

    /// Uploads that succeeded.
    pub fn success(&self) -> (n: usize)
        ensures
            n == self@.success,
    {
        self.success
    }

    /// Uploads that failed.
    pub fn error(&self) -> (n: usize)
        ensures
            n == self@.error,
    {
        self.error
    }

    /// Retries consumed, over all files.
    pub fn n_retries(&self) -> (n: usize)
        ensures
            n == self@.n_retries,
    {
        self.n_retries
    }

    /// Files that consumed at least one retry.
    pub fn f_retries(&self) -> (n: usize)
        ensures
            n == self@.f_retries,
    {
        self.f_retries
    }

    /// Bytes of the uploads that succeeded.
    pub fn bytes(&self) -> (n: u64)
        ensures
            n == self@.bytes,
    {
        self.bytes
    }
}

/// Megabytes in hundredths, for display.
pub fn megabytes_shown(bytes: u64) -> (h: u128)
    ensures
        h == megabyte_hundredths(bytes as nat),
{
    round_div(bytes as u128 * 100, 1048576)
}

/// Megabytes per second in hundredths, for display.
pub fn rate_shown(bytes: u64, micros: u128) -> (h: u128)
    ensures
        h == rate_hundredths(bytes as nat, micros as nat),
{
    if micros >= 0x1_0000_0000_0000_0000_0000_0000 {
        proof {
            let num = (bytes * 100000000) as nat;
            let den = (1048576 * (micros + 1)) as nat;
            assert(2 * num < den);
            lemma_basic_div(num as int, den as int);
            lemma_small_mod(num, den);
        }
        0
    } else {
        round_div(bytes as u128 * 100000000, 1048576 * (micros + 1))
    }
}

} // verus!
