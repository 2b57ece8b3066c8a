//! The scheduler of a batch: a window of uploads that is refilled one file at
//! a time, until the files run out or the server rejects the token.
//!
//! The caller runs the tasks. It launches what `start` hands out, waits for
//! any task to end, reports that with `on_event`, and carries out the
//! `Reaction`: it launches the file named there, writes the status and the
//! notice, and stops where the flow says so.

use vstd::prelude::*;
use vstd::string::*;
use crate::outcome::ErrorKind;
use crate::outcome::Outcome;
use crate::outcome::UploadInfo;
use crate::progress::status_text;
use crate::progress::tally;
use crate::progress::Totals;
use crate::progress::UploadProgress;
use crate::settings::Settings;

verus! {

/// What the caller reports of a task that has ended, as plain values.
pub enum Event {
    /// The upload ran to its final record.
    Finished(Outcome),
    /// The task ended without a record; the text says how.
    JoinFailed(Seq<char>),
}

/// What the caller does next.
#[derive(Clone, Copy, Debug, PartialEq, Eq, Structural)]
pub enum Flow {
    /// Wait for the next task to end.
    Continue,
    /// Nothing is in flight and nothing is left to launch: end the status
    /// line and return.
    Finished,
    /// The batch was stopped: return at once and leave what is in flight.
    Halted,
}

/// The state of a batch, as plain values.
pub struct Batch {
    /// The paths of the batch, in launch order.
    pub files: Seq<Seq<char>>,
    /// How many uploads may run at once.
    pub concurrency: nat,
    /// How many paths have been handed out: those before this index.
    pub launched: nat,
    /// How many launched tasks have not been reported as ended.
    pub in_flight: nat,
    /// How many tasks have been reported as ended.
    pub handled: nat,
    /// The totals of the outcomes that were counted.
    pub totals: Totals,
    /// Whether the batch was stopped for a rejected token.
    pub halted: bool,
}

impl Batch {
    /// A batch before anything is launched.
    pub open spec fn initial(files: Seq<Seq<char>>, concurrency: nat) -> Batch {
        Batch {
            files,
            concurrency,
            launched: 0,
            in_flight: 0,
            handled: 0,
            totals: Totals::initial(files.len()),
            halted: false,
        }
    }

    /// What holds of every batch that a `Scheduler` is in.
    pub open spec fn wf(self) -> bool {
        &&& self.files.len() <= usize::MAX
        &&& self.concurrency <= usize::MAX
        &&& self.launched <= self.files.len()
        &&& self.in_flight <= self.concurrency
        &&& self.launched == self.handled + self.in_flight
        &&& self.totals.total == self.files.len()
        &&& self.totals.success + self.totals.error <= self.handled
        &&& self.totals.f_retries <= self.totals.success + self.totals.error
        &&& self.totals.fits()
        &&& self.concurrency == 0 ==> self.launched == 0
        &&& (self.launched == 0 || self.halted || self.in_flight == self.concurrency
            || self.launched == self.files.len())
    }

    /// How many files `start` launches: as many as the window has room for
    /// and the batch has left; none once the batch was stopped.
    pub open spec fn room(self) -> nat {
        if self.halted || self.in_flight >= self.concurrency || self.launched >= self.files.len() {
            0
        } else if self.concurrency - self.in_flight <= self.files.len() - self.launched {
            (self.concurrency - self.in_flight) as nat
        } else {
            (self.files.len() - self.launched) as nat
        }
    }

    /// The batch after `start`.
    pub open spec fn filled(self) -> Batch {
        Batch {
            launched: self.launched + self.room(),
            in_flight: self.in_flight + self.room(),
            ..self
        }
    }

    /// Whether the event is the one that stops the batch.
    pub open spec fn halts(self, event: Event) -> bool {
        &&& !self.halted
        &&& event matches Event::Finished(o)
        &&& o.error == Some(ErrorKind::Unauthorized)
    }

    /// Whether the event's outcome is counted.
    pub open spec fn folds(self, event: Event) -> bool {
        &&& !self.halted
        &&& event matches Event::Finished(o)
        &&& o.error != Some(ErrorKind::Unauthorized)
    }

    /// The path that is launched in answer to the event: the next one, unless
    /// the batch is or gets stopped, or no path is left.
    pub open spec fn launches(self, event: Event) -> Option<Seq<char>> {
        if !self.halted && !self.halts(event) && self.launched < self.files.len() {
            Some(self.files[self.launched as int])
        } else {
            None
        }
    }

    /// The diagnostic that the event calls for.
    pub open spec fn notice(self, event: Event) -> Option<Seq<char>> {
        if self.halted {
            None
        } else {
            match event {
                Event::Finished(o) => if o.error == Some(ErrorKind::Unauthorized) {
                    Some("Unauthorized: Check your token."@)
                } else {
                    None
                },
                Event::JoinFailed(detail) => Some("Join Error: "@ + detail),
            }
        }
    }

    /// Whether `on_event` may be called with the event: a task is in flight,
    /// and the totals would still fit their machine types.
    pub open spec fn accepts(self, event: Event) -> bool {
        &&& self.in_flight > 0
        &&& self.folds(event) ==> self.totals.absorb(event->Finished_0).fits()
    }

    /// The batch after the event.
    pub open spec fn step(self, event: Event) -> Batch {
        let ended = Batch {
            in_flight: (self.in_flight - 1) as nat,
            handled: self.handled + 1,
            ..self
        };
        if self.halted {
            ended
        } else if self.halts(event) {
            Batch { halted: true, ..ended }
        } else {
            let counted = if self.folds(event) {
                Batch { totals: self.totals.absorb(event->Finished_0), ..ended }
            } else {
                ended
            };
            if self.launched < self.files.len() {
                Batch {
                    launched: self.launched + 1,
                    in_flight: counted.in_flight + 1,
                    ..counted
                }
            } else {
                counted
            }
        }
    }

    /// What the caller does next.
    pub open spec fn flow(self) -> Flow {
        if self.halted {
            Flow::Halted
        } else if self.in_flight == 0 {
            Flow::Finished
        } else {
            Flow::Continue
        }
    }
}

/// The batch after a run of events, in order.
pub open spec fn run(from: Batch, events: Seq<Event>) -> Batch
    decreases events.len(),
{
    if events.len() == 0 {
        from
    } else {
        run(from, events.drop_last()).step(events.last())
    }
}

/// Whether each of the events is accepted by the batch that the events before
/// it lead to.
pub open spec fn all_accepted(from: Batch, events: Seq<Event>) -> bool
    decreases events.len(),
{
    events.len() == 0 || (all_accepted(from, events.drop_last()) && run(
        from,
        events.drop_last(),
    ).accepts(events.last()))
}

/// A batch is well formed before anything is launched.
pub proof fn lemma_initial_wf(files: Seq<Seq<char>>, concurrency: nat)
    requires
        files.len() <= usize::MAX,
        concurrency <= usize::MAX,
    ensures
        Batch::initial(files, concurrency).wf(),
{
}

/// Whatever is reported, in whatever order the tasks end, the batch stays
/// well formed: every event ends one task and launches at most one.
pub proof fn lemma_run_wf(from: Batch, events: Seq<Event>)
    requires
        from.wf(),
        all_accepted(from, events),
    ensures
        run(from, events).wf(),
        run(from, events).handled == from.handled + events.len(),
        run(from, events).launched <= from.launched + events.len(),
        run(from, events).in_flight <= from.in_flight,
        run(from, events).files == from.files,
        run(from, events).concurrency == from.concurrency,
    decreases events.len(),
{
    if events.len() > 0 {
        lemma_run_wf(from, events.drop_last());
        lemma_step_wf(run(from, events.drop_last()), events.last());
    }
}

/// The window holds: never more tasks are in flight than the limit allows, and
/// never more were launched than have ended plus the limit.
pub proof fn lemma_window_bounds(batch: Batch)
    requires
        batch.wf(),
    ensures
        batch.in_flight <= batch.concurrency,
        batch.launched <= batch.handled + batch.concurrency,
        batch.launched <= batch.files.len(),
{
}

/// `start` keeps a batch well formed.
pub proof fn lemma_filled_wf(batch: Batch)
    requires
        batch.wf(),
    ensures
        batch.filled().wf(),
{
}

/// Once a batch has launched anything, `start` finds no room: later launches
/// come one at a time, each in answer to an event.
pub proof fn lemma_start_once(batch: Batch)
    requires
        batch.wf(),
        batch.launched > 0,
    ensures
        batch.room() == 0,
        batch.filled() == batch,
{
}

/// An event that is accepted keeps a batch well formed, and it launches at
/// most one file.
pub proof fn lemma_step_wf(batch: Batch, event: Event)
    requires
        batch.wf(),
        batch.accepts(event),
    ensures
        batch.step(event).wf(),
        batch.step(event).launched <= batch.launched + 1,
        batch.step(event).in_flight <= batch.in_flight,
{
}

/// While a task is in flight the counters of a well-formed batch have room
/// for one more outcome: only the bytes and the retries can run over.
pub proof fn lemma_counts_fit(batch: Batch, outcome: Outcome)
    requires
        batch.wf(),
        batch.in_flight > 0,
    ensures
        batch.totals.absorb(outcome).fits() <==> {
            &&& outcome.error is None ==> batch.totals.bytes + outcome.bytes <= u64::MAX
            &&& batch.totals.n_retries + outcome.retries <= usize::MAX
        },
{
}

/// A batch that was stopped launches nothing more, whatever is reported.
pub proof fn lemma_halt_is_final(batch: Batch, events: Seq<Event>)
    requires
        batch.halted,
    ensures
        run(batch, events).halted,
        run(batch, events).launched == batch.launched,
        run(batch, events).totals == batch.totals,
    decreases events.len(),
{
    if events.len() > 0 {
        lemma_halt_is_final(batch, events.drop_last());
    }
}

/// A rejected token on any one task stops the launches: the batch has then
/// launched what it had launched when the rejection was reported, which is
/// no more than the tasks that had ended by then plus the window, and that
/// stays so whatever is reported later. The rejected upload is not counted.
pub proof fn lemma_unauthorized_stops_launches(batch: Batch, outcome: Outcome, later: Seq<Event>)
    requires
        batch.wf(),
        !batch.halted,
        batch.in_flight > 0,
        outcome.error == Some(ErrorKind::Unauthorized),
    ensures
        batch.launches(Event::Finished(outcome)) is None,
        batch.step(Event::Finished(outcome)).flow() == Flow::Halted,
        run(batch.step(Event::Finished(outcome)), later).launched == batch.launched,
        run(batch.step(Event::Finished(outcome)), later).launched <= batch.launched
            + batch.concurrency,
        run(batch.step(Event::Finished(outcome)), later).launched <= batch.handled
            + batch.concurrency,
        run(batch.step(Event::Finished(outcome)), later).totals == batch.totals,
{
    lemma_halt_is_final(batch.step(Event::Finished(outcome)), later);
}

/// A batch that has launched something and comes to rest without having
/// been stopped has launched every file, and every task has ended.
pub proof fn lemma_finished_is_complete(batch: Batch)
    requires
        batch.wf(),
        batch.launched > 0,
        batch.flow() == Flow::Finished,
    ensures
        batch.launched == batch.files.len(),
        batch.handled == batch.files.len(),
        batch.in_flight == 0,
{
}

/// The paths that a list of files spells.
pub open spec fn paths(files: Seq<String>) -> Seq<Seq<char>> {
    Seq::new(files.len(), |i: int| files[i]@)
}

/// A text that may be absent, as a sequence of characters.
pub open spec fn text_view(text: Option<String>) -> Option<Seq<char>> {
    match text {
        Some(t) => Some(t@),
        None => None,
    }
}

/// What the caller reports of a task that has ended.
pub enum TaskEvent {
    /// The upload ran to its final record.
    Finished(UploadInfo),
    /// The task ended without a record; the text says how.
    JoinFailed(String),
}

impl View for TaskEvent {
    type V = Event;

    open spec fn view(&self) -> Event {
        match self {
            TaskEvent::Finished(info) => Event::Finished(info@),
            TaskEvent::JoinFailed(detail) => Event::JoinFailed(detail@),
        }
    }
}

/// What the scheduler asks of the caller in answer to an event.
pub struct Reaction {
    /// The path of a file to launch now.
    pub launch: Option<String>,
    /// Text to write to the standard output: the status line, redrawn.
    pub status: Option<String>,
    /// A line to write to the standard error.
    pub notice: Option<String>,
    /// Whether to go on.
    pub flow: Flow,
}

#[derive(Clone, Copy)]
struct Window {
    launched: usize,
    in_flight: usize,
    handled: Ghost<nat>,
}

/// The scheduler of one batch.
pub struct Scheduler {
    files: Vec<String>,
    concurrency: usize,
    window: Window,
    progress: UploadProgress,
    halted: bool,
}

impl View for Scheduler {
    type V = Batch;

    closed spec fn view(&self) -> Batch {
        Batch {
            files: paths(self.files@),
            concurrency: self.concurrency as nat,
            launched: self.window.launched as nat,
            in_flight: self.window.in_flight as nat,
            handled: self.window.handled@,
            totals: self.progress@,
            halted: self.halted,
        }
    }
}

impl Scheduler {
    #[verifier::type_invariant]
    spec fn inv(&self) -> bool {
        &&& self@.wf()
        &&& self.progress@ == tally(self.files@.len(), self.progress.history())
    }

    /// The outcomes that have been counted so far, oldest first.
    pub closed spec fn history(&self) -> Seq<Outcome> {
        self.progress.history()
    }

    /// The scheduler of a batch of `files`, with nothing launched yet and the
    /// batch's clock started.
    pub fn new(files: Vec<String>, settings: &Settings) -> (scheduler: Scheduler)
        ensures
            scheduler@ == Batch::initial(paths(files@), settings@.concurrency),
            scheduler@.wf(),
            scheduler.history() == Seq::<Outcome>::empty(),
    {
        let progress = UploadProgress::new(files.len());
        Scheduler {
            files,
            concurrency: settings.concurrency(),
            window: Window { launched: 0, in_flight: 0, handled: Ghost(0) },
            progress,
            halted: false,
        }
    }

    /// Fills the window: hands out the next paths, as many as the limit and
    /// the batch allow, for the caller to launch.
    pub fn start(&mut self) -> (launch: Vec<String>)
        ensures
            final(self)@ == old(self)@.filled(),
            final(self)@.wf(),
            final(self).history() == old(self).history(),
            paths(launch@) == old(self)@.files.subrange(
                old(self)@.launched as int,
                final(self)@.launched as int,
            ),
    {
        proof {
            use_type_invariant(&*self);
        }
        let first: usize = self.window.launched;
        let flying: usize = self.window.in_flight;
        let total: usize = self.files.len();
        let room: usize = if self.halted || flying >= self.concurrency || first >= total {
            0
        } else if self.concurrency - flying <= total - first {
            self.concurrency - flying
        } else {
            total - first
        };
        let mut launch: Vec<String> = Vec::new();
        let mut i: usize = 0;
        while i < room
            invariant
                i <= room,
                first + room <= total,
                total == self.files@.len(),
                launch@.len() == i,
                forall|k: int| 0 <= k < i ==> (#[trigger] launch@[k])@ == self.files@[first + k]@,
            decreases room - i,
        {
            let path = self.files[first + i].clone();
            launch.push(path);
            i += 1;
        }
        self.window = Window {
            launched: first + room,
            in_flight: flying + room,
            handled: self.window.handled,
        };
        assert(paths(launch@) =~= old(self)@.files.subrange(
            old(self)@.launched as int,
            self@.launched as int,
        ));
        launch
    }

    /// Whether `on_event` may be called with `event`.
    pub fn can_handle(&self, event: &TaskEvent) -> (ok: bool)
        ensures
            ok == self@.accepts(event@),
    {
        if self.window.in_flight == 0 {
            return false;
        }
        if self.halted {
            return true;
        }
        match event {
            TaskEvent::Finished(info) => match info.error() {
                Some(ErrorKind::Unauthorized) => true,
                _ => self.progress.can_update(info),
            },
            TaskEvent::JoinFailed(_) => true,
        }
    }

    /// Takes the report that a task has ended, and says what to do next.
    ///
    /// An outcome whose error is `Unauthorized` stops the batch: it is not
    /// counted and nothing is launched, now or later. Any other outcome is
    /// counted and the status redrawn. A task that ended without a record is
    /// reported and not counted. Unless the batch is stopped, the next path,
    /// if one is left, is launched in the place of the task that ended.
    pub fn on_event(&mut self, event: TaskEvent) -> (reaction: Reaction)
        requires
            old(self)@.accepts(event@),
        ensures
            final(self)@ == old(self)@.step(event@),
            final(self)@.wf(),
            final(self).history() == if old(self)@.folds(event@) {
                old(self).history().push(event@->Finished_0)
            } else {
                old(self).history()
            },
            final(self)@.totals == tally(final(self)@.files.len(), final(self).history()),
            text_view(reaction.launch) == old(self)@.launches(event@),
            text_view(reaction.notice) == old(self)@.notice(event@),
            reaction.status is Some == old(self)@.folds(event@),
            reaction.status is Some ==> exists|micros: nat|
                reaction.status->0@ == seq!['\r'] + #[trigger] status_text(
                    final(self)@.totals,
                    micros,
                ),
            reaction.flow == final(self)@.flow(),
    {
        proof {
            use_type_invariant(&*self);
        }
        if self.halted {
            self.window = Window {
                launched: self.window.launched,
                in_flight: self.window.in_flight - 1,
                handled: Ghost((self.window.handled@ + 1) as nat),
            };
            return Reaction { launch: None, status: None, notice: None, flow: Flow::Halted };
        }
        let mut status: Option<String> = None;
        let mut notice: Option<String> = None;
        let launch: Option<String>;
        match event {
            TaskEvent::Finished(info) => {
                match info.error() {
                    Some(ErrorKind::Unauthorized) => {
                        self.halted = true;
                        self.window = Window {
                            launched: self.window.launched,
                            in_flight: self.window.in_flight - 1,
                            handled: Ghost((self.window.handled@ + 1) as nat),
                        };
                        return Reaction {
                            launch: None,
                            status: None,
                            notice: Some(String::from_str("Unauthorized: Check your token.")),
                            flow: Flow::Halted,
                        };
                    },
                    _ => {
                        launch = self.replace_one();
                        self.progress = self.progress.absorbed(&info);
                        status = Some(self.progress.write_status_bar());
                    },
                }
            },
            TaskEvent::JoinFailed(detail) => {
                launch = self.replace_one();
                let mut line = String::from_str("Join Error: ");
                line.append(detail.as_str());
                notice = Some(line);
            },
        }
        let flow = if self.window.in_flight == 0 {
            Flow::Finished
        } else {
            Flow::Continue
        };
        Reaction { launch, status, notice, flow }
    }

    /// Counts one task as ended and hands out the next path, if one is left,
    /// to take its place.
    fn replace_one(&mut self) -> (launch: Option<String>)
        requires
            old(self)@.in_flight > 0,
            !old(self)@.halted,
        ensures
            final(self)@ == (Batch {
                launched: if old(self)@.launched < old(self)@.files.len() {
                    old(self)@.launched + 1
                } else {
                    old(self)@.launched
                },
                in_flight: if old(self)@.launched < old(self)@.files.len() {
                    old(self)@.in_flight
                } else {
                    (old(self)@.in_flight - 1) as nat
                },
                handled: old(self)@.handled + 1,
                ..old(self)@
            }),
            final(self).progress == old(self).progress,
            text_view(launch) == if old(self)@.launched < old(self)@.files.len() {
                Some(old(self)@.files[old(self)@.launched as int])
            } else {
                None
            },
    {
        proof {
            use_type_invariant(&*self);
        }
        let next: usize = self.window.launched;
        if next < self.files.len() {
            let path = self.files[next].clone();
            self.window = Window {
                launched: next + 1,
                in_flight: self.window.in_flight,
                handled: Ghost((self.window.handled@ + 1) as nat),
            };
            Some(path)
        } else {
            self.window = Window {
                launched: next,
                in_flight: self.window.in_flight - 1,
                handled: Ghost((self.window.handled@ + 1) as nat),
            };
            None
        }
    }

    /// The status line of the batch, timed by the batch's own clock.
    pub fn status_bar(&self) -> (line: String)
        ensures
            exists|micros: nat| line@ == #[trigger] status_text(self@.totals, micros),
    {
        let line = self.progress.status_bar();
        proof {
            let micros = choose|micros: nat| line@ == #[trigger] status_text(self.progress@, micros);
            assert(line@ == status_text(self@.totals, micros));
        }
        line
    }

    /// The progress of the batch: the totals of the outcomes counted so far.
    pub fn progress(&self) -> (progress: &UploadProgress)
        ensures
            progress@ == self@.totals,
            progress.history() == self.history(),
            progress@ == tally(self@.files.len(), self.history()),
            self@.wf(),
    {
        proof {
            use_type_invariant(self);
        }
        &self.progress
    }

    /// How many tasks are in flight.
    pub fn in_flight(&self) -> (n: usize)
        ensures
            n == self@.in_flight,
    {
        self.window.in_flight
    }

    /// How many files have been handed out for launch.
    pub fn launched(&self) -> (n: usize)
        ensures
            n == self@.launched,
    {
        self.window.launched
    }

    /// Whether the batch was stopped for a rejected token.
    pub fn is_halted(&self) -> (halted: bool)
        ensures
            halted == self@.halted,
    {
        self.halted
    }

    /// What the caller does next, as things stand.
    pub fn flow(&self) -> (flow: Flow)
        ensures
            flow == self@.flow(),
    {
        if self.halted {
            Flow::Halted
        } else if self.window.in_flight == 0 {
            Flow::Finished
        } else {
            Flow::Continue
        }
    }
}

} // verus!
