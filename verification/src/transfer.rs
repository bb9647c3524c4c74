//! The course of a whole transfer: from the question what the source is to
//! the result of all its tasks. The caller does the work on the network and
//! on disk and reports what came of it; what follows is decided here.

use crate::error::{ErrorView, ScpError};
use crate::listing::{find_files, listed_paths};
use crate::options::{Mode, OptsView, SshOpts};
use crate::plan::{
    directory_plan, directory_planned, list_command, list_command_text, single_file_destination,
    single_file_task, skip_set, skipped_files,
};
use crate::retrieve::{unexpected, unexpected_event};
use crate::task::{
    task_views, OutcomeView, RemotePathKind, TaskView, TransferOutcome, TransferTask,
};
use crate::text::{decimal_text, push_decimal, text_of, texts};
use vstd::prelude::*;

verus! {

/// What a transfer is waiting for.
#[derive(Clone, Copy, Debug, PartialEq, Eq, Structural)]
pub enum Phase {
    /// To be started.
    Init,
    /// The kind of the source path.
    Stat,
    /// The outcome of the one task of a source that is a file.
    SingleFile,
    /// The listing of a source that is a directory.
    DirectoryFanOut,
    /// The outcomes of the tasks of a directory.
    Aggregate,
    /// Nothing: the transfer is over.
    Done,
}

impl Phase {
    /// The place of the phase in the course of a transfer: a transfer never
    /// goes back to a phase of a lower place.
    pub open spec fn place(self) -> nat {
        match self {
            Phase::Init => 0,
            Phase::Stat => 1,
            Phase::SingleFile => 2,
            Phase::DirectoryFanOut => 2,
            Phase::Aggregate => 3,
            Phase::Done => 4,
        }
    }
}

/// What the caller reports to a [`Transfer`].
#[derive(Debug, PartialEq, Eq)]
pub enum Event {
    /// The transfer is to start.
    Start,
    /// The answer to [`Action::Stat`].
    Kind(RemotePathKind),
    /// The answer to [`Action::List`]: what the remote command printed, and
    /// what the local listing printed where one was asked for.
    Listed { remote: String, local: Option<String> },
    /// A task has ended.
    Completed(TransferOutcome),
    /// What was asked for by [`Action::Stat`] or [`Action::List`] failed.
    Failed(ScpError),
}

/// An [`Event`] with the text of its strings.
pub enum EventView {
    Start,
    Kind(RemotePathKind),
    Listed { remote: Seq<char>, local: Option<Seq<char>> },
    Completed(OutcomeView),
    Failed(ErrorView),
}

impl View for Event {
    type V = EventView;

    open spec fn view(&self) -> EventView {
        match self {
            Event::Start => EventView::Start,
            Event::Kind(kind) => EventView::Kind(*kind),
            Event::Listed { remote, local } => EventView::Listed {
                remote: remote@,
                local: text_of(*local),
            },
            Event::Completed(outcome) => EventView::Completed(outcome@),
            Event::Failed(error) => EventView::Failed(error@),
        }
    }
}

/// What a [`Transfer`] asks of its caller.
#[derive(Debug, PartialEq, Eq)]
pub enum Action {
    /// Query the metadata of this remote path and report its kind.
    Stat(String),
    /// Run this one task and report its outcome.
    Retrieve(TransferTask),
    /// Run `command` on the remote host and report what it printed. Where
    /// `local_root` is given, list the regular files below it too.
    List { command: String, local_root: Option<String> },
    /// Start all of these tasks, then report the outcome of each as it ends.
    FanOut(Vec<TransferTask>),
    /// Report the outcome of the next task that ends.
    Wait,
    /// Nothing more: the transfer ended with this result.
    Finish(Result<(), ScpError>),
}

/// An [`Action`] with the views of its tasks and the text of its strings.
pub enum ActionView {
    Stat(Seq<char>),
    Retrieve(TaskView),
    List { command: Seq<char>, local_root: Option<Seq<char>> },
    FanOut(Seq<TaskView>),
    Wait,
    Finish(Result<(), ErrorView>),
}

impl View for Action {
    type V = ActionView;

    open spec fn view(&self) -> ActionView {
        match self {
            Action::Stat(path) => ActionView::Stat(path@),
            Action::Retrieve(task) => ActionView::Retrieve(task@),
            Action::List { command, local_root } => ActionView::List {
                command: command@,
                local_root: text_of(*local_root),
            },
            Action::FanOut(tasks) => ActionView::FanOut(task_views(tasks@)),
            Action::Wait => ActionView::Wait,
            Action::Finish(result) => ActionView::Finish(
                match result {
                    Ok(_) => Ok(()),
                    Err(error) => Err(error@),
                },
            ),
        }
    }
}

/// The error of a directory transfer in which a task failed.
pub open spec fn some_failed() -> ErrorView {
    ErrorView::Io("One or more files failed to copy"@)
}

/// The state of a transfer as the contracts see it.
pub struct TransferView {
    pub ssh_opts: OptsView,
    pub mode: Mode,
    pub source: Seq<char>,
    pub destination: Seq<char>,
    pub phase: Phase,
    /// What the source turned out to be, once that is known.
    pub kind: Option<RemotePathKind>,
    /// The number of files that the transfer has to account for: the tasks
    /// that were handed out, and the listed paths that had no place.
    pub total: nat,
    /// How many of them are done with: the tasks that have ended, and the
    /// listed paths that had no place.
    pub completed: nat,
    /// How many of those failed.
    pub failed: nat,
    /// How many of those found their local file there and left it alone.
    pub skipped: nat,
    /// The listed files that got no task because their local counterparts
    /// were there when the directory was planned.
    pub set_aside: Seq<Seq<char>>,
    /// The listed paths that got no task because they have no place in the
    /// destination. Each of them counts as ended and as failed.
    pub rejected: Seq<Seq<char>>,
}

impl TransferView {
    /// What holds of every transfer: no more files are done with than it has
    /// to account for, no more have failed or were skipped than are done
    /// with, every rejected path is among the failed, and while outcomes are
    /// awaited some task is still running.
    pub open spec fn well_formed(self) -> bool {
        &&& self.failed + self.skipped <= self.completed <= self.total
        &&& self.rejected.len() <= self.failed
        &&& self.phase is Aggregate ==> self.completed < self.total
        &&& self.phase is SingleFile ==> self.completed == 0 && self.total == 1
        &&& self.phase is Init || self.phase is Stat || self.phase is DirectoryFanOut
            ==> self.total == 0
    }

    /// The line that sums up how the files went: how many of them failed, or
    /// else that the one file of the source was received, or that all files
    /// of the directory were, with their number.
    pub open spec fn summary(self) -> Seq<char> {
        if self.failed > 0 {
            decimal_text(self.failed) + " of "@ + decimal_text(self.total)
                + " files failed to copy"@
        } else if self.kind == Some(RemotePathKind::File) {
            "✅ File received successfully"@
        } else {
            "✅ All files received successfully ("@ + decimal_text(self.total) + " files)"@
        }
    }

    /// This transfer, over, with `result`.
    pub open spec fn finish(self, result: Result<(), ErrorView>) -> (TransferView, ActionView) {
        (TransferView { phase: Phase::Done, ..self }, ActionView::Finish(result))
    }

    /// The state after `event`, and what is asked of the caller then.
    ///
    /// The kind of the source is asked first. A file gives one task, which
    /// goes into the destination under its own name. A directory is listed,
    /// and each listed file that is to be fetched gives a task. A listed path
    /// that does not lie below the source gets none: it is counted as a
    /// failure of its own and stops no other file. With no task to hand out
    /// the transfer is over at once. Every outcome is counted, and the
    /// transfer ends with the last of them: well if none failed. A failed
    /// query or listing ends the transfer with its error, and so does an
    /// event that the phase does not wait for.
    pub open spec fn next(self, event: EventView) -> (TransferView, ActionView) {
        match (self.phase, event) {
            (Phase::Init, EventView::Start) => (
                TransferView { phase: Phase::Stat, ..self },
                ActionView::Stat(self.source),
            ),
            (Phase::Stat, EventView::Kind(RemotePathKind::File)) => (
                TransferView {
                    phase: Phase::SingleFile,
                    kind: Some(RemotePathKind::File),
                    total: 1,
                    ..self
                },
                ActionView::Retrieve(
                    TaskView {
                        remote_path: self.source,
                        local_path: single_file_destination(self.destination, self.source),
                        ssh_opts: self.ssh_opts,
                        mode: self.mode,
                    },
                ),
            ),
            (Phase::Stat, EventView::Kind(RemotePathKind::Directory)) => (
                TransferView {
                    phase: Phase::DirectoryFanOut,
                    kind: Some(RemotePathKind::Directory),
                    ..self
                },
                ActionView::List {
                    command: list_command_text(self.source),
                    local_root: match self.mode {
                        Mode::Ignore => Some(self.destination),
                        Mode::Replace => None,
                    },
                },
            ),
            (Phase::Stat, EventView::Failed(error)) => self.finish(Err(error)),
            (Phase::SingleFile, EventView::Completed(outcome)) => match outcome {
                OutcomeView::Failed(error) => TransferView {
                    completed: 1,
                    failed: 1,
                    ..self
                }.finish(Err(error)),
                OutcomeView::Skipped => TransferView { completed: 1, skipped: 1, ..self }.finish(
                    Ok(()),
                ),
                OutcomeView::Success => TransferView { completed: 1, ..self }.finish(Ok(())),
            },
            (Phase::DirectoryFanOut, EventView::Listed { remote, local }) => {
                let plan = directory_planned(
                    self.ssh_opts,
                    self.mode,
                    self.source,
                    self.destination,
                    listed_paths(remote),
                    skipped_files(self.mode, local),
                );
                let counted = TransferView {
                    total: plan.tasks.len() + plan.rejected.len(),
                    completed: plan.rejected.len(),
                    failed: plan.rejected.len(),
                    set_aside: plan.skipped,
                    rejected: plan.rejected,
                    ..self
                };
                if plan.tasks.len() > 0 {
                    (
                        TransferView { phase: Phase::Aggregate, ..counted },
                        ActionView::FanOut(plan.tasks),
                    )
                } else if plan.rejected.len() == 0 {
                    counted.finish(Ok(()))
                } else {
                    counted.finish(Err(some_failed()))
                }
            },
            (Phase::DirectoryFanOut, EventView::Failed(error)) => self.finish(Err(error)),
            (Phase::Aggregate, EventView::Completed(outcome)) => {
                let counted = TransferView {
                    completed: self.completed + 1,
                    failed: if outcome is Failed {
                        self.failed + 1
                    } else {
                        self.failed
                    },
                    skipped: if outcome is Skipped {
                        self.skipped + 1
                    } else {
                        self.skipped
                    },
                    ..self
                };
                if counted.completed < counted.total {
                    (counted, ActionView::Wait)
                } else if counted.failed == 0 {
                    counted.finish(Ok(()))
                } else {
                    counted.finish(Err(some_failed()))
                }
            },
            _ => self.finish(Err(unexpected_event())),
        }
    }
}

/// How many of `outcomes` are failures.
pub open spec fn failures(outcomes: Seq<OutcomeView>) -> nat
    decreases outcomes.len(),
{
    if outcomes.len() == 0 {
        0
    } else if outcomes.last() is Failed {
        failures(outcomes.drop_last()) + 1
    } else {
        failures(outcomes.drop_last())
    }
}

/// How many of `outcomes` left a local file alone.
pub open spec fn skips(outcomes: Seq<OutcomeView>) -> nat
    decreases outcomes.len(),
{
    if outcomes.len() == 0 {
        0
    } else if outcomes.last() is Skipped {
        skips(outcomes.drop_last()) + 1
    } else {
        skips(outcomes.drop_last())
    }
}

impl TransferView {
    /// The state after each of `outcomes` was reported, in their order.
    pub open spec fn after(self, outcomes: Seq<OutcomeView>) -> TransferView
        decreases outcomes.len(),
    {
        if outcomes.len() == 0 {
            self
        } else {
            self.after(outcomes.drop_last()).next(EventView::Completed(outcomes.last())).0
        }
    }

    /// Whatever is reported, a transfer stays well formed, and it keeps what
    /// it was made with.
    pub proof fn lemma_next_well_formed(self, event: EventView)
        requires
            self.well_formed(),
        ensures
            self.next(event).0.well_formed(),
            self.next(event).0.ssh_opts == self.ssh_opts,
            self.next(event).0.mode == self.mode,
            self.next(event).0.source == self.source,
            self.next(event).0.destination == self.destination,
    {
    }

    /// A transfer never goes back and never stands still: with every event it
    /// moves on to a later phase, or it counts one more outcome, until it is
    /// over.
    pub proof fn lemma_next_advances(self, event: EventView)
        requires
            !(self.phase is Done),
        ensures
            self.phase.place() < self.next(event).0.phase.place() || {
                &&& self.phase is Aggregate
                &&& self.next(event).0.phase is Aggregate
                &&& self.next(event).0.completed == self.completed + 1
            },
    {
    }

    /// No task is handed out before the source was queried, and for a
    /// directory none before it was listed. A transfer that is over stays
    /// over and hands out nothing.
    pub proof fn lemma_tasks_follow_answers(self, event: EventView)
        ensures
            self.next(event).1 is Retrieve ==> self.phase is Stat && event
                == EventView::Kind(RemotePathKind::File),
            self.next(event).1 is FanOut ==> self.phase is DirectoryFanOut && event is Listed,
            self.next(event).1 is List ==> self.phase is Stat && event == EventView::Kind(
                RemotePathKind::Directory,
            ),
            self.phase is Done ==> self.next(event).0 == self && self.next(event).1 is Finish,
    {
    }

    /// Every task that is handed out for a directory goes to the place below
    /// the destination that mirrors the place of its remote file below the
    /// source, and carries the options and the mode of the transfer. What the
    /// transfer counts as ended by then are the listed paths that got no task
    /// because they have no place, and they count as failed.
    pub proof fn lemma_fan_out_mirrors(self, event: EventView)
        ensures
            self.next(event).1 matches ActionView::FanOut(tasks) ==> {
                &&& self.next(event).0.total == tasks.len() + self.next(event).0.completed
                &&& self.next(event).0.failed == self.next(event).0.completed
                &&& forall|k: int|
                    0 <= k < tasks.len() ==> {
                        &&& (#[trigger] tasks[k]).ssh_opts == self.ssh_opts
                        &&& tasks[k].mode == self.mode
                        &&& crate::plan::mirrored(
                            self.destination,
                            self.source,
                            tasks[k].remote_path,
                        ) == Some(tasks[k].local_path)
                    }
            },
    {
        if let ActionView::FanOut(tasks) = self.next(event).1 {
            if let EventView::Listed { remote, local } = event {
                crate::plan::lemma_tasks_mirror(
                    self.ssh_opts,
                    self.mode,
                    self.source,
                    self.destination,
                    listed_paths(remote),
                    skipped_files(self.mode, local),
                );
            }
        }
    }

    /// A listed path that does not lie below the source fails alone. It gets
    /// no task and is counted at once as ended and as failed; the other files
    /// keep their tasks, which are handed out as if it were not there; and
    /// with a path that failed so, the transfer cannot end well.
    pub proof fn lemma_outside_paths_fail_alone(self, remote: Seq<char>, local: Option<Seq<char>>)
        requires
            self.phase is DirectoryFanOut,
        ensures
            ({
                let plan = directory_planned(
                    self.ssh_opts,
                    self.mode,
                    self.source,
                    self.destination,
                    listed_paths(remote),
                    skipped_files(self.mode, local),
                );
                let outside = listed_paths(remote).filter(crate::plan::is_outside(self.source));
                let next = self.next(EventView::Listed { remote, local });
                &&& plan.rejected == outside
                &&& next.0.completed == outside.len()
                &&& next.0.failed == outside.len()
                &&& next.0.total == plan.tasks.len() + outside.len()
                &&& next.0.rejected == outside
                &&& next.0.set_aside == plan.skipped
                &&& plan.tasks.len() > 0 ==> next.0.phase is Aggregate && next.1
                    == ActionView::FanOut(plan.tasks)
                &&& plan.tasks.len() == 0 ==> next.0.phase is Done && next.1 == ActionView::Finish(
                    if outside.len() == 0 {
                        Ok(())
                    } else {
                        Err(some_failed())
                    },
                )
            }),
    {
        crate::plan::lemma_rejected_lie_outside(
            self.ssh_opts,
            self.mode,
            self.source,
            self.destination,
            listed_paths(remote),
            skipped_files(self.mode, local),
        );
    }

    /// Under [`Mode::Ignore`], a directory whose files all have their local
    /// counterparts gives no task: the transfer ends well at once, with every
    /// listed file counted as skipped. So it is with a transfer that is run a
    /// second time after all its files arrived.
    pub proof fn lemma_nothing_to_fetch(self, remote: Seq<char>, local: Seq<char>)
        requires
            self.phase is DirectoryFanOut,
            self.mode is Ignore,
            forall|i: int|
                0 <= i < listed_paths(remote).len() ==> match crate::plan::mirrored(
                    self.destination,
                    self.source,
                    #[trigger] listed_paths(remote)[i],
                ) {
                    Some(path) => crate::plan::present(crate::listing::lines(local), path),
                    None => false,
                },
        ensures
            self.next(EventView::Listed { remote, local: Some(local) }) == (
                TransferView {
                    phase: Phase::Done,
                    total: 0,
                    completed: 0,
                    failed: 0,
                    set_aside: listed_paths(remote),
                    rejected: Seq::empty(),
                    ..self
                },
                ActionView::Finish(Ok(())),
            ),
    {
        let files = listed_paths(remote);
        assert(crate::plan::all_below(self.source, files)) by {
            assert forall|i: int| 0 <= i < files.len() implies crate::paths::stripped(
                #[trigger] files[i],
                self.source,
            ) is Some by {
                assert(crate::plan::mirrored(self.destination, self.source, files[i]) is Some);
            }
        }
        crate::plan::lemma_present_files_are_skipped(
            self.ssh_opts,
            self.mode,
            self.source,
            self.destination,
            files,
            crate::listing::lines(local),
        );
    }

    /// Under [`Mode::Replace`] the destination is not even listed, and every
    /// file of the remote listing gets its task, whatever lies in the
    /// destination.
    pub proof fn lemma_replace_fetches_all(self, remote: Seq<char>, local: Option<Seq<char>>)
        requires
            self.mode is Replace,
            crate::plan::all_below(self.source, listed_paths(remote)),
            listed_paths(remote).len() > 0,
        ensures
            (TransferView { phase: Phase::Stat, ..self }).next(
                EventView::Kind(RemotePathKind::Directory),
            ).1 == (ActionView::List {
                command: list_command_text(self.source),
                local_root: None,
            }),
            (TransferView { phase: Phase::DirectoryFanOut, ..self }).next(
                EventView::Listed { remote, local },
            ) == (
                TransferView {
                    phase: Phase::Aggregate,
                    total: listed_paths(remote).len(),
                    completed: 0,
                    failed: 0,
                    set_aside: Seq::empty(),
                    rejected: Seq::empty(),
                    ..self
                },
                ActionView::FanOut(
                    listed_paths(remote).map_values(
                        crate::plan::task_for(
                            self.ssh_opts,
                            Mode::Replace,
                            self.destination,
                            self.source,
                        ),
                    ),
                ),
            ),
    {
        crate::plan::lemma_replace_fetches_all(
            self.ssh_opts,
            self.source,
            self.destination,
            listed_paths(remote),
            local,
        );
    }

    /// Each outcome is counted once: as ended, and as failed or skipped if it
    /// is that. The transfer goes on waiting until the last task has ended.
    pub proof fn lemma_outcomes_counted(self, outcomes: Seq<OutcomeView>)
        requires
            self.well_formed(),
            self.phase is Aggregate,
            outcomes.len() <= self.total - self.completed,
        ensures
            self.after(outcomes) == (TransferView {
                completed: self.completed + outcomes.len(),
                failed: self.failed + failures(outcomes),
                skipped: self.skipped + skips(outcomes),
                phase: if self.completed + outcomes.len() < self.total {
                    Phase::Aggregate
                } else {
                    Phase::Done
                },
                ..self
            }),
            self.after(outcomes).well_formed(),
        decreases outcomes.len(),
    {
        if outcomes.len() > 0 {
            self.lemma_outcomes_counted(outcomes.drop_last());
        }
    }

    /// A failure cancels nothing. While tasks are running, the transfer takes
    /// in the outcome of each of them, failed or not, and asks for the next;
    /// with the last one it ends. It ends well if and only if none of them
    /// failed and nothing had failed before: a listed path that was rejected
    /// fails the whole, yet every task runs to its end.
    pub proof fn lemma_partial_failure(self, outcomes: Seq<OutcomeView>)
        requires
            self.well_formed(),
            self.phase is Aggregate,
            outcomes.len() == self.total - self.completed,
        ensures
            forall|n: int|
                0 <= n < outcomes.len() - 1 ==> (#[trigger] self.after(outcomes.take(n))).next(
                    EventView::Completed(outcomes[n]),
                ).1 is Wait,
            self.after(outcomes.drop_last()).next(EventView::Completed(outcomes.last())).1
                == ActionView::Finish(
                if self.failed + failures(outcomes) == 0 {
                    Ok(())
                } else {
                    Err(some_failed())
                },
            ),
            self.after(outcomes).phase is Done,
            self.after(outcomes).completed == self.total,
            self.after(outcomes).failed == self.failed + failures(outcomes),
    {
        self.lemma_outcomes_counted(outcomes);
        self.lemma_outcomes_counted(outcomes.drop_last());
        assert forall|n: int| 0 <= n < outcomes.len() - 1 implies (#[trigger] self.after(
            outcomes.take(n),
        )).next(EventView::Completed(outcomes[n])).1 is Wait by {
            self.lemma_outcomes_counted(outcomes.take(n));
        }
    }
}

/// A transfer of `source` on the remote host into the local `destination`.
#[derive(Debug, PartialEq, Eq)]
pub struct Transfer {
    ssh_opts: SshOpts,
    mode: Mode,
    source: String,
    destination: String,
    phase: Phase,
    kind: Option<RemotePathKind>,
    total: usize,
    completed: usize,
    failed: usize,
    skipped: usize,
    set_aside: Vec<String>,
    rejected: Vec<String>,
}

impl View for Transfer {
    type V = TransferView;

    closed spec fn view(&self) -> TransferView {
        TransferView {
            ssh_opts: self.ssh_opts@,
            mode: self.mode,
            source: self.source@,
            destination: self.destination@,
            phase: self.phase,
            kind: self.kind,
            total: self.total as nat,
            completed: self.completed as nat,
            failed: self.failed as nat,
            skipped: self.skipped as nat,
            set_aside: texts(self.set_aside@),
            rejected: texts(self.rejected@),
        }
    }
}

impl Transfer {
    /// Every transfer is well formed.
    #[verifier::type_invariant]
    spec fn inv(self) -> bool {
        self@.well_formed()
    }

    /// A transfer that has not started.
    pub fn new(ssh_opts: SshOpts, mode: Mode, source: &str, destination: &str) -> (transfer:
        Transfer)
        ensures
            transfer@ == (TransferView {
                ssh_opts: ssh_opts@,
                mode,
                source: source@,
                destination: destination@,
                phase: Phase::Init,
                kind: None,
                total: 0,
                completed: 0,
                failed: 0,
                skipped: 0,
                set_aside: Seq::empty(),
                rejected: Seq::empty(),
            }),
    {
        let set_aside: Vec<String> = Vec::new();
        let rejected: Vec<String> = Vec::new();
        assert(texts(set_aside@) == Seq::<Seq<char>>::empty());
        assert(texts(rejected@) == Seq::<Seq<char>>::empty());
        Transfer {
            ssh_opts,
            mode,
            source: source.to_owned(),
            destination: destination.to_owned(),
            phase: Phase::Init,
            kind: None,
            total: 0,
            completed: 0,
            failed: 0,
            skipped: 0,
            set_aside,
            rejected,
        }
    }

    /// What the transfer is waiting for.
    pub fn phase(&self) -> (phase: Phase)
        ensures
            phase == self@.phase,
    {
        self.phase
    }

    /// What the source turned out to be, once that is known.
    pub fn kind(&self) -> (kind: Option<RemotePathKind>)
        ensures
            kind == self@.kind,
    {
        self.kind
    }

    /// The number of files that the transfer has to account for: the tasks
    /// that were handed out, and the listed paths that had no place.
    pub fn total(&self) -> (total: usize)
        ensures
            total == self@.total,
    {
        self.total
    }

    /// How many files are done with: the tasks that have ended, and the
    /// listed paths that had no place.
    pub fn completed(&self) -> (completed: usize)
        ensures
            completed == self@.completed,
            completed <= self@.total,
    {
        proof {
            use_type_invariant(self);
        }
        self.completed
    }

    /// How many files failed: the tasks that did, and the listed paths that
    /// had no place.
    pub fn failed(&self) -> (failed: usize)
        ensures
            failed == self@.failed,
            failed <= self@.completed,
    {
        proof {
            use_type_invariant(self);
        }
        self.failed
    }

    /// How many tasks found their local file there and left it alone.
    pub fn skipped(&self) -> (skipped: usize)
        ensures
            skipped == self@.skipped,
            skipped <= self@.completed,
    {
        proof {
            use_type_invariant(self);
        }
        self.skipped
    }

    /// The listed files that got no task because their local counterparts
    /// were there when the directory was planned.
    pub fn set_aside(&self) -> (set_aside: &Vec<String>)
        ensures
            texts(set_aside@) == self@.set_aside,
    {
        &self.set_aside
    }

    /// The listed paths that got no task because they have no place in the
    /// destination. Each of them counts as ended and as failed.
    pub fn rejected(&self) -> (rejected: &Vec<String>)
        ensures
            texts(rejected@) == self@.rejected,
            rejected.len() <= self@.failed,
    {
        proof {
            use_type_invariant(self);
        }
        &self.rejected
    }

    /// The line that sums up how the files went: how many of them failed, or
    /// else that the one file of the source was received, or that all files
    /// of the directory were, with their number.
    pub fn summary(&self) -> (line: String)
        ensures
            line@ == self@.summary(),
    {
        if self.failed > 0 {
            let mut line = String::new();
            push_decimal(&mut line, self.failed);
            line.append(" of ");
            push_decimal(&mut line, self.total);
            line.concat(" files failed to copy")
        } else {
            match self.kind {
                Some(RemotePathKind::File) => "✅ File received successfully".to_owned(),
                _ => {
                    let mut line = "✅ All files received successfully (".to_owned();
                    push_decimal(&mut line, self.total);
                    line.concat(" files)")
                },
            }
        }
    }

    /// This transfer, over, with `result`.
    fn finish(self, result: Result<(), ScpError>) -> (next: (Transfer, Action))
        ensures
            (next.0@, next.1@) == self@.finish(
                match result {
                    Ok(_) => Ok(()),
                    Err(error) => Err(error@),
                },
            ),
    {
        proof {
            use_type_invariant(&self);
        }
        (Transfer { phase: Phase::Done, ..self }, Action::Finish(result))
    }

    /// Takes in `event` and says what to do next.
    pub fn step(self, event: Event) -> (next: (Transfer, Action))
        ensures
            (next.0@, next.1@) == self@.next(event@),
            next.0@.well_formed(),
    {
        proof {
            use_type_invariant(&self);
        }
        match (self.phase, event) {
            (Phase::Init, Event::Start) => {
                let path = self.source.clone();
                (Transfer { phase: Phase::Stat, ..self }, Action::Stat(path))
            },
            (Phase::Stat, Event::Kind(RemotePathKind::File)) => {
                let task = single_file_task(
                    &self.ssh_opts,
                    self.mode,
                    self.source.as_str(),
                    self.destination.as_str(),
                );
                (
                    Transfer {
                        phase: Phase::SingleFile,
                        kind: Some(RemotePathKind::File),
                        total: 1,
                        ..self
                    },
                    Action::Retrieve(task),
                )
            },
            (Phase::Stat, Event::Kind(RemotePathKind::Directory)) => {
                let command = list_command(self.source.as_str());
                let local_root = match self.mode {
                    Mode::Ignore => Some(self.destination.clone()),
                    Mode::Replace => None,
                };
                (
                    Transfer {
                        phase: Phase::DirectoryFanOut,
                        kind: Some(RemotePathKind::Directory),
                        ..self
                    },
                    Action::List { command, local_root },
                )
            },
            (Phase::Stat, Event::Failed(error)) => self.finish(Err(error)),
            (Phase::SingleFile, Event::Completed(outcome)) => match outcome {
                TransferOutcome::Failed(error) => (
                    Transfer { phase: Phase::Done, completed: 1, failed: 1, ..self },
                    Action::Finish(Err(error)),
                ),
                TransferOutcome::Skipped => (
                    Transfer { phase: Phase::Done, completed: 1, skipped: 1, ..self },
                    Action::Finish(Ok(())),
                ),
                TransferOutcome::Success => (
                    Transfer { phase: Phase::Done, completed: 1, ..self },
                    Action::Finish(Ok(())),
                ),
            },
            (Phase::DirectoryFanOut, Event::Listed { remote, local }) => {
                let files = find_files(remote.as_str());
                let existing = skip_set(self.mode, &local);
                let plan = directory_plan(
                    &self.ssh_opts,
                    self.mode,
                    self.source.as_str(),
                    self.destination.as_str(),
                    &files,
                    &existing,
                );
                let rejected = plan.rejected.len();
                let total = plan.tasks.len() + rejected;
                let counted = Transfer {
                    phase: Phase::Done,
                    total,
                    completed: rejected,
                    failed: rejected,
                    set_aside: plan.skipped,
                    rejected: plan.rejected,
                    ..self
                };
                if plan.tasks.len() > 0 {
                    (Transfer { phase: Phase::Aggregate, ..counted }, Action::FanOut(plan.tasks))
                } else if rejected == 0 {
                    (counted, Action::Finish(Ok(())))
                } else {
                    let error = ScpError::Io("One or more files failed to copy".to_owned());
                    (counted, Action::Finish(Err(error)))
                }
            },
            (Phase::DirectoryFanOut, Event::Failed(error)) => self.finish(Err(error)),
            (Phase::Aggregate, Event::Completed(outcome)) => {
                let completed = self.completed + 1;
                let (failed, skipped) = match outcome {
                    TransferOutcome::Failed(_) => (self.failed + 1, self.skipped),
                    TransferOutcome::Skipped => (self.failed, self.skipped + 1),
                    TransferOutcome::Success => (self.failed, self.skipped),
                };
                if completed < self.total {
                    (Transfer { completed, failed, skipped, ..self }, Action::Wait)
                } else if failed == 0 {
                    (
                        Transfer { phase: Phase::Done, completed, failed, skipped, ..self },
                        Action::Finish(Ok(())),
                    )
                } else {
                    let error = ScpError::Io("One or more files failed to copy".to_owned());
                    (
                        Transfer { phase: Phase::Done, completed, failed, skipped, ..self },
                        Action::Finish(Err(error)),
                    )
                }
            },
            _ => self.finish(Err(unexpected())),
        }
    }
}

} // verus!
