//! The retrieval of one file, step by step. The caller does the work of each
//! step, on the network and on disk, and reports how it went; what comes next
//! is decided here.

use crate::error::{ErrorView, ScpError};
use crate::options::Mode;
use crate::task::{OutcomeView, TransferOutcome};
use vstd::prelude::*;

verus! {

/// How far the retrieval of a file has come: what it is waiting for.
#[derive(Clone, Copy, Debug, PartialEq, Eq, Structural)]
pub enum Stage {
    /// Nothing was done yet.
    Idle,
    /// The directories above the local path are being made.
    Preparing,
    /// The local path is being looked up.
    Probing,
    /// The content of the remote file is being fetched.
    Fetching,
    /// The content is being written to the local path.
    Writing,
    /// The retrieval is over.
    Finished,
}

/// The retrieval of one file under a conflict mode.
#[derive(Clone, Copy, Debug, PartialEq, Eq, Structural)]
pub struct Retrieval {
    pub mode: Mode,
    pub stage: Stage,
}

/// What the caller reports to a [`Retrieval`].
#[derive(Debug, PartialEq, Eq)]
pub enum RetrieveEvent {
    /// The retrieval is to begin.
    Begin,
    /// The step that was asked for is done.
    Done,
    /// The answer to [`RetrieveAction::Probe`]: whether the local path
    /// exists.
    Exists(bool),
    /// The step that was asked for failed.
    Failed(ScpError),
}

/// A [`RetrieveEvent`] with the view of its error.
pub enum RetrieveEventView {
    Begin,
    Done,
    Exists(bool),
    Failed(ErrorView),
}

impl View for RetrieveEvent {
    type V = RetrieveEventView;

    open spec fn view(&self) -> RetrieveEventView {
        match self {
            RetrieveEvent::Begin => RetrieveEventView::Begin,
            RetrieveEvent::Done => RetrieveEventView::Done,
            RetrieveEvent::Exists(exists) => RetrieveEventView::Exists(*exists),
            RetrieveEvent::Failed(error) => RetrieveEventView::Failed(error@),
        }
    }
}

/// What a [`Retrieval`] asks of its caller.
#[derive(Debug, PartialEq, Eq)]
pub enum RetrieveAction {
    /// Make the missing directories above the local path.
    CreateParents,
    /// Find out whether the local path exists.
    Probe,
    /// Fetch the whole content of the remote file.
    Fetch,
    /// Write the content to the local path, making the file or emptying it
    /// first.
    Write,
    /// Nothing more: the retrieval ended with this outcome.
    Finish(TransferOutcome),
}

/// A [`RetrieveAction`] with the view of its outcome.
pub enum RetrieveActionView {
    CreateParents,
    Probe,
    Fetch,
    Write,
    Finish(OutcomeView),
}

impl View for RetrieveAction {
    type V = RetrieveActionView;

    open spec fn view(&self) -> RetrieveActionView {
        match self {
            RetrieveAction::CreateParents => RetrieveActionView::CreateParents,
            RetrieveAction::Probe => RetrieveActionView::Probe,
            RetrieveAction::Fetch => RetrieveActionView::Fetch,
            RetrieveAction::Write => RetrieveActionView::Write,
            RetrieveAction::Finish(outcome) => RetrieveActionView::Finish(outcome@),
        }
    }
}

impl Stage {
    /// The number of steps that a retrieval at this stage can still take.
    pub open spec fn steps_left(self) -> nat {
        match self {
            Stage::Idle => 5,
            Stage::Preparing => 4,
            Stage::Probing => 3,
            Stage::Fetching => 2,
            Stage::Writing => 1,
            Stage::Finished => 0,
        }
    }
}

/// What the caller reports after `action` when no step fails and the local
/// file exists, or does not, as `exists` says.
pub open spec fn answer(action: RetrieveActionView, exists: bool) -> RetrieveEventView {
    match action {
        RetrieveActionView::Probe => RetrieveEventView::Exists(exists),
        _ => RetrieveEventView::Done,
    }
}

/// The error for an event that the machine was not waiting for.
pub open spec fn unexpected_event() -> ErrorView {
    ErrorView::Other("Unexpected event"@)
}

/// The error for an event that the machine was not waiting for.
pub fn unexpected() -> (error: ScpError)
    ensures
        error@ == unexpected_event(),
{
    ScpError::Other("Unexpected event".to_owned())
}

impl Retrieval {
    /// The stage after `event`, and what is asked of the caller then.
    ///
    /// The directories come first. Under [`Mode::Ignore`] the local path is
    /// looked up next, and a file that exists ends the retrieval as skipped.
    /// Otherwise, and always under [`Mode::Replace`], the content is fetched
    /// and then written; under [`Mode::Replace`] no answer on what exists
    /// changes that. A failed step ends the retrieval with its error, and
    /// so does an event that the stage does not wait for.
    pub open spec fn next(self, event: RetrieveEventView) -> (Retrieval, RetrieveActionView) {
        let finished = Retrieval { mode: self.mode, stage: Stage::Finished };
        match (self.stage, event) {
            (Stage::Idle, RetrieveEventView::Begin) => (
                Retrieval { mode: self.mode, stage: Stage::Preparing },
                RetrieveActionView::CreateParents,
            ),
            (Stage::Preparing, RetrieveEventView::Done) => match self.mode {
                Mode::Ignore => (
                    Retrieval { mode: self.mode, stage: Stage::Probing },
                    RetrieveActionView::Probe,
                ),
                Mode::Replace => (
                    Retrieval { mode: self.mode, stage: Stage::Fetching },
                    RetrieveActionView::Fetch,
                ),
            },
            (Stage::Probing, RetrieveEventView::Exists(exists)) => {
                if exists && self.mode is Ignore {
                    (finished, RetrieveActionView::Finish(OutcomeView::Skipped))
                } else {
                    (
                        Retrieval { mode: self.mode, stage: Stage::Fetching },
                        RetrieveActionView::Fetch,
                    )
                }
            },
            (Stage::Fetching, RetrieveEventView::Done) => (
                Retrieval { mode: self.mode, stage: Stage::Writing },
                RetrieveActionView::Write,
            ),
            (Stage::Writing, RetrieveEventView::Done) => (
                finished,
                RetrieveActionView::Finish(OutcomeView::Success),
            ),
            (Stage::Preparing, RetrieveEventView::Failed(error)) => (
                finished,
                RetrieveActionView::Finish(OutcomeView::Failed(error)),
            ),
            (Stage::Probing, RetrieveEventView::Failed(error)) => (
                finished,
                RetrieveActionView::Finish(OutcomeView::Failed(error)),
            ),
            (Stage::Fetching, RetrieveEventView::Failed(error)) => (
                finished,
                RetrieveActionView::Finish(OutcomeView::Failed(error)),
            ),
            (Stage::Writing, RetrieveEventView::Failed(error)) => (
                finished,
                RetrieveActionView::Finish(OutcomeView::Failed(error)),
            ),
            _ => (finished, RetrieveActionView::Finish(OutcomeView::Failed(unexpected_event()))),
        }
    }

    /// What is asked of the caller, from `event` on to the end, when no step
    /// fails and the local file exists, or does not, as `exists` says.
    pub open spec fn undisturbed(self, event: RetrieveEventView, exists: bool) -> Seq<
        RetrieveActionView,
    >
        decreases self.stage.steps_left(),
    {
        if self.stage is Finished {
            Seq::empty()
        } else {
            let (next, action) = self.next(event);
            seq![action] + next.undisturbed(answer(action, exists), exists)
        }
    }

    /// Under [`Mode::Replace`] the local file is never looked up and the
    /// retrieval never ends as skipped: whatever was there is overwritten.
    pub proof fn lemma_replace_never_skips(self, event: RetrieveEventView)
        requires
            self.mode == Mode::Replace,
        ensures
            self.next(event).0.mode == Mode::Replace,
            !(self.next(event).1 is Probe),
            self.next(event).1 != RetrieveActionView::Finish(OutcomeView::Skipped),
    {
    }

    /// Nothing is written that was not fetched, and nothing is fetched for a
    /// local file that is known to exist: the content is asked for after the
    /// directories under [`Mode::Replace`], and otherwise only when the local
    /// file was looked up and not found.
    pub proof fn lemma_fetch_and_write_in_turn(self, event: RetrieveEventView)
        ensures
            self.next(event).1 is Write ==> self.stage is Fetching && event is Done,
            self.next(event).1 is Fetch ==> {
                ||| self.mode is Replace
                ||| self.stage is Probing && event == RetrieveEventView::Exists(false)
            },
            self.next(event).1 == RetrieveActionView::Finish(OutcomeView::Skipped) ==> {
                &&& self.mode is Ignore
                &&& self.stage is Probing
                &&& event == RetrieveEventView::Exists(true)
            },
    {
    }

    /// The whole course of a retrieval in which no step fails. Under
    /// [`Mode::Ignore`] a local file that exists is left alone: it is looked
    /// up, and the retrieval ends as skipped with nothing fetched or written.
    /// In every other case the content is fetched and written, and under
    /// [`Mode::Replace`] without a look at what is there.
    pub proof fn lemma_undisturbed(mode: Mode, exists: bool)
        ensures
            (Retrieval { mode, stage: Stage::Idle }).undisturbed(RetrieveEventView::Begin, exists)
                == (match mode {
                Mode::Replace => seq![
                    RetrieveActionView::CreateParents,
                    RetrieveActionView::Fetch,
                    RetrieveActionView::Write,
                    RetrieveActionView::Finish(OutcomeView::Success),
                ],
                Mode::Ignore => if exists {
                    seq![
                        RetrieveActionView::CreateParents,
                        RetrieveActionView::Probe,
                        RetrieveActionView::Finish(OutcomeView::Skipped),
                    ]
                } else {
                    seq![
                        RetrieveActionView::CreateParents,
                        RetrieveActionView::Probe,
                        RetrieveActionView::Fetch,
                        RetrieveActionView::Write,
                        RetrieveActionView::Finish(OutcomeView::Success),
                    ]
                },
            }),
    {
        reveal_with_fuel(Retrieval::undisturbed, 6);
    }

    /// A retrieval that has not begun.
    pub fn new(mode: Mode) -> (retrieval: Retrieval)
        ensures
            retrieval == (Retrieval { mode, stage: Stage::Idle }),
    {
        Retrieval { mode, stage: Stage::Idle }
    }

    /// Takes in `event` and says what to do next.
    pub fn step(&mut self, event: RetrieveEvent) -> (action: RetrieveAction)
        ensures
            (*final(self), action@) == old(self).next(event@),
    {
        let stage = self.stage;
        self.stage = Stage::Finished;
        match (stage, event) {
            (Stage::Idle, RetrieveEvent::Begin) => {
                self.stage = Stage::Preparing;
                RetrieveAction::CreateParents
            },
            (Stage::Preparing, RetrieveEvent::Done) => match self.mode {
                Mode::Ignore => {
                    self.stage = Stage::Probing;
                    RetrieveAction::Probe
                },
                Mode::Replace => {
                    self.stage = Stage::Fetching;
                    RetrieveAction::Fetch
                },
            },
            (Stage::Probing, RetrieveEvent::Exists(exists)) => {
                if exists && self.mode == Mode::Ignore {
                    RetrieveAction::Finish(TransferOutcome::Skipped)
                } else {
                    self.stage = Stage::Fetching;
                    RetrieveAction::Fetch
                }
            },
            (Stage::Fetching, RetrieveEvent::Done) => {
                self.stage = Stage::Writing;
                RetrieveAction::Write
            },
            (Stage::Writing, RetrieveEvent::Done) => RetrieveAction::Finish(
                TransferOutcome::Success,
            ),
            (Stage::Preparing, RetrieveEvent::Failed(error)) => RetrieveAction::Finish(
                TransferOutcome::Failed(error),
            ),
            (Stage::Probing, RetrieveEvent::Failed(error)) => RetrieveAction::Finish(
                TransferOutcome::Failed(error),
            ),
            (Stage::Fetching, RetrieveEvent::Failed(error)) => RetrieveAction::Finish(
                TransferOutcome::Failed(error),
            ),
            (Stage::Writing, RetrieveEvent::Failed(error)) => RetrieveAction::Finish(
                TransferOutcome::Failed(error),
            ),
            _ => RetrieveAction::Finish(TransferOutcome::Failed(unexpected())),
        }
    }
}

} // verus!
