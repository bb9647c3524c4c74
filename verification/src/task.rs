//! The unit of work of a transfer: one remote file and the place it goes to.

use crate::error::{ErrorView, ScpError};
use crate::options::{Mode, OptsView, SshOpts};
use vstd::prelude::*;

verus! {

/// What the source of a transfer turned out to be.
#[derive(Clone, Copy, Debug, PartialEq, Eq, Structural)]
pub enum RemotePathKind {
    File,
    Directory,
}

impl RemotePathKind {
    /// The kind that the remote metadata reports.
    pub fn from_is_dir(is_dir: bool) -> (kind: RemotePathKind)
        ensures
            kind == (if is_dir {
                RemotePathKind::Directory
            } else {
                RemotePathKind::File
            }),
    {
        if is_dir {
            RemotePathKind::Directory
        } else {
            RemotePathKind::File
        }
    }
}

/// One file to retrieve.
#[derive(Debug, PartialEq, Eq)]
pub struct TransferTask {
    pub remote_path: String,
    pub local_path: String,
    pub ssh_opts: SshOpts,
    pub mode: Mode,
}

/// A [`TransferTask`] with the text of its fields.
pub struct TaskView {
    pub remote_path: Seq<char>,
    pub local_path: Seq<char>,
    pub ssh_opts: OptsView,
    pub mode: Mode,
}

impl View for TransferTask {
    type V = TaskView;

    open spec fn view(&self) -> TaskView {
        TaskView {
            remote_path: self.remote_path@,
            local_path: self.local_path@,
            ssh_opts: self.ssh_opts@,
            mode: self.mode,
        }
    }
}

/// The view of each task of `tasks`, in order.
pub open spec fn task_views(tasks: Seq<TransferTask>) -> Seq<TaskView> {
    Seq::new(tasks.len(), |i: int| tasks[i]@)
}

/// How the retrieval of one file ended.
#[derive(Debug, PartialEq, Eq)]
pub enum TransferOutcome {
    /// The file was fetched and written.
    Success,
    /// The local file existed and was left as it was.
    Skipped,
    /// The file was not retrieved.
    Failed(ScpError),
}

/// A [`TransferOutcome`] with the view of its error.
pub enum OutcomeView {
    Success,
    Skipped,
    Failed(ErrorView),
}

impl View for TransferOutcome {
    type V = OutcomeView;

    open spec fn view(&self) -> OutcomeView {
        match self {
            TransferOutcome::Success => OutcomeView::Success,
            TransferOutcome::Skipped => OutcomeView::Skipped,
            TransferOutcome::Failed(error) => OutcomeView::Failed(error@),
        }
    }
}

impl TransferOutcome {
    /// The outcome of a task once the session of the task was closed: a
    /// success counts only where the session closed well, and otherwise the
    /// task failed with the error of the closing. A task that failed keeps
    /// its own error, and a skipped file stays skipped.
    pub fn closed(self, closing: Result<(), ScpError>) -> (outcome: TransferOutcome)
        ensures
            outcome@ == (match (self@, closing) {
                (OutcomeView::Success, Err(error)) => OutcomeView::Failed(error@),
                _ => self@,
            }),
    {
        match (self, closing) {
            (TransferOutcome::Success, Err(error)) => TransferOutcome::Failed(error),
            (outcome, _) => outcome,
        }
    }

    /// Whether the file was not retrieved.
    pub fn is_failed(&self) -> (failed: bool)
        ensures
            failed == (self@ is Failed),
    {
        match self {
            TransferOutcome::Failed(_) => true,
            _ => false,
        }
    }
}

} // verus!
