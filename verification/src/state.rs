use vstd::prelude::*;

verus! {

/// The lifecycle state of a comic download task.
#[derive(Debug, Clone, Copy, PartialEq, Eq, Structural)]
pub enum DownloadTaskState {
    Pending,
    Downloading,
    Paused,
    Cancelled,
    Completed,
    Failed,
}

impl DownloadTaskState {
    /// A task in one of these states is still alive: creating it again is a no-op
    /// and resuming it only moves it back to `Pending`.
    pub open spec fn spec_is_active(&self) -> bool {
        *self == DownloadTaskState::Pending || *self == DownloadTaskState::Downloading
            || *self == DownloadTaskState::Paused
    }

    /// A task in one of these states has stopped for good: resuming it means
    /// creating a fresh task for the same comic.
    pub open spec fn spec_is_finished(&self) -> bool {
        *self == DownloadTaskState::Failed || *self == DownloadTaskState::Cancelled
            || *self == DownloadTaskState::Completed
    }

    #[verifier::when_used_as_spec(spec_is_active)]
    pub fn is_active(&self) -> (res: bool)
        ensures
            res == self.spec_is_active(),
    {
        match self {
            DownloadTaskState::Pending | DownloadTaskState::Downloading
            | DownloadTaskState::Paused => true,
            _ => false,
        }
    }

    #[verifier::when_used_as_spec(spec_is_finished)]
    pub fn is_finished(&self) -> (res: bool)
        ensures
            res == self.spec_is_finished(),
    {
        match self {
            DownloadTaskState::Failed | DownloadTaskState::Cancelled
            | DownloadTaskState::Completed => true,
            _ => false,
        }
    }
}

/// Every state is either active or finished, never both.
pub proof fn lemma_active_xor_finished(s: DownloadTaskState)
    ensures
        s.spec_is_active() != s.spec_is_finished(),
{
}

} // verus!
