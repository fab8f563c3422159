//! The decisions of the two waiting loops: the one that lets a comic start
//! downloading once it holds one of the comic permits, and the one that lets
//! each image download once it holds one of the image permits. Both loops
//! react to state changes: pausing gives the permit back, cancelling stops
//! the loop.
use vstd::prelude::*;

use crate::state::DownloadTaskState;

verus! {

/// Whether a waiting loop goes on or stops.
#[derive(Debug, Clone, Copy, PartialEq, Eq, Structural)]
pub enum LoopControl {
    Continue,
    Break,
}

/// What woke a loop up.
#[derive(Debug, Clone, Copy, PartialEq, Eq, Structural)]
pub enum LoopEvent {
    /// The download that the loop guards has run to its end.
    DownloadFinished,
    /// A permit was handed out; `state` is the task's state at that moment.
    PermitGranted { state: DownloadTaskState },
    /// The permit pool refused to hand one out.
    PermitRefused,
    /// The task's state changed to `state`.
    StateChanged { state: DownloadTaskState },
}

/// What the loop does after an event.
#[derive(Debug, Clone, Copy, PartialEq, Eq, Structural)]
pub struct LoopAction {
    /// Give the permit back (it is released when this is set).
    pub release_permit: bool,
    /// Set the task to this state (which wakes the loops watching the task).
    pub set_state: Option<DownloadTaskState>,
    /// Announce the task's current state and counters.
    pub announce: bool,
    pub control: LoopControl,
}

/// The loop of a comic task: holds at most one comic permit.
#[derive(Debug)]
pub struct ComicTaskLoop {
    pub has_permit: bool,
}

/// The loop of one image download: holds at most one image permit.
#[derive(Debug)]
pub struct ImgTaskLoop {
    pub has_permit: bool,
}

/// The effect of an event on a comic loop holding a permit or not: the new
/// holding and the action.
///
/// - the download ending stops the loop;
/// - a granted permit is kept, and a task still `Pending` then moves to `Downloading`;
/// - a refused permit marks the task `Failed`, announces it, and stops the loop;
/// - a state change is announced; `Paused` gives the permit back, `Cancelled`
///   stops the loop.
pub open spec fn comic_loop_step(has_permit: bool, event: LoopEvent) -> (bool, LoopAction) {
    match event {
        LoopEvent::DownloadFinished => (
            has_permit,
            LoopAction { release_permit: false, set_state: None, announce: false, control: LoopControl::Break },
        ),
        LoopEvent::PermitGranted { state } => (
            true,
            LoopAction {
                release_permit: false,
                set_state: if state == DownloadTaskState::Pending {
                    Some(DownloadTaskState::Downloading)
                } else {
                    None
                },
                announce: false,
                control: LoopControl::Continue,
            },
        ),
        LoopEvent::PermitRefused => (
            has_permit,
            LoopAction {
                release_permit: false,
                set_state: Some(DownloadTaskState::Failed),
                announce: true,
                control: LoopControl::Break,
            },
        ),
        LoopEvent::StateChanged { state } => match state {
            DownloadTaskState::Paused => (
                false,
                LoopAction { release_permit: has_permit, set_state: None, announce: true, control: LoopControl::Continue },
            ),
            DownloadTaskState::Cancelled => (
                has_permit,
                LoopAction { release_permit: false, set_state: None, announce: true, control: LoopControl::Break },
            ),
            _ => (
                has_permit,
                LoopAction { release_permit: false, set_state: None, announce: true, control: LoopControl::Continue },
            ),
        },
    }
}

/// The effect of an event on an image loop: like the comic loop, except that
/// a granted permit changes no state, a refused permit only stops the loop,
/// and state changes are not announced.
pub open spec fn img_loop_step(has_permit: bool, event: LoopEvent) -> (bool, LoopAction) {
    match event {
        LoopEvent::DownloadFinished => (
            has_permit,
            LoopAction { release_permit: false, set_state: None, announce: false, control: LoopControl::Break },
        ),
        LoopEvent::PermitGranted { .. } => (
            true,
            LoopAction { release_permit: false, set_state: None, announce: false, control: LoopControl::Continue },
        ),
        LoopEvent::PermitRefused => (
            has_permit,
            LoopAction { release_permit: false, set_state: None, announce: false, control: LoopControl::Break },
        ),
        LoopEvent::StateChanged { state } => match state {
            DownloadTaskState::Paused => (
                false,
                LoopAction { release_permit: has_permit, set_state: None, announce: false, control: LoopControl::Continue },
            ),
            DownloadTaskState::Cancelled => (
                has_permit,
                LoopAction { release_permit: false, set_state: None, announce: false, control: LoopControl::Break },
            ),
            _ => (
                has_permit,
                LoopAction { release_permit: false, set_state: None, announce: false, control: LoopControl::Continue },
            ),
        },
    }
}

fn action(release_permit: bool, set_state: Option<DownloadTaskState>, announce: bool, control: LoopControl) -> (res: LoopAction)
    ensures
        res == (LoopAction { release_permit, set_state, announce, control }),
{
    LoopAction { release_permit, set_state, announce, control }
}

impl ComicTaskLoop {
    /// A comic loop that holds no permit yet.
    pub fn new() -> (res: ComicTaskLoop)
        ensures
            !res.has_permit,
    {
        ComicTaskLoop { has_permit: false }
    }

    /// The download may run on: the task is `Downloading` and holds a permit.
    pub fn download_armed(&self, state: DownloadTaskState) -> (res: bool)
        ensures
            res == (state == DownloadTaskState::Downloading && self.has_permit),
    {
        state == DownloadTaskState::Downloading && self.has_permit
    }

    /// A permit is to be obtained (or the held one used): the task is `Pending`.
    pub fn acquire_armed(&self, state: DownloadTaskState) -> (res: bool)
        ensures
            res == (state == DownloadTaskState::Pending),
    {
        state == DownloadTaskState::Pending
    }

    /// A permit must be waited for: none is held. A permit already held is
    /// used again without waiting.
    pub fn must_wait_for_permit(&self) -> (res: bool)
        ensures
            res == !self.has_permit,
    {
        !self.has_permit
    }

    /// Applies an event (see `comic_loop_step`).
    pub fn step(&mut self, event: LoopEvent) -> (res: LoopAction)
        ensures
            (final(self).has_permit, res) == comic_loop_step(old(self).has_permit, event),
    {
        match event {
            LoopEvent::DownloadFinished => action(false, None, false, LoopControl::Break),
            LoopEvent::PermitGranted { state } => {
                self.has_permit = true;
                if state == DownloadTaskState::Pending {
                    action(false, Some(DownloadTaskState::Downloading), false, LoopControl::Continue)
                } else {
                    action(false, None, false, LoopControl::Continue)
                }
            },
            LoopEvent::PermitRefused => action(
                false,
                Some(DownloadTaskState::Failed),
                true,
                LoopControl::Break,
            ),
            LoopEvent::StateChanged { state } => match state {
                DownloadTaskState::Paused => {
                    let held = self.has_permit;
                    self.has_permit = false;
                    action(held, None, true, LoopControl::Continue)
                },
                DownloadTaskState::Cancelled => action(false, None, true, LoopControl::Break),
                _ => action(false, None, true, LoopControl::Continue),
            },
        }
    }
}

impl ImgTaskLoop {
    /// An image loop that holds no permit yet.
    pub fn new() -> (res: ImgTaskLoop)
        ensures
            !res.has_permit,
    {
        ImgTaskLoop { has_permit: false }
    }

    /// The image download may run on: the task is `Downloading` and a permit is held.
    pub fn download_armed(&self, state: DownloadTaskState) -> (res: bool)
        ensures
            res == (state == DownloadTaskState::Downloading && self.has_permit),
    {
        state == DownloadTaskState::Downloading && self.has_permit
    }

    /// A permit is to be obtained: the task is `Downloading` and none is held.
    pub fn acquire_armed(&self, state: DownloadTaskState) -> (res: bool)
        ensures
            res == (state == DownloadTaskState::Downloading && !self.has_permit),
    {
        state == DownloadTaskState::Downloading && !self.has_permit
    }

    /// Applies an event (see `img_loop_step`).
    pub fn step(&mut self, event: LoopEvent) -> (res: LoopAction)
        ensures
            (final(self).has_permit, res) == img_loop_step(old(self).has_permit, event),
    {
        match event {
            LoopEvent::DownloadFinished => action(false, None, false, LoopControl::Break),
            LoopEvent::PermitGranted { .. } => {
                self.has_permit = true;
                action(false, None, false, LoopControl::Continue)
            },
            LoopEvent::PermitRefused => action(false, None, false, LoopControl::Break),
            LoopEvent::StateChanged { state } => match state {
                DownloadTaskState::Paused => {
                    let held = self.has_permit;
                    self.has_permit = false;
                    action(held, None, false, LoopControl::Continue)
                },
                DownloadTaskState::Cancelled => action(false, None, false, LoopControl::Break),
                _ => action(false, None, false, LoopControl::Continue),
            },
        }
    }
}

} // verus!
