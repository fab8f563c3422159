//! The table of download tasks, keyed by comic id, and the requests that
//! create, pause, resume and cancel them.
use std::collections::HashMap;

use vstd::prelude::*;

use crate::dir_fmt::{Comic, ComicModel, DirConfig};
use crate::error::DownloadError;
use crate::state::DownloadTaskState;
use crate::task::{is_dir_error, is_new_task, DownloadTask};

verus! {

broadcast use vstd::std_specs::hash::group_hash_axioms;

/// How many comics may download at the same time.
pub const COMIC_PERMITS: usize = 2;

/// How many images may download at the same time, over all comics.
pub const IMG_PERMITS: usize = 4;

/// What a request to create a task did.
#[derive(Debug, Clone, Copy, PartialEq, Eq, Structural)]
pub enum CreateOutcome {
    /// A task for the comic is still `Pending`, `Downloading` or `Paused`;
    /// nothing was changed.
    AlreadyActive,
    /// A new `Pending` task was registered (replacing a finished one, if any).
    Created,
}

/// What a request to resume a task did.
#[derive(Debug, Clone, Copy, PartialEq, Eq, Structural)]
pub enum ResumeOutcome {
    /// The task was still alive and is `Pending` again.
    Requeued,
    /// The task had finished (`Failed`, `Cancelled` or `Completed`); a new
    /// task for its comic replaced it.
    Recreated,
}

/// The download tasks, one per comic id, the number of bytes downloaded
/// since the speed was last read, and the number the next task is started
/// under.
#[derive(Debug)]
pub struct DownloadManager {
    download_tasks: HashMap<i32, DownloadTask>,
    byte_per_sec: u64,
    next_run: u64,
}

/// Whether `tasks` holds a task for `id` that is still alive.
pub open spec fn has_active_task(tasks: Map<i32, DownloadTask>, id: i32) -> bool {
    tasks.contains_key(id) && tasks[id].state.spec_is_active()
}

/// Each task of `tasks` is filed under the id of its comic.
pub open spec fn keys_match_in(tasks: Map<i32, DownloadTask>) -> bool {
    forall|id: i32| #[trigger] tasks.contains_key(id) ==> tasks[id].comic.id == id
}

/// `task` in state `state`, everything else kept.
pub open spec fn in_state(task: DownloadTask, state: DownloadTaskState) -> DownloadTask {
    DownloadTask { state, ..task }
}

/// `task` after `state` was handed to it: while its loops run it takes the
/// state; once they have ended nothing reaches it and it stays as it is.
pub open spec fn signalled(task: DownloadTask, state: DownloadTaskState) -> DownloadTask {
    if task.loops_running {
        in_state(task, state)
    } else {
        task
    }
}

/// `task` with its number of images set to `count`, cut to 32 bits.
pub open spec fn with_total(task: DownloadTask, count: usize) -> DownloadTask {
    DownloadTask { total_img_count: count as u32, ..task }
}

/// `task` with one more image counted as saved (wrapping at `u32::MAX`).
pub open spec fn with_image_counted(task: DownloadTask) -> DownloadTask {
    DownloadTask { downloaded_img_count: task.downloaded_img_count.wrapping_add(1), ..task }
}

/// `e` reports that no task has the id `id`.
pub open spec fn is_not_found(e: DownloadError, id: i32) -> bool {
    e matches DownloadError::TaskNotFound { id: missing } && missing == id
}

/// What `create_download_task` does to the task table `old`, giving `new`
/// and the result `res`.
pub open spec fn create_relation<F: Fn(&str) -> String>(
    old: Map<i32, DownloadTask>,
    new: Map<i32, DownloadTask>,
    comic: ComicModel,
    config: DirConfig,
    extension: Seq<char>,
    filter: F,
    res: Result<CreateOutcome, DownloadError>,
) -> bool {
    match res {
        Ok(CreateOutcome::AlreadyActive) => has_active_task(old, comic.id) && new == old,
        Ok(CreateOutcome::Created) => !has_active_task(old, comic.id) && new.contains_key(comic.id)
            && is_new_task(new[comic.id], comic, config, extension, filter) && new == old.insert(
            comic.id,
            new[comic.id],
        ),
        Err(e) => !has_active_task(old, comic.id) && is_dir_error(e, comic, config) && new == old,
    }
}

/// What setting the task `id` to `state` on request does (pause, cancel):
/// the task must exist, and it takes the state only while its loops run.
pub open spec fn set_relation(
    old: Map<i32, DownloadTask>,
    new: Map<i32, DownloadTask>,
    id: i32,
    state: DownloadTaskState,
    res: Result<(), DownloadError>,
) -> bool {
    match res {
        Ok(()) => old.contains_key(id) && new == old.insert(id, signalled(old[id], state)),
        Err(e) => !old.contains_key(id) && is_not_found(e, id) && new == old,
    }
}

/// What `resume_download_task` does.
pub open spec fn resume_relation<F: Fn(&str) -> String>(
    old: Map<i32, DownloadTask>,
    new: Map<i32, DownloadTask>,
    id: i32,
    config: DirConfig,
    extension: Seq<char>,
    filter: F,
    res: Result<ResumeOutcome, DownloadError>,
) -> bool {
    match res {
        Ok(ResumeOutcome::Requeued) => has_active_task(old, id) && new == old.insert(
            id,
            signalled(old[id], DownloadTaskState::Pending),
        ),
        Ok(ResumeOutcome::Recreated) => old.contains_key(id) && old[id].state.spec_is_finished()
            && new.contains_key(id) && is_new_task(new[id], old[id].comic@, config, extension, filter)
            && new == old.insert(id, new[id]),
        Err(e) => new == old && if old.contains_key(id) {
            old[id].state.spec_is_finished() && is_dir_error(e, old[id].comic@, config)
        } else {
            is_not_found(e, id)
        },
    }
}

impl DownloadManager {
    /// Each task is filed under the id of its comic.
    #[verifier::type_invariant]
    spec fn keys_match(&self) -> bool {
        keys_match_in(self.download_tasks@)
    }

    /// Moves the table of tasks out, leaving an empty one.
    fn take_tasks(&mut self) -> (res: HashMap<i32, DownloadTask>)
        ensures
            res@ == old(self).tasks(),
            keys_match_in(res@),
            final(self).bytes_counted() == old(self).bytes_counted(),
            final(self).runs_started() == old(self).runs_started(),
    {
        proof {
            use_type_invariant(&*self);
        }
        let mut tasks = HashMap::new();
        std::mem::swap(&mut tasks, &mut self.download_tasks);
        tasks
    }

    /// Puts a table of tasks back.
    fn put_tasks(&mut self, tasks: HashMap<i32, DownloadTask>)
        requires
            keys_match_in(tasks@),
        ensures
            final(self).tasks() == tasks@,
            final(self).bytes_counted() == old(self).bytes_counted(),
            final(self).runs_started() == old(self).runs_started(),
    {
        self.download_tasks = tasks;
    }

    /// The tasks, by comic id.
    pub closed spec fn tasks(&self) -> Map<i32, DownloadTask> {
        self.download_tasks@
    }

    /// The bytes downloaded since the speed was last read (a wrapping `u64` counter).
    pub closed spec fn bytes_counted(&self) -> u64 {
        self.byte_per_sec
    }

    /// The number the next created task is started under (a wrapping `u64`
    /// counter of the tasks created so far).
    pub closed spec fn runs_started(&self) -> u64 {
        self.next_run
    }

    /// A manager with no task and no byte counted.
    pub fn new() -> (res: DownloadManager)
        ensures
            res.tasks() == Map::<i32, DownloadTask>::empty(),
            res.bytes_counted() == 0,
            res.runs_started() == 0,
    {
        DownloadManager { download_tasks: HashMap::new(), byte_per_sec: 0, next_run: 0 }
    }

    /// The state of the task for `id`, if there is one.
    pub fn task_state(&self, id: i32) -> (res: Option<DownloadTaskState>)
        ensures
            res == (if self.tasks().contains_key(id) {
                Some(self.tasks()[id].state)
            } else {
                None
            }),
    {
        match self.download_tasks.get(&id) {
            Some(task) => Some(task.state),
            None => None,
        }
    }

    /// The task for `id`, if there is one.
    pub fn task(&self, id: i32) -> (res: Option<&DownloadTask>)
        ensures
            match res {
                Some(t) => self.tasks().contains_key(id) && *t == self.tasks()[id] && t.comic.id == id,
                None => !self.tasks().contains_key(id),
            },
    {
        proof {
            use_type_invariant(&*self);
        }
        self.download_tasks.get(&id)
    }

    /// Hands `state` to the task for `id`: the task takes it while its loops
    /// run; a task whose loops have ended, or a missing one, is left as it
    /// is. Tells whether the state was taken.
    pub fn set_state(&mut self, id: i32, state: DownloadTaskState) -> (taken: bool)
        ensures
            taken == (old(self).tasks().contains_key(id) && old(self).tasks()[id].loops_running),
            final(self).tasks() == (if old(self).tasks().contains_key(id) {
                old(self).tasks().insert(id, signalled(old(self).tasks()[id], state))
            } else {
                old(self).tasks()
            }),
            final(self).bytes_counted() == old(self).bytes_counted(),
            final(self).runs_started() == old(self).runs_started(),
    {
        let mut tasks = self.take_tasks();
        let taken = match tasks.remove(&id) {
            Some(task) => {
                let mut task = task;
                let running = task.loops_running;
                if running {
                    task.state = state;
                }
                tasks.insert(id, task);
                assert(tasks@ =~= old(self).tasks().insert(id, signalled(old(self).tasks()[id], state)));
                running
            },
            None => false,
        };
        self.put_tasks(tasks);
        taken
    }

    /// Records that the loops of the task for `id` started under `run` have
    /// ended; a task started under another number (a newer task for the same
    /// comic), or a missing one, is left as it is.
    pub fn mark_loops_ended(&mut self, id: i32, run: u64)
        ensures
            final(self).tasks() == (if old(self).tasks().contains_key(id) && old(self).tasks()[id].run == run {
                old(self).tasks().insert(id, DownloadTask { loops_running: false, ..old(self).tasks()[id] })
            } else {
                old(self).tasks()
            }),
            final(self).bytes_counted() == old(self).bytes_counted(),
            final(self).runs_started() == old(self).runs_started(),
    {
        let mut tasks = self.take_tasks();
        match tasks.remove(&id) {
            Some(task) => {
                let mut task = task;
                if task.run == run {
                    task.loops_running = false;
                }
                tasks.insert(id, task);
                assert(tasks@ =~= (if old(self).tasks()[id].run == run {
                    old(self).tasks().insert(id, DownloadTask { loops_running: false, ..old(self).tasks()[id] })
                } else {
                    old(self).tasks()
                }));
            },
            None => {},
        }
        self.put_tasks(tasks);
    }

    /// Registers a download task for `comic`, unless one for the same comic id
    /// is still `Pending`, `Downloading` or `Paused`. The new task gets its
    /// download directory from `config` and `filter`, starts `Pending`, and
    /// replaces any finished task of the same id. When the directory cannot
    /// be formatted nothing is registered and the error is returned.
    pub fn create_download_task<F: Fn(&str) -> String>(
        &mut self,
        comic: Comic,
        config: &DirConfig,
        extension: &str,
        filter: F,
    ) -> (res: Result<CreateOutcome, DownloadError>)
        requires
            forall|s: &str| call_requires(filter, (s,)),
        ensures
            final(self).bytes_counted() == old(self).bytes_counted(),
            create_relation(old(self).tasks(), final(self).tasks(), comic@, *config, extension@, filter, res),
            if res == Ok::<CreateOutcome, DownloadError>(CreateOutcome::Created) {
                &&& final(self).tasks()[comic.id].run == old(self).runs_started()
                &&& final(self).runs_started() == old(self).runs_started().wrapping_add(1)
            } else {
                final(self).runs_started() == old(self).runs_started()
            },
    {
        let id = comic.id;
        match self.download_tasks.get(&id) {
            Some(task) => {
                if task.state.is_active() {
                    return Ok(CreateOutcome::AlreadyActive);
                }
            },
            None => {},
        }
        let run = self.next_run;
        let task = DownloadTask::new(comic, config, extension, run, filter)?;
        let mut tasks = self.take_tasks();
        tasks.insert(id, task);
        self.put_tasks(tasks);
        self.next_run = run.wrapping_add(1);
        Ok(CreateOutcome::Created)
    }

    /// Hands `Paused` to the task for `id`, whatever its state (it takes it
    /// while its loops run); fails when there is no such task.
    pub fn pause_download_task(&mut self, id: i32) -> (res: Result<(), DownloadError>)
        ensures
            final(self).bytes_counted() == old(self).bytes_counted(),
            set_relation(old(self).tasks(), final(self).tasks(), id, DownloadTaskState::Paused, res),
            final(self).runs_started() == old(self).runs_started(),
    {
        if self.download_tasks.get(&id).is_none() {
            return Err(DownloadError::TaskNotFound { id });
        }
        self.set_state(id, DownloadTaskState::Paused);
        Ok(())
    }

    /// Hands `Cancelled` to the task for `id`, whatever its state (it takes it
    /// while its loops run); fails when there is no such task.
    pub fn cancel_download_task(&mut self, id: i32) -> (res: Result<(), DownloadError>)
        ensures
            final(self).bytes_counted() == old(self).bytes_counted(),
            set_relation(old(self).tasks(), final(self).tasks(), id, DownloadTaskState::Cancelled, res),
            final(self).runs_started() == old(self).runs_started(),
    {
        if self.download_tasks.get(&id).is_none() {
            return Err(DownloadError::TaskNotFound { id });
        }
        self.set_state(id, DownloadTaskState::Cancelled);
        Ok(())
    }

    /// Resumes the task for `id`: a task still alive is handed `Pending`
    /// (which it takes while its loops run);
    /// a finished one is replaced by a new task for the same comic, created as
    /// `create_download_task` does. Fails when there is no such task, or when
    /// the new task's directory cannot be formatted (then nothing changes).
    pub fn resume_download_task<F: Fn(&str) -> String>(
        &mut self,
        id: i32,
        config: &DirConfig,
        extension: &str,
        filter: F,
    ) -> (res: Result<ResumeOutcome, DownloadError>)
        requires
            forall|s: &str| call_requires(filter, (s,)),
        ensures
            final(self).bytes_counted() == old(self).bytes_counted(),
            resume_relation(old(self).tasks(), final(self).tasks(), id, *config, extension@, filter, res),
            if res == Ok::<ResumeOutcome, DownloadError>(ResumeOutcome::Recreated) {
                &&& final(self).tasks()[id].run == old(self).runs_started()
                &&& final(self).runs_started() == old(self).runs_started().wrapping_add(1)
            } else {
                final(self).runs_started() == old(self).runs_started()
            },
    {
        proof {
            use_type_invariant(&*self);
        }
        let comic = match self.download_tasks.get(&id) {
            None => {
                return Err(DownloadError::TaskNotFound { id });
            },
            Some(task) => {
                if task.state.is_finished() {
                    task.comic.clone()
                } else {
                    self.set_state(id, DownloadTaskState::Pending);
                    return Ok(ResumeOutcome::Requeued);
                }
            },
        };
        assert(comic.id == id);
        match self.create_download_task(comic, config, extension, filter) {
            Ok(_) => Ok(ResumeOutcome::Recreated),
            Err(e) => Err(e),
        }
    }

    /// Stores the number of images of the task for `id` started under `run`,
    /// cut to 32 bits as `count as u32` does; a task started under another
    /// number, or a missing one, is left as it is.
    pub fn set_total_img_count(&mut self, id: i32, run: u64, count: usize)
        ensures
            final(self).runs_started() == old(self).runs_started(),
            final(self).bytes_counted() == old(self).bytes_counted(),
            final(self).tasks() == (if old(self).tasks().contains_key(id) && old(self).tasks()[id].run == run {
                old(self).tasks().insert(
                    id,
                    with_total(old(self).tasks()[id], count),
                )
            } else {
                old(self).tasks()
            }),
    {
        let mut tasks = self.take_tasks();
        match tasks.remove(&id) {
            Some(task) => {
                let mut task = task;
                if task.run == run {
                    #[verifier::truncate]
                    let total = count as u32;
                    task.total_img_count = total;
                }
                tasks.insert(id, task);
                assert(tasks@ =~= (if old(self).tasks()[id].run == run {
                    old(self).tasks().insert(
                        id,
                        with_total(old(self).tasks()[id], count),
                    )
                } else {
                    old(self).tasks()
                }));
            },
            None => {},
        }
        self.put_tasks(tasks);
    }

    /// Counts one more saved image for the task for `id` started under `run`
    /// (wrapping at `u32::MAX`); a task started under another number (an
    /// image of a replaced task that ends late), or a missing one, is left as
    /// it is.
    pub fn record_img_downloaded(&mut self, id: i32, run: u64)
        ensures
            final(self).runs_started() == old(self).runs_started(),
            final(self).bytes_counted() == old(self).bytes_counted(),
            final(self).tasks() == (if old(self).tasks().contains_key(id) && old(self).tasks()[id].run == run {
                old(self).tasks().insert(
                    id,
                    with_image_counted(old(self).tasks()[id]),
                )
            } else {
                old(self).tasks()
            }),
    {
        let mut tasks = self.take_tasks();
        match tasks.remove(&id) {
            Some(task) => {
                let mut task = task;
                if task.run == run {
                    task.downloaded_img_count = task.downloaded_img_count.wrapping_add(1);
                }
                tasks.insert(id, task);
                assert(tasks@ =~= (if old(self).tasks()[id].run == run {
                    old(self).tasks().insert(
                        id,
                        with_image_counted(old(self).tasks()[id]),
                    )
                } else {
                    old(self).tasks()
                }));
            },
            None => {},
        }
        self.put_tasks(tasks);
    }

    /// Adds the size of a saved image to the byte counter (wrapping at `u64::MAX`).
    pub fn add_downloaded_bytes(&mut self, len: usize)
        ensures
            final(self).runs_started() == old(self).runs_started(),
            final(self).tasks() == old(self).tasks(),
            final(self).bytes_counted() == old(self).bytes_counted().wrapping_add(len as u64),
    {
        proof {
            use_type_invariant(&*self);
        }
        self.byte_per_sec = self.byte_per_sec.wrapping_add(len as u64);
    }

    /// Reads the byte counter and sets it back to zero.
    pub fn take_downloaded_bytes(&mut self) -> (res: u64)
        ensures
            final(self).runs_started() == old(self).runs_started(),
            res == old(self).bytes_counted(),
            final(self).bytes_counted() == 0,
            final(self).tasks() == old(self).tasks(),
    {
        proof {
            use_type_invariant(&*self);
        }
        let res = self.byte_per_sec;
        self.byte_per_sec = 0;
        res
    }
}

} // verus!
