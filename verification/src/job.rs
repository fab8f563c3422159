//! The steps that download one comic, and the decision taken after each:
//! fetch the image urls, create and clean the temporary directory, download
//! the images, rename the directory, save the metadata and the cover; and the
//! steps that download one image: look for its file, fetch it, write it.
use vstd::prelude::*;

use crate::state::DownloadTaskState;

verus! {

/// Where a comic download stands.
#[derive(Debug, Clone, Copy, PartialEq, Eq, Structural)]
pub enum ComicJobPhase {
    FetchImgUrls,
    CreateTempDir,
    CleanTempDir,
    DownloadImages,
    RenameTempDir,
    SaveMetadata,
    SaveCover,
    Done,
}

/// The outcome of the step that was asked for.
#[derive(Debug, Clone, Copy, PartialEq, Eq, Structural)]
pub enum ComicJobEvent {
    ImgUrlsFetched { count: usize },
    ImgUrlsFailed,
    TempDirCreated,
    TempDirFailed,
    TempDirCleaned,
    CleanFailed,
    /// All image downloads have ended; the counters of the task at that time.
    ImagesDownloaded { downloaded: u32, total: u32 },
    TempDirRenamed,
    RenameFailed,
    MetadataSaved,
    MetadataFailed,
    CoverSaved,
    CoverFailed,
}

/// What to do next.
#[derive(Debug, Clone, Copy, PartialEq, Eq, Structural)]
pub enum ComicJobAction {
    FetchImgUrls,
    /// Store `total_img_count` as the task's number of images, then create the
    /// temporary download directory.
    CreateTempDir { total_img_count: u32 },
    CleanTempDir,
    DownloadImages,
    RenameTempDir,
    SaveMetadata,
    SaveCover,
    /// The download is over. With `Some(state)`, set the task to that state
    /// and announce it; with `None` the task's state is left as it is.
    Finish { final_state: Option<DownloadTaskState> },
}

/// Whether `event` answers the step of `phase`.
pub open spec fn event_fits(phase: ComicJobPhase, event: ComicJobEvent) -> bool {
    match phase {
        ComicJobPhase::FetchImgUrls => event is ImgUrlsFetched || event is ImgUrlsFailed,
        ComicJobPhase::CreateTempDir => event is TempDirCreated || event is TempDirFailed,
        ComicJobPhase::CleanTempDir => event is TempDirCleaned || event is CleanFailed,
        ComicJobPhase::DownloadImages => event is ImagesDownloaded,
        ComicJobPhase::RenameTempDir => event is TempDirRenamed || event is RenameFailed,
        ComicJobPhase::SaveMetadata => event is MetadataSaved || event is MetadataFailed,
        ComicJobPhase::SaveCover => event is CoverSaved || event is CoverFailed,
        ComicJobPhase::Done => false,
    }
}

/// Ends the download, marking the task `Failed`.
pub open spec fn fail() -> (ComicJobPhase, ComicJobAction) {
    (ComicJobPhase::Done, ComicJobAction::Finish { final_state: Some(DownloadTaskState::Failed) })
}

/// The next phase and action after `event` in `phase`.
///
/// A failure to get the image urls, or to save the metadata, ends the
/// download without touching the task's state; a failure to create, clean or
/// rename the directory, or a count of downloaded images that differs from
/// the total, marks it `Failed`; saving the cover ends it `Completed` whether
/// or not the cover could be saved.
pub open spec fn job_step(phase: ComicJobPhase, event: ComicJobEvent) -> (ComicJobPhase, ComicJobAction) {
    match event {
        ComicJobEvent::ImgUrlsFetched { count } => (
            ComicJobPhase::CreateTempDir,
            ComicJobAction::CreateTempDir { total_img_count: count as u32 },
        ),
        ComicJobEvent::ImgUrlsFailed => (
            ComicJobPhase::Done,
            ComicJobAction::Finish { final_state: None },
        ),
        ComicJobEvent::TempDirCreated => (ComicJobPhase::CleanTempDir, ComicJobAction::CleanTempDir),
        ComicJobEvent::TempDirFailed => fail(),
        ComicJobEvent::TempDirCleaned => (
            ComicJobPhase::DownloadImages,
            ComicJobAction::DownloadImages,
        ),
        ComicJobEvent::CleanFailed => fail(),
        ComicJobEvent::ImagesDownloaded { downloaded, total } => if downloaded != total {
            fail()
        } else {
            (ComicJobPhase::RenameTempDir, ComicJobAction::RenameTempDir)
        },
        ComicJobEvent::TempDirRenamed => (ComicJobPhase::SaveMetadata, ComicJobAction::SaveMetadata),
        ComicJobEvent::RenameFailed => fail(),
        ComicJobEvent::MetadataSaved => (ComicJobPhase::SaveCover, ComicJobAction::SaveCover),
        ComicJobEvent::MetadataFailed => (
            ComicJobPhase::Done,
            ComicJobAction::Finish { final_state: None },
        ),
        ComicJobEvent::CoverSaved | ComicJobEvent::CoverFailed => (
            ComicJobPhase::Done,
            ComicJobAction::Finish { final_state: Some(DownloadTaskState::Completed) },
        ),
    }
}

/// The download of one comic, step by step.
#[derive(Debug)]
pub struct ComicJob {
    pub phase: ComicJobPhase,
}

impl ComicJob {
    /// A download that starts by fetching the image urls.
    pub fn start() -> (res: (ComicJob, ComicJobAction))
        ensures
            res.0.phase == ComicJobPhase::FetchImgUrls,
            res.1 == ComicJobAction::FetchImgUrls,
    {
        (ComicJob { phase: ComicJobPhase::FetchImgUrls }, ComicJobAction::FetchImgUrls)
    }

    /// Takes the outcome of the current step and gives the next action.
    pub fn step(&mut self, event: ComicJobEvent) -> (action: ComicJobAction)
        requires
            event_fits(old(self).phase, event),
        ensures
            (final(self).phase, action) == job_step(old(self).phase, event),
    {
        let (phase, action) = match event {
            ComicJobEvent::ImgUrlsFetched { count } => {
                #[verifier::truncate]
                let total = count as u32;
                (ComicJobPhase::CreateTempDir, ComicJobAction::CreateTempDir { total_img_count: total })
            },
            ComicJobEvent::ImgUrlsFailed => (
                ComicJobPhase::Done,
                ComicJobAction::Finish { final_state: None },
            ),
            ComicJobEvent::TempDirCreated => (
                ComicJobPhase::CleanTempDir,
                ComicJobAction::CleanTempDir,
            ),
            ComicJobEvent::TempDirFailed | ComicJobEvent::CleanFailed
            | ComicJobEvent::RenameFailed => (
                ComicJobPhase::Done,
                ComicJobAction::Finish { final_state: Some(DownloadTaskState::Failed) },
            ),
            ComicJobEvent::TempDirCleaned => (
                ComicJobPhase::DownloadImages,
                ComicJobAction::DownloadImages,
            ),
            ComicJobEvent::ImagesDownloaded { downloaded, total } => {
                if downloaded != total {
                    (
                        ComicJobPhase::Done,
                        ComicJobAction::Finish { final_state: Some(DownloadTaskState::Failed) },
                    )
                } else {
                    (ComicJobPhase::RenameTempDir, ComicJobAction::RenameTempDir)
                }
            },
            ComicJobEvent::TempDirRenamed => (
                ComicJobPhase::SaveMetadata,
                ComicJobAction::SaveMetadata,
            ),
            ComicJobEvent::MetadataSaved => (ComicJobPhase::SaveCover, ComicJobAction::SaveCover),
            ComicJobEvent::MetadataFailed => (
                ComicJobPhase::Done,
                ComicJobAction::Finish { final_state: None },
            ),
            ComicJobEvent::CoverSaved | ComicJobEvent::CoverFailed => (
                ComicJobPhase::Done,
                ComicJobAction::Finish { final_state: Some(DownloadTaskState::Completed) },
            ),
        };
        self.phase = phase;
        action
    }
}

/// Where the download of one image stands.
#[derive(Debug, Clone, Copy, PartialEq, Eq, Structural)]
pub enum ImgJobPhase {
    CheckSavePath,
    Fetch,
    Write,
    Done,
}

/// The outcome of the image step that was asked for.
#[derive(Debug, Clone, Copy, PartialEq, Eq, Structural)]
pub enum ImgJobEvent {
    /// Whether a file is already at the image's save path.
    SavePathChecked { exists: bool },
    /// The image data arrived; `len` bytes.
    Fetched { len: usize },
    FetchFailed,
    Written,
    WriteFailed,
}

/// What to do next for one image.
#[derive(Debug, Clone, Copy, PartialEq, Eq, Structural)]
pub enum ImgJobAction {
    /// Look whether the image's file is already there.
    CheckSavePath,
    FetchImage,
    WriteImage,
    /// The image is over. With `counted`, count it as downloaded for its task
    /// and announce the task's counters; with `Some(len)`, also add `len` to
    /// the byte counter. A failed fetch or write records nothing.
    Finish { counted: bool, bytes: Option<usize> },
}

/// Whether `event` answers the image step of `phase`.
pub open spec fn img_event_fits(phase: ImgJobPhase, event: ImgJobEvent) -> bool {
    match phase {
        ImgJobPhase::CheckSavePath => event is SavePathChecked,
        ImgJobPhase::Fetch => event is Fetched || event is FetchFailed,
        ImgJobPhase::Write => event is Written || event is WriteFailed,
        ImgJobPhase::Done => false,
    }
}

/// The next phase, remembered length and action after `event`, the fetched
/// length so far being `len`.
///
/// An image whose file already exists is counted without being fetched; a
/// fetched image is written, then counted with its size; a failed fetch or
/// write ends the image with nothing counted.
pub open spec fn img_step(phase: ImgJobPhase, len: usize, event: ImgJobEvent) -> (ImgJobPhase, usize, ImgJobAction) {
    match event {
        ImgJobEvent::SavePathChecked { exists } => if exists {
            (ImgJobPhase::Done, len, ImgJobAction::Finish { counted: true, bytes: None })
        } else {
            (ImgJobPhase::Fetch, len, ImgJobAction::FetchImage)
        },
        ImgJobEvent::Fetched { len: fetched } => (ImgJobPhase::Write, fetched, ImgJobAction::WriteImage),
        ImgJobEvent::FetchFailed | ImgJobEvent::WriteFailed => (
            ImgJobPhase::Done,
            len,
            ImgJobAction::Finish { counted: false, bytes: None },
        ),
        ImgJobEvent::Written => (
            ImgJobPhase::Done,
            len,
            ImgJobAction::Finish { counted: true, bytes: Some(len) },
        ),
    }
}

/// The download of one image, step by step.
#[derive(Debug)]
pub struct ImgJob {
    pub phase: ImgJobPhase,
    /// The size of the fetched image data (0 before it arrives).
    pub len: usize,
}

impl ImgJob {
    /// An image download that starts by looking for the image's file.
    pub fn start() -> (res: (ImgJob, ImgJobAction))
        ensures
            res.0.phase == ImgJobPhase::CheckSavePath,
            res.0.len == 0,
            res.1 == ImgJobAction::CheckSavePath,
    {
        (ImgJob { phase: ImgJobPhase::CheckSavePath, len: 0 }, ImgJobAction::CheckSavePath)
    }

    /// Takes the outcome of the current step and gives the next action.
    pub fn step(&mut self, event: ImgJobEvent) -> (action: ImgJobAction)
        requires
            img_event_fits(old(self).phase, event),
        ensures
            (final(self).phase, final(self).len, action) == img_step(old(self).phase, old(self).len, event),
    {
        match event {
            ImgJobEvent::SavePathChecked { exists } => {
                if exists {
                    self.phase = ImgJobPhase::Done;
                    ImgJobAction::Finish { counted: true, bytes: None }
                } else {
                    self.phase = ImgJobPhase::Fetch;
                    ImgJobAction::FetchImage
                }
            },
            ImgJobEvent::Fetched { len } => {
                self.phase = ImgJobPhase::Write;
                self.len = len;
                ImgJobAction::WriteImage
            },
            ImgJobEvent::FetchFailed | ImgJobEvent::WriteFailed => {
                self.phase = ImgJobPhase::Done;
                ImgJobAction::Finish { counted: false, bytes: None }
            },
            ImgJobEvent::Written => {
                self.phase = ImgJobPhase::Done;
                ImgJobAction::Finish { counted: true, bytes: Some(self.len) }
            },
        }
    }
}

} // verus!
