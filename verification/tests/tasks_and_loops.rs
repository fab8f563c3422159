use hitomi_downloader::dir_fmt::{Comic, DirConfig};
use hitomi_downloader::job::{
    ComicJob, ComicJobAction, ComicJobEvent, ComicJobPhase, ImgJob, ImgJobAction, ImgJobEvent,
    ImgJobPhase,
};
use hitomi_downloader::loops::{ComicTaskLoop, ImgTaskLoop, LoopControl, LoopEvent};
use hitomi_downloader::manager::{CreateOutcome, ResumeOutcome, COMIC_PERMITS, IMG_PERMITS};
use hitomi_downloader::job::ComicJobEvent::{
    CleanFailed, CoverFailed, CoverSaved, ImagesDownloaded, ImgUrlsFailed, ImgUrlsFetched,
    MetadataFailed, MetadataSaved, RenameFailed, TempDirCleaned, TempDirCreated, TempDirFailed,
    TempDirRenamed,
};
use hitomi_downloader::DownloadTaskState::{
    Cancelled, Completed, Downloading, Failed, Paused, Pending,
};
use hitomi_downloader::{DownloadError, DownloadManager, DownloadTaskState};

fn comic(id: i32, title: &str) -> Comic {
    Comic {
        id,
        title: title.to_string(),
        language: "english".to_string(),
        language_localname: "English".to_string(),
        type_label: "manga".to_string(),
        artists: vec!["Someone".to_string()],
        tag_labels: vec![],
        comic_download_dir: None,
    }
}

fn config() -> DirConfig {
    DirConfig { download_dir: "downloads".to_string(), dir_fmt: "{title}".to_string() }
}

fn keep(s: &str) -> String {
    s.to_string()
}

fn run_of(m: &DownloadManager, id: i32) -> u64 {
    m.task(id).unwrap().run
}

fn state(m: &DownloadManager, id: i32) -> Option<DownloadTaskState> {
    m.task_state(id)
}

#[test]
fn state_groups() {
    for s in [Pending, Downloading, Paused] {
        assert!(s.is_active() && !s.is_finished());
    }
    for s in [Cancelled, Completed, Failed] {
        assert!(s.is_finished() && !s.is_active());
    }
}

#[test]
fn permits() {
    assert_eq!(COMIC_PERMITS, 2);
    assert_eq!(IMG_PERMITS, 4);
}

#[test]
fn creating_a_task() {
    let mut m = DownloadManager::new();
    assert_eq!(state(&m, 1), None);
    let res = m.create_download_task(comic(1, "First"), &config(), "webp", keep).unwrap();
    assert_eq!(res, CreateOutcome::Created);
    let t = m.task(1).unwrap();
    assert_eq!(t.state, DownloadTaskState::Pending);
    assert_eq!(t.downloaded_img_count, 0);
    assert_eq!(t.total_img_count, 0);
    assert_eq!(t.extension, "webp");
    assert_eq!(t.comic.comic_download_dir.as_deref(), Some("downloads/First"));
    assert_eq!(t.comic.title, "First");
}

#[test]
fn creating_an_active_task_again_does_nothing() {
    let mut m = DownloadManager::new();
    m.create_download_task(comic(1, "First"), &config(), "webp", keep).unwrap();
    m.set_total_img_count(1, run_of(&m, 1), 10);
    for s in [DownloadTaskState::Pending, DownloadTaskState::Downloading, DownloadTaskState::Paused] {
        m.set_state(1, s);
        let res = m.create_download_task(comic(1, "Other"), &config(), "avif", keep).unwrap();
        assert_eq!(res, CreateOutcome::AlreadyActive);
        let t = m.task(1).unwrap();
        assert_eq!(t.state, s);
        assert_eq!(t.comic.title, "First");
        assert_eq!(t.total_img_count, 10);
    }
}

#[test]
fn creating_replaces_a_finished_task() {
    for s in [DownloadTaskState::Cancelled, DownloadTaskState::Completed, DownloadTaskState::Failed] {
        let mut m = DownloadManager::new();
        m.create_download_task(comic(1, "First"), &config(), "webp", keep).unwrap();
        m.set_total_img_count(1, run_of(&m, 1), 10);
        m.set_state(1, s);
        let res = m.create_download_task(comic(1, "Again"), &config(), "avif", keep).unwrap();
        assert_eq!(res, CreateOutcome::Created);
        let t = m.task(1).unwrap();
        assert_eq!(t.state, DownloadTaskState::Pending);
        assert_eq!(t.total_img_count, 0);
        assert_eq!(t.extension, "avif");
        assert_eq!(t.comic.title, "Again");
    }
}

#[test]
fn a_bad_directory_format_registers_nothing() {
    let mut m = DownloadManager::new();
    let bad = DirConfig { download_dir: "d".to_string(), dir_fmt: "{missing}".to_string() };
    let res = m.create_download_task(comic(7, "T"), &bad, "webp", keep);
    match res {
        Err(DownloadError::DirFormat { id, fmt_part, .. }) => {
            assert_eq!(id, 7);
            assert_eq!(fmt_part, "{missing}");
        }
        other => panic!("unexpected {other:?}"),
    }
    assert!(m.task(7).is_none());
}

#[test]
fn pausing_and_cancelling() {
    let mut m = DownloadManager::new();
    m.create_download_task(comic(1, "A"), &config(), "webp", keep).unwrap();
    m.create_download_task(comic(2, "B"), &config(), "webp", keep).unwrap();
    m.pause_download_task(1).unwrap();
    assert_eq!(state(&m, 1), Some(DownloadTaskState::Paused));
    assert_eq!(state(&m, 2), Some(DownloadTaskState::Pending));
    m.cancel_download_task(2).unwrap();
    assert_eq!(state(&m, 2), Some(DownloadTaskState::Cancelled));
    assert_eq!(state(&m, 1), Some(DownloadTaskState::Paused));
    // while its loops run, a task takes any state handed to it
    assert!(m.set_state(2, DownloadTaskState::Completed));
    m.pause_download_task(2).unwrap();
    assert_eq!(state(&m, 2), Some(DownloadTaskState::Paused));
}

#[test]
fn a_task_whose_loops_ended_keeps_its_state() {
    let mut m = DownloadManager::new();
    m.create_download_task(comic(1, "A"), &config(), "webp", keep).unwrap();
    assert!(m.task(1).unwrap().loops_running);
    assert!(m.set_state(1, Completed));
    let run = m.task(1).unwrap().run;
    m.mark_loops_ended(1, run);
    assert!(!m.task(1).unwrap().loops_running);
    // pausing and cancelling are accepted but change nothing
    m.pause_download_task(1).unwrap();
    assert_eq!(state(&m, 1), Some(Completed));
    m.cancel_download_task(1).unwrap();
    assert_eq!(state(&m, 1), Some(Completed));
    assert!(!m.set_state(1, Paused));
    assert_eq!(state(&m, 1), Some(Completed));
    // so creating the comic again starts a fresh task
    assert_eq!(
        m.create_download_task(comic(1, "A"), &config(), "webp", keep).unwrap(),
        CreateOutcome::Created
    );
    assert!(m.task(1).unwrap().loops_running);
    assert_ne!(m.task(1).unwrap().run, run);
}

#[test]
fn a_task_left_downloading_is_not_requeued() {
    let mut m = DownloadManager::new();
    m.create_download_task(comic(1, "A"), &config(), "webp", keep).unwrap();
    m.set_state(1, Downloading);
    let run = m.task(1).unwrap().run;
    // the loops end without a final state (the metadata could not be saved)
    m.mark_loops_ended(1, run);
    assert_eq!(m.resume_download_task(1, &config(), "webp", keep).unwrap(), ResumeOutcome::Requeued);
    assert_eq!(state(&m, 1), Some(Downloading));
    assert_eq!(
        m.create_download_task(comic(1, "A"), &config(), "webp", keep).unwrap(),
        CreateOutcome::AlreadyActive
    );
}

#[test]
fn loops_of_an_older_task_do_not_touch_the_newer_one() {
    let mut m = DownloadManager::new();
    m.create_download_task(comic(1, "A"), &config(), "webp", keep).unwrap();
    let first = m.task(1).unwrap().run;
    m.cancel_download_task(1).unwrap();
    assert_eq!(m.resume_download_task(1, &config(), "webp", keep).unwrap(), ResumeOutcome::Recreated);
    let second = m.task(1).unwrap().run;
    assert_ne!(first, second);
    // the cancelled task's loops end only now
    m.mark_loops_ended(1, first);
    assert!(m.task(1).unwrap().loops_running);
    m.mark_loops_ended(1, second);
    assert!(!m.task(1).unwrap().loops_running);
    // unknown ids are ignored
    m.mark_loops_ended(9, 0);
    assert!(m.task(9).is_none());
}

#[test]
fn requests_for_unknown_tasks_fail() {
    let mut m = DownloadManager::new();
    m.create_download_task(comic(1, "A"), &config(), "webp", keep).unwrap();
    assert!(matches!(m.pause_download_task(2), Err(DownloadError::TaskNotFound { id: 2 })));
    assert!(matches!(m.cancel_download_task(3), Err(DownloadError::TaskNotFound { id: 3 })));
    assert!(matches!(
        m.resume_download_task(4, &config(), "webp", keep),
        Err(DownloadError::TaskNotFound { id: 4 })
    ));
    assert_eq!(state(&m, 1), Some(DownloadTaskState::Pending));
}

#[test]
fn pause_then_resume_requeues() {
    let mut m = DownloadManager::new();
    m.create_download_task(comic(1, "A"), &config(), "webp", keep).unwrap();
    m.set_total_img_count(1, run_of(&m, 1), 5);
    m.record_img_downloaded(1, run_of(&m, 1));
    m.pause_download_task(1).unwrap();
    let res = m.resume_download_task(1, &config(), "avif", keep).unwrap();
    assert_eq!(res, ResumeOutcome::Requeued);
    let t = m.task(1).unwrap();
    assert_eq!(t.state, DownloadTaskState::Pending);
    assert_eq!(t.downloaded_img_count, 1);
    assert_eq!(t.total_img_count, 5);
    assert_eq!(t.extension, "webp");
    // resuming a downloading task puts it back to pending too
    m.set_state(1, DownloadTaskState::Downloading);
    assert_eq!(m.resume_download_task(1, &config(), "webp", keep).unwrap(), ResumeOutcome::Requeued);
    assert_eq!(state(&m, 1), Some(DownloadTaskState::Pending));
}

#[test]
fn resuming_a_finished_task_recreates_it() {
    for s in [DownloadTaskState::Cancelled, DownloadTaskState::Completed, DownloadTaskState::Failed] {
        let mut m = DownloadManager::new();
        m.create_download_task(comic(1, "A"), &config(), "webp", keep).unwrap();
        m.set_total_img_count(1, run_of(&m, 1), 5);
        m.record_img_downloaded(1, run_of(&m, 1));
        m.set_state(1, s);
        let other = DirConfig { download_dir: "elsewhere".to_string(), dir_fmt: "{title}".to_string() };
        let res = m.resume_download_task(1, &other, "avif", keep).unwrap();
        assert_eq!(res, ResumeOutcome::Recreated);
        let t = m.task(1).unwrap();
        assert_eq!(t.state, DownloadTaskState::Pending);
        assert_eq!(t.downloaded_img_count, 0);
        assert_eq!(t.total_img_count, 0);
        assert_eq!(t.extension, "avif");
        assert_eq!(t.comic.title, "A");
        assert_eq!(t.comic.comic_download_dir.as_deref(), Some("elsewhere/A"));
    }
}

#[test]
fn resuming_fails_when_the_directory_cannot_be_formatted() {
    let mut m = DownloadManager::new();
    m.create_download_task(comic(1, "A"), &config(), "webp", keep).unwrap();
    m.cancel_download_task(1).unwrap();
    let bad = DirConfig { download_dir: "d".to_string(), dir_fmt: "{nope}".to_string() };
    assert!(matches!(
        m.resume_download_task(1, &bad, "webp", keep),
        Err(DownloadError::DirFormat { id: 1, .. })
    ));
    assert_eq!(state(&m, 1), Some(DownloadTaskState::Cancelled));
}

#[test]
fn image_counters() {
    let mut m = DownloadManager::new();
    m.create_download_task(comic(1, "A"), &config(), "webp", keep).unwrap();
    m.set_total_img_count(1, run_of(&m, 1), 3);
    m.record_img_downloaded(1, run_of(&m, 1));
    m.record_img_downloaded(1, run_of(&m, 1));
    let t = m.task(1).unwrap();
    assert_eq!((t.downloaded_img_count, t.total_img_count), (2, 3));
    // a count beyond 32 bits is cut like `as u32`
    m.set_total_img_count(1, run_of(&m, 1), (1usize << 32) + 7);
    assert_eq!(m.task(1).unwrap().total_img_count, 7);
    // unknown ids are ignored
    m.record_img_downloaded(9, 0);
    m.set_total_img_count(9, 0, 1);
    assert!(m.task(9).is_none());
}

#[test]
fn byte_counter() {
    let mut m = DownloadManager::new();
    assert_eq!(m.take_downloaded_bytes(), 0);
    m.add_downloaded_bytes(1000);
    m.add_downloaded_bytes(24);
    assert_eq!(m.take_downloaded_bytes(), 1024);
    assert_eq!(m.take_downloaded_bytes(), 0);
}

#[test]
fn comic_loop_decisions() {
    let mut lp = ComicTaskLoop::new();
    assert!(!lp.has_permit);
    assert!(lp.acquire_armed(Pending));
    assert!(!lp.acquire_armed(Paused));
    assert!(!lp.download_armed(Downloading));
    let a = lp.step(LoopEvent::PermitGranted { state: Pending });
    assert!(lp.has_permit);
    assert_eq!(a.set_state, Some(Downloading));
    assert_eq!(a.control, LoopControl::Continue);
    assert!(lp.download_armed(Downloading));
    // paused while downloading: the permit goes back
    let a = lp.step(LoopEvent::StateChanged { state: Paused });
    assert!(a.release_permit && a.announce);
    assert!(!lp.has_permit);
    assert_eq!(a.control, LoopControl::Continue);
    // granted while no longer pending: kept, state untouched
    let a = lp.step(LoopEvent::PermitGranted { state: Paused });
    assert_eq!(a.set_state, None);
    assert!(lp.has_permit);
    let a = lp.step(LoopEvent::StateChanged { state: Pending });
    assert_eq!((a.control, a.release_permit, a.announce), (LoopControl::Continue, false, true));
    let a = lp.step(LoopEvent::StateChanged { state: Cancelled });
    assert_eq!(a.control, LoopControl::Break);
    let a = ComicTaskLoop::new().step(LoopEvent::PermitRefused);
    assert_eq!((a.set_state, a.announce, a.control), (Some(Failed), true, LoopControl::Break));
    let a = ComicTaskLoop::new().step(LoopEvent::DownloadFinished);
    assert_eq!(a.control, LoopControl::Break);
}

#[test]
fn image_loop_decisions() {
    let mut lp = ImgTaskLoop::new();
    assert!(!lp.acquire_armed(Pending));
    assert!(lp.acquire_armed(Downloading));
    let a = lp.step(LoopEvent::PermitGranted { state: Downloading });
    assert_eq!((a.set_state, a.control), (None, LoopControl::Continue));
    assert!(lp.download_armed(Downloading));
    assert!(!lp.acquire_armed(Downloading));
    let a = lp.step(LoopEvent::StateChanged { state: Paused });
    assert!(a.release_permit && !a.announce);
    assert!(!lp.has_permit);
    let a = lp.step(LoopEvent::StateChanged { state: Cancelled });
    assert_eq!(a.control, LoopControl::Break);
    let a = ImgTaskLoop::new().step(LoopEvent::PermitRefused);
    assert_eq!((a.set_state, a.control), (None, LoopControl::Break));
}

fn run(events: &[ComicJobEvent]) -> (ComicJobPhase, Vec<ComicJobAction>) {
    let (mut job, first) = ComicJob::start();
    let mut actions = vec![first];
    for e in events {
        actions.push(job.step(*e));
    }
    (job.phase, actions)
}

#[test]
fn a_full_download_completes() {
    let (phase, actions) = run(&[
        ImgUrlsFetched { count: 3 },
        TempDirCreated,
        TempDirCleaned,
        ImagesDownloaded { downloaded: 3, total: 3 },
        TempDirRenamed,
        MetadataSaved,
        CoverFailed,
    ]);
    assert_eq!(phase, ComicJobPhase::Done);
    assert_eq!(
        actions,
        vec![
            ComicJobAction::FetchImgUrls,
            ComicJobAction::CreateTempDir { total_img_count: 3 },
            ComicJobAction::CleanTempDir,
            ComicJobAction::DownloadImages,
            ComicJobAction::RenameTempDir,
            ComicJobAction::SaveMetadata,
            ComicJobAction::SaveCover,
            ComicJobAction::Finish { final_state: Some(DownloadTaskState::Completed) },
        ]
    );
}

#[test]
fn job_failures() {
    let failed = ComicJobAction::Finish { final_state: Some(DownloadTaskState::Failed) };
    let untouched = ComicJobAction::Finish { final_state: None };
    assert_eq!(run(&[ImgUrlsFailed]).1.last(), Some(&untouched));
    assert_eq!(run(&[ImgUrlsFetched { count: 1 }, TempDirFailed]).1.last(), Some(&failed));
    assert_eq!(run(&[ImgUrlsFetched { count: 1 }, TempDirCreated, CleanFailed]).1.last(), Some(&failed));
    let incomplete = run(&[
        ImgUrlsFetched { count: 2 },
        TempDirCreated,
        TempDirCleaned,
        ImagesDownloaded { downloaded: 1, total: 2 },
    ]);
    assert_eq!(incomplete.1.last(), Some(&failed));
    assert_eq!(incomplete.0, ComicJobPhase::Done);
    let rename = run(&[
        ImgUrlsFetched { count: 0 },
        TempDirCreated,
        TempDirCleaned,
        ImagesDownloaded { downloaded: 0, total: 0 },
        RenameFailed,
    ]);
    assert_eq!(rename.1.last(), Some(&failed));
    let metadata = run(&[
        ImgUrlsFetched { count: 0 },
        TempDirCreated,
        TempDirCleaned,
        ImagesDownloaded { downloaded: 0, total: 0 },
        TempDirRenamed,
        MetadataFailed,
    ]);
    assert_eq!(metadata.1.last(), Some(&untouched));
    let cover_saved = run(&[
        ImgUrlsFetched { count: 0 },
        TempDirCreated,
        TempDirCleaned,
        ImagesDownloaded { downloaded: 0, total: 0 },
        TempDirRenamed,
        MetadataSaved,
        CoverSaved,
    ]);
    assert_eq!(
        cover_saved.1.last(),
        Some(&ComicJobAction::Finish { final_state: Some(DownloadTaskState::Completed) })
    );
}

#[test]
fn the_image_total_is_cut_to_32_bits() {
    let (mut job, _) = ComicJob::start();
    let a = job.step(ComicJobEvent::ImgUrlsFetched { count: (1usize << 32) + 5 });
    assert_eq!(a, ComicJobAction::CreateTempDir { total_img_count: 5 });
}

#[test]
fn a_paused_task_lets_its_permits_go() {
    let mut m = DownloadManager::new();
    m.create_download_task(comic(1, "A"), &config(), "webp", keep).unwrap();
    m.set_state(1, Downloading);
    let mut comic_loop = ComicTaskLoop::new();
    comic_loop.step(LoopEvent::PermitGranted { state: Pending });
    let mut img_loop = ImgTaskLoop::new();
    img_loop.step(LoopEvent::PermitGranted { state: Downloading });
    m.pause_download_task(1).unwrap();
    let now = m.task_state(1).unwrap();
    let a = comic_loop.step(LoopEvent::StateChanged { state: now });
    let b = img_loop.step(LoopEvent::StateChanged { state: now });
    assert!(a.release_permit && b.release_permit);
    assert!(!comic_loop.has_permit && !img_loop.has_permit);
}

#[test]
fn counters_of_a_replaced_task_are_not_touched_by_late_images() {
    let mut m = DownloadManager::new();
    m.create_download_task(comic(1, "A"), &config(), "webp", keep).unwrap();
    let first = run_of(&m, 1);
    m.cancel_download_task(1).unwrap();
    m.resume_download_task(1, &config(), "webp", keep).unwrap();
    let second = run_of(&m, 1);
    m.set_total_img_count(1, second, 4);
    // an image of the cancelled task ends late
    m.record_img_downloaded(1, first);
    m.set_total_img_count(1, first, 9);
    let t = m.task(1).unwrap();
    assert_eq!((t.downloaded_img_count, t.total_img_count), (0, 4));
    m.record_img_downloaded(1, second);
    assert_eq!(m.task(1).unwrap().downloaded_img_count, 1);
}

#[test]
fn a_held_comic_permit_is_used_again() {
    let mut lp = ComicTaskLoop::new();
    assert!(lp.must_wait_for_permit());
    lp.step(LoopEvent::PermitGranted { state: Pending });
    assert!(!lp.must_wait_for_permit());
    lp.step(LoopEvent::StateChanged { state: Paused });
    assert!(lp.must_wait_for_permit());
}

#[test]
fn an_existing_image_is_counted_without_fetching() {
    let (mut job, first) = ImgJob::start();
    assert_eq!(first, ImgJobAction::CheckSavePath);
    let a = job.step(ImgJobEvent::SavePathChecked { exists: true });
    assert_eq!(a, ImgJobAction::Finish { counted: true, bytes: None });
    assert_eq!(job.phase, ImgJobPhase::Done);
}

#[test]
fn a_fetched_image_is_written_then_counted_with_its_size() {
    let (mut job, _) = ImgJob::start();
    assert_eq!(job.step(ImgJobEvent::SavePathChecked { exists: false }), ImgJobAction::FetchImage);
    assert_eq!(job.step(ImgJobEvent::Fetched { len: 2048 }), ImgJobAction::WriteImage);
    assert_eq!(job.step(ImgJobEvent::Written), ImgJobAction::Finish { counted: true, bytes: Some(2048) });
}

#[test]
fn a_failed_image_records_nothing() {
    let (mut job, _) = ImgJob::start();
    job.step(ImgJobEvent::SavePathChecked { exists: false });
    assert_eq!(job.step(ImgJobEvent::FetchFailed), ImgJobAction::Finish { counted: false, bytes: None });
    let (mut job, _) = ImgJob::start();
    job.step(ImgJobEvent::SavePathChecked { exists: false });
    job.step(ImgJobEvent::Fetched { len: 10 });
    assert_eq!(job.step(ImgJobEvent::WriteFailed), ImgJobAction::Finish { counted: false, bytes: None });
}
