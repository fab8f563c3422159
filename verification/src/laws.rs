//! Properties of the download rules that span several requests or steps.
use vstd::prelude::*;

use crate::dir_fmt::{
    dir_from_names, fmt_params_of, fmt_vars, path_pushed, ComicModel, DirConfig, DirFmtParamsModel,
};
use crate::error::DownloadError;
use crate::job::{
    event_fits, img_step, job_step, ComicJobAction, ComicJobEvent, ComicJobPhase, ImgJobAction,
    ImgJobEvent, ImgJobPhase,
};
use crate::loops::{comic_loop_step, img_loop_step, LoopControl, LoopEvent};
use crate::manager::{
    create_relation, has_active_task, in_state, resume_relation, set_relation, with_image_counted,
    with_total, CreateOutcome, ResumeOutcome,
};
use crate::state::{lemma_active_xor_finished, DownloadTaskState};
use crate::task::{files_to_remove_spec, save_file_names_spec, DownloadTask};
use crate::text::{
    decimal, digit_char, img_file_name_spec, joined, lemma_split_on_nonempty, shortened,
    signed_decimal, split_on, zero_pad,
};

verus! {

/// Creating a task twice for the same comic creates it once: right after a
/// task was created, a second request for the same comic id changes nothing.
pub proof fn lemma_create_twice_creates_once<F: Fn(&str) -> String, G: Fn(&str) -> String>(
    m0: Map<i32, DownloadTask>,
    m1: Map<i32, DownloadTask>,
    m2: Map<i32, DownloadTask>,
    comic: ComicModel,
    again: ComicModel,
    config: DirConfig,
    config2: DirConfig,
    extension: Seq<char>,
    extension2: Seq<char>,
    filter: F,
    filter2: G,
    res2: Result<CreateOutcome, DownloadError>,
)
    requires
        create_relation(m0, m1, comic, config, extension, filter, Ok(CreateOutcome::Created)),
        again.id == comic.id,
        create_relation(m1, m2, again, config2, extension2, filter2, res2),
    ensures
        res2 == Ok::<CreateOutcome, DownloadError>(CreateOutcome::AlreadyActive),
        m2 == m1,
{
    assert(has_active_task(m1, comic.id));
}

/// A request about one task leaves every other task as it was.
pub proof fn lemma_requests_touch_one_task<F: Fn(&str) -> String>(
    m0: Map<i32, DownloadTask>,
    m1: Map<i32, DownloadTask>,
    id: i32,
    comic: ComicModel,
    config: DirConfig,
    extension: Seq<char>,
    filter: F,
    state: DownloadTaskState,
    created: Result<CreateOutcome, DownloadError>,
    set: Result<(), DownloadError>,
    resumed: Result<ResumeOutcome, DownloadError>,
)
    ensures
        create_relation(m0, m1, comic, config, extension, filter, created) ==> m1.remove(comic.id)
            =~= m0.remove(comic.id),
        set_relation(m0, m1, id, state, set) ==> m1.remove(id) =~= m0.remove(id),
        resume_relation(m0, m1, id, config, extension, filter, resumed) ==> m1.remove(id) =~= m0.remove(id),
{
}

/// Pausing a task whose loops run and then resuming it leaves it `Pending`,
/// with its comic, counters and format as they were.
pub proof fn lemma_pause_then_resume<F: Fn(&str) -> String>(
    m0: Map<i32, DownloadTask>,
    m1: Map<i32, DownloadTask>,
    m2: Map<i32, DownloadTask>,
    id: i32,
    config: DirConfig,
    extension: Seq<char>,
    filter: F,
    res: Result<ResumeOutcome, DownloadError>,
)
    requires
        m0.contains_key(id) && m0[id].loops_running,
        set_relation(m0, m1, id, DownloadTaskState::Paused, Ok(())),
        resume_relation(m1, m2, id, config, extension, filter, res),
    ensures
        res == Ok::<ResumeOutcome, DownloadError>(ResumeOutcome::Requeued),
        m2 == m0.insert(id, in_state(m0[id], DownloadTaskState::Pending)),
{
    assert(m1[id].state == DownloadTaskState::Paused);
    assert(m2 =~= m0.insert(id, in_state(m0[id], DownloadTaskState::Pending)));
}

/// Cancelling a task whose loops run and then resuming it never brings the cancelled task
/// back: either a fresh `Pending` task for the same comic, with no image
/// counted, takes its place, or (when its directory cannot be formatted)
/// the cancelled task stays as it is.
pub proof fn lemma_cancel_then_resume<F: Fn(&str) -> String>(
    m0: Map<i32, DownloadTask>,
    m1: Map<i32, DownloadTask>,
    m2: Map<i32, DownloadTask>,
    id: i32,
    config: DirConfig,
    extension: Seq<char>,
    filter: F,
    res: Result<ResumeOutcome, DownloadError>,
)
    requires
        m0.contains_key(id) && m0[id].loops_running,
        set_relation(m0, m1, id, DownloadTaskState::Cancelled, Ok(())),
        resume_relation(m1, m2, id, config, extension, filter, res),
    ensures
        res != Ok::<ResumeOutcome, DownloadError>(ResumeOutcome::Requeued),
        res is Ok ==> m2[id].state == DownloadTaskState::Pending && m2[id].downloaded_img_count == 0
            && m2[id].total_img_count == 0 && m2[id].comic@.id == m0[id].comic@.id
            && m2[id].comic@.title == m0[id].comic@.title,
        res is Err ==> m2 == m1,
{
    assert(m1[id].state == DownloadTaskState::Cancelled);
}

/// A task whose loops have ended keeps its state: pausing or cancelling it,
/// or resuming it while it is `Pending`, `Downloading` or `Paused`, leaves the
/// table as it was.
pub proof fn lemma_ended_task_keeps_state<F: Fn(&str) -> String>(
    m0: Map<i32, DownloadTask>,
    m1: Map<i32, DownloadTask>,
    id: i32,
    config: DirConfig,
    extension: Seq<char>,
    filter: F,
    state: DownloadTaskState,
    set: Result<(), DownloadError>,
)
    requires
        m0.contains_key(id),
        !m0[id].loops_running,
    ensures
        set_relation(m0, m1, id, state, set) ==> set is Ok && m1 == m0,
        resume_relation(m0, m1, id, config, extension, filter, Ok(ResumeOutcome::Requeued)) ==> m1
            == m0,
{
    assert(m0.insert(id, m0[id]) =~= m0);
}

/// A request about a comic id that has no task is refused and changes nothing.
pub proof fn lemma_unknown_task_refused<F: Fn(&str) -> String>(
    m0: Map<i32, DownloadTask>,
    m1: Map<i32, DownloadTask>,
    id: i32,
    config: DirConfig,
    extension: Seq<char>,
    filter: F,
    state: DownloadTaskState,
    set: Result<(), DownloadError>,
    resumed: Result<ResumeOutcome, DownloadError>,
)
    requires
        !m0.contains_key(id),
    ensures
        set_relation(m0, m1, id, state, set) ==> set is Err && m1 == m0,
        resume_relation(m0, m1, id, config, extension, filter, resumed) ==> resumed is Err && m1 == m0,
{
}

/// A comic loop only moves a task to `Downloading` while holding a permit,
/// and only a `Pending` task.
pub proof fn lemma_downloading_needs_permit(has_permit: bool, event: LoopEvent)
    ensures
        comic_loop_step(has_permit, event).1.set_state == Some(DownloadTaskState::Downloading)
            ==> comic_loop_step(has_permit, event).0 && event == (LoopEvent::PermitGranted {
            state: DownloadTaskState::Pending,
        }),
{
}

/// Pausing a task makes both of its loops give their permit back (the
/// permit is released exactly when one was held), and cancelling it stops
/// both loops.
pub proof fn lemma_pause_releases_cancel_stops(has_permit: bool)
    ensures
        !comic_loop_step(has_permit, LoopEvent::StateChanged { state: DownloadTaskState::Paused }).0,
        comic_loop_step(has_permit, LoopEvent::StateChanged { state: DownloadTaskState::Paused }).1.release_permit
            == has_permit,
        !img_loop_step(has_permit, LoopEvent::StateChanged { state: DownloadTaskState::Paused }).0,
        img_loop_step(has_permit, LoopEvent::StateChanged { state: DownloadTaskState::Paused }).1.release_permit
            == has_permit,
        comic_loop_step(has_permit, LoopEvent::StateChanged { state: DownloadTaskState::Cancelled }).1.control
            == LoopControl::Break,
        img_loop_step(has_permit, LoopEvent::StateChanged { state: DownloadTaskState::Cancelled }).1.control
            == LoopControl::Break,
{
}

/// After `pause_download_task` succeeds on a task whose loops run, the state
/// change it causes makes the task's loops release their permits.
pub proof fn lemma_paused_task_releases_permits(
    m0: Map<i32, DownloadTask>,
    m1: Map<i32, DownloadTask>,
    id: i32,
    comic_has_permit: bool,
    img_has_permit: bool,
)
    requires
        m0.contains_key(id) && m0[id].loops_running,
        set_relation(m0, m1, id, DownloadTaskState::Paused, Ok(())),
    ensures
        m1.contains_key(id),
        !comic_loop_step(comic_has_permit, LoopEvent::StateChanged { state: m1[id].state }).0,
        !img_loop_step(img_has_permit, LoopEvent::StateChanged { state: m1[id].state }).0,
{
    assert(m1[id].state == DownloadTaskState::Paused);
}

/// The phases and actions of a download driven by `events` from its start,
/// or `None` when some event does not answer the step asked for.
pub open spec fn job_run(events: Seq<ComicJobEvent>) -> Option<(ComicJobPhase, Seq<ComicJobAction>)>
    decreases events.len(),
{
    if events.len() == 0 {
        Some((ComicJobPhase::FetchImgUrls, seq![ComicJobAction::FetchImgUrls]))
    } else {
        match job_run(events.drop_last()) {
            Some((phase, actions)) => if event_fits(phase, events.last()) {
                let (next, action) = job_step(phase, events.last());
                Some((next, actions.push(action)))
            } else {
                None
            },
            None => None,
        }
    }
}

/// `events` holds an outcome of the image downloads where every image was saved.
pub open spec fn all_images_saved(events: Seq<ComicJobEvent>) -> bool {
    exists|i: int|
        0 <= i < events.len() && #[trigger] images_all_saved(events[i])
}

/// `event` reports that the image downloads ended with every image saved.
pub open spec fn images_all_saved(event: ComicJobEvent) -> bool {
    event matches ComicJobEvent::ImagesDownloaded { downloaded, total } && downloaded == total
}

proof fn lemma_job_history(events: Seq<ComicJobEvent>)
    requires
        job_run(events) is Some,
    ensures
        ({
            let phase = job_run(events).unwrap().0;
            &&& (phase == ComicJobPhase::RenameTempDir || phase == ComicJobPhase::SaveMetadata
                || phase == ComicJobPhase::SaveCover) ==> all_images_saved(events)
            &&& (phase == ComicJobPhase::SaveMetadata || phase == ComicJobPhase::SaveCover)
                ==> events.contains(ComicJobEvent::TempDirRenamed)
            &&& phase == ComicJobPhase::SaveCover ==> events.contains(ComicJobEvent::MetadataSaved)
        }),
    decreases events.len(),
{
    if events.len() > 0 {
        let prev = events.drop_last();
        lemma_job_history(prev);
        let phase = job_run(prev).unwrap().0;
        let last = events.last();
        let next = job_run(events).unwrap().0;
        assert(events[events.len() - 1] == last);
        if all_images_saved(prev) {
            let i = choose|i: int| 0 <= i < prev.len() && #[trigger] images_all_saved(prev[i]);
            assert(events[i] == prev[i]);
        }
        if prev.contains(ComicJobEvent::TempDirRenamed) {
            let k = choose|k: int| 0 <= k < prev.len() && prev[k] == ComicJobEvent::TempDirRenamed;
            assert(events[k] == prev[k]);
        }
        if prev.contains(ComicJobEvent::MetadataSaved) {
            let k = choose|k: int| 0 <= k < prev.len() && prev[k] == ComicJobEvent::MetadataSaved;
            assert(events[k] == prev[k]);
        }
        if next == ComicJobPhase::RenameTempDir {
            assert(images_all_saved(events[events.len() - 1]));
        }
    }
}

/// A comic download ends `Completed` only after every image was saved, the
/// temporary directory was renamed, and the metadata was saved.
pub proof fn lemma_completed_only_after_full_download(events: Seq<ComicJobEvent>)
    requires
        job_run(events) matches Some((phase, actions)) && actions.last() == (ComicJobAction::Finish {
            final_state: Some(DownloadTaskState::Completed),
        }),
    ensures
        all_images_saved(events),
        events.contains(ComicJobEvent::TempDirRenamed),
        events.contains(ComicJobEvent::MetadataSaved),
{
    let prev = events.drop_last();
    assert(events.len() > 0);
    lemma_job_history(prev);
    let phase = job_run(prev).unwrap().0;
    assert(phase == ComicJobPhase::SaveCover);
    if all_images_saved(prev) {
        let i = choose|i: int| 0 <= i < prev.len() && #[trigger] images_all_saved(prev[i]);
        assert(events[i] == prev[i]);
    }
    let k = choose|k: int| 0 <= k < prev.len() && prev[k] == ComicJobEvent::TempDirRenamed;
    assert(events[k] == prev[k]);
    let k2 = choose|k: int| 0 <= k < prev.len() && prev[k] == ComicJobEvent::MetadataSaved;
    assert(events[k2] == prev[k2]);
}

/// A download ends once: after its `Finish` action no outcome is taken any more.
pub proof fn lemma_finish_is_final(phase: ComicJobPhase, event: ComicJobEvent, next: ComicJobEvent)
    requires
        event_fits(phase, event),
        job_step(phase, event).1 is Finish,
    ensures
        job_step(phase, event).0 == ComicJobPhase::Done,
        !event_fits(job_step(phase, event).0, next),
{
}

/// The tags value of a directory format is never longer than 100
/// characters, and a list short enough is kept whole.
pub proof fn lemma_shortened_fits(s: Seq<char>)
    ensures
        shortened(s).len() <= 100,
        s.len() <= 100 ==> shortened(s) == s,
        s.len() > 100 ==> shortened(s).take(97) == s.take(97),
{
    if s.len() > 100 {
        assert(shortened(s).take(97) =~= s.take(97));
    }
}

/// Cleaning the temporary directory removes exactly the entries that are not
/// files of the current download: every entry is either kept or removed,
/// never both.
pub proof fn lemma_clean_removes_exactly_strangers(entries: Seq<Seq<char>>, keep: Seq<Seq<char>>, e: Seq<char>)
    requires
        entries.contains(e),
    ensures
        files_to_remove_spec(entries, keep).contains(e) <==> !keep.contains(e),
{
    let pred = |x: Seq<char>| !keep.contains(x);
    let filtered = entries.filter(pred);
    assert(filtered == files_to_remove_spec(entries, keep));
    if filtered.contains(e) {
        let i = choose|i: int| 0 <= i < filtered.len() && filtered[i] == e;
        entries.lemma_filter_pred(pred, i);
    }
    if pred(e) {
        let i = choose|i: int| 0 <= i < entries.len() && entries[i] == e;
        entries.lemma_filter_contains(pred, i);
    }
}

/// The number a string of decimal digits stands for.
pub open spec fn digits_value(s: Seq<char>) -> nat
    decreases s.len(),
{
    if s.len() == 0 {
        0
    } else {
        digits_value(s.drop_last()) * 10 + ((s.last() as nat) - 48) as nat
    }
}

/// `s` holds decimal digits only.
pub open spec fn all_digits(s: Seq<char>) -> bool {
    forall|k: int| 0 <= k < s.len() ==> '0' <= #[trigger] s[k] <= '9'
}

/// The decimal numeral of `n` holds digits only and reads back as `n`.
pub proof fn lemma_decimal_digits(n: nat)
    ensures
        all_digits(decimal(n)),
        digits_value(decimal(n)) == n,
    decreases n,
{
    assert((digit_char(n % 10) as nat) == 48 + n % 10);
    if n >= 10 {
        lemma_decimal_digits(n / 10);
        let d = decimal(n);
        assert(d.last() == digit_char(n % 10));
        assert(d.drop_last() =~= decimal(n / 10));
        assert forall|k: int| 0 <= k < d.len() implies '0' <= #[trigger] d[k] <= '9' by {
            if k < d.len() - 1 {
                assert(d[k] == decimal(n / 10)[k]);
            }
        }
        assert(digits_value(d) == digits_value(decimal(n / 10)) * 10 + n % 10);
        assert(n == (n / 10) * 10 + n % 10);
    } else {
        let d = decimal(n);
        assert(d.drop_last() =~= Seq::<char>::empty());
        assert(digits_value(d) == digits_value(Seq::<char>::empty()) * 10 + n % 10);
    }
}

proof fn lemma_leading_zeros(z: nat, s: Seq<char>)
    ensures
        digits_value(Seq::new(z, |i: int| '0') + s) == digits_value(s),
    decreases s.len(), z,
{
    let zeros = Seq::new(z, |i: int| '0');
    if s.len() == 0 {
        assert(zeros + s =~= zeros);
        if z > 0 {
            lemma_leading_zeros((z - 1) as nat, s);
            assert(zeros.drop_last() =~= Seq::new((z - 1) as nat, |i: int| '0') + s);
        }
    } else {
        lemma_leading_zeros(z, s.drop_last());
        assert((zeros + s).drop_last() =~= zeros + s.drop_last());
    }
}

/// Each image of a comic is saved under a name of its own: two different
/// positions never share a file name.
pub proof fn lemma_img_file_names_distinct(i: nat, j: nat, extension: Seq<char>)
    requires
        i != j,
    ensures
        img_file_name_spec(i, extension) != img_file_name_spec(j, extension),
{
    let a = zero_pad(decimal(i + 1), 4);
    let b = zero_pad(decimal(j + 1), 4);
    lemma_decimal_digits(i + 1);
    lemma_decimal_digits(j + 1);
    if decimal((i + 1) as nat).len() < 4 {
        lemma_leading_zeros((4 - decimal((i + 1) as nat).len()) as nat, decimal((i + 1) as nat));
    }
    if decimal((j + 1) as nat).len() < 4 {
        lemma_leading_zeros((4 - decimal((j + 1) as nat).len()) as nat, decimal((j + 1) as nat));
    }
    assert(digits_value(a) == i + 1);
    assert(digits_value(b) == j + 1);
    assert(all_digits(a)) by {
        assert forall|k: int| 0 <= k < a.len() implies '0' <= #[trigger] a[k] <= '9' by {
            let d = decimal((i + 1) as nat);
            if d.len() < 4 && k < 4 - d.len() {
            } else if d.len() < 4 {
                assert(a[k] == d[k - (4 - d.len())]);
            }
        }
    }
    assert(all_digits(b)) by {
        assert forall|k: int| 0 <= k < b.len() implies '0' <= #[trigger] b[k] <= '9' by {
            let d = decimal((j + 1) as nat);
            if d.len() < 4 && k < 4 - d.len() {
            } else if d.len() < 4 {
                assert(b[k] == d[k - (4 - d.len())]);
            }
        }
    }
    let fa = img_file_name_spec(i, extension);
    let fb = img_file_name_spec(j, extension);
    assert(fa == a + seq!['.'] + extension);
    assert(fb == b + seq!['.'] + extension);
    if a.len() == b.len() {
        assert(a != b);
        if forall|k: int| 0 <= k < a.len() ==> a[k] == b[k] {
            assert(a =~= b);
        }
        let k = choose|k: int| 0 <= k < a.len() && a[k] != b[k];
        assert(fa[k] == a[k]);
        assert(fb[k] == b[k]);
    } else if a.len() < b.len() {
        assert(fa[a.len() as int] == '.');
        assert(fb[a.len() as int] == b[a.len() as int]);
    } else {
        assert(fb[b.len() as int] == '.');
        assert(fa[b.len() as int] == a[b.len() as int]);
    }
}

/// An image whose file is already in the temporary directory is kept and not
/// fetched again: cleaning (which runs before any image is downloaded)
/// keeps the file, since its name is among the comic's image names, and the
/// image's own download, finding the file there, counts the image without
/// fetching it. Every entry that is not an image file of the comic is removed.
pub proof fn lemma_existing_image_kept_not_fetched(
    entries: Seq<Seq<char>>,
    count: nat,
    extension: Seq<char>,
    i: nat,
    len: usize,
)
    requires
        i < count,
        entries.contains(img_file_name_spec(i, extension)),
    ensures
        !files_to_remove_spec(entries, save_file_names_spec(count, extension)).contains(
            img_file_name_spec(i, extension),
        ),
        forall|e: Seq<char>|
            entries.contains(e) && !save_file_names_spec(count, extension).contains(e)
                ==> #[trigger] files_to_remove_spec(entries, save_file_names_spec(count, extension)).contains(e),
        job_step(ComicJobPhase::CleanTempDir, ComicJobEvent::TempDirCleaned).1 == ComicJobAction::DownloadImages,
        job_step(ComicJobPhase::CleanTempDir, ComicJobEvent::CleanFailed).1 != ComicJobAction::DownloadImages,
        img_step(ImgJobPhase::CheckSavePath, len, ImgJobEvent::SavePathChecked { exists: true })
            == (ImgJobPhase::Done, len, ImgJobAction::Finish { counted: true, bytes: None }),
{
    let keep = save_file_names_spec(count, extension);
    let name = img_file_name_spec(i, extension);
    assert(keep[i as int] == name);
    lemma_clean_removes_exactly_strangers(entries, keep, name);
    assert forall|e: Seq<char>|
        entries.contains(e) && !keep.contains(e) implies #[trigger] files_to_remove_spec(
        entries,
        keep,
    ).contains(e) by {
        lemma_clean_removes_exactly_strangers(entries, keep, e);
    }
}

/// A change of the task's state stops a loop only when the task is
/// cancelled: any other state leaves both loops running, and keeps their
/// permit unless the task is paused. In particular, the change to
/// `Downloading` that follows a granted permit lets the download run.
pub proof fn lemma_state_changes_keep_loops_running(has_permit: bool, state: DownloadTaskState)
    ensures
        state != DownloadTaskState::Cancelled ==> comic_loop_step(has_permit, LoopEvent::StateChanged { state }).1.control
            == LoopControl::Continue,
        state != DownloadTaskState::Cancelled ==> img_loop_step(has_permit, LoopEvent::StateChanged { state }).1.control
            == LoopControl::Continue,
        state == DownloadTaskState::Cancelled ==> comic_loop_step(has_permit, LoopEvent::StateChanged { state }).1.control
            == LoopControl::Break,
        state == DownloadTaskState::Cancelled ==> img_loop_step(has_permit, LoopEvent::StateChanged { state }).1.control
            == LoopControl::Break,
        state != DownloadTaskState::Paused ==> comic_loop_step(has_permit, LoopEvent::StateChanged { state }).0
            == has_permit && !comic_loop_step(has_permit, LoopEvent::StateChanged { state }).1.release_permit,
        state != DownloadTaskState::Paused ==> img_loop_step(has_permit, LoopEvent::StateChanged { state }).0
            == has_permit && !img_loop_step(has_permit, LoopEvent::StateChanged { state }).1.release_permit,
        comic_loop_step(has_permit, LoopEvent::StateChanged { state }).1.set_state is None,
        img_loop_step(has_permit, LoopEvent::StateChanged { state }).1.set_state is None,
        comic_loop_step(has_permit, LoopEvent::StateChanged { state }).1.announce,
        !img_loop_step(has_permit, LoopEvent::StateChanged { state }).1.announce,
{
}

/// A loop ends when the download it guards has run to its end, and when no
/// permit can be had; only the comic loop then marks its task `Failed`.
/// Neither keeps waiting, so the permit goes with the loop.
pub proof fn lemma_finished_download_ends_loop(has_permit: bool)
    ensures
        comic_loop_step(has_permit, LoopEvent::DownloadFinished).1.control == LoopControl::Break,
        img_loop_step(has_permit, LoopEvent::DownloadFinished).1.control == LoopControl::Break,
        comic_loop_step(has_permit, LoopEvent::DownloadFinished).1.set_state is None,
        img_loop_step(has_permit, LoopEvent::DownloadFinished).1.set_state is None,
        comic_loop_step(has_permit, LoopEvent::PermitRefused).1.control == LoopControl::Break,
        img_loop_step(has_permit, LoopEvent::PermitRefused).1.control == LoopControl::Break,
        comic_loop_step(has_permit, LoopEvent::PermitRefused).1.set_state == Some(DownloadTaskState::Failed),
        img_loop_step(has_permit, LoopEvent::PermitRefused).1.set_state is None,
{
}

/// The names a comic's images are saved under: one per image, the name at
/// position `i` being the name of image `i` (its number `i + 1` in at least
/// four digits), and no name twice.
pub proof fn lemma_save_file_names(count: nat, extension: Seq<char>)
    ensures
        save_file_names_spec(count, extension).len() == count,
        forall|i: int| 0 <= i < count ==> #[trigger] save_file_names_spec(count, extension)[i]
            == img_file_name_spec(i as nat, extension),
        forall|i: int, j: int| 0 <= i < count && 0 <= j < count && i != j
            ==> #[trigger] save_file_names_spec(count, extension)[i] != #[trigger] save_file_names_spec(
            count,
            extension,
        )[j],
{
    let names = save_file_names_spec(count, extension);
    assert forall|i: int, j: int| 0 <= i < count && 0 <= j < count && i != j implies #[trigger] names[i]
        != #[trigger] names[j] by {
        lemma_img_file_names_distinct(i as nat, j as nat, extension);
    }
}

/// What a loop makes known: the comic loop announces its task exactly on a
/// change of state and on a refused permit (which marks the task `Failed`);
/// the image loop announces nothing. The end of the guarded download and a
/// refused permit leave the holding as it was and give nothing back.
pub proof fn lemma_what_is_announced(has_permit: bool, event: LoopEvent)
    ensures
        comic_loop_step(has_permit, event).1.announce == (event is StateChanged || event is PermitRefused),
        !img_loop_step(has_permit, event).1.announce,
        (event is DownloadFinished || event is PermitRefused) ==> comic_loop_step(has_permit, event).0
            == has_permit && !comic_loop_step(has_permit, event).1.release_permit,
        (event is DownloadFinished || event is PermitRefused) ==> img_loop_step(has_permit, event).0
            == has_permit && !img_loop_step(has_permit, event).1.release_permit,
{
}

/// A granted permit is held afterwards and the loop goes on; the comic loop
/// moves its task to `Downloading` exactly when the task is still
/// `Pending`, and the image loop changes no state.
pub proof fn lemma_granted_permit_is_held(has_permit: bool, state: DownloadTaskState)
    ensures
        comic_loop_step(has_permit, LoopEvent::PermitGranted { state }).0,
        img_loop_step(has_permit, LoopEvent::PermitGranted { state }).0,
        comic_loop_step(has_permit, LoopEvent::PermitGranted { state }).1.control == LoopControl::Continue,
        img_loop_step(has_permit, LoopEvent::PermitGranted { state }).1.control == LoopControl::Continue,
        !comic_loop_step(has_permit, LoopEvent::PermitGranted { state }).1.release_permit,
        !img_loop_step(has_permit, LoopEvent::PermitGranted { state }).1.release_permit,
        (comic_loop_step(has_permit, LoopEvent::PermitGranted { state }).1.set_state == Some(
            DownloadTaskState::Downloading,
        )) == (state == DownloadTaskState::Pending),
        (comic_loop_step(has_permit, LoopEvent::PermitGranted { state }).1.set_state is None) == (state
            != DownloadTaskState::Pending),
        img_loop_step(has_permit, LoopEvent::PermitGranted { state }).1.set_state is None,
{
}

/// Only a pause gives a permit back, and only a held one; the loop gives
/// back exactly the permit it held.
pub proof fn lemma_release_only_on_pause(has_permit: bool, event: LoopEvent)
    ensures
        comic_loop_step(has_permit, event).1.release_permit ==> has_permit && event == (LoopEvent::StateChanged {
            state: DownloadTaskState::Paused,
        }),
        img_loop_step(has_permit, event).1.release_permit ==> has_permit && event == (LoopEvent::StateChanged {
            state: DownloadTaskState::Paused,
        }),
        comic_loop_step(has_permit, event).0 == (has_permit && !comic_loop_step(has_permit, event).1.release_permit
            && event != (LoopEvent::StateChanged { state: DownloadTaskState::Paused }) || event is PermitGranted),
        img_loop_step(has_permit, event).0 == (has_permit && !img_loop_step(has_permit, event).1.release_permit
            && event != (LoopEvent::StateChanged { state: DownloadTaskState::Paused }) || event is PermitGranted),
{
}

/// Each format value of a comic is the comic's field of the same name: id,
/// title, language and local language name as they are, the type as shown,
/// the artists joined with ", " (one artist alone, two as `a, b`), and the
/// tags joined with ", ", kept whole up to 100 characters and otherwise cut
/// to their first 97 characters followed by "...".
pub proof fn lemma_fmt_params_take_comic_fields(c: ComicModel)
    ensures
        fmt_params_of(c).id == c.id,
        fmt_params_of(c).title == c.title,
        fmt_params_of(c).language == c.language,
        fmt_params_of(c).language_localname == c.language_localname,
        fmt_params_of(c).type_field == c.type_label,
        fmt_params_of(c).artists == joined(c.artists, ", "@),
        c.artists.len() == 0 ==> fmt_params_of(c).artists.len() == 0,
        c.artists.len() == 1 ==> fmt_params_of(c).artists == c.artists[0],
        c.artists.len() == 2 ==> fmt_params_of(c).artists == c.artists[0] + ", "@ + c.artists[1],
        joined(c.tag_labels, ", "@).len() <= 100 ==> fmt_params_of(c).tags == joined(c.tag_labels, ", "@),
        joined(c.tag_labels, ", "@).len() > 100 ==> fmt_params_of(c).tags == joined(c.tag_labels, ", "@).take(
            97,
        ) + "..."@,
        c.tag_labels.len() == 1 && c.tag_labels[0].len() <= 100 ==> fmt_params_of(c).tags == c.tag_labels[0],
{
    reveal_strlit("...");
    assert("..."@ =~= seq!['.', '.', '.']);
    if c.artists.len() == 2 {
        assert(c.artists.drop_last() =~= seq![c.artists[0]]);
        assert(joined(c.artists.drop_last(), ", "@) == c.artists[0]);
        assert(joined(c.artists, ", "@) == joined(c.artists.drop_last(), ", "@) + ", "@ + c.artists.last());
    }
}

/// The variable under each key is the format value of the same name: `id`
/// holds the id in decimal, `title` the title, `language` the language,
/// `language_localname` the local language name, `type` the type, `artists`
/// the artists and `tags` the tags. Every key is present once.
pub proof fn lemma_fmt_vars_by_key(p: DirFmtParamsModel, i: int)
    requires
        0 <= i < fmt_vars(p).len(),
    ensures
        fmt_vars(p).len() == 7,
        fmt_vars(p)[i].0 == "id"@ ==> fmt_vars(p)[i].1 == signed_decimal(p.id as int),
        fmt_vars(p)[i].0 == "title"@ ==> fmt_vars(p)[i].1 == p.title,
        fmt_vars(p)[i].0 == "language"@ ==> fmt_vars(p)[i].1 == p.language,
        fmt_vars(p)[i].0 == "language_localname"@ ==> fmt_vars(p)[i].1 == p.language_localname,
        fmt_vars(p)[i].0 == "type"@ ==> fmt_vars(p)[i].1 == p.type_field,
        fmt_vars(p)[i].0 == "artists"@ ==> fmt_vars(p)[i].1 == p.artists,
        fmt_vars(p)[i].0 == "tags"@ ==> fmt_vars(p)[i].1 == p.tags,
        forall|j: int| 0 <= j < fmt_vars(p).len() && j != i ==> fmt_vars(p)[j].0 != fmt_vars(p)[i].0,
        fmt_vars(p)[0].0 == "id"@ && fmt_vars(p)[1].0 == "title"@ && fmt_vars(p)[2].0 == "language"@
            && fmt_vars(p)[3].0 == "language_localname"@ && fmt_vars(p)[4].0 == "type"@
            && fmt_vars(p)[5].0 == "artists"@ && fmt_vars(p)[6].0 == "tags"@,
{
    reveal_strlit("id");
    reveal_strlit("title");
    reveal_strlit("language");
    reveal_strlit("language_localname");
    reveal_strlit("type");
    reveal_strlit("artists");
    reveal_strlit("tags");
    let v = fmt_vars(p);
    assert("id"@.len() == 2 && "title"@.len() == 5 && "language"@.len() == 8
        && "language_localname"@.len() == 18 && "type"@.len() == 4 && "artists"@.len() == 7
        && "tags"@.len() == 4);
    assert("type"@[0] == 't' && "tags"@[0] == 't' && "type"@[1] == 'y' && "tags"@[1] == 'a');
    assert("type"@ != "tags"@);
    assert("id"@ != "type"@);
}

/// The id written into the directory format reads back as the id: a
/// negative id is `-` followed by the digits of its magnitude.
pub proof fn lemma_id_numeral(id: i32)
    ensures
        id >= 0 ==> digits_value(signed_decimal(id as int)) == id,
        id < 0 ==> signed_decimal(id as int)[0] == '-' && digits_value(
            signed_decimal(id as int).drop_first(),
        ) == -(id as int),
{
    if id >= 0 {
        lemma_decimal_digits(id as nat);
    } else {
        lemma_decimal_digits((-(id as int)) as nat);
        assert(signed_decimal(id as int).drop_first() =~= decimal((-(id as int)) as nat));
    }
}

/// After the image urls are fetched the number of images handed on is the
/// number of urls cut to 32 bits, exactly as `as u32` does: any count below
/// 2^32 is kept as it is.
pub proof fn lemma_total_is_url_count(count: usize)
    ensures
        job_step(ComicJobPhase::FetchImgUrls, ComicJobEvent::ImgUrlsFetched { count }).0
            == ComicJobPhase::CreateTempDir,
        job_step(ComicJobPhase::FetchImgUrls, ComicJobEvent::ImgUrlsFetched { count }).1 matches ComicJobAction::CreateTempDir { total_img_count: t }
            && t as int == count as int % 0x1_0000_0000,
        count < 0x1_0000_0000 ==> job_step(ComicJobPhase::FetchImgUrls, ComicJobEvent::ImgUrlsFetched { count }).1
            == (ComicJobAction::CreateTempDir { total_img_count: count as u32 }) && (count as u32) as int
            == count as int,
{
    assert((count as u32) as int == count as int % 0x1_0000_0000) by (bit_vector);
}

/// What each outcome of a comic step leads to: success moves on to the next
/// step in order; a failure to create, clean or rename the directory marks
/// the task `Failed`; a count of saved images other than the total marks it
/// `Failed` and an equal count moves on to renaming; a failure to get the
/// urls or to save the metadata ends the download with the state untouched;
/// the cover step always ends it `Completed`.
pub proof fn lemma_job_outcomes(phase: ComicJobPhase, downloaded: u32, total: u32)
    ensures
        job_step(phase, ComicJobEvent::ImgUrlsFailed) == (ComicJobPhase::Done, ComicJobAction::Finish { final_state: None }),
        job_step(phase, ComicJobEvent::TempDirCreated) == (ComicJobPhase::CleanTempDir, ComicJobAction::CleanTempDir),
        job_step(phase, ComicJobEvent::TempDirCleaned) == (ComicJobPhase::DownloadImages, ComicJobAction::DownloadImages),
        job_step(phase, ComicJobEvent::TempDirRenamed) == (ComicJobPhase::SaveMetadata, ComicJobAction::SaveMetadata),
        job_step(phase, ComicJobEvent::MetadataSaved) == (ComicJobPhase::SaveCover, ComicJobAction::SaveCover),
        job_step(phase, ComicJobEvent::MetadataFailed) == (ComicJobPhase::Done, ComicJobAction::Finish { final_state: None }),
        job_step(phase, ComicJobEvent::TempDirFailed) == (ComicJobPhase::Done, ComicJobAction::Finish { final_state: Some(DownloadTaskState::Failed) }),
        job_step(phase, ComicJobEvent::CleanFailed) == (ComicJobPhase::Done, ComicJobAction::Finish { final_state: Some(DownloadTaskState::Failed) }),
        job_step(phase, ComicJobEvent::RenameFailed) == (ComicJobPhase::Done, ComicJobAction::Finish { final_state: Some(DownloadTaskState::Failed) }),
        job_step(phase, ComicJobEvent::CoverSaved) == (ComicJobPhase::Done, ComicJobAction::Finish { final_state: Some(DownloadTaskState::Completed) }),
        job_step(phase, ComicJobEvent::CoverFailed) == (ComicJobPhase::Done, ComicJobAction::Finish { final_state: Some(DownloadTaskState::Completed) }),
        downloaded == total ==> job_step(phase, ComicJobEvent::ImagesDownloaded { downloaded, total })
            == (ComicJobPhase::RenameTempDir, ComicJobAction::RenameTempDir),
        downloaded != total ==> job_step(phase, ComicJobEvent::ImagesDownloaded { downloaded, total })
            == (ComicJobPhase::Done, ComicJobAction::Finish { final_state: Some(DownloadTaskState::Failed) }),
{
}

/// What each outcome of an image step leads to: a file already there is
/// counted without fetching; a missing one is fetched, then written with the
/// fetched size remembered, then counted together with that size; a failed
/// fetch or write counts nothing.
pub proof fn lemma_img_outcomes(phase: ImgJobPhase, len: usize, fetched: usize)
    ensures
        img_step(phase, len, ImgJobEvent::SavePathChecked { exists: true })
            == (ImgJobPhase::Done, len, ImgJobAction::Finish { counted: true, bytes: None }),
        img_step(phase, len, ImgJobEvent::SavePathChecked { exists: false })
            == (ImgJobPhase::Fetch, len, ImgJobAction::FetchImage),
        img_step(phase, len, ImgJobEvent::Fetched { len: fetched }) == (ImgJobPhase::Write, fetched, ImgJobAction::WriteImage),
        img_step(ImgJobPhase::Write, fetched, ImgJobEvent::Written)
            == (ImgJobPhase::Done, fetched, ImgJobAction::Finish { counted: true, bytes: Some(fetched) }),
        img_step(phase, len, ImgJobEvent::FetchFailed).0 == ImgJobPhase::Done,
        img_step(phase, len, ImgJobEvent::FetchFailed).2 == (ImgJobAction::Finish { counted: false, bytes: None }),
        img_step(phase, len, ImgJobEvent::WriteFailed).0 == ImgJobPhase::Done,
        img_step(phase, len, ImgJobEvent::WriteFailed).2 == (ImgJobAction::Finish { counted: false, bytes: None }),
{
}

/// Which states are alive: exactly `Pending`, `Downloading` and `Paused`;
/// `Cancelled`, `Completed` and `Failed` are finished.
pub proof fn lemma_state_groups()
    ensures
        DownloadTaskState::Pending.spec_is_active(),
        DownloadTaskState::Downloading.spec_is_active(),
        DownloadTaskState::Paused.spec_is_active(),
        DownloadTaskState::Cancelled.spec_is_finished(),
        DownloadTaskState::Completed.spec_is_finished(),
        DownloadTaskState::Failed.spec_is_finished(),
        !DownloadTaskState::Cancelled.spec_is_active(),
        !DownloadTaskState::Completed.spec_is_active(),
        !DownloadTaskState::Failed.spec_is_active(),
        !DownloadTaskState::Pending.spec_is_finished(),
        !DownloadTaskState::Downloading.spec_is_finished(),
        !DownloadTaskState::Paused.spec_is_finished(),
{
}

/// A request to create a task for a comic whose task is `Pending`,
/// `Downloading` or `Paused` changes nothing; for a comic with a finished
/// task or none, it either registers a new `Pending` task, with no image
/// counted, or fails and changes nothing.
pub proof fn lemma_create_by_existing_state<F: Fn(&str) -> String>(
    old: Map<i32, DownloadTask>,
    new: Map<i32, DownloadTask>,
    comic: ComicModel,
    config: DirConfig,
    extension: Seq<char>,
    filter: F,
    res: Result<CreateOutcome, DownloadError>,
)
    requires
        create_relation(old, new, comic, config, extension, filter, res),
    ensures
        old.contains_key(comic.id) && (old[comic.id].state == DownloadTaskState::Pending
            || old[comic.id].state == DownloadTaskState::Downloading || old[comic.id].state
            == DownloadTaskState::Paused) ==> res == Ok::<CreateOutcome, DownloadError>(
            CreateOutcome::AlreadyActive,
        ) && new == old,
        !old.contains_key(comic.id) || old[comic.id].state == DownloadTaskState::Cancelled
            || old[comic.id].state == DownloadTaskState::Completed || old[comic.id].state
            == DownloadTaskState::Failed ==> match res {
            Ok(CreateOutcome::Created) => new.contains_key(comic.id) && new[comic.id].state
                == DownloadTaskState::Pending && new[comic.id].downloaded_img_count == 0
                && new[comic.id].total_img_count == 0 && new[comic.id].loops_running
                && new[comic.id].comic@.title == comic.title && new[comic.id].comic@.id == comic.id,
            Ok(CreateOutcome::AlreadyActive) => false,
            Err(_) => new == old,
        },
{
}

/// Resuming a task that is alive never replaces it; resuming a finished one
/// never leaves it in place as it was unless the new task cannot be made.
pub proof fn lemma_resume_by_state<F: Fn(&str) -> String>(
    old: Map<i32, DownloadTask>,
    new: Map<i32, DownloadTask>,
    id: i32,
    config: DirConfig,
    extension: Seq<char>,
    filter: F,
    res: Result<ResumeOutcome, DownloadError>,
)
    requires
        resume_relation(old, new, id, config, extension, filter, res),
        old.contains_key(id),
    ensures
        old[id].state.spec_is_active() ==> res == Ok::<ResumeOutcome, DownloadError>(
            ResumeOutcome::Requeued,
        ),
        old[id].state.spec_is_active() && old[id].loops_running ==> new[id].state
            == DownloadTaskState::Pending && new[id].comic == old[id].comic
            && new[id].downloaded_img_count == old[id].downloaded_img_count,
        old[id].state.spec_is_finished() ==> res != Ok::<ResumeOutcome, DownloadError>(
            ResumeOutcome::Requeued,
        ),
        old[id].state.spec_is_finished() && res is Ok ==> new[id].state == DownloadTaskState::Pending
            && new[id].downloaded_img_count == 0 && new[id].total_img_count == 0
            && new[id].loops_running,
{
    lemma_active_xor_finished(old[id].state);
}

/// Storing the number of images keeps any count below 2^32 exactly;
/// counting an image adds one to the count of saved images (below
/// `u32::MAX`); neither touches anything else of the task.
pub proof fn lemma_image_counters(task: DownloadTask, count: usize)
    ensures
        count < 0x1_0000_0000 ==> with_total(task, count).total_img_count == count,
        with_total(task, count).total_img_count as int == count as int % 0x1_0000_0000,
        with_total(task, count).downloaded_img_count == task.downloaded_img_count,
        with_total(task, count).state == task.state,
        task.downloaded_img_count < u32::MAX ==> with_image_counted(task).downloaded_img_count
            == task.downloaded_img_count + 1,
        task.downloaded_img_count == u32::MAX ==> with_image_counted(task).downloaded_img_count == 0,
        with_image_counted(task).total_img_count == task.total_img_count,
        with_image_counted(task).state == task.state,
{
    assert((count as u32) as int == count as int % 0x1_0000_0000) by (bit_vector);
}

/// The file name of the image at `index`: a numeral of at least four digits
/// that reads as `index + 1`, a dot, and the extension; exactly four digits
/// below ten thousand images.
pub proof fn lemma_img_file_name_parts(index: nat, extension: Seq<char>)
    ensures
        ({
            let name = img_file_name_spec(index, extension);
            let digits = name.take(name.len() - extension.len() - 1);
            &&& name.len() >= 5 + extension.len()
            &&& name.skip(name.len() - extension.len()) == extension
            &&& name[name.len() - extension.len() - 1] == '.'
            &&& all_digits(digits)
            &&& digits_value(digits) == index + 1
            &&& index + 1 < 10000 ==> name.len() == 5 + extension.len()
        }),
{
    let d = decimal(index + 1);
    lemma_decimal_digits(index + 1);
    lemma_decimal_len(index + 1);
    let a = zero_pad(d, 4);
    if d.len() < 4 {
        lemma_leading_zeros((4 - d.len()) as nat, d);
    }
    assert(all_digits(a)) by {
        assert forall|k: int| 0 <= k < a.len() implies '0' <= #[trigger] a[k] <= '9' by {
            if d.len() < 4 && k >= 4 - d.len() {
                assert(a[k] == d[k - (4 - d.len())]);
            }
        }
    }
    let name = img_file_name_spec(index, extension);
    assert(name == a + seq!['.'] + extension);
    assert(name.take(name.len() - extension.len() - 1) =~= a);
    assert(name.skip(name.len() - extension.len()) =~= extension);
}

/// A numeral of a number below ten thousand has at most four digits.
proof fn lemma_decimal_len(n: nat)
    ensures
        n < 10 ==> decimal(n).len() <= 1,
        n < 100 ==> decimal(n).len() <= 2,
        n < 1000 ==> decimal(n).len() <= 3,
        n < 10000 ==> decimal(n).len() <= 4,
        decimal(n).len() >= 1,
    decreases n,
{
    if n >= 10 {
        lemma_decimal_len(n / 10);
    }
}

/// Splitting on `sep` keeps the text: the pieces contain no `sep`, and
/// joining them with `sep` gives the text back.
pub proof fn lemma_split_rejoins(s: Seq<char>, sep: char)
    ensures
        joined(split_on(s, sep), seq![sep]) == s,
        forall|i: int, k: int|
            0 <= i < split_on(s, sep).len() && 0 <= k < split_on(s, sep)[i].len() ==> #[trigger] split_on(
                s,
                sep,
            )[i][k] != sep,
    decreases s.len(),
{
    lemma_split_on_nonempty(s, sep);
    if s.len() > 0 {
        let prev = s.drop_last();
        lemma_split_rejoins(prev, sep);
        lemma_split_on_nonempty(prev, sep);
        let parts = split_on(prev, sep);
        if s.last() == sep {
            let now = parts.push(seq![]);
            assert(now.drop_last() =~= parts);
            assert(joined(now, seq![sep]) == joined(parts, seq![sep]) + seq![sep] + seq![]);
            assert(s =~= prev + seq![sep] + Seq::<char>::empty());
        } else {
            let last = parts.last().push(s.last());
            let now = parts.update(parts.len() - 1, last);
            assert(last.take(parts.last().len() as int) =~= parts.last());
            lemma_joined_update_last(parts, seq![sep], last);
            assert(last.skip(parts.last().len() as int) =~= seq![s.last()]);
            assert(joined(now, seq![sep]) =~= joined(parts, seq![sep]).push(s.last()));
            assert(s =~= prev.push(s.last()));
            assert forall|i: int, k: int|
                0 <= i < now.len() && 0 <= k < now[i].len() implies #[trigger] now[i][k] != sep by {
                if i < parts.len() - 1 {
                    assert(now[i] == parts[i]);
                } else if k < parts.last().len() {
                    assert(now[i][k] == parts[parts.len() - 1][k]);
                }
            }
        }
    }
}

/// Changing the last item appends what is added to it.
proof fn lemma_joined_update_last(items: Seq<Seq<char>>, sep: Seq<char>, last: Seq<char>)
    requires
        items.len() >= 1,
        last.len() >= items.last().len(),
        last.take(items.last().len() as int) == items.last(),
    ensures
        joined(items.update(items.len() - 1, last), sep) == joined(items, sep) + last.skip(
            items.last().len() as int,
        ),
{
    let now = items.update(items.len() - 1, last);
    let tail = last.skip(items.last().len() as int);
    assert(last =~= items.last() + tail);
    if items.len() == 1 {
        assert(joined(now, sep) == now[0]);
    } else {
        assert(now.drop_last() =~= items.drop_last());
        assert(joined(now, sep) == joined(items.drop_last(), sep) + sep + last);
        assert(joined(items, sep) == joined(items.drop_last(), sep) + sep + items.last());
    }
}

/// Appending a path component: a component starting with `/` replaces the
/// path; otherwise the path is kept in front, with exactly one `/` between
/// the two unless the path is empty.
pub proof fn lemma_path_pushed(base: Seq<char>, name: Seq<char>)
    ensures
        name.len() > 0 && name[0] == '/' ==> path_pushed(base, name) == name,
        !(name.len() > 0 && name[0] == '/') ==> path_pushed(base, name).skip(
            path_pushed(base, name).len() - name.len(),
        ) == name && path_pushed(base, name).take(base.len() as int) == base,
        !(name.len() > 0 && name[0] == '/') && base.len() > 0 && base.last() != '/' ==> path_pushed(
            base,
            name,
        ).len() == base.len() + 1 + name.len() && path_pushed(base, name)[base.len() as int] == '/',
        !(name.len() > 0 && name[0] == '/') && (base.len() == 0 || base.last() == '/') ==> path_pushed(
            base,
            name,
        ).len() == base.len() + name.len(),
{
    let r = path_pushed(base, name);
    if !(name.len() > 0 && name[0] == '/') {
        assert(r.skip(r.len() - name.len()) =~= name);
        assert(r.take(base.len() as int) =~= base);
    }
}

/// The directory of a list of names: empty names leave it as it is, and
/// each other name is appended as a path component, in order.
pub proof fn lemma_dir_from_names(base: Seq<char>, names: Seq<Seq<char>>, name: Seq<char>)
    ensures
        dir_from_names(base, seq![]) == base,
        name.len() == 0 ==> dir_from_names(base, names.push(name)) == dir_from_names(base, names),
        name.len() > 0 ==> dir_from_names(base, names.push(name)) == path_pushed(
            dir_from_names(base, names),
            name,
        ),
{
    assert(names.push(name).drop_last() =~= names);
}

} // verus!
