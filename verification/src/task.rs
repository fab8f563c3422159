//! One comic download task: its record, the files its images are saved as,
//! and the sequence of steps that downloads the comic.
use vstd::prelude::*;

use crate::dir_fmt::{
    fmt_params_of, is_dir_by_fmt, is_first_failing_part, path_pushed, push_path, Comic, ComicModel,
    DirConfig,
};
use crate::error::DownloadError;
use crate::state::DownloadTaskState;
use crate::text::{img_file_name, img_file_name_spec, texts};

verus! {

impl Clone for Comic {
    fn clone(&self) -> (res: Self)
        ensures
            res@ == self@,
    {
        let artists = self.artists.clone();
        let tag_labels = self.tag_labels.clone();
        assert(artists@ =~= self.artists@);
        assert(tag_labels@ =~= self.tag_labels@);
        let comic_download_dir = match &self.comic_download_dir {
            Some(dir) => Some(dir.clone()),
            None => None,
        };
        Comic {
            id: self.id,
            title: self.title.clone(),
            language: self.language.clone(),
            language_localname: self.language_localname.clone(),
            type_label: self.type_label.clone(),
            artists,
            tag_labels,
            comic_download_dir,
        }
    }
}

/// The record of one comic download.
#[derive(Debug)]
pub struct DownloadTask {
    pub comic: Comic,
    pub state: DownloadTaskState,
    /// Images saved so far (counted with wrap-around, as a `u32` counter).
    pub downloaded_img_count: u32,
    /// Images the comic has.
    pub total_img_count: u32,
    /// The file extension of the download format the task was created with.
    pub extension: String,
    /// Whether the task's loops still run. A state can only be handed to a
    /// task through its loops: once they have ended, the task keeps the
    /// state it has.
    pub loops_running: bool,
    /// Which of the tasks created in the table this is; the loops of a
    /// replaced task for the same comic carry a different value.
    pub run: u64,
}


/// `task` is a fresh task for `comic`: its directory is one that the
/// configuration gives for the comic, it is `Pending`, no image is counted
/// yet, it uses `extension`, and its loops are taken to run (they are started
/// together with the task).
pub open spec fn is_new_task<F: Fn(&str) -> String>(
    task: DownloadTask,
    comic: ComicModel,
    config: DirConfig,
    extension: Seq<char>,
    filter: F,
) -> bool {
    &&& task.comic@.comic_download_dir matches Some(dir)
    &&& is_dir_by_fmt(config, fmt_params_of(comic), filter, dir)
    &&& task.comic@ == ComicModel { comic_download_dir: Some(dir), ..comic }
    &&& task.state == DownloadTaskState::Pending
    &&& task.downloaded_img_count == 0
    &&& task.total_img_count == 0
    &&& task.extension@ == extension
    &&& task.loops_running
}

/// `e` is the error reported when the directory of `comic` cannot be formatted.
pub open spec fn is_dir_error(e: DownloadError, comic: ComicModel, config: DirConfig) -> bool {
    match e {
        DownloadError::DirFormat { id, fmt_part, .. } => id == comic.id && is_first_failing_part(
            config,
            fmt_params_of(comic),
            fmt_part@,
        ),
        _ => false,
    }
}

impl DownloadTask {
    /// A new task for `comic`, started under the number `run`: computes the
    /// comic's download directory, and starts `Pending` with no image counted.
    pub fn new<F: Fn(&str) -> String>(
        comic: Comic,
        config: &DirConfig,
        extension: &str,
        run: u64,
        filter: F,
    ) -> (res: Result<DownloadTask, DownloadError>)
        requires
            forall|s: &str| call_requires(filter, (s,)),
        ensures
            match res {
                Ok(task) => is_new_task(task, comic@, *config, extension@, filter) && task.run == run,
                Err(e) => is_dir_error(e, comic@, *config),
            },
    {
        let mut comic = comic;
        comic.update_dir_name_fields_by_fmt(config, filter)?;
        Ok(DownloadTask {
            comic,
            state: DownloadTaskState::Pending,
            downloaded_img_count: 0,
            total_img_count: 0,
            extension: extension.to_owned(),
            loops_running: true,
            run,
        })
    }
}

/// The file names of `count` images, in order.
pub open spec fn save_file_names_spec(count: nat, extension: Seq<char>) -> Seq<Seq<char>> {
    Seq::new(count, |i: int| img_file_name_spec(i as nat, extension))
}

/// The file names the images of a comic are saved as: `0001.<ext>`,
/// `0002.<ext>`, ... one per image.
pub fn save_file_names(count: usize, extension: &str) -> (res: Vec<String>)
    ensures
        texts(res@) == save_file_names_spec(count as nat, extension@),
{
    let mut res: Vec<String> = Vec::new();
    for i in 0..count
        invariant
            res.len() == i,
            texts(res@) == save_file_names_spec(i as nat, extension@),
    {
        let name = img_file_name(i, extension);
        let ghost prev = res@;
        res.push(name);
        assert(res@ == prev.push(name));
        assert forall|j: int| 0 <= j < i + 1 implies #[trigger] texts(res@)[j] == save_file_names_spec((i + 1) as nat, extension@)[j] by {
            if j < i {
                assert(res@[j] == prev[j]);
                assert(texts(prev)[j] == save_file_names_spec(i as nat, extension@)[j]);
            } else {
                assert(texts(res@)[j] == name@);
            }
        }
        assert(texts(res@) =~= save_file_names_spec((i + 1) as nat, extension@));
    }
    res
}

/// The entries of a temporary download directory that are not among the
/// files to keep, in their order.
pub open spec fn files_to_remove_spec(entries: Seq<Seq<char>>, keep: Seq<Seq<char>>) -> Seq<Seq<char>> {
    entries.filter(|e: Seq<char>| !keep.contains(e))
}

fn contains_text(items: &Vec<String>, s: &String) -> (res: bool)
    ensures
        res == texts(items@).contains(s@),
{
    let n = items.len();
    for i in 0..n
        invariant
            n == items.len(),
            forall|j: int| 0 <= j < i ==> items@[j]@ != s@,
    {
        if items[i] == *s {
            assert(texts(items@)[i as int] == s@);
            return true;
        }
    }
    assert(!texts(items@).contains(s@)) by {
        if texts(items@).contains(s@) {
            let j = choose|j: int| 0 <= j < texts(items@).len() && texts(items@)[j] == s@;
            assert(items@[j]@ == s@);
        }
    }
    false
}

/// The entries (file names) of the temporary download directory to delete:
/// those that are not files of the current download.
pub fn files_to_remove(entries: &Vec<String>, keep: &Vec<String>) -> (res: Vec<String>)
    ensures
        texts(res@) == files_to_remove_spec(texts(entries@), texts(keep@)),
{
    let mut res: Vec<String> = Vec::new();
    let n = entries.len();
    for i in 0..n
        invariant
            n == entries.len(),
            texts(res@) == files_to_remove_spec(texts(entries@).take(i as int), texts(keep@)),
    {
        let ghost pred = |e: Seq<char>| !texts(keep@).contains(e);
        assert(texts(entries@).take(i + 1) =~= texts(entries@).take(i as int).push(entries@[i as int]@));
        reveal_with_fuel(Seq::filter, 1);
        assert(texts(entries@).take(i + 1).drop_last() =~= texts(entries@).take(i as int));
        if !contains_text(keep, &entries[i]) {
            res.push(entries[i].clone());
            assert(texts(res@) =~= files_to_remove_spec(texts(entries@).take(i as int), texts(keep@)).push(entries@[i as int]@));
        } else {
            assert(texts(res@) =~= files_to_remove_spec(texts(entries@).take(i + 1), texts(keep@)));
        }
    }
    assert(texts(entries@).take(n as int) =~= texts(entries@));
    res
}

/// The download of one image of a comic.
#[derive(Debug)]
pub struct DownloadImgTask {
    /// The id of the comic the image belongs to.
    pub comic_id: i32,
    pub url: String,
    /// The directory the image is saved into while the comic downloads.
    pub temp_download_dir: String,
    /// The position of the image in the comic, counted from 0.
    pub index: usize,
}

impl DownloadImgTask {
    pub fn new(download_task: &DownloadTask, url: String, temp_download_dir: String, index: usize) -> (res: DownloadImgTask)
        ensures
            res.comic_id == download_task.comic.id,
            res.url == url,
            res.temp_download_dir == temp_download_dir,
            res.index == index,
    {
        DownloadImgTask { comic_id: download_task.comic.id, url, temp_download_dir, index }
    }

    /// The path the image is saved as: its file name (see `img_file_name`)
    /// in the temporary download directory.
    pub fn save_path(&self, extension: &str) -> (res: String)
        requires
            self.index < usize::MAX,
        ensures
            res@ == path_pushed(self.temp_download_dir@, img_file_name_spec(self.index as nat, extension@)),
    {
        let mut res = self.temp_download_dir.clone();
        let name = img_file_name(self.index, extension);
        push_path(&mut res, name.as_str());
        res
    }
}

} // verus!
