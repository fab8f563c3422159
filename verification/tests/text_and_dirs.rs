use hitomi_downloader::dir_fmt::{dir_from_formatted, push_path, Comic, DirConfig, DirFmtParams};
use hitomi_downloader::task::{files_to_remove, save_file_names, DownloadImgTask, DownloadTask};
use hitomi_downloader::text::{
    i32_to_decimal, img_file_name, join_strings, shorten, split_string, u64_to_decimal,
};
use hitomi_downloader::DownloadError;

fn comic(id: i32, title: &str, artists: &[&str], tags: &[&str]) -> Comic {
    Comic {
        id,
        title: title.to_string(),
        language: "japanese".to_string(),
        language_localname: "日本語".to_string(),
        type_label: "doujinshi".to_string(),
        artists: artists.iter().map(|s| s.to_string()).collect(),
        tag_labels: tags.iter().map(|s| s.to_string()).collect(),
        comic_download_dir: None,
    }
}

fn config(download_dir: &str, dir_fmt: &str) -> DirConfig {
    DirConfig { download_dir: download_dir.to_string(), dir_fmt: dir_fmt.to_string() }
}

#[test]
fn decimal_numerals() {
    assert_eq!(u64_to_decimal(0), "0");
    assert_eq!(u64_to_decimal(7), "7");
    assert_eq!(u64_to_decimal(1024), "1024");
    assert_eq!(u64_to_decimal(u64::MAX), u64::MAX.to_string());
    assert_eq!(i32_to_decimal(0), "0");
    assert_eq!(i32_to_decimal(-42), "-42");
    assert_eq!(i32_to_decimal(2417065), "2417065");
    assert_eq!(i32_to_decimal(i32::MIN), "-2147483648");
    assert_eq!(i32_to_decimal(i32::MAX), "2147483647");
}

#[test]
fn joining_lists() {
    let empty: Vec<String> = vec![];
    assert_eq!(join_strings(&empty, ", "), "");
    assert_eq!(join_strings(&vec!["a".to_string()], ", "), "a");
    assert_eq!(
        join_strings(&vec!["a".to_string(), "b".to_string(), "c".to_string()], ", "),
        "a, b, c"
    );
}

#[test]
fn shortening_long_tag_lists() {
    let exactly_100: String = "x".repeat(100);
    assert_eq!(shorten(exactly_100.clone()), exactly_100);
    let long: String = "y".repeat(101);
    let shortened = shorten(long);
    assert_eq!(shortened, format!("{}...", "y".repeat(97)));
    assert_eq!(shortened.chars().count(), 100);
    // counted in characters, not bytes
    let wide: String = "漢".repeat(100);
    assert_eq!(shorten(wide.clone()), wide);
    let wider: String = "漢".repeat(120);
    assert_eq!(shorten(wider), format!("{}...", "漢".repeat(97)));
}

#[test]
fn splitting_on_slash() {
    assert_eq!(split_string("{artists}/{title}", '/'), vec!["{artists}", "{title}"]);
    assert_eq!(split_string("", '/'), vec![""]);
    assert_eq!(split_string("a//b/", '/'), vec!["a", "", "b", ""]);
    assert_eq!(split_string("单/双", '/'), vec!["单", "双"]);
    assert_eq!(
        split_string("a//b/", '/'),
        "a//b/".split('/').map(|s| s.to_string()).collect::<Vec<_>>()
    );
}

#[test]
fn image_file_names() {
    assert_eq!(img_file_name(0, "webp"), "0001.webp");
    assert_eq!(img_file_name(41, "avif"), "0042.avif");
    assert_eq!(img_file_name(9998, "webp"), "9999.webp");
    assert_eq!(img_file_name(9999, "webp"), "10000.webp");
    assert_eq!(img_file_name(122, "webp"), format!("{:04}.{}", 123, "webp"));
    assert_eq!(save_file_names(3, "webp"), vec!["0001.webp", "0002.webp", "0003.webp"]);
    assert!(save_file_names(0, "webp").is_empty());
}

#[test]
fn cleaning_keeps_only_current_files() {
    let entries = vec![
        "0001.avif".to_string(),
        "0001.webp".to_string(),
        "0002.avif".to_string(),
        "notes.txt".to_string(),
        "0002.webp".to_string(),
    ];
    let keep = save_file_names(2, "webp");
    assert_eq!(files_to_remove(&entries, &keep), vec!["0001.avif", "0002.avif", "notes.txt"]);
    assert!(files_to_remove(&keep, &keep).is_empty());
}

#[test]
fn pushing_path_components() {
    let mut p = "downloads".to_string();
    push_path(&mut p, "artist");
    assert_eq!(p, "downloads/artist");
    let mut q = "downloads/".to_string();
    push_path(&mut q, "artist");
    assert_eq!(q, "downloads/artist");
    let mut r = String::new();
    push_path(&mut r, "artist");
    assert_eq!(r, "artist");
    let mut abs = "downloads".to_string();
    push_path(&mut abs, "/root");
    assert_eq!(abs, "/root");
    assert_eq!(
        std::path::PathBuf::from("downloads").join("artist").to_str().unwrap(),
        "downloads/artist"
    );
}

#[test]
fn format_values_of_a_comic() {
    let long_tags: Vec<String> = (0..40).map(|i| format!("tag{i}")).collect();
    let tag_refs: Vec<&str> = long_tags.iter().map(|s| s.as_str()).collect();
    let c = comic(-5, "Title", &["A", "B"], &tag_refs);
    let params = DirFmtParams::from_comic(&c);
    assert_eq!(params.artists, "A, B");
    let full = long_tags.join(", ");
    assert!(full.chars().count() > 100);
    assert_eq!(params.tags, format!("{}...", full.chars().take(97).collect::<String>()));
    let vars = params.vars();
    let keys: Vec<&str> = vars.iter().map(|(k, _)| k.as_str()).collect();
    assert_eq!(keys, vec!["id", "title", "language", "language_localname", "type", "artists", "tags"]);
    assert_eq!(vars[0].1, "-5");
    assert_eq!(vars[4].1, "doujinshi");
}

#[test]
fn download_dir_from_format() {
    let c = comic(2417065, "My Title", &["Alice", "Bob"], &["tag a", "tag b"]);
    let params = DirFmtParams::from_comic(&c);
    let dir = Comic::get_comic_download_dir_by_fmt(
        &config("/data/downloads", "{artists}/{title} ({id})"),
        &params,
        |s: &str| s.to_string(),
    )
    .unwrap();
    assert_eq!(dir, "/data/downloads/Alice, Bob/My Title (2417065)");
}

#[test]
fn empty_directory_names_are_skipped() {
    let c = comic(1, "T", &[], &[]);
    let params = DirFmtParams::from_comic(&c);
    // the artists list is empty, and so is the part between the two slashes
    let dir = Comic::get_comic_download_dir_by_fmt(
        &config("d", "{artists}//{type}/{title}"),
        &params,
        |s: &str| s.to_string(),
    )
    .unwrap();
    assert_eq!(dir, "d/doujinshi/T");
}

#[test]
fn the_name_filter_is_applied_to_each_part() {
    let c = comic(1, "a:b", &["x"], &[]);
    let params = DirFmtParams::from_comic(&c);
    let dir = Comic::get_comic_download_dir_by_fmt(
        &config("d", "{artists}/{title}"),
        &params,
        |s: &str| s.replace(':', "_"),
    )
    .unwrap();
    assert_eq!(dir, "d/x/a_b");
    let dropped = Comic::get_comic_download_dir_by_fmt(
        &config("d", "{artists}/{title}"),
        &params,
        |s: &str| if s == "x" { String::new() } else { s.to_string() },
    )
    .unwrap();
    assert_eq!(dropped, "d/a:b");
}

#[test]
fn an_unknown_key_is_an_error() {
    let c = comic(9, "T", &[], &[]);
    let params = DirFmtParams::from_comic(&c);
    let res = Comic::get_comic_download_dir_by_fmt(
        &config("d", "{title}/{unknown}/{also_unknown}"),
        &params,
        |s: &str| s.to_string(),
    );
    match res {
        Err(DownloadError::DirFormat { id, fmt_part, .. }) => {
            assert_eq!(id, 9);
            assert_eq!(fmt_part, "{unknown}");
        }
        other => panic!("unexpected {other:?}"),
    }
    let unbalanced = Comic::get_comic_download_dir_by_fmt(
        &config("d", "{title"),
        &params,
        |s: &str| s.to_string(),
    );
    assert!(matches!(unbalanced, Err(DownloadError::DirFormat { .. })));
}

#[test]
fn updating_the_comic_directory() {
    let mut c = comic(3, "T", &["A"], &[]);
    c.update_dir_name_fields_by_fmt(&config("d", "{artists}/{title}"), |s: &str| s.to_string())
        .unwrap();
    assert_eq!(c.comic_download_dir.as_deref(), Some("d/A/T"));
    let mut bad = comic(4, "T", &["A"], &[]);
    assert!(bad
        .update_dir_name_fields_by_fmt(&config("d", "{nope}"), |s: &str| s.to_string())
        .is_err());
    assert_eq!(bad.comic_download_dir, None);
}

#[test]
fn image_save_path() {
    let task = DownloadTask::new(
        comic(5, "T", &[], &[]),
        &config("d", "{title}"),
        "webp",
        7,
        |s: &str| s.to_string(),
    )
    .unwrap();
    assert_eq!(task.run, 7);
    assert!(task.loops_running);
    assert_eq!(task.state, hitomi_downloader::DownloadTaskState::Pending);
    let img = DownloadImgTask::new(&task, "https://x/1.webp".to_string(), "d/.T.tmp".to_string(), 2);
    assert_eq!(img.comic_id, 5);
    assert_eq!(img.save_path(&task.extension), "d/.T.tmp/0003.webp");
}

#[test]
fn format_values_compare_and_copy() {
    let d = DirFmtParams::default();
    assert_eq!(d.id, 0);
    assert!(d.title.is_empty() && d.tags.is_empty());
    let c = comic(1, "T", &["A"], &["x"]);
    let p = DirFmtParams::from_comic(&c);
    let q = p.clone();
    assert!(p == q);
    let mut r = p.clone();
    r.tags = "y".to_string();
    assert!(p != r);
    assert!(d != p);
}

#[test]
fn every_image_has_its_own_file() {
    let names = save_file_names(20000, "webp");
    let distinct: std::collections::HashSet<&String> = names.iter().collect();
    assert_eq!(distinct.len(), 20000);
    assert_eq!(names[9999], "10000.webp");
}

#[test]
fn directory_from_formatted_parts() {
    let parts = vec!["Alice".to_string(), String::new(), "a:b".to_string(), "x".to_string()];
    assert_eq!(dir_from_formatted("d", &parts, |s: &str| s.to_string()), "d/Alice/a:b/x");
    assert_eq!(dir_from_formatted("d/", &parts, |s: &str| s.replace(':', "_")), "d/Alice/a_b/x");
    assert_eq!(
        dir_from_formatted("d", &parts, |s: &str| if s == "x" { String::new() } else { s.to_string() }),
        "d/Alice/a:b"
    );
    let none: Vec<String> = vec![];
    assert_eq!(dir_from_formatted("d", &none, |s: &str| s.to_string()), "d");
}
