//! The directory a comic is downloaded into, computed from the configured
//! download directory and the `/`-separated directory name format.
use vstd::prelude::*;
use vstd::string::StringExecFns;
use vstd::std_specs::cmp::PartialEqSpecImpl;
use vstd::string::StrSliceExecFns;

use crate::error::DownloadError;
use crate::text::{
    i32_to_decimal, join_strings, joined, shorten, shortened, signed_decimal, split_on,
    split_string, texts,
};

verus! {

/// What `strfmt::strfmt` gives for a format and a set of variables (given as
/// key/value pairs, later pairs winning over earlier ones with the same key):
/// `Some(text)` when it formats, `None` when it reports an error.
pub uninterp spec fn strfmt_output(fmt: Seq<char>, vars: Seq<(Seq<char>, Seq<char>)>) -> Option<Seq<char>>;

/// The texts of key/value pairs.
pub open spec fn pair_texts(vars: Seq<(String, String)>) -> Seq<(Seq<char>, Seq<char>)> {
    vars.map_values(|p: (String, String)| (p.0@, p.1@))
}

/// Formats `fmt` with the variables `vars` through `strfmt::strfmt`, after
/// collecting the pairs into a `HashMap<String, String>`.
/// Claims only that the outcome is the named result `strfmt_output` of the
/// format and the pairs: `strfmt` reads nothing but its two arguments. What
/// the text is for a given format is left unsaid (format specifiers with
/// fill, alignment, width and precision take pages). A width in the format is
/// written out in full, so a format asking for billions of characters
/// exhausts memory; the claim is about the calls that return.
#[verifier::external_body]
fn strfmt_with(fmt: &str, vars: &Vec<(String, String)>) -> (res: Result<String, strfmt::FmtError>)
    ensures
        match res {
            Ok(s) => strfmt_output(fmt@, pair_texts(vars@)) == Some(s@),
            Err(_) => strfmt_output(fmt@, pair_texts(vars@)) is None,
        },
{
    let map: std::collections::HashMap<String, String> = vars.iter().cloned().collect();
    strfmt::strfmt(fmt, &map)
}

/// The values a directory name format can use, under the keys `id`, `title`,
/// `language`, `language_localname`, `type`, `artists` and `tags`.
#[derive(Debug)]
pub struct DirFmtParams {
    pub id: i32,
    pub title: String,
    pub language: String,
    pub language_localname: String,
    pub type_field: String,
    pub artists: String,
    pub tags: String,
}

/// The parts of a comic that the download logic reads.
#[derive(Debug)]
pub struct Comic {
    pub id: i32,
    pub title: String,
    pub language: String,
    pub language_localname: String,
    /// The comic's type as shown in the configured language.
    pub type_label: String,
    pub artists: Vec<String>,
    /// Each tag of the comic as shown in the configured language.
    pub tag_labels: Vec<String>,
    /// Where the finished download is kept; set when a task is created.
    pub comic_download_dir: Option<String>,
}

/// The texts of a `Comic`.
pub struct ComicModel {
    pub id: i32,
    pub title: Seq<char>,
    pub language: Seq<char>,
    pub language_localname: Seq<char>,
    pub type_label: Seq<char>,
    pub artists: Seq<Seq<char>>,
    pub tag_labels: Seq<Seq<char>>,
    pub comic_download_dir: Option<Seq<char>>,
}

/// The text of an optional string.
pub open spec fn opt_text(s: Option<String>) -> Option<Seq<char>> {
    match s {
        Some(s) => Some(s@),
        None => None,
    }
}

impl View for Comic {
    type V = ComicModel;

    open spec fn view(&self) -> ComicModel {
        ComicModel {
            id: self.id,
            title: self.title@,
            language: self.language@,
            language_localname: self.language_localname@,
            type_label: self.type_label@,
            artists: texts(self.artists@),
            tag_labels: texts(self.tag_labels@),
            comic_download_dir: opt_text(self.comic_download_dir),
        }
    }
}

/// The settings the download directory is computed from.
#[derive(Debug)]
pub struct DirConfig {
    /// The directory all downloads go under.
    pub download_dir: String,
    /// The `/`-separated format of the directory names below it, such as
    /// `"{artists}/{title}"`.
    pub dir_fmt: String,
}

/// The format values of a comic: artists joined with `", "`, tags joined with
/// `", "` and shortened to at most 100 characters.
pub open spec fn fmt_params_of(comic: ComicModel) -> DirFmtParamsModel {
    DirFmtParamsModel {
        id: comic.id,
        title: comic.title,
        language: comic.language,
        language_localname: comic.language_localname,
        type_field: comic.type_label,
        artists: joined(comic.artists, ", "@),
        tags: shortened(joined(comic.tag_labels, ", "@)),
    }
}

/// The texts of `DirFmtParams`.
pub struct DirFmtParamsModel {
    pub id: i32,
    pub title: Seq<char>,
    pub language: Seq<char>,
    pub language_localname: Seq<char>,
    pub type_field: Seq<char>,
    pub artists: Seq<char>,
    pub tags: Seq<char>,
}

impl View for DirFmtParams {
    type V = DirFmtParamsModel;

    open spec fn view(&self) -> DirFmtParamsModel {
        DirFmtParamsModel {
            id: self.id,
            title: self.title@,
            language: self.language@,
            language_localname: self.language_localname@,
            type_field: self.type_field@,
            artists: self.artists@,
            tags: self.tags@,
        }
    }
}

/// The key/value pairs a directory format is filled from, in field order;
/// the id is written in decimal.
pub open spec fn fmt_vars(p: DirFmtParamsModel) -> Seq<(Seq<char>, Seq<char>)> {
    seq![
        ("id"@, signed_decimal(p.id as int)),
        ("title"@, p.title),
        ("language"@, p.language),
        ("language_localname"@, p.language_localname),
        ("type"@, p.type_field),
        ("artists"@, p.artists),
        ("tags"@, p.tags),
    ]
}

impl Default for DirFmtParams {
    /// Id 0 and empty texts.
    fn default() -> (res: DirFmtParams)
        ensures
            res@ == (DirFmtParamsModel {
                id: 0,
                title: seq![],
                language: seq![],
                language_localname: seq![],
                type_field: seq![],
                artists: seq![],
                tags: seq![],
            }),
    {
        DirFmtParams {
            id: 0,
            title: String::new(),
            language: String::new(),
            language_localname: String::new(),
            type_field: String::new(),
            artists: String::new(),
            tags: String::new(),
        }
    }
}

impl Clone for DirFmtParams {
    fn clone(&self) -> (res: DirFmtParams)
        ensures
            res@ == self@,
    {
        DirFmtParams {
            id: self.id,
            title: self.title.clone(),
            language: self.language.clone(),
            language_localname: self.language_localname.clone(),
            type_field: self.type_field.clone(),
            artists: self.artists.clone(),
            tags: self.tags.clone(),
        }
    }
}

impl PartialEq for DirFmtParams {
    fn eq(&self, other: &DirFmtParams) -> (res: bool) {
        self.id == other.id && self.title == other.title && self.language == other.language
            && self.language_localname == other.language_localname
            && self.type_field == other.type_field && self.artists == other.artists
            && self.tags == other.tags
    }
}

impl PartialEqSpecImpl for DirFmtParams {
    open spec fn obeys_eq_spec() -> bool {
        true
    }

    /// Equal when every field holds the same value.
    open spec fn eq_spec(&self, other: &DirFmtParams) -> bool {
        self@ == other@
    }
}

impl DirFmtParams {
    /// The format values of `comic`.
    pub fn from_comic(comic: &Comic) -> (res: DirFmtParams)
        ensures
            res@ == fmt_params_of(comic@),
    {
        let tags = shorten(join_strings(&comic.tag_labels, ", "));
        DirFmtParams {
            id: comic.id,
            title: comic.title.clone(),
            language: comic.language.clone(),
            language_localname: comic.language_localname.clone(),
            type_field: comic.type_label.clone(),
            artists: join_strings(&comic.artists, ", "),
            tags,
        }
    }

    /// The key/value pairs that a directory format is filled from.
    pub fn vars(&self) -> (res: Vec<(String, String)>)
        ensures
            pair_texts(res@) == fmt_vars(self@),
    {
        let mut res: Vec<(String, String)> = Vec::new();
        res.push((String::from_str("id"), i32_to_decimal(self.id)));
        res.push((String::from_str("title"), self.title.clone()));
        res.push((String::from_str("language"), self.language.clone()));
        res.push((String::from_str("language_localname"), self.language_localname.clone()));
        res.push((String::from_str("type"), self.type_field.clone()));
        res.push((String::from_str("artists"), self.artists.clone()));
        res.push((String::from_str("tags"), self.tags.clone()));
        assert(pair_texts(res@) =~= fmt_vars(self@));
        res
    }
}


/// `base` with the path component `name` appended, as `PathBuf::push` does on
/// Unix: a name starting with `/` replaces the path; otherwise a `/` is put
/// between them unless `base` is empty or already ends with `/`.
pub open spec fn path_pushed(base: Seq<char>, name: Seq<char>) -> Seq<char> {
    if name.len() > 0 && name[0] == '/' {
        name
    } else if base.len() == 0 || base.last() == '/' {
        base + name
    } else {
        base + seq!['/'] + name
    }
}

/// `base` with each non-empty name of `names` appended in turn; empty names
/// are skipped.
pub open spec fn dir_from_names(base: Seq<char>, names: Seq<Seq<char>>) -> Seq<char>
    decreases names.len(),
{
    if names.len() == 0 {
        base
    } else {
        let prefix = dir_from_names(base, names.drop_last());
        if names.last().len() == 0 {
            prefix
        } else {
            path_pushed(prefix, names.last())
        }
    }
}

/// `filter`, called with a text equal to `input`, may give a text equal to `output`.
pub open spec fn filter_gives<F: Fn(&str) -> String>(filter: F, input: Seq<char>, output: Seq<char>) -> bool {
    exists|a: &str, b: String| a@ == input && b@ == output && call_ensures(filter, (a,), b)
}

/// `outputs` is what `filter` may give for each of `inputs`, in order.
pub open spec fn filtered_by<F: Fn(&str) -> String>(
    filter: F,
    inputs: Seq<Seq<char>>,
    outputs: Seq<Seq<char>>,
) -> bool {
    &&& inputs.len() == outputs.len()
    &&& forall|i: int| 0 <= i < inputs.len() ==> #[trigger] filter_gives(filter, inputs[i], outputs[i])
}

/// The parts of the directory format, split at `/`.
pub open spec fn fmt_parts(config: DirConfig) -> Seq<Seq<char>> {
    split_on(config.dir_fmt@, '/')
}

/// Whether each part of the format, up to (not including) `n`, can be filled
/// from `vars`.
pub open spec fn parts_format(parts: Seq<Seq<char>>, vars: Seq<(Seq<char>, Seq<char>)>, n: int) -> bool {
    forall|i: int| 0 <= i < n ==> #[trigger] strfmt_output(parts[i], vars) is Some
}

/// The filled-in parts of the format.
pub open spec fn formatted_parts(parts: Seq<Seq<char>>, vars: Seq<(Seq<char>, Seq<char>)>) -> Seq<Seq<char>> {
    parts.map_values(|p: Seq<char>| strfmt_output(p, vars)->0)
}

/// `dir` is a download directory that the configuration, the format values
/// and the name filter give: every part of the format fills in, the filter
/// turns each filled-in part into a directory name, and `dir` is the download
/// directory with the non-empty names appended.
pub open spec fn is_dir_by_fmt<F: Fn(&str) -> String>(
    config: DirConfig,
    params: DirFmtParamsModel,
    filter: F,
    dir: Seq<char>,
) -> bool {
    let parts = fmt_parts(config);
    let vars = fmt_vars(params);
    &&& parts_format(parts, vars, parts.len() as int)
    &&& is_dir_from_formatted(config.download_dir@, formatted_parts(parts, vars), filter, dir)
}

/// `part` is the first part of the format that does not fill in.
pub open spec fn is_first_failing_part(config: DirConfig, params: DirFmtParamsModel, part: Seq<char>) -> bool {
    let parts = fmt_parts(config);
    let vars = fmt_vars(params);
    exists|i: int|
        0 <= i < parts.len() && parts_format(parts, vars, i) && strfmt_output(parts[i], vars) is None
            && #[trigger] parts[i] == part
}

/// Appends the path component `name` to `base` (Unix `PathBuf::push`).
pub fn push_path(base: &mut String, name: &str)
    ensures
        final(base)@ == path_pushed(old(base)@, name@),
{
    let name_len = name.unicode_len();
    let base_len = base.as_str().unicode_len();
    if name_len > 0 && name.get_char(0) == '/' {
        *base = String::from_str(name);
    } else if base_len == 0 || base.as_str().get_char(base_len - 1) == '/' {
        base.append(name);
    } else {
        base.append("/");
        proof {
            reveal_strlit("/");
        }
        base.append(name);
    }
}

/// `dir` is what the filled-in parts `formatted` give: `filter` turns each
/// into a directory name, and `dir` is `download_dir` with the non-empty
/// names appended in order.
pub open spec fn is_dir_from_formatted<F: Fn(&str) -> String>(
    download_dir: Seq<char>,
    formatted: Seq<Seq<char>>,
    filter: F,
    dir: Seq<char>,
) -> bool {
    exists|names: Seq<Seq<char>>|
        #![trigger dir_from_names(download_dir, names)]
        filtered_by(filter, formatted, names) && dir == dir_from_names(download_dir, names)
}

/// Turns each filled-in part of a directory format into a directory name with
/// `filter`, and appends the non-empty names to `download_dir` in order.
pub fn dir_from_formatted<F: Fn(&str) -> String>(
    download_dir: &str,
    formatted: &Vec<String>,
    filter: F,
) -> (res: String)
    requires
        forall|s: &str| call_requires(filter, (s,)),
    ensures
        is_dir_from_formatted(download_dir@, texts(formatted@), filter, res@),
{
    let mut dir = String::from_str(download_dir);
    let ghost mut names: Seq<Seq<char>> = seq![];
    let n = formatted.len();
    for i in 0..n
        invariant
            n == formatted.len(),
            forall|s: &str| call_requires(filter, (s,)),
            filtered_by(filter, texts(formatted@).take(i as int), names),
            dir@ == dir_from_names(download_dir@, names),
    {
        let name = filter(formatted[i].as_str());
        let ghost prev = names;
        proof {
            assert(filter_gives(filter, formatted@[i as int]@, name@));
            names = names.push(name@);
            assert(texts(formatted@).take(i + 1) =~= texts(formatted@).take(i as int).push(
                formatted@[i as int]@,
            ));
            assert(names.drop_last() =~= prev);
        }
        if !name.as_str().is_empty() {
            push_path(&mut dir, name.as_str());
        }
    }
    assert(texts(formatted@).take(n as int) =~= texts(formatted@));
    assert(dir_from_names(download_dir@, names) == dir@);
    dir
}

impl Comic {
    /// The download directory for the format values `fmt_params`: each
    /// `/`-separated part of `config.dir_fmt` is filled in with
    /// `strfmt::strfmt`, and `dir_from_formatted` makes the directory of the
    /// filled-in parts. The first part that does not fill in is reported.
    pub fn get_comic_download_dir_by_fmt<F: Fn(&str) -> String>(
        config: &DirConfig,
        fmt_params: &DirFmtParams,
        filter: F,
    ) -> (res: Result<String, DownloadError>)
        requires
            forall|s: &str| call_requires(filter, (s,)),
        ensures
            match res {
                Ok(dir) => is_dir_by_fmt(*config, fmt_params@, filter, dir@),
                Err(e) => match e {
                    DownloadError::DirFormat { id, fmt_part, .. } => id == fmt_params.id
                        && is_first_failing_part(*config, fmt_params@, fmt_part@),
                    _ => false,
                },
            },
    {
        let vars = fmt_params.vars();
        let parts = split_string(config.dir_fmt.as_str(), '/');
        let ghost all_parts = fmt_parts(*config);
        let ghost var_model = fmt_vars(fmt_params@);
        let mut formatted: Vec<String> = Vec::new();
        let n = parts.len();
        let mut i: usize = 0;
        while i < n
            invariant
                n == parts.len(),
                i <= n,
                texts(parts@) == all_parts,
                all_parts == fmt_parts(*config),
                pair_texts(vars@) == var_model,
                var_model == fmt_vars(fmt_params@),
                parts_format(all_parts, var_model, i as int),
                texts(formatted@) == formatted_parts(all_parts, var_model).take(i as int),
            decreases n - i,
        {
            assert(all_parts[i as int] == parts@[i as int]@);
            match strfmt_with(parts[i].as_str(), &vars) {
                Ok(text) => {
                    let ghost prev = formatted@;
                    formatted.push(text);
                    assert(texts(formatted@) =~= texts(prev).push(
                        strfmt_output(all_parts[i as int], var_model)->0,
                    ));
                    assert(formatted_parts(all_parts, var_model).take(i + 1) =~= formatted_parts(
                        all_parts,
                        var_model,
                    ).take(i as int).push(strfmt_output(all_parts[i as int], var_model)->0));
                    i = i + 1;
                },
                Err(cause) => {
                    let fmt_part = parts[i].clone();
                    assert(is_first_failing_part(*config, fmt_params@, fmt_part@));
                    return Err(DownloadError::DirFormat { id: fmt_params.id, fmt_part, cause });
                },
            }
        }
        assert(formatted_parts(all_parts, var_model).take(n as int) =~= formatted_parts(
            all_parts,
            var_model,
        ));
        let dir = dir_from_formatted(config.download_dir.as_str(), &formatted, filter);
        assert(is_dir_from_formatted(config.download_dir@, formatted_parts(all_parts, var_model), filter, dir@));
        Ok(dir)
    }

    /// Sets `comic_download_dir` to the directory the configured format gives
    /// for this comic; on failure the comic is left unchanged.
    pub fn update_dir_name_fields_by_fmt<F: Fn(&str) -> String>(
        &mut self,
        config: &DirConfig,
        filter: F,
    ) -> (res: Result<(), DownloadError>)
        requires
            forall|s: &str| call_requires(filter, (s,)),
        ensures
            match res {
                Ok(()) => final(self)@.comic_download_dir matches Some(dir) && is_dir_by_fmt(
                    *config,
                    fmt_params_of(old(self)@),
                    filter,
                    dir,
                ) && final(self)@ == ComicModel { comic_download_dir: Some(dir), ..old(self)@ },
                Err(e) => final(self)@ == old(self)@ && match e {
                    DownloadError::DirFormat { id, fmt_part, .. } => id == old(self).id
                        && is_first_failing_part(*config, fmt_params_of(old(self)@), fmt_part@),
                    _ => false,
                },
            },
    {
        let fmt_params = DirFmtParams::from_comic(self);
        let dir = Comic::get_comic_download_dir_by_fmt(config, &fmt_params, filter)?;
        self.comic_download_dir = Some(dir);
        Ok(())
    }
}

} // verus!
