use vstd::prelude::*;

verus! {

/// Declares `strfmt::FmtError`, the error of `strfmt::strfmt`, to Verus.
#[verifier::external_type_specification]
#[verifier::external_body]
pub struct ExFmtError(strfmt::FmtError);

/// Why a request to the download manager was refused.
#[derive(Debug)]
pub enum DownloadError {
    /// No task is registered under this comic id.
    TaskNotFound { id: i32 },
    /// A `/`-separated part of the directory format could not be formatted
    /// with the comic's values.
    DirFormat { id: i32, fmt_part: String, cause: strfmt::FmtError },
}

} // verus!
