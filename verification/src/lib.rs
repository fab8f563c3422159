//! Download bookkeeping for a comic downloader: the table of download tasks and
//! the rules that move each task through its states, the decisions of the
//! per-comic and per-image download loops, and the computation of the
//! directory a comic is downloaded into.
pub mod dir_fmt;
pub mod error;
pub mod job;
pub mod laws;
pub mod loops;
pub mod manager;
pub mod state;
pub mod task;
pub mod text;

pub use dir_fmt::{Comic, DirConfig, DirFmtParams};
pub use error::DownloadError;
pub use manager::DownloadManager;
pub use state::DownloadTaskState;
pub use task::DownloadTask;
