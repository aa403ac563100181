//! Why a run stops.

use vstd::prelude::*;

verus! {

/// The ways a run can fail. Every failure ends the run.
#[derive(Debug, PartialEq, Eq)]
pub enum ClipError {
    /// The named executable is not on the search path.
    ToolNotFound(String),
    /// The downloader exited with failure; its error text is kept.
    DownloadFailed(String),
    /// The downloader succeeded but no line of its report named a file.
    NoFilename,
    /// The file to transcode does not exist.
    MissingInput,
    /// The transcoder exited with failure.
    TranscodeFailed,
}

} // verus!
