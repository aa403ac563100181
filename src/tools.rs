//! The external executables that a run needs.

use vstd::prelude::*;
use crate::error::ClipError;

verus! {

/// The downloader's executable name.
pub const DOWNLOADER: &'static str = "yt-dlp";

/// The transcoder's executable name.
pub const TRANSCODER: &'static str = "ffmpeg";

/// The outcome of looking up the executable `name`: its path where the
/// search found one; a missing executable stops the run.
pub fn require_tool(name: &str, found: Option<String>) -> (r: Result<String, ClipError>)
    ensures
        found matches Some(p) ==> (r matches Ok(q) && q@ == p@),
        found is None ==> (r matches Err(ClipError::ToolNotFound(n)) && n@ == name@),
{
    match found {
        Some(p) => Ok(p),
        None => Err(ClipError::ToolNotFound(name.to_owned())),
    }
}

} // verus!
