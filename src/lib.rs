//! Orchestration logic for downloading a video and re-encoding it into a
//! format that social-media sites accept: parsing the downloader's report,
//! building the transcoder's command line, and deciding each stage's outcome.

pub mod text;
pub mod download;
pub mod error;
pub mod transcode;
pub mod tools;
