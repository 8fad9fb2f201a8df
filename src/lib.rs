//! A wrapper around the youtube-dl command-line tool.
//!
//! The library builds the command line of a download job, decides each step of
//! preparing its download directory, and classifies what the finished process
//! reported. Touching the file system and launching the process are left to the
//! caller, which hands the observed outcomes back to this library.
use vstd::prelude::*;

pub mod arg;
pub mod error;
pub mod job;
pub mod prepare;

pub use arg::Arg;
pub use error::YoutubeDLError;
pub use job::{YoutubeDL, YoutubeDLResult};
