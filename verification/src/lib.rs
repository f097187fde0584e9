//! Download orchestration core.
//!
//! The core turns a download request into the argument list of the
//! downloader tool ([`args`]), normalises the tool's metadata output into a
//! list of video summaries ([`metadata`]), chooses the bundled transcoder
//! ([`locator`]) and decides which of the things a running download reports
//! are published as progress ([`relay`]). It starts no process and touches
//! no file: the caller does both and hands in what it found.

pub mod args;
pub mod error;
pub mod locator;
pub mod metadata;
pub mod relay;
pub mod text;

pub use crate::args::DownloadRequest;
pub use crate::error::CoreError;
pub use crate::metadata::VideoMetadata;
