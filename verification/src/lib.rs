//! A small verified core for a command-line file downloader.
//!
//! Given a URL string, the program issues one HTTP GET, streams the response
//! body chunk by chunk while driving a progress indicator, and writes the
//! assembled bytes to a fixed destination file.  The pieces that decide and
//! accumulate live here, with contracts: URL validation, the status gate, the
//! size-indicator parse, progress-mode selection, and the chunk accumulator
//! whose buffer is proved to be exactly the concatenation of the received
//! chunks.  The network, terminal, and file-system edges stay outside.

pub mod error;
pub mod laws;
pub mod progress;
pub mod size;
pub mod transfer;
pub mod urlcheck;
