//! Measuring TCP throughput: a client uploads a payload to a server, which
//! sends the same amount back. Every transfer starts with an eight-byte
//! little-endian size header, followed by that many payload bytes.
use vstd::prelude::*;

pub mod download;
pub mod error;
pub mod exchange;
pub mod pattern;
pub mod perf;
pub mod report;
pub mod units;
pub mod upload;
pub mod wire;

pub use error::TcpPerfError;
pub use perf::{Mode, TcpPerf};

verus! {

/// Buffer size for reading and writing data, typically the page size.
pub const BUF_SIZE: usize = 4096;

/// Refresh rate of the progress bar, in seconds.
pub const PROGRESS_BAR_REFRESH_RATE_SEC: u64 = 1;

/// Bytes in a megabyte.
pub const MB_IN_BYTE: u64 = 1024 * 1024;

/// Default sample size in megabytes.
pub const DEFAULT_SAMPLE_SIZE: u64 = 100;

/// Default buffer size in kilobytes.
pub const DEFAULT_BUF_SIZE_KB: usize = BUF_SIZE / 1024;

} // verus!
