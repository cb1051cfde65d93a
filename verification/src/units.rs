//! Conversions between the units of the command line and bytes.
use vstd::prelude::*;
use crate::{DEFAULT_SAMPLE_SIZE, MB_IN_BYTE};

verus! {

/// The payload size in bytes for a sample size given in megabytes; a size
/// whose byte count does not fit in a `u64` falls back to the default sample
/// size.
pub fn sample_size_bytes(sample_size_mb: u64) -> (bytes: u64)
    ensures
        sample_size_mb * MB_IN_BYTE <= u64::MAX ==> bytes == sample_size_mb * MB_IN_BYTE,
        sample_size_mb * MB_IN_BYTE > u64::MAX ==> bytes == DEFAULT_SAMPLE_SIZE * MB_IN_BYTE,
{
    match sample_size_mb.checked_mul(MB_IN_BYTE) {
        Some(b) => b,
        None => DEFAULT_SAMPLE_SIZE * MB_IN_BYTE,
    }
}

/// The buffer size in bytes for a buffer size given in kilobytes.
pub fn buf_size_bytes(buf_size_kb: usize) -> (bytes: usize)
    requires
        buf_size_kb * 1024 <= usize::MAX,
    ensures
        bytes == buf_size_kb * 1024,
{
    buf_size_kb * 1024
}

/// The number of whole megabytes in `bytes`.
pub fn whole_megabytes(bytes: u64) -> (mb: u64)
    ensures
        mb == bytes / MB_IN_BYTE,
{
    bytes / MB_IN_BYTE
}

} // verus!
