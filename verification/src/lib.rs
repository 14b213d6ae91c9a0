//! Thumbnail extraction from video files, delegated to an external
//! media-decoding engine invoked as a subprocess.
//!
//! The crate holds the validated generation parameters, builds the exact
//! argument vector for the engine, and maps every process outcome to a typed
//! result. Spawning the process and touching the filesystem are left to the
//! caller, who hands the observed facts (does the input exist, how did the
//! engine exit) back in as plain values.

use vstd::prelude::*;

pub mod digits;
pub mod thumbnail;

verus! {

/// Sum of two unsigned integers, defined only where it does not overflow.
pub fn add(left: u64, right: u64) -> (sum: u64)
    requires
        left + right <= u64::MAX,
    ensures
        sum == left + right,
{
    left + right
}

} // verus!
