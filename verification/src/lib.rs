//! Library of a CPU-capability-aware execution redirector.
//!
//! A tiny binary is installed in place of a target program. At process start
//! it detects the host CPU's instruction-set feature level, builds a candidate
//! path for each capability tier from the most capable downwards, and asks the
//! operating system to replace the process image with the first candidate that
//! exists. This crate holds the logic of that redirector: the mapping from
//! raw CPU identification registers to an ordered capability tier, the
//! formatting of per-tier architecture names, the classification and
//! validation of invocation paths, and the fallback state machine that drives
//! the execution attempts. The thin adapters over OS primitives (reading
//! links, replacing the process image, exiting) live outside the library and
//! hand it plain byte strings and error numbers.

pub mod ascii;
pub mod capabilities;
pub mod driver;
pub mod logging;
pub mod output;
pub mod path;
