//! Errors of the process monitoring core

use vstd::prelude::*;

use crate::process::Pid;

verus! {

/// Errors raised by the process monitoring core
#[derive(Debug)]
pub enum Error {
    /// The running processes could not be scanned; the payload describes the cause
    ScanProcessesError(String),
    /// A probe failed: a description of the failure, then of its cause
    ProbingError(String, String),
    /// The process is not known
    InvalidPID(Pid),
    /// An I/O operation failed; the payload describes the I/O error
    IOError(String),
    /// A component of a metric was asked for with an index (first) that is not below the
    /// metric's cardinality (second)
    RawMetricAccessError(usize, usize),
}

} // verus!
