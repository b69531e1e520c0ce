//! Processes monitoring based on the `/proc` filesystem

use vstd::prelude::*;

use crate::decimal::{decimal_string, spec_decimal};
use crate::process::Pid;

pub mod cpu;
pub mod parsers;
pub mod rates;
pub mod scanner;
pub mod sysconf;

verus! {

/// Errors raised while reading data from `/proc`
#[derive(Debug)]
pub enum ProcfsError {
    /// A token of the file could not be read as the expected value
    InvalidFileContent(String),
    /// The file does not have the expected layout (a line or a token is missing)
    InvalidFileFormat(String),
    /// The file could not be read; the payload describes the I/O error
    IOError(String),
    /// No data is known for this process
    UnknownPID(Pid),
    /// Not enough data has been collected to estimate a rate
    NotEnoughData,
    /// The system configuration could not be read
    SysconfError,
    /// The resource limits of the process could not be read
    RLimitError,
}

/// The description of an error, for the user: the message of the errors that carry one
pub open spec fn spec_description(e: ProcfsError) -> Seq<char> {
    match e {
        ProcfsError::InvalidFileContent(m) => m@,
        ProcfsError::InvalidFileFormat(m) => m@,
        ProcfsError::IOError(m) => m@,
        ProcfsError::UnknownPID(pid) => "PID is not known: '"@ + spec_decimal(pid as nat) + "'"@,
        ProcfsError::NotEnoughData => "Not enough data to estimate rate"@,
        ProcfsError::SysconfError => "Error while fetching system configuration"@,
        ProcfsError::RLimitError => "Error while fetching the limits of the process"@,
    }
}

impl ProcfsError {
    /// The description of the error, for the user
    pub fn to_string(&self) -> (s: String)
        ensures
            s@ == spec_description(*self),
    {
        match self {
            ProcfsError::InvalidFileContent(m) => m.clone(),
            ProcfsError::InvalidFileFormat(m) => m.clone(),
            ProcfsError::IOError(m) => m.clone(),
            ProcfsError::UnknownPID(pid) => {
                let mut s = String::from_str("PID is not known: '");
                s.append(decimal_string(*pid as u64).as_str());
                s.append("'");
                s
            },
            ProcfsError::NotEnoughData => String::from_str("Not enough data to estimate rate"),
            ProcfsError::SysconfError => String::from_str("Error while fetching system configuration"),
            ProcfsError::RLimitError => String::from_str("Error while fetching the limits of the process"),
        }
    }
}

} // verus!
