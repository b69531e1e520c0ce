//! Discovery of the running processes: the directories of `/proc` named after a pid

use vstd::prelude::*;

use crate::decimal::{chars_of, parse_unsigned, spec_parse_unsigned};
use crate::process::Pid;

verus! {

/// Errors raised while scanning the directories of `/proc`
#[derive(Debug, PartialEq, Eq)]
pub enum ScanError {
    /// The directory is not named after a pid; the payload is its name
    NotProcessDir(String),
}

/// Parses a PID from a directory name, if it represents an unsigned integer (as the standard
/// library reads a `u32`)
///
/// # Arguments
/// * `dir_name_opt` - The name of a directory, if it could be read as text
pub fn extract_pid_from_proc_dir(dir_name_opt: Option<&str>) -> (r: Result<Pid, ScanError>)
    ensures
        match dir_name_opt {
            Some(dir_name) => match spec_parse_unsigned(dir_name@, u32::MAX as nat) {
                Some(v) => r == Ok::<Pid, ScanError>(v as Pid),
                None => r matches Err(ScanError::NotProcessDir(name)) && name@ == dir_name@,
            },
            None => r matches Err(ScanError::NotProcessDir(name)) && name@.len() == 0,
        },
{
    match dir_name_opt {
        Some(dir_name) => {
            let chars = chars_of(dir_name);
            proof {
                assert(chars@.subrange(0, chars@.len() as int) =~= dir_name@);
            }
            match parse_unsigned(&chars, 0, chars.len(), u32::MAX as u64) {
                Some(v) => Ok(v as Pid),
                None => Err(ScanError::NotProcessDir(dir_name.to_string())),
            }
        },
        None => Err(ScanError::NotProcessDir(String::new())),
    }
}

} // verus!
