//! System configuration values, from what the system calls that query them returned

use vstd::prelude::*;

use crate::procfs::ProcfsError;

verus! {

/// Returns the clock ticks value of the system, given what `sysconf(_SC_CLK_TCK)` returned:
/// -1 when the value could not be read
pub fn clock_ticks(sysconf_value: i64) -> (r: Result<u64, ProcfsError>)
    ensures
        sysconf_value == -1 ==> r matches Err(ProcfsError::SysconfError),
        sysconf_value != -1 ==> r == Ok::<u64, ProcfsError>(sysconf_value as u64),
{
    if sysconf_value == -1 {
        Err(ProcfsError::SysconfError)
    } else {
        Ok(sysconf_value as u64)
    }
}

/// Returns a value one greater than the maximum amount of files that this process can open at
/// once, given what `getrlimit64(RLIMIT_NOFILE, ..)` returned (0 on success, -1 on failure) and
/// the current limit it read
pub fn open_file_limit(return_value: i32, current_limit: u64) -> (r: Result<u64, ProcfsError>)
    requires
        return_value == 0 || return_value == -1,
    ensures
        return_value == 0 ==> r == Ok::<u64, ProcfsError>(current_limit),
        return_value == -1 ==> r matches Err(ProcfsError::RLimitError),
{
    if return_value == 0 {
        Ok(current_limit)
    } else {
        Err(ProcfsError::RLimitError)
    }
}

} // verus!
