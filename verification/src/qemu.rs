//! QEMU semihosting: the exit request and the checks on reading a file
//! from the host. The semihosting calls themselves are the caller's.
use vstd::prelude::*;

verus! {

/// Exit reason `ADP_Stopped_ApplicationExit`.
pub const ADP_STOPPED_APPLICATION_EXIT: u64 = 0x20026;

/// Largest file read from the host.
pub const MAX_FILE_SIZE: usize = 10 * 1024 * 1024;

/// Exit status reported to QEMU.
#[derive(Debug, Clone, Copy, PartialEq, Eq, Structural)]
pub enum ExitCode {
    Success,
    Failed,
}

/// The parameter block of the exit call: reason and status (0 for
/// success, 1 for failure).
pub fn exit_block(exit_code: ExitCode) -> (b: (u64, u64))
    ensures
        b == (ADP_STOPPED_APPLICATION_EXIT, if exit_code == ExitCode::Success { 0u64 } else { 1u64 }),
{
    let status: u64 = match exit_code {
        ExitCode::Success => 0,
        ExitCode::Failed => 1,
    };
    (ADP_STOPPED_APPLICATION_EXIT, status)
}

/// Failures reading a host file.
#[derive(Debug, Clone, Copy, PartialEq, Eq, Structural)]
pub enum SemihostingError {
    OpenFailed,
    ReadFailed,
    FileTooLarge,
}

/// The result of the open call: a handle, or `OpenFailed` when negative.
pub fn open_result(result: i64) -> (r: Result<u64, SemihostingError>)
    ensures
        result < 0 ==> r == Err::<u64, SemihostingError>(SemihostingError::OpenFailed),
        result >= 0 ==> r == Ok::<u64, SemihostingError>(result as u64),
{
    if result < 0 {
        return Err(SemihostingError::OpenFailed);
    }
    Ok(result as u64)
}

/// The result of the length call: the length, `ReadFailed` when
/// negative, `FileTooLarge` above 10 MiB.
pub fn length_result(result: i64) -> (r: Result<usize, SemihostingError>)
    ensures
        result < 0 ==> r == Err::<usize, SemihostingError>(SemihostingError::ReadFailed),
        result >= 0 && result > MAX_FILE_SIZE ==> r == Err::<usize, SemihostingError>(SemihostingError::FileTooLarge),
        0 <= result <= MAX_FILE_SIZE ==> r == Ok::<usize, SemihostingError>(result as usize),
{
    if result < 0 {
        return Err(SemihostingError::ReadFailed);
    }
    if result > MAX_FILE_SIZE as i64 {
        return Err(SemihostingError::FileTooLarge);
    }
    Ok(result as usize)
}

/// The result of the read call for a file of `file_len` bytes. The
/// call returns how many of the requested bytes it did not read, so the
/// whole file was read exactly when it returns 0; any other value is
/// `ReadFailed`.
pub fn read_result(unread: i64, file_len: usize) -> (r: Result<(), SemihostingError>)
    requires
        file_len <= MAX_FILE_SIZE,
    ensures
        unread == 0 ==> r == Ok::<(), SemihostingError>(()),
        unread != 0 ==> r == Err::<(), SemihostingError>(SemihostingError::ReadFailed),
{
    if unread != 0 {
        return Err(SemihostingError::ReadFailed);
    }
    Ok(())
}

} // verus!
