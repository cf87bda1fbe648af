use vstd::prelude::*;

verus! {

/// How long a blocking call may wait before giving up.
#[derive(Clone, Copy, Debug)]
pub enum Timeout {
    /// Wait until the call succeeds.
    Infinite,
    /// Wait at most this long.
    Val(std::time::Duration),
}

/// Every failure this crate reports.
///
/// The variants that come from a native call carry the raw OS error code.
#[derive(Clone, Copy, Debug, PartialEq, Eq, Structural)]
pub enum Error {
    LockFailed(i32),
    ReleaseFailed(i32),
    InitFailed(i32),
    EventSetFailed(i32),
    WaitFailed(i32),
    SpuriousWake,
    TimedOut,
    ObjectCorrupted,
}

/// The kind of native call whose failure is being reported.
#[derive(Clone, Copy, Debug, PartialEq, Eq, Structural)]
pub enum OsCall {
    Lock,
    Release,
    Init,
    EventSet,
    Wait,
}

/// The error that a failed native call of kind `call` with code `code` maps to.
pub open spec fn os_error(call: OsCall, code: i32) -> Error {
    match call {
        OsCall::Lock => Error::LockFailed(code),
        OsCall::Release => Error::ReleaseFailed(code),
        OsCall::Init => Error::InitFailed(code),
        OsCall::EventSet => Error::EventSetFailed(code),
        OsCall::Wait => Error::WaitFailed(code),
    }
}

/// The result of a native call that returns 0 on success and an error code otherwise.
pub open spec fn os_result(call: OsCall, code: i32) -> Result<(), Error> {
    if code == 0 {
        Ok(())
    } else {
        Err(os_error(call, code))
    }
}

/// Like `os_result`, but the code `timed_out_code` means the deadline passed.
pub open spec fn timed_os_result(call: OsCall, code: i32, timed_out_code: i32) -> Result<(), Error> {
    if code == 0 {
        Ok(())
    } else if code == timed_out_code {
        Err(Error::TimedOut)
    } else {
        Err(os_error(call, code))
    }
}

impl Error {
    /// Builds the error for a failed native call.
    pub fn from_os(call: OsCall, code: i32) -> (r: Error)
        ensures
            r == os_error(call, code),
    {
        match call {
            OsCall::Lock => Error::LockFailed(code),
            OsCall::Release => Error::ReleaseFailed(code),
            OsCall::Init => Error::InitFailed(code),
            OsCall::EventSet => Error::EventSetFailed(code),
            OsCall::Wait => Error::WaitFailed(code),
        }
    }

    /// The OS error code carried by the error, if any.
    pub open spec fn os_code_spec(self) -> Option<i32> {
        match self {
            Error::LockFailed(c) => Some(c),
            Error::ReleaseFailed(c) => Some(c),
            Error::InitFailed(c) => Some(c),
            Error::EventSetFailed(c) => Some(c),
            Error::WaitFailed(c) => Some(c),
            _ => None,
        }
    }

    /// Returns the OS error code carried by the error, if any.
    pub fn os_code(&self) -> (r: Option<i32>)
        ensures
            r == self.os_code_spec(),
    {
        match self {
            Error::LockFailed(c) => Some(*c),
            Error::ReleaseFailed(c) => Some(*c),
            Error::InitFailed(c) => Some(*c),
            Error::EventSetFailed(c) => Some(*c),
            Error::WaitFailed(c) => Some(*c),
            _ => None,
        }
    }

    /// The human-readable text of the error, without its OS error code.
    pub open spec fn summary_spec(self) -> Seq<char> {
        match self {
            Error::LockFailed(_) => "Failed to acquire lock with OS error"@,
            Error::ReleaseFailed(_) => "Failed to release lock with OS error"@,
            Error::InitFailed(_) => "Failed to initialize object with OS error"@,
            Error::EventSetFailed(_) => "Failed to set state of event event with OS error"@,
            Error::WaitFailed(_) => "Wait failed with OS error"@,
            Error::SpuriousWake => "A wait call has returned because of external spurious wake up"@,
            Error::TimedOut => "Wait operation has timed out"@,
            Error::ObjectCorrupted => "Object is corrupted"@,
        }
    }

    /// Returns the human-readable text of the error; where the error carries
    /// an OS error code, the text of that code belongs after it.
    pub fn summary(&self) -> (r: &'static str)
        ensures
            r@ == self.summary_spec(),
    {
        match self {
            Error::LockFailed(_) => "Failed to acquire lock with OS error",
            Error::ReleaseFailed(_) => "Failed to release lock with OS error",
            Error::InitFailed(_) => "Failed to initialize object with OS error",
            Error::EventSetFailed(_) => "Failed to set state of event event with OS error",
            Error::WaitFailed(_) => "Wait failed with OS error",
            Error::SpuriousWake => "A wait call has returned because of external spurious wake up",
            Error::TimedOut => "Wait operation has timed out",
            Error::ObjectCorrupted => "Object is corrupted",
        }
    }
}

/// Maps the return code of a native call that returns 0 on success.
pub fn check_os(call: OsCall, code: i32) -> (r: Result<(), Error>)
    ensures
        r == os_result(call, code),
{
    if code == 0 {
        Ok(())
    } else {
        Err(Error::from_os(call, code))
    }
}

/// Maps the return code of a timed native call; `timed_out_code` is the code
/// the platform uses for an expired deadline.
pub fn check_timed_os(call: OsCall, code: i32, timed_out_code: i32) -> (r: Result<(), Error>)
    ensures
        r == timed_os_result(call, code, timed_out_code),
{
    if code == 0 {
        Ok(())
    } else if code == timed_out_code {
        Err(Error::TimedOut)
    } else {
        Err(Error::from_os(call, code))
    }
}

/// Status of a relative wait on a named kernel object: the object was acquired or signaled.
pub const WAIT_OBJECT_0: u32 = 0;

/// Status of a relative wait on a named kernel object: its holder ended without releasing it.
pub const WAIT_ABANDONED: u32 = 0x80;

/// Status of a relative wait on a named kernel object: the time ran out.
pub const WAIT_TIMEOUT: u32 = 258;

/// The result of a relative wait on a named kernel object that ended with
/// `status`; `last_error` is the thread's last OS error, read after the wait.
/// A lock whose holder ended without releasing it cannot be trusted, so it
/// is reported as corrupted.
pub open spec fn wait_status_result(call: OsCall, status: u32, last_error: i32) -> Result<
    (),
    Error,
> {
    if status == WAIT_OBJECT_0 {
        Ok(())
    } else if status == WAIT_TIMEOUT {
        Err(Error::TimedOut)
    } else if status == WAIT_ABANDONED {
        Err(Error::ObjectCorrupted)
    } else {
        Err(os_error(call, last_error))
    }
}

/// Maps the status of a relative wait on a named kernel object.
pub fn check_wait_status(call: OsCall, status: u32, last_error: i32) -> (r: Result<(), Error>)
    ensures
        r == wait_status_result(call, status, last_error),
{
    if status == WAIT_OBJECT_0 {
        Ok(())
    } else if status == WAIT_TIMEOUT {
        Err(Error::TimedOut)
    } else if status == WAIT_ABANDONED {
        Err(Error::ObjectCorrupted)
    } else {
        Err(Error::from_os(call, last_error))
    }
}

} // verus!
