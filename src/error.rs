//! The error taxonomy and the normalization of kernel return values.

use vstd::prelude::*;
use crate::caps::EventCode;

verus! {

/// What can go wrong with a virtual device.
#[derive(Clone, Copy, Debug, PartialEq, Eq, Structural)]
pub enum DeviceError {
    /// A system call failed; the positive error number it reported.
    Os(u32),
    /// The device has already been destroyed.
    NotOpen,
    /// A capability that cannot be registered, detected before any system
    /// call or reported by the kernel while registering it.
    Unsupported(EventCode),
}

/// The absolute value of a kernel return value, as a positive error number.
pub open spec fn errno_of(ret: i32) -> u32 {
    if ret < 0 {
        (-(ret as int)) as u32
    } else {
        ret as u32
    }
}

/// The error number carried by a kernel return value, with the sign
/// convention removed: `-22` and `22` both become `22`.
pub fn errno_from_return(ret: i32) -> (r: u32)
    ensures
        r == errno_of(ret),
        r as int == if ret < 0 { -(ret as int) } else { ret as int },
{
    if ret < 0 {
        (-(ret as i64)) as u32
    } else {
        ret as u32
    }
}

/// The result of a system call that reports `0` on success and an error
/// number, of either sign, otherwise.
pub open spec fn reply_result_spec(ret: i32) -> Result<(), DeviceError> {
    if ret == 0 {
        Ok(())
    } else {
        Err(DeviceError::Os(errno_of(ret)))
    }
}

/// Maps a kernel return value to success or to `DeviceError::Os`.
pub fn reply_result(ret: i32) -> (r: Result<(), DeviceError>)
    ensures
        r == reply_result_spec(ret),
        r is Ok <==> ret == 0,
{
    if ret == 0 {
        Ok(())
    } else {
        Err(DeviceError::Os(errno_from_return(ret)))
    }
}

} // verus!
