//! Native status codes and their translation into results.
use vstd::prelude::*;

verus! {

/// wolfCrypt's `BUFFER_E`: an output buffer of the wrong size, or an input
/// too large for the native interface. This is the length-mismatch error.
pub const BUFFER_E: i32 = -132;

/// Largest length the native interface accepts (its lengths are 32-bit words).
pub const NATIVE_LEN_MAX: usize = 0xffff_ffff;

/// The result a native status stands for: zero is success, any other value is
/// handed back unchanged as the error.
pub open spec fn status_result(rc: i32) -> Result<(), i32> {
    if rc == 0 {
        Ok(())
    } else {
        Err(rc)
    }
}

/// Translates the status of a native call into a result.
pub fn check_status(rc: i32) -> (r: Result<(), i32>)
    ensures
        r == status_result(rc),
{
    if rc == 0 {
        Ok(())
    } else {
        Err(rc)
    }
}

/// The result of a native MAC verification: a negative status is
/// an error, zero means the tag matched and a positive status that it did not.
pub open spec fn verify_result(rc: i32) -> Result<bool, i32> {
    if rc < 0 {
        Err(rc)
    } else {
        Ok(rc == 0)
    }
}

/// Translates the status of a native MAC verification.
pub fn verify_status(rc: i32) -> (r: Result<bool, i32>)
    ensures
        r == verify_result(rc),
{
    if rc < 0 {
        Err(rc)
    } else {
        Ok(rc == 0)
    }
}

/// A buffer length as the native interface takes it (a 32-bit word), or the
/// length-mismatch error when it does not fit.
pub open spec fn len_result(len: usize) -> Result<u32, i32> {
    if len <= NATIVE_LEN_MAX {
        Ok(len as u32)
    } else {
        Err(BUFFER_E)
    }
}

/// Converts a buffer length for the native interface.
pub fn native_len(len: usize) -> (r: Result<u32, i32>)
    ensures
        r == len_result(len),
{
    if len <= NATIVE_LEN_MAX {
        Ok(len as u32)
    } else {
        Err(BUFFER_E)
    }
}

} // verus!
