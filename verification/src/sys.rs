//! The few points where the library touches the platform: the wall clock,
//! and the error codes by which the kernel reports send and receive
//! conditions that the workers must tell apart.
use vstd::prelude::*;

verus! {

/// The error code with which the kernel reports that its transmit buffer
/// cannot take another packet.
pub const ENOBUFS_CODE: i32 = 105;

/// The error code for an operation the kernel refuses outright.
pub const EPERM_CODE: i32 = 1;

/// The error code for an operation refused for lack of access rights.
pub const EACCES_CODE: i32 = 13;

/// The error code with which a read on a socket with a read timeout reports
/// that the timeout elapsed with no data.
pub const EAGAIN_CODE: i32 = 11;

/// Relies on std::time::SystemTime::now and duration_since(UNIX_EPOCH):
/// the Unix time at the moment of the call, in milliseconds, truncated to
/// 64 bits; zero if the clock reads before the epoch.
#[verifier::external_body]
pub(crate) fn now_unix_millis() -> u64 {
    match std::time::SystemTime::now().duration_since(std::time::UNIX_EPOCH) {
        Ok(d) => d.as_millis() as u64,
        Err(_) => 0,
    }
}

/// Relies on libc::ENOBUFS: 105 on the x86-64 and AArch64 Linux targets
/// this tool builds for (a few other architectures number it differently).
#[verifier::external_body]
pub(crate) fn errno_enobufs() -> (r: i32)
    ensures
        r == ENOBUFS_CODE,
{
    libc::ENOBUFS
}

/// Relies on libc::EPERM, which Linux defines as 1.
#[verifier::external_body]
pub(crate) fn errno_eperm() -> (r: i32)
    ensures
        r == EPERM_CODE,
{
    libc::EPERM
}

/// Relies on libc::EACCES, which Linux defines as 13.
#[verifier::external_body]
pub(crate) fn errno_eacces() -> (r: i32)
    ensures
        r == EACCES_CODE,
{
    libc::EACCES
}

/// Relies on libc::EAGAIN, which Linux defines as 11.
#[verifier::external_body]
pub(crate) fn errno_eagain() -> (r: i32)
    ensures
        r == EAGAIN_CODE,
{
    libc::EAGAIN
}

} // verus!
