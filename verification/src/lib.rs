//! A safe and ergonomic interface to the NVIDIA Management Library (NVML), which monitors and
//! manages the states of NVIDIA GPUs.
//!
//! [`NVML`] stands for the library once it is initialized. Its methods decide which calls are
//! made on the library and with which arguments, and what is to be made of what comes back; the
//! calls themselves are handed to them as functions. See the module [`nvml`] for how.
#![allow(non_snake_case)]

use vstd::prelude::*;

pub mod balance;
pub mod bindings;
pub mod bitmasks;
pub mod c_string;
pub mod device;
pub mod enum_wrappers;
pub mod error;
pub mod event;
pub mod laws;
pub mod nvml;
pub mod struct_wrappers;
pub mod unit;

pub use crate::device::Device;
pub use crate::event::EventSet;
pub use crate::nvml::{Platform, NVML};
pub use crate::unit::Unit;

verus! {

/// The quotient, rounded towards zero.
pub open spec fn truncated_div(dividend: int, divisor: int) -> int {
    if dividend >= 0 {
        dividend / divisor
    } else {
        -((-dividend) / divisor)
    }
}

/// What a division that rounds towards zero leaves over.
pub open spec fn truncated_rem(dividend: int, divisor: int) -> int {
    dividend - divisor * truncated_div(dividend, divisor)
}

/// The major version of the CUDA driver, given the full version that
/// [`NVML::sys_cuda_driver_version`] reports.
pub fn cuda_driver_version_major(version: i32) -> (r: i32)
    ensures
        r == truncated_div(version as int, 1000),
{
    version / 1000
}

/// The minor version of the CUDA driver, given the full version that
/// [`NVML::sys_cuda_driver_version`] reports.
pub fn cuda_driver_version_minor(version: i32) -> (r: i32)
    ensures
        r == truncated_div(truncated_rem(version as int, 1000), 10),
{
    (version % 1000) / 10
}

/// A full version is put together from a major and a minor version and one more digit, and comes
/// apart into the two versions again, whatever the digit is.
pub proof fn cuda_driver_version_comes_apart(major: int, minor: int, rest: int)
    requires
        0 <= major,
        0 <= minor < 100,
        0 <= rest < 10,
    ensures
        truncated_div(1000 * major + 10 * minor + rest, 1000) == major,
        truncated_div(truncated_rem(1000 * major + 10 * minor + rest, 1000), 10) == minor,
{
}

} // verus!
