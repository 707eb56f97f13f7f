//! Enumerations of NVML.
pub mod device;
