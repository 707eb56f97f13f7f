//! Bitmasks that calls take.
use crate::bindings::NVML_INIT_FLAG_NO_GPUS;
use vstd::prelude::*;

verus! {

/// Flags that control how NVML is initialized.
#[derive(Debug, Clone, Copy, PartialEq, Eq, Structural)]
pub struct InitFlags {
    bits: u32,
}

impl View for InitFlags {
    type V = u32;

    closed spec fn view(&self) -> u32 {
        self.bits
    }
}

impl InitFlags {
    /// No flag at all.
    pub fn empty() -> (r: Self)
        ensures
            r@ == 0,
    {
        InitFlags { bits: 0 }
    }

    /// Do not fail the initialization if the system has no GPUs.
    pub fn no_gpus() -> (r: Self)
        ensures
            r@ == NVML_INIT_FLAG_NO_GPUS,
    {
        InitFlags { bits: NVML_INIT_FLAG_NO_GPUS }
    }

    /// The flags as NVML takes them.
    pub fn bits(&self) -> (r: u32)
        ensures
            r == self@,
    {
        self.bits
    }
}

} // verus!
