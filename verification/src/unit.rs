//! Units, the enclosures of S-class products.
use crate::bindings::Handle;
use crate::nvml::NVML;
use vstd::prelude::*;

verus! {

/// A unit of the system.
///
/// It borrows the [`NVML`] that it came from, and so cannot outlive it.
pub struct Unit<'nvml> {
    unit: Handle,
    nvml: &'nvml NVML,
}

impl<'nvml> Unit<'nvml> {
    /// The address that stands for the unit.
    pub closed spec fn spec_handle(self) -> Handle {
        self.unit
    }

    /// The session that the unit came from.
    pub closed spec fn spec_nvml(self) -> NVML {
        *self.nvml
    }

    /// This is the unit of the session `nvml` that has the given handle.
    pub open spec fn is(self, handle: Handle, nvml: NVML) -> bool {
        self.spec_handle() == handle && self.spec_nvml() == nvml
    }

    pub(crate) fn new(unit: Handle, nvml: &'nvml NVML) -> (r: Self)
        ensures
            r.is(unit, *nvml),
    {
        Unit { unit, nvml }
    }

    /// The address that stands for the unit in calls.
    pub fn handle(&self) -> (r: Handle)
        ensures
            r == self.spec_handle(),
    {
        self.unit
    }

    /// The session that the unit came from.
    pub fn nvml(&self) -> (r: &'nvml NVML)
        ensures
            *r == self.spec_nvml(),
    {
        self.nvml
    }
}

} // verus!
