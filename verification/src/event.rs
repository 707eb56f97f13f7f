//! Sets of events.
use crate::bindings::Handle;
use crate::nvml::NVML;
use vstd::prelude::*;

verus! {

/// A set of events that can be waited for.
///
/// It borrows the [`NVML`] that it came from, and so cannot outlive it.
pub struct EventSet<'nvml> {
    set: Handle,
    nvml: &'nvml NVML,
}

impl<'nvml> EventSet<'nvml> {
    /// The address that stands for the set.
    pub closed spec fn spec_handle(self) -> Handle {
        self.set
    }

    /// The session that the set came from.
    pub closed spec fn spec_nvml(self) -> NVML {
        *self.nvml
    }

    /// This is the set of the session `nvml` that has the given handle.
    pub open spec fn is(self, handle: Handle, nvml: NVML) -> bool {
        self.spec_handle() == handle && self.spec_nvml() == nvml
    }

    pub(crate) fn new(set: Handle, nvml: &'nvml NVML) -> (r: Self)
        ensures
            r.is(set, *nvml),
    {
        EventSet { set, nvml }
    }

    /// The address that stands for the set in calls.
    pub fn handle(&self) -> (r: Handle)
        ensures
            r == self.spec_handle(),
    {
        self.set
    }

    /// The session that the set came from.
    pub fn nvml(&self) -> (r: &'nvml NVML)
        ensures
            *r == self.spec_nvml(),
    {
        self.nvml
    }
}

} // verus!
