//! Devices, that is GPUs.
use crate::bindings::{EntryPoint, Handle, Reply};
use crate::enum_wrappers::device::TopologyLevel;
use crate::error::NvmlError;
use crate::nvml::NVML;
use vstd::prelude::*;

verus! {

/// A GPU of the system.
///
/// It borrows the [`NVML`] that it came from, and so cannot outlive it.
pub struct Device<'nvml> {
    device: Handle,
    nvml: &'nvml NVML,
}

impl<'nvml> Device<'nvml> {
    /// The address that stands for the device.
    pub closed spec fn spec_handle(self) -> Handle {
        self.device
    }

    /// The session that the device came from.
    pub closed spec fn spec_nvml(self) -> NVML {
        *self.nvml
    }

    /// This is the device of the session `nvml` that has the given handle.
    pub open spec fn is(self, handle: Handle, nvml: NVML) -> bool {
        self.spec_handle() == handle && self.spec_nvml() == nvml
    }

    pub(crate) fn new(device: Handle, nvml: &'nvml NVML) -> (r: Self)
        ensures
            r.is(device, *nvml),
    {
        Device { device, nvml }
    }

    /// The address that stands for the device in calls.
    pub fn handle(&self) -> (r: Handle)
        ensures
            r == self.spec_handle(),
    {
        self.device
    }

    /// The session that the device came from.
    pub fn nvml(&self) -> (r: &'nvml NVML)
        ensures
            *r == self.spec_nvml(),
    {
        self.nvml
    }

    /// Whether this device is on the same physical board as another.
    ///
    /// This is [`NVML::are_devices_on_same_board`], called on the device's own session.
    pub fn is_on_same_board_as<F>(&self, other_device: &Device, on_same_board: F) -> (r: Result<
        bool,
        NvmlError,
    >) where F: FnOnce(EntryPoint, Handle, Handle, i32) -> Reply<i32>
        requires
            self.spec_nvml()@.nvmlDeviceOnSameBoard matches Ok(entry) ==> call_requires(
                on_same_board,
                (entry, self.spec_handle(), other_device.spec_handle(), 0i32),
            ),
        ensures
            match self.spec_nvml()@.nvmlDeviceOnSameBoard {
                Err(error) => crate::error::missing_symbol(r, error),
                Ok(entry) => exists|reply: Reply<i32>|
                    call_ensures(
                        on_same_board,
                        (entry, self.spec_handle(), other_device.spec_handle(), 0i32),
                        reply,
                    ) && r == crate::nvml::truth_of(reply),
            },
    {
        self.nvml.are_devices_on_same_board(self, other_device, on_same_board)
    }

    /// The common ancestor of this device and another. Only Linux supports this.
    ///
    /// This is [`NVML::topology_common_ancestor`], called on the device's own session.
    pub fn topology_common_ancestor<F>(&self, other_device: &Device, get_level: F) -> (r: Result<
        TopologyLevel,
        NvmlError,
    >) where F: FnOnce(EntryPoint, Handle, Handle, u32) -> Reply<u32>
        requires
            self.spec_nvml()@.nvmlDeviceGetTopologyCommonAncestor matches Ok(entry)
                ==> call_requires(
                get_level,
                (entry, self.spec_handle(), other_device.spec_handle(), 0u32),
            ),
        ensures
            match self.spec_nvml()@.nvmlDeviceGetTopologyCommonAncestor {
                Err(error) => crate::error::missing_symbol(r, error),
                Ok(entry) => exists|reply: Reply<u32>|
                    call_ensures(
                        get_level,
                        (entry, self.spec_handle(), other_device.spec_handle(), 0u32),
                        reply,
                    ) && crate::nvml::is_level_reply(r, reply),
            },
    {
        self.nvml.topology_common_ancestor(self, other_device, get_level)
    }
}

/// A device and its session say the same of a pair of devices: on one answer of NVML, both give
/// the same truth value, or both fail with the error that came back.
pub proof fn same_board_is_the_same_either_way(
    reply: Reply<i32>,
    of_session: Result<bool, NvmlError>,
    of_device: Result<bool, NvmlError>,
)
    requires
        of_session == crate::nvml::truth_of(reply),
        of_device == crate::nvml::truth_of(reply),
    ensures
        of_session == of_device,
        of_session is Err <==> reply.code != crate::error::NVML_SUCCESS,
        of_session matches Err(error) ==> error == crate::error::error_of(reply.code),
{
}

/// A device and its session say the same of a pair of devices: on one answer of NVML, both give
/// the same level, or both fail with the same error.
pub proof fn common_ancestor_is_the_same_either_way(
    reply: Reply<u32>,
    of_session: Result<TopologyLevel, NvmlError>,
    of_device: Result<TopologyLevel, NvmlError>,
)
    requires
        crate::nvml::is_level_reply(of_session, reply),
        crate::nvml::is_level_reply(of_device, reply),
    ensures
        of_session == of_device,
        reply.code != crate::error::NVML_SUCCESS ==> of_session == Err::<TopologyLevel, NvmlError>(
            crate::error::error_of(reply.code),
        ),
{
    if let Ok(level) = of_session {
        if reply.code == crate::error::NVML_SUCCESS {
            crate::enum_wrappers::device::level_is_found_by_its_number(level, of_device);
        }
    } else if let Ok(level) = of_device {
        if reply.code == crate::error::NVML_SUCCESS {
            crate::enum_wrappers::device::level_is_found_by_its_number(level, of_session);
        }
    }
}

} // verus!
