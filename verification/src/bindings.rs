//! The parts of NVML's C interface that the library deals with, as plain values: buffer
//! sizes, the structures that calls fill in, and the table of entry points.
//!
//! An out-parameter of a call is passed in by value, as it stands before the call, and comes
//! back as the `value` of a [`Reply`]. A `char` array is an array of bytes, and a handle is the
//! address that it holds.
use crate::error::{nvml_try, NvmlError, NVML_SUCCESS};
use vstd::prelude::*;

verus! {

pub const NVML_INIT_FLAG_NO_GPUS: u32 = 1;

pub const NVML_SYSTEM_DRIVER_VERSION_BUFFER_SIZE: u32 = 80;

pub const NVML_SYSTEM_NVML_VERSION_BUFFER_SIZE: u32 = 80;

pub const NVML_DEVICE_PCI_BUS_ID_BUFFER_SIZE: usize = 32;

pub const NVML_TOPOLOGY_INTERNAL: u32 = 0;

pub const NVML_TOPOLOGY_SINGLE: u32 = 10;

pub const NVML_TOPOLOGY_MULTIPLE: u32 = 20;

pub const NVML_TOPOLOGY_HOSTBRIDGE: u32 = 30;

pub const NVML_TOPOLOGY_NODE: u32 = 40;

pub const NVML_TOPOLOGY_SYSTEM: u32 = 50;

/// The address of a function of the shared library.
pub type EntryPoint = usize;

/// The address that a device, unit or event set handle holds.
pub type Handle = usize;

/// `libloading::Library`: a shared library that stays open until the value is closed or dropped.
#[verifier::external_type_specification]
#[verifier::external_body]
pub struct ExLibrary(libloading::Library);

/// `libloading::Library::close` unloads the library and says whether that worked. The result is
/// up to the system's loader, so nothing is claimed of it.
pub assume_specification[ libloading::Library::close ](library: libloading::Library) -> (r: Result<
    (),
    libloading::Error,
>);

/// The open NVML library, with the address of each entry point that is called on it, or the
/// loader's error where the library has no such entry point.
pub struct NvmlLib {
    pub library: libloading::Library,
    pub nvmlInit_v2: Result<EntryPoint, libloading::Error>,
    pub nvmlInitWithFlags: Result<EntryPoint, libloading::Error>,
    pub nvmlShutdown: Result<EntryPoint, libloading::Error>,
    pub nvmlDeviceGetCount_v2: Result<EntryPoint, libloading::Error>,
    pub nvmlSystemGetDriverVersion: Result<EntryPoint, libloading::Error>,
    pub nvmlSystemGetNVMLVersion: Result<EntryPoint, libloading::Error>,
    pub nvmlSystemGetCudaDriverVersion_v2: Result<EntryPoint, libloading::Error>,
    pub nvmlSystemGetProcessName: Result<EntryPoint, libloading::Error>,
    pub nvmlDeviceGetHandleByIndex_v2: Result<EntryPoint, libloading::Error>,
    pub nvmlDeviceGetHandleByPciBusId_v2: Result<EntryPoint, libloading::Error>,
    pub nvmlDeviceGetHandleBySerial: Result<EntryPoint, libloading::Error>,
    pub nvmlDeviceGetHandleByUUID: Result<EntryPoint, libloading::Error>,
    pub nvmlDeviceGetTopologyCommonAncestor: Result<EntryPoint, libloading::Error>,
    pub nvmlUnitGetHandleByIndex: Result<EntryPoint, libloading::Error>,
    pub nvmlDeviceOnSameBoard: Result<EntryPoint, libloading::Error>,
    pub nvmlSystemGetTopologyGpuSet: Result<EntryPoint, libloading::Error>,
    pub nvmlSystemGetHicVersion: Result<EntryPoint, libloading::Error>,
    pub nvmlUnitGetCount: Result<EntryPoint, libloading::Error>,
    pub nvmlEventSetCreate: Result<EntryPoint, libloading::Error>,
    pub nvmlDeviceDiscoverGpus: Result<EntryPoint, libloading::Error>,
    pub nvmlGetBlacklistDeviceCount: Result<EntryPoint, libloading::Error>,
    pub nvmlGetBlacklistDeviceInfoByIndex: Result<EntryPoint, libloading::Error>,
}

/// What came back from a call: its return code, and its out-parameter as the call left it.
#[derive(Debug)]
pub struct Reply<T> {
    pub code: u32,
    pub value: T,
}

impl<T> Reply<T> {
    /// What the reply says: its value after a success, else the error that its code stands for.
    pub open spec fn outcome(self) -> Result<T, NvmlError> {
        if self.code == NVML_SUCCESS {
            Ok(self.value)
        } else {
            Err(crate::error::error_of(self.code))
        }
    }

    /// The value of the reply, or the error that its code stands for.
    pub fn into_result(self) -> (r: Result<T, NvmlError>)
        ensures
            r == self.outcome(),
    {
        match nvml_try(self.code) {
            Ok(()) => Ok(self.value),
            Err(error) => Err(error),
        }
    }
}

/// The PCI attributes of a device (`nvmlPciInfo_t`).
#[derive(Debug, Clone, Copy)]
pub struct RawPciInfo {
    pub busIdLegacy: [u8; 16],
    pub domain: u32,
    pub bus: u32,
    pub device: u32,
    pub pciDeviceId: u32,
    pub pciSubSystemId: u32,
    pub busId: [u8; 32],
}

impl RawPciInfo {
    /// Every byte is zero.
    pub open spec fn is_zeroed(self) -> bool {
        &&& self.busIdLegacy@ =~= Seq::new(16, |i: int| 0u8)
        &&& self.domain == 0
        &&& self.bus == 0
        &&& self.device == 0
        &&& self.pciDeviceId == 0
        &&& self.pciSubSystemId == 0
        &&& self.busId@ =~= Seq::new(32, |i: int| 0u8)
    }

    pub fn zeroed() -> (r: Self)
        ensures
            r.is_zeroed(),
    {
        RawPciInfo {
            busIdLegacy: [0;16],
            domain: 0,
            bus: 0,
            device: 0,
            pciDeviceId: 0,
            pciSubSystemId: 0,
            busId: [0;32],
        }
    }
}

/// A host interface card (`nvmlHwbcEntry_t`).
#[derive(Debug, Clone, Copy)]
pub struct RawHwbcEntry {
    pub hwbcId: u32,
    pub firmwareVersion: [u8; 32],
}

impl RawHwbcEntry {
    /// Every byte is zero.
    pub open spec fn is_zeroed(self) -> bool {
        &&& self.hwbcId == 0
        &&& self.firmwareVersion@ =~= Seq::new(32, |i: int| 0u8)
    }

    pub fn zeroed() -> (r: Self)
        ensures
            r.is_zeroed(),
    {
        RawHwbcEntry { hwbcId: 0, firmwareVersion: [0;32] }
    }

    /// `length` entries of zero bytes.
    pub fn zeroed_vec(length: usize) -> (r: Vec<Self>)
        ensures
            r@.len() == length,
            forall|i: int| 0 <= i < length ==> (#[trigger] r@[i]).is_zeroed(),
    {
        vec![RawHwbcEntry::zeroed();length]
    }
}

/// A blacklisted device (`nvmlBlacklistDeviceInfo_t`).
#[derive(Debug, Clone, Copy)]
pub struct RawBlacklistDeviceInfo {
    pub pciInfo: RawPciInfo,
    pub uuid: [u8; 80],
}

impl RawBlacklistDeviceInfo {
    /// Every byte is zero.
    pub open spec fn is_zeroed(self) -> bool {
        &&& self.pciInfo.is_zeroed()
        &&& self.uuid@ =~= Seq::new(80, |i: int| 0u8)
    }

    pub fn zeroed() -> (r: Self)
        ensures
            r.is_zeroed(),
    {
        RawBlacklistDeviceInfo { pciInfo: RawPciInfo::zeroed(), uuid: [0;80] }
    }
}

/// A call succeeded exactly if its code is `NVML_SUCCESS`; what an unsuccessful call left in its
/// out-parameter is never looked at.
pub proof fn only_success_has_a_value<T>(code: u32, value1: T, value2: T)
    ensures
        (Reply { code, value: value1 }).outcome() is Ok <==> code == NVML_SUCCESS,
        code == NVML_SUCCESS ==> (Reply { code, value: value1 }).outcome() == Ok::<T, NvmlError>(
            value1,
        ),
        code != NVML_SUCCESS ==> (Reply { code, value: value1 }).outcome() == (Reply {
            code,
            value: value2,
        }).outcome(),
{
}

} // verus!
