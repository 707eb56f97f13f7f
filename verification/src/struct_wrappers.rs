//! The structures that NVML fills in, with their texts read.
use crate::bindings::RawBlacklistDeviceInfo;
use crate::c_string::read_text;
use crate::error::NvmlError;
use crate::struct_wrappers::device::PciInfo;
use vstd::prelude::*;

pub mod device;
pub mod unit;

verus! {

/// A GPU that is kept from use.
#[derive(Debug)]
pub struct BlacklistDeviceInfo {
    /// The PCI attributes of the device.
    pub pci_info: PciInfo,
    /// The globally unique identifier of the device.
    pub uuid: String,
}

impl BlacklistDeviceInfo {
    /// `r` holds what `raw` holds, or the error of the first text of it that is not UTF-8.
    pub open spec fn is_info_of(
        r: Result<BlacklistDeviceInfo, NvmlError>,
        raw: RawBlacklistDeviceInfo,
    ) -> bool {
        match r {
            Ok(info) => PciInfo::is_info_of(Ok(info.pci_info), raw.pciInfo, true)
                && crate::c_string::is_text_of(Ok(info.uuid), raw.uuid@),
            Err(error) => PciInfo::is_info_of(Err(error), raw.pciInfo, true) || (
            PciInfo::has_text(raw.pciInfo) && crate::c_string::is_text_of(Err(error), raw.uuid@)),
        }
    }

    /// Reads the structure that NVML has filled in.
    pub fn try_from(raw: RawBlacklistDeviceInfo) -> (r: Result<Self, NvmlError>)
        ensures
            Self::is_info_of(r, raw),
    {
        let pci_info = match PciInfo::try_from(raw.pciInfo, true) {
            Ok(pci_info) => pci_info,
            Err(error) => return Err(error),
        };
        match read_text(&raw.uuid) {
            Ok(uuid) => Ok(BlacklistDeviceInfo { pci_info, uuid }),
            Err(error) => Err(error),
        }
    }
}

} // verus!
