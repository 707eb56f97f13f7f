//! Structures that describe devices.
use crate::bindings::{RawPciInfo, NVML_DEVICE_PCI_BUS_ID_BUFFER_SIZE};
use crate::c_string::{c_string, read_text};
use crate::error::NvmlError;
use vstd::prelude::*;
use vstd::utf8::*;

verus! {

/// The PCI attributes of a device.
#[derive(Debug)]
pub struct PciInfo {
    /// The bus that the device is on, 0 to 0xff.
    pub bus: u32,
    /// The PCI identifier.
    pub bus_id: String,
    /// The ID of the device on its bus, 0 to 31.
    pub device: u32,
    /// The PCI domain that the bus is in, 0 to 0xffff.
    pub domain: u32,
    /// The device ID and the vendor ID, 16 bits each.
    pub pci_device_id: u32,
    /// The ID of the subsystem, where NVML reports one.
    pub pci_sub_system_id: Option<u32>,
}

impl PciInfo {
    /// The bus ID of `raw` can be read.
    pub open spec fn has_text(raw: RawPciInfo) -> bool {
        valid_utf8(crate::c_string::before_nul(raw.busId@))
    }

    /// `r` holds what `raw` holds, the subsystem's ID only if there is one, or the error that
    /// the bus ID is not UTF-8.
    pub open spec fn is_info_of(
        r: Result<PciInfo, NvmlError>,
        raw: RawPciInfo,
        sub_sys_id_present: bool,
    ) -> bool {
        match r {
            Ok(info) => {
                &&& info.bus == raw.bus
                &&& crate::c_string::is_text_of(Ok(info.bus_id), raw.busId@)
                &&& info.device == raw.device
                &&& info.domain == raw.domain
                &&& info.pci_device_id == raw.pciDeviceId
                &&& info.pci_sub_system_id == (if sub_sys_id_present {
                    Some(raw.pciSubSystemId)
                } else {
                    None
                })
            },
            Err(error) => crate::c_string::is_text_of(Err(error), raw.busId@),
        }
    }

    /// Reads the structure that NVML has filled in.
    pub fn try_from(raw: RawPciInfo, sub_sys_id_present: bool) -> (r: Result<Self, NvmlError>)
        ensures
            Self::is_info_of(r, raw, sub_sys_id_present),
    {
        match read_text(&raw.busId) {
            Ok(bus_id) => Ok(
                PciInfo {
                    bus: raw.bus,
                    bus_id,
                    device: raw.device,
                    domain: raw.domain,
                    pci_device_id: raw.pciDeviceId,
                    pci_sub_system_id: if sub_sys_id_present {
                        Some(raw.pciSubSystemId)
                    } else {
                        None
                    },
                },
            ),
            Err(error) => Err(error),
        }
    }

    /// `raw` says what `self` says: the bus ID is a C string, filled up with zero bytes, and a
    /// missing subsystem ID is zero.
    pub open spec fn is_written_to(self, raw: RawPciInfo) -> bool {
        let bus_id = encode_utf8(self.bus_id@);
        &&& raw.busIdLegacy@ == Seq::new(16, |i: int| 0u8)
        &&& raw.domain == self.domain
        &&& raw.bus == self.bus
        &&& raw.device == self.device
        &&& raw.pciDeviceId == self.pci_device_id
        &&& raw.pciSubSystemId == (match self.pci_sub_system_id {
            Some(id) => id,
            None => 0,
        })
        &&& bus_id.len() < 32
        &&& raw.busId@ == bus_id + Seq::new((32 - bus_id.len()) as nat, |i: int| 0u8)
    }

    /// `r` holds the structure that says what `self` says; or an error, if the bus ID has a zero
    /// byte in it or does not fit.
    pub open spec fn is_raw_of(self, r: Result<RawPciInfo, NvmlError>) -> bool {
        let bus_id = encode_utf8(self.bus_id@);
        match bus_id.index_of_first(0u8) {
            Some(position) => crate::c_string::is_nul_error(r, bus_id, position),
            None => if bus_id.len() + 1 > NVML_DEVICE_PCI_BUS_ID_BUFFER_SIZE {
                r matches Err(NvmlError::StringTooLong { max_len, actual_len }) && max_len
                    == NVML_DEVICE_PCI_BUS_ID_BUFFER_SIZE && actual_len == bus_id.len() + 1
            } else {
                r matches Ok(raw) && self.is_written_to(raw)
            },
        }
    }

    /// Writes the structure that NVML takes.
    pub fn try_into(self) -> (r: Result<RawPciInfo, NvmlError>)
        ensures
            self.is_raw_of(r),
    {
        let bytes = match c_string(self.bus_id.as_str()) {
            Ok(bytes) => bytes,
            Err(error) => return Err(error),
        };
        if bytes.len() > NVML_DEVICE_PCI_BUS_ID_BUFFER_SIZE {
            return Err(
                NvmlError::StringTooLong {
                    max_len: NVML_DEVICE_PCI_BUS_ID_BUFFER_SIZE,
                    actual_len: bytes.len(),
                },
            );
        }
        let mut raw = RawPciInfo::zeroed();
        let mut i: usize = 0;
        let ghost blank = raw;
        while i < bytes.len()
            invariant
                i <= bytes@.len() <= 32,
                raw == (RawPciInfo { busId: raw.busId, ..blank }),
                forall|j: int| 0 <= j < i ==> raw.busId@[j] == bytes@[j],
                forall|j: int| i <= j < 32 ==> raw.busId@[j] == 0u8,
            decreases bytes@.len() - i,
        {
            raw.busId[i] = bytes[i];
            i = i + 1;
        }
        raw.domain = self.domain;
        raw.bus = self.bus;
        raw.device = self.device;
        raw.pciDeviceId = self.pci_device_id;
        raw.pciSubSystemId = match self.pci_sub_system_id {
            Some(id) => id,
            None => 0,
        };
        proof {
            let bus_id = encode_utf8(self.bus_id@);
            assert forall|j: int| 0 <= j < 32 implies #[trigger] raw.busId@[j] == (if j
                < bus_id.len() {
                bus_id[j]
            } else {
                0u8
            }) by {
                if j <= bus_id.len() {
                    assert(raw.busId@[j] == bytes@[j]);
                }
            }
            assert(raw.busId@ =~= bus_id + Seq::new((32 - bus_id.len()) as nat, |j: int| 0u8));
        }
        Ok(raw)
    }
}

/// Attributes that were written for NVML are read back as they were, but for a missing subsystem
/// ID, which comes back as zero.
pub proof fn pci_info_reads_back(info: PciInfo, raw: RawPciInfo, r: Result<PciInfo, NvmlError>)
    requires
        info.is_raw_of(Ok(raw)),
        PciInfo::is_info_of(r, raw, true),
    ensures
        r matches Ok(read) && read.bus == info.bus && read.bus_id@ == info.bus_id@ && read.device
            == info.device && read.domain == info.domain && read.pci_device_id
            == info.pci_device_id && read.pci_sub_system_id == Some(
            match info.pci_sub_system_id {
                Some(id) => id,
                None => 0,
            },
        ),
{
    let bus_id = encode_utf8(info.bus_id@);
    let rest = Seq::new((31 - bus_id.len()) as nat, |i: int| 0u8);
    bus_id.index_of_first_ensures(0u8);
    assert(raw.busId@ =~= bus_id.push(0u8) + rest);
    match r {
        Ok(read) => crate::c_string::c_string_reads_back(
            info.bus_id@,
            bus_id.push(0u8),
            rest,
            Ok(read.bus_id),
        ),
        Err(error) => crate::c_string::c_string_reads_back(
            info.bus_id@,
            bus_id.push(0u8),
            rest,
            Err(error),
        ),
    }
}

/// Attributes that were read from NVML can always be handed to it again, and say the same, as
/// long as their bus ID ended within its buffer.
pub proof fn pci_info_writes_back(
    raw: RawPciInfo,
    info: PciInfo,
    r: Result<RawPciInfo, NvmlError>,
)
    requires
        raw.busId@.contains(0u8),
        PciInfo::is_info_of(Ok(info), raw, true),
        info.is_raw_of(r),
    ensures
        r matches Ok(written) && written.domain == raw.domain && written.bus == raw.bus
            && written.device == raw.device && written.pciDeviceId == raw.pciDeviceId
            && written.pciSubSystemId == raw.pciSubSystemId && crate::c_string::before_nul(
            written.busId@,
        ) == crate::c_string::before_nul(raw.busId@),
{
    let bus_id = encode_utf8(info.bus_id@);
    let bytes = crate::c_string::before_nul(raw.busId@);
    raw.busId@.index_of_first_ensures(0u8);
    decode_utf8_encode_utf8(bytes);
    assert(bus_id == bytes);
    bus_id.index_of_first_ensures(0u8);
    assert(!bus_id.contains(0u8));
    assert(raw.busId@.len() == 32);
    assert(bus_id.len() < 32);
    if let Ok(written) = r {
        written.busId@.index_of_first_ensures(0u8);
        assert(written.busId@[bus_id.len() as int] == 0u8);
        assert forall|i: int| 0 <= i < bus_id.len() implies written.busId@[i] != 0u8 by {
            assert(written.busId@[i] == bus_id[i]);
        }
        assert(crate::c_string::before_nul(written.busId@) =~= bus_id);
    }
}

} // verus!
