//! Values on their own: return codes, texts, versions, structures.
use nvml_wrapper::bindings::{
    RawPciInfo, Reply, NVML_DEVICE_PCI_BUS_ID_BUFFER_SIZE, NVML_INIT_FLAG_NO_GPUS,
    NVML_SYSTEM_DRIVER_VERSION_BUFFER_SIZE, NVML_SYSTEM_NVML_VERSION_BUFFER_SIZE,
    NVML_TOPOLOGY_HOSTBRIDGE, NVML_TOPOLOGY_INTERNAL, NVML_TOPOLOGY_MULTIPLE, NVML_TOPOLOGY_NODE,
    NVML_TOPOLOGY_SINGLE, NVML_TOPOLOGY_SYSTEM,
};
use nvml_wrapper::bitmasks::InitFlags;
use nvml_wrapper::c_string::{c_string, read_text};
use nvml_wrapper::error::{nvml_sym, nvml_try, NvmlError};
use nvml_wrapper::struct_wrappers::device::PciInfo;
use nvml_wrapper::{cuda_driver_version_major, cuda_driver_version_minor};
use nvml_wrapper_sys::bindings as sys;

#[test]
fn every_code_has_its_error() {
    let named = vec![
        (sys::nvmlReturn_enum_NVML_ERROR_UNINITIALIZED, NvmlError::Uninitialized),
        (sys::nvmlReturn_enum_NVML_ERROR_INVALID_ARGUMENT, NvmlError::InvalidArg),
        (sys::nvmlReturn_enum_NVML_ERROR_NOT_SUPPORTED, NvmlError::NotSupported),
        (sys::nvmlReturn_enum_NVML_ERROR_NO_PERMISSION, NvmlError::NoPermission),
        (sys::nvmlReturn_enum_NVML_ERROR_ALREADY_INITIALIZED, NvmlError::AlreadyInitialized),
        (sys::nvmlReturn_enum_NVML_ERROR_NOT_FOUND, NvmlError::NotFound),
        (sys::nvmlReturn_enum_NVML_ERROR_INSUFFICIENT_SIZE, NvmlError::InsufficientSize),
        (sys::nvmlReturn_enum_NVML_ERROR_INSUFFICIENT_POWER, NvmlError::InsufficientPower),
        (sys::nvmlReturn_enum_NVML_ERROR_DRIVER_NOT_LOADED, NvmlError::DriverNotLoaded),
        (sys::nvmlReturn_enum_NVML_ERROR_TIMEOUT, NvmlError::Timeout),
        (sys::nvmlReturn_enum_NVML_ERROR_IRQ_ISSUE, NvmlError::IrqIssue),
        (sys::nvmlReturn_enum_NVML_ERROR_LIBRARY_NOT_FOUND, NvmlError::LibraryNotFound),
        (sys::nvmlReturn_enum_NVML_ERROR_FUNCTION_NOT_FOUND, NvmlError::FunctionNotFound),
        (sys::nvmlReturn_enum_NVML_ERROR_CORRUPTED_INFOROM, NvmlError::CorruptedInfoROM),
        (sys::nvmlReturn_enum_NVML_ERROR_GPU_IS_LOST, NvmlError::GpuLost),
        (sys::nvmlReturn_enum_NVML_ERROR_RESET_REQUIRED, NvmlError::ResetRequired),
        (sys::nvmlReturn_enum_NVML_ERROR_OPERATING_SYSTEM, NvmlError::OperatingSystem),
        (sys::nvmlReturn_enum_NVML_ERROR_LIB_RM_VERSION_MISMATCH, NvmlError::LibRmVersionMismatch),
        (sys::nvmlReturn_enum_NVML_ERROR_IN_USE, NvmlError::InUse),
        (sys::nvmlReturn_enum_NVML_ERROR_MEMORY, NvmlError::InsufficientMemory),
        (sys::nvmlReturn_enum_NVML_ERROR_NO_DATA, NvmlError::NoData),
        (sys::nvmlReturn_enum_NVML_ERROR_VGPU_ECC_NOT_SUPPORTED, NvmlError::VgpuEccNotSupported),
        (sys::nvmlReturn_enum_NVML_ERROR_INSUFFICIENT_RESOURCES, NvmlError::InsufficientResources),
        (sys::nvmlReturn_enum_NVML_ERROR_UNKNOWN, NvmlError::Unknown),
        (24, NvmlError::Unknown),
        (u32::MAX, NvmlError::Unknown),
    ];
    assert!(nvml_try(sys::nvmlReturn_enum_NVML_SUCCESS).is_ok());
    for (code, error) in named {
        let reported = nvml_try(code).unwrap_err();
        assert_eq!(format!("{:?}", reported), format!("{:?}", error));
    }
}

#[test]
fn constants_are_those_of_the_bindings() {
    assert_eq!(NVML_INIT_FLAG_NO_GPUS, sys::NVML_INIT_FLAG_NO_GPUS);
    assert_eq!(
        NVML_SYSTEM_DRIVER_VERSION_BUFFER_SIZE,
        sys::NVML_SYSTEM_DRIVER_VERSION_BUFFER_SIZE
    );
    assert_eq!(NVML_SYSTEM_NVML_VERSION_BUFFER_SIZE, sys::NVML_SYSTEM_NVML_VERSION_BUFFER_SIZE);
    assert_eq!(
        NVML_DEVICE_PCI_BUS_ID_BUFFER_SIZE,
        sys::NVML_DEVICE_PCI_BUS_ID_BUFFER_SIZE as usize
    );
    assert_eq!(NVML_TOPOLOGY_INTERNAL, sys::nvmlGpuLevel_enum_NVML_TOPOLOGY_INTERNAL);
    assert_eq!(NVML_TOPOLOGY_SINGLE, sys::nvmlGpuLevel_enum_NVML_TOPOLOGY_SINGLE);
    assert_eq!(NVML_TOPOLOGY_MULTIPLE, sys::nvmlGpuLevel_enum_NVML_TOPOLOGY_MULTIPLE);
    assert_eq!(NVML_TOPOLOGY_HOSTBRIDGE, sys::nvmlGpuLevel_enum_NVML_TOPOLOGY_HOSTBRIDGE);
    assert_eq!(NVML_TOPOLOGY_NODE, sys::nvmlGpuLevel_enum_NVML_TOPOLOGY_NODE);
    assert_eq!(NVML_TOPOLOGY_SYSTEM, sys::nvmlGpuLevel_enum_NVML_TOPOLOGY_SYSTEM);
    assert_eq!(InitFlags::no_gpus().bits(), sys::NVML_INIT_FLAG_NO_GPUS);
    assert_eq!(InitFlags::empty().bits(), 0);
}

#[test]
fn loader_errors_are_told_in_their_own_words() {
    assert!(matches!(nvml_sym(&Ok(0x7f00)), Ok(0x7f00)));
    let r = nvml_sym(&Err(libloading::Error::IncompatibleSize));
    assert!(matches!(r, Err(NvmlError::FailedToLoadSymbol(text)) if text == "requested type cannot possibly work"));
    let error = NvmlError::from(libloading::Error::IncompatibleSize);
    assert!(matches!(error, NvmlError::LibloadingError(libloading::Error::IncompatibleSize)));
}

#[test]
fn value_of_a_failed_call_is_not_looked_at() {
    assert!(matches!((Reply { code: 0, value: 'x' }).into_result(), Ok('x')));
    assert!(matches!((Reply { code: 10, value: 'x' }).into_result(), Err(NvmlError::Timeout)));
    assert!(matches!((Reply { code: 10, value: 'y' }).into_result(), Err(NvmlError::Timeout)));
}

#[test]
fn cuda_versions_come_apart() {
    assert_eq!((cuda_driver_version_major(10010), cuda_driver_version_minor(10010)), (10, 1));
    assert_eq!((cuda_driver_version_major(9020), cuda_driver_version_minor(9020)), (9, 2));
    assert_eq!((cuda_driver_version_major(11990), cuda_driver_version_minor(11990)), (11, 99));
    assert_eq!((cuda_driver_version_major(11047), cuda_driver_version_minor(11047)), (11, 4));
    assert_eq!((cuda_driver_version_major(0), cuda_driver_version_minor(0)), (0, 0));
    assert_eq!((cuda_driver_version_major(999), cuda_driver_version_minor(999)), (0, 99));
    assert_eq!((cuda_driver_version_major(-1027), cuda_driver_version_minor(-1027)), (-1, -2));
    assert_eq!(cuda_driver_version_major(i32::MIN), -2147483);
    assert_eq!(cuda_driver_version_minor(i32::MIN), -64);
}

#[test]
fn texts_end_at_the_first_zero_byte() {
    assert_eq!(read_text(b"abc\0def\0").unwrap(), "abc");
    assert_eq!(read_text(b"\0abc").unwrap(), "");
    assert_eq!(read_text(b"abc").unwrap(), "abc");
    assert_eq!(read_text(b"").unwrap(), "");
    assert_eq!(read_text("grüße\0\u{1F600}".as_bytes()).unwrap(), "grüße");
    assert_eq!(read_text(b"abc\0\xff").unwrap(), "abc");
    match read_text(b"abc\xff\0") {
        Err(NvmlError::Utf8Error(error)) => {
            assert_eq!((error.valid_up_to(), error.error_len()), (3, Some(1)));
        }
        other => panic!("{:?}", other),
    }
}

#[test]
fn texts_become_c_strings_and_read_back() {
    assert_eq!(c_string("GPU-1").unwrap(), b"GPU-1\0".to_vec());
    assert_eq!(c_string("").unwrap(), vec![0]);
    for text in vec!["", "00000000:01:00.0", "grüße", "\u{1F600}", "\u{80}\u{800}"] {
        let mut buffer = c_string(text).unwrap();
        buffer.extend_from_slice(b"rest\xff");
        assert_eq!(read_text(&buffer).unwrap(), text);
    }
    match c_string("ü\0x\0") {
        Err(NvmlError::NulError(error)) => {
            assert_eq!(error.nul_position, 2);
            assert_eq!(error.bytes, "ü\0x\0".as_bytes().to_vec());
        }
        other => panic!("{:?}", other),
    }
}

fn info(bus_id: &str, pci_sub_system_id: Option<u32>) -> PciInfo {
    PciInfo {
        bus: 2,
        bus_id: bus_id.to_string(),
        device: 3,
        domain: 4,
        pci_device_id: 5,
        pci_sub_system_id,
    }
}

#[test]
fn pci_attributes_are_written_and_read_back() {
    let full = "x".repeat(31);
    for bus_id in vec!["", "00000000:01:00.0", full.as_str()] {
        let raw = info(bus_id, None).try_into().unwrap();
        let back = PciInfo::try_from(raw, true).unwrap();
        assert_eq!(back.bus_id, bus_id);
        assert_eq!((back.bus, back.device, back.domain, back.pci_device_id), (2, 3, 4, 5));
        assert_eq!(back.pci_sub_system_id, Some(0));
    }
    let raw = info("0", Some(6)).try_into().unwrap();
    assert_eq!(PciInfo::try_from(raw, true).unwrap().pci_sub_system_id, Some(6));
    assert_eq!(PciInfo::try_from(raw, false).unwrap().pci_sub_system_id, None);
    let r = info(&"ü".repeat(16), None).try_into();
    assert!(matches!(r, Err(NvmlError::StringTooLong { max_len: 32, actual_len: 33 })));
    let r = info("a\0", None).try_into();
    assert!(matches!(r, Err(NvmlError::NulError(error)) if error.nul_position == 1));
}

#[test]
fn pci_attributes_are_read_and_written_back() {
    let mut raw = RawPciInfo::zeroed();
    raw.busIdLegacy[0] = b'L';
    raw.busId[..6].copy_from_slice(b"0:1\0zz");
    raw.bus = 7;
    raw.pciSubSystemId = 8;
    let written = PciInfo::try_from(raw, true).unwrap().try_into().unwrap();
    assert_eq!((written.bus, written.pciSubSystemId), (7, 8));
    assert_eq!(&written.busId[..6], b"0:1\0\0\0");
    assert_eq!(written.busIdLegacy, [0; 16]);
    raw.busId = [b'y'; 32];
    let r = PciInfo::try_from(raw, true).unwrap().try_into();
    assert!(matches!(r, Err(NvmlError::StringTooLong { max_len: 32, actual_len: 33 })));
    raw.busId[0] = 0xff;
    assert!(matches!(PciInfo::try_from(raw, true), Err(NvmlError::Utf8Error(_))));
}
