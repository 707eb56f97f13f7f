//! Sessions with a driver that is played by the functions that the tests hand in.
use libloading::os::unix::Library;
use nvml_wrapper::bindings::{
    EntryPoint, Handle, NvmlLib, RawBlacklistDeviceInfo, RawHwbcEntry, RawPciInfo, Reply,
};
use nvml_wrapper::bitmasks::InitFlags;
use nvml_wrapper::enum_wrappers::device::TopologyLevel;
use nvml_wrapper::error::NvmlError;
use nvml_wrapper::struct_wrappers::device::PciInfo;
use nvml_wrapper::{
    cuda_driver_version_major, cuda_driver_version_minor, Device, Platform, NVML,
};
use std::cell::Cell;

fn assert_send<T: Send>() {}

fn assert_sync<T: Sync>() {}

/// An open library that has every entry point, at the address that is its number.
fn complete_lib() -> NvmlLib {
    NvmlLib {
        library: Library::this().into(),
        nvmlInit_v2: Ok(1),
        nvmlInitWithFlags: Ok(2),
        nvmlShutdown: Ok(3),
        nvmlDeviceGetCount_v2: Ok(4),
        nvmlSystemGetDriverVersion: Ok(5),
        nvmlSystemGetNVMLVersion: Ok(6),
        nvmlSystemGetCudaDriverVersion_v2: Ok(7),
        nvmlSystemGetProcessName: Ok(8),
        nvmlDeviceGetHandleByIndex_v2: Ok(9),
        nvmlDeviceGetHandleByPciBusId_v2: Ok(10),
        nvmlDeviceGetHandleBySerial: Ok(11),
        nvmlDeviceGetHandleByUUID: Ok(12),
        nvmlDeviceGetTopologyCommonAncestor: Ok(13),
        nvmlUnitGetHandleByIndex: Ok(14),
        nvmlDeviceOnSameBoard: Ok(15),
        nvmlSystemGetTopologyGpuSet: Ok(16),
        nvmlSystemGetHicVersion: Ok(17),
        nvmlUnitGetCount: Ok(18),
        nvmlEventSetCreate: Ok(19),
        nvmlDeviceDiscoverGpus: Ok(20),
        nvmlGetBlacklistDeviceCount: Ok(21),
        nvmlGetBlacklistDeviceInfoByIndex: Ok(22),
    }
}

/// The text of the error below, as the loader displays it.
const MISSING: &str = "dlsym failed, but system did not report the error";

fn missing() -> Result<EntryPoint, libloading::Error> {
    Err(libloading::Error::DlSymUnknown)
}

/// An open library that has an entry point to initialize it and no other.
fn bare_lib() -> NvmlLib {
    NvmlLib {
        library: Library::this().into(),
        nvmlInit_v2: Ok(1),
        nvmlInitWithFlags: missing(),
        nvmlShutdown: missing(),
        nvmlDeviceGetCount_v2: missing(),
        nvmlSystemGetDriverVersion: missing(),
        nvmlSystemGetNVMLVersion: missing(),
        nvmlSystemGetCudaDriverVersion_v2: missing(),
        nvmlSystemGetProcessName: missing(),
        nvmlDeviceGetHandleByIndex_v2: missing(),
        nvmlDeviceGetHandleByPciBusId_v2: missing(),
        nvmlDeviceGetHandleBySerial: missing(),
        nvmlDeviceGetHandleByUUID: missing(),
        nvmlDeviceGetTopologyCommonAncestor: missing(),
        nvmlUnitGetHandleByIndex: missing(),
        nvmlDeviceOnSameBoard: missing(),
        nvmlSystemGetTopologyGpuSet: missing(),
        nvmlSystemGetHicVersion: missing(),
        nvmlUnitGetCount: missing(),
        nvmlEventSetCreate: missing(),
        nvmlDeviceDiscoverGpus: missing(),
        nvmlGetBlacklistDeviceCount: missing(),
        nvmlGetBlacklistDeviceInfoByIndex: missing(),
    }
}

fn session_on(lib: NvmlLib) -> NVML {
    match NVML::init(Platform::Linux, |_| Ok(lib), |_| 0) {
        Ok(nvml) => nvml,
        Err(error) => panic!("no session: {:?}", error),
    }
}

fn nvml() -> NVML {
    session_on(complete_lib())
}

/// Runs a test several times; each run has to succeed.
fn test<T>(reps: usize, run: impl Fn() -> Result<T, NvmlError>) {
    for _ in 0..reps {
        if let Err(error) = run() {
            panic!("{:?}", error);
        }
    }
}

fn device_at(nvml: &NVML, index: u32) -> Device<'_> {
    match nvml.device_by_index(index, |entry, index, handle| {
        assert_eq!((entry, handle), (9, 0));
        Reply { code: 0, value: 0x1000 + index as usize }
    }) {
        Ok(device) => device,
        Err(error) => panic!("no device: {:?}", error),
    }
}

fn test_with_device<'nvml, T>(
    reps: usize,
    nvml: &'nvml NVML,
    run: impl Fn(&Device<'nvml>) -> Result<T, NvmlError>,
) {
    let device = device_at(nvml, 0);
    test(reps, || run(&device));
}

/// Puts a text and a zero byte at the start of a buffer.
fn fill(mut buffer: Vec<u8>, text: &str) -> Vec<u8> {
    buffer[..text.len()].copy_from_slice(text.as_bytes());
    buffer[text.len()] = 0;
    buffer
}

fn hwbc(id: u32, firmware_version: &[u8]) -> RawHwbcEntry {
    let mut entry = RawHwbcEntry::zeroed();
    entry.hwbcId = id;
    entry.firmwareVersion[..firmware_version.len()].copy_from_slice(firmware_version);
    entry
}

fn pci_info() -> PciInfo {
    PciInfo {
        bus: 1,
        bus_id: "00000000:01:00.0".to_string(),
        device: 0,
        domain: 0,
        pci_device_id: 0x17c8_10de,
        pci_sub_system_id: Some(0x8499_1043),
    }
}

#[test]
fn nvml_is_send() {
    assert_send::<NVML>()
}

#[test]
fn nvml_is_sync() {
    assert_sync::<NVML>()
}

#[test]
fn init_with_flags() {
    let nvml = NVML::init_with_flags(
        Platform::Linux,
        InitFlags::no_gpus(),
        |path| {
            assert_eq!(path, "libnvidia-ml.so");
            Ok(complete_lib())
        },
        |entry, flags| {
            assert_eq!((entry, flags), (2, 1));
            0
        },
    );
    assert!(nvml.is_ok());
}

#[test]
fn shutdown() {
    test(3, || {
        nvml().shutdown(
            |entry, _| {
                assert_eq!(entry, 3);
                0
            },
            |_, _| unreachable!(),
        )
    })
}

#[test]
fn device_count() {
    test(3, || nvml().device_count(|_, _| Reply { code: 0, value: 2 }))
}

#[test]
fn sys_driver_version() {
    test(3, || {
        nvml().sys_driver_version(|_, buffer, _| Reply { code: 0, value: fill(buffer, "375.51") })
    })
}

#[test]
fn sys_nvml_version() {
    test(3, || {
        nvml().sys_nvml_version(|_, buffer, _| Reply { code: 0, value: fill(buffer, "10.375.51") })
    })
}

#[test]
fn sys_cuda_driver_version() {
    test(3, || nvml().sys_cuda_driver_version(|_, _| Reply { code: 0, value: 10010 }))
}

#[test]
fn sys_cuda_driver_version_major() {
    test(3, || {
        let version = nvml().sys_cuda_driver_version(|_, _| Reply { code: 0, value: 10020 })?;
        assert_eq!(cuda_driver_version_major(version), 10);
        Ok(cuda_driver_version_major(version))
    })
}

#[test]
fn sys_cuda_driver_version_minor() {
    test(3, || {
        let version = nvml().sys_cuda_driver_version(|_, _| Reply { code: 0, value: 10020 })?;
        assert_eq!(cuda_driver_version_minor(version), 2);
        Ok(cuda_driver_version_minor(version))
    })
}

#[test]
fn sys_process_name() {
    let nvml = nvml();
    test_with_device(3, &nvml, |_| {
        match nvml.sys_process_name(1234, 64, |_, _, buffer, _| Reply { code: 4, value: buffer }) {
            Err(NvmlError::NoPermission) => Ok("No permission error".into()),
            v => v,
        }
    })
}

#[test]
fn device_by_index() {
    let nvml = nvml();
    test(3, || nvml.device_by_index(0, |_, _, _| Reply { code: 0, value: 0x1000 }))
}

#[test]
fn device_by_pci_bus_id() {
    let nvml = nvml();
    test_with_device(3, &nvml, |device| {
        let id = pci_info().bus_id;
        nvml.device_by_pci_bus_id(&id, |_, _, _| Reply { code: 0, value: device.handle() })
    })
}

#[test]
fn device_by_serial() {
    let nvml = nvml();
    test_with_device(3, &nvml, |device| {
        nvml.device_by_serial("0324512345678", |_, _, _| Reply { code: 0, value: device.handle() })
    })
}

#[test]
fn device_by_uuid() {
    let nvml = nvml();
    test_with_device(3, &nvml, |device| {
        nvml.device_by_uuid("GPU-5a7b", |_, _, _| Reply { code: 0, value: device.handle() })
    })
}

#[test]
fn topology_common_ancestor() {
    let nvml = nvml();
    let device1 = device_at(&nvml, 0);
    let device2 = device_at(&nvml, 1);

    nvml.topology_common_ancestor(&device1, &device2, |_, _, _, _| Reply { code: 0, value: 30 })
        .expect("TopologyLevel");
}

#[test]
fn unit_by_index() {
    let nvml = nvml();
    test(3, || {
        match nvml.unit_by_index(0, |_, _, _| Reply { code: 0, value: 0x2000 }) {
            Err(NvmlError::InvalidArg) => panic!("InvalidArg"),
            other => other,
        }
    })
}

#[test]
fn are_devices_on_same_board() {
    let nvml = nvml();
    let device1 = device_at(&nvml, 0);
    let device2 = device_at(&nvml, 1);

    nvml.are_devices_on_same_board(&device1, &device2, |_, _, _, _| Reply { code: 0, value: 1 })
        .expect("bool");
}

#[test]
fn topology_gpu_set() {
    let nvml = nvml();
    test(3, || {
        nvml.topology_gpu_set(
            0,
            |_, _, _| Reply { code: 0, value: 1 },
            |_, _, _, _| Reply { code: 0, value: vec![0x1000] },
        )
    })
}

#[test]
fn hic_version() {
    let nvml = nvml();
    test(3, || {
        nvml.hic_versions(
            |_, _, _| Reply { code: 0, value: 1 },
            |_, _, _| Reply { code: 0, value: vec![hwbc(7, b"1.2")] },
        )
    })
}

#[test]
fn unit_count() {
    test(3, || nvml().unit_count(|_, _| Reply { code: 0, value: 0 }))
}

#[test]
fn create_event_set() {
    let nvml = nvml();
    test(3, || nvml.create_event_set(|_, _| Reply { code: 0, value: 0x3000 }))
}

#[should_panic(expected = "OperatingSystem")]
#[test]
fn discover_gpus() {
    let nvml = nvml();
    test_with_device(3, &nvml, |_| {
        match nvml.discover_gpus(pci_info(), |_, _| 17) {
            Err(NvmlError::NoPermission) => panic!("NoPermission"),
            other => other,
        }
    })
}

#[test]
fn blacklist_device_count() {
    let nvml = nvml();
    test(3, || nvml.blacklist_device_count(|_, _| Reply { code: 0, value: 1 }))
}

#[test]
fn blacklist_device_info() {
    let nvml = nvml();

    if nvml.blacklist_device_count(|_, _| Reply { code: 0, value: 1 }).unwrap() > 0 {
        test(3, || nvml.blacklist_device_info(0, |_, _, info| Reply { code: 0, value: info }))
    }
}

#[test]
fn init_goes_from_the_path_to_the_entry_point() {
    let nvml = NVML::init(
        Platform::Linux,
        |path| {
            assert_eq!(path, "libnvidia-ml.so");
            Ok(complete_lib())
        },
        |entry| {
            assert_eq!(entry, 1);
            0
        },
    );
    match nvml {
        Ok(nvml) => assert!(matches!(nvml.lib().nvmlUnitGetCount, Ok(18))),
        Err(error) => panic!("{:?}", error),
    }
}

#[test]
fn init_fails_without_the_library() {
    let real = libloading::Library::new("/no/such/library.so");
    let r = NVML::init(Platform::Linux, |_| Err(real.unwrap_err()), |_| unreachable!());
    assert!(matches!(r, Err(NvmlError::LibloadingError(libloading::Error::DlOpen { .. }))));
    let r = NVML::init_with_flags(
        Platform::Linux,
        InitFlags::empty(),
        |_| Err(libloading::Error::DlOpenUnknown),
        |_, _| unreachable!(),
    );
    assert!(matches!(r, Err(NvmlError::LibloadingError(libloading::Error::DlOpenUnknown))));
}

#[test]
fn init_fails_without_its_entry_point() {
    let r = NVML::init_with_flags(Platform::Linux, InitFlags::empty(), |_| Ok(bare_lib()), |_, _| unreachable!());
    assert!(matches!(r, Err(NvmlError::FailedToLoadSymbol(text)) if text == MISSING));
    let mut lib = complete_lib();
    lib.nvmlInit_v2 = missing();
    let r = NVML::init(Platform::Linux, |_| Ok(lib), |_| unreachable!());
    assert!(matches!(r, Err(NvmlError::FailedToLoadSymbol(text)) if text == MISSING));
}

#[test]
fn init_and_init_with_flags_fail_alike() {
    let without = NVML::init(Platform::Linux, |_| Ok(complete_lib()), |_| 9);
    let with = NVML::init_with_flags(Platform::Linux, InitFlags::empty(), |_| Ok(complete_lib()), |_, flags| {
        assert_eq!(flags, 0);
        9
    });
    assert!(matches!(without, Err(NvmlError::DriverNotLoaded)));
    assert!(matches!(with, Err(NvmlError::DriverNotLoaded)));
}

#[test]
fn library_has_another_name_elsewhere() {
    let r = NVML::init(
        Platform::Other,
        |path| {
            assert_eq!(path, "nvml.dll");
            Ok(complete_lib())
        },
        |_| 0,
    );
    assert!(r.is_ok());
    let r = NVML::init_with_flags(
        Platform::Other,
        InitFlags::empty(),
        |path| {
            assert_eq!(path, "nvml.dll");
            Ok(complete_lib())
        },
        |_, _| 0,
    );
    assert!(r.is_ok());
}

#[test]
fn failed_shutdown_discards_the_session() {
    let calls: Cell<Vec<(u32, EntryPoint)>> = Cell::new(Vec::new());
    let log = |number, entry| {
        let mut seen = calls.take();
        seen.push((number, entry));
        calls.set(seen);
    };
    let r = nvml().shutdown(
        |entry, _| {
            log(1, entry);
            1
        },
        |entry, _| {
            log(2, entry);
            999
        },
    );
    assert!(matches!(r, Err(NvmlError::Uninitialized)));
    assert_eq!(calls.take(), vec![(1, 3), (2, 3)]);
}

#[test]
fn shutdown_without_its_entry_point() {
    let r = session_on(bare_lib()).shutdown(|_, _| unreachable!(), |_, _| unreachable!());
    assert!(matches!(r, Err(NvmlError::FailedToLoadSymbol(text)) if text == MISSING));
}

#[test]
fn discarding_ignores_errors() {
    for code in vec![0, 1, 999] {
        let called = Cell::new(0);
        nvml().discard(|entry, _| {
            assert_eq!(entry, 3);
            called.set(called.get() + 1);
            code
        });
        assert_eq!(called.get(), 1);
    }
}

#[test]
fn error_in_closing_the_library_is_reported() {
    let r = nvml_wrapper::nvml::closed_with(Err(libloading::Error::DlCloseUnknown));
    assert!(matches!(r, Err(NvmlError::LibloadingError(libloading::Error::DlCloseUnknown))));
    assert!(nvml_wrapper::nvml::closed_with(Ok(())).is_ok());
}

#[test]
fn initializations_and_shutdowns_are_in_balance() {
    let count = Cell::new(0);
    let start = |code: u32| {
        NVML::init(Platform::Linux, |_| Ok(complete_lib()), |_| {
            if code == 0 {
                count.set(count.get() + 1);
            }
            code
        })
    };
    let stop = |_: EntryPoint, _: &libloading::Library| {
        count.set(count.get() - 1);
        0
    };
    let first = match start(0) {
        Ok(nvml) => nvml,
        Err(error) => panic!("{:?}", error),
    };
    assert_eq!(count.get(), 1);
    assert!(matches!(start(9), Err(NvmlError::DriverNotLoaded)));
    assert_eq!(count.get(), 1);
    match start(0) {
        Ok(second) => {
            assert_eq!(count.get(), 2);
            assert!(second.shutdown(stop, |_, _| unreachable!()).is_ok());
        }
        Err(error) => panic!("{:?}", error),
    }
    assert_eq!(count.get(), 1);
    assert!(first.device_count(|_, _| Reply { code: 0, value: 1 }).is_ok());
    first.discard(stop);
    assert_eq!(count.get(), 0);
}

#[test]
fn missing_entry_points_are_never_called() {
    let whole = nvml();
    let device = device_at(&whole, 0);
    let nvml = session_on(bare_lib());
    let mut errors: Vec<NvmlError> = Vec::new();
    errors.extend(nvml.device_count(|_, _| unreachable!()).err());
    errors.extend(nvml.sys_driver_version(|_, _, _| unreachable!()).err());
    errors.extend(nvml.sys_nvml_version(|_, _, _| unreachable!()).err());
    errors.extend(nvml.sys_cuda_driver_version(|_, _| unreachable!()).err());
    errors.extend(nvml.sys_process_name(1, 64, |_, _, _, _| unreachable!()).err());
    errors.extend(nvml.device_by_index(0, |_, _, _| unreachable!()).err());
    errors.extend(nvml.device_by_pci_bus_id("a\0b", |_, _, _| unreachable!()).err());
    errors.extend(nvml.device_by_serial("a\0b", |_, _, _| unreachable!()).err());
    errors.extend(nvml.device_by_uuid("a\0b", |_, _, _| unreachable!()).err());
    errors.extend(
        nvml.topology_common_ancestor(&device, &device, |_, _, _, _| unreachable!()).err(),
    );
    errors.extend(nvml.unit_by_index(0, |_, _, _| unreachable!()).err());
    errors.extend(
        nvml.are_devices_on_same_board(&device, &device, |_, _, _, _| unreachable!()).err(),
    );
    errors.extend(
        nvml.topology_gpu_set(0, |_, _, _| unreachable!(), |_, _, _, _| unreachable!()).err(),
    );
    errors.extend(nvml.hic_versions(|_, _, _| unreachable!(), |_, _, _| unreachable!()).err());
    errors.extend(nvml.hic_count(|_, _, _| unreachable!()).err());
    errors.extend(nvml.unit_count(|_, _| unreachable!()).err());
    errors.extend(nvml.create_event_set(|_, _| unreachable!()).err());
    errors.extend(nvml.discover_gpus(pci_info(), |_, _| unreachable!()).err());
    errors.extend(nvml.blacklist_device_count(|_, _| unreachable!()).err());
    errors.extend(nvml.blacklist_device_info(0, |_, _, _| unreachable!()).err());
    assert_eq!(errors.len(), 20);
    for error in errors {
        assert!(matches!(error, NvmlError::FailedToLoadSymbol(text) if text == MISSING));
    }
}

#[test]
fn counts_come_from_their_entry_points() {
    let nvml = nvml();
    let echo = |entry: EntryPoint, count: u32| {
        assert_eq!(count, 0);
        Reply { code: 0, value: entry as u32 }
    };
    assert!(matches!(nvml.device_count(echo), Ok(4)));
    assert!(matches!(nvml.unit_count(echo), Ok(18)));
    assert!(matches!(nvml.blacklist_device_count(echo), Ok(21)));
    let refuse = |_: EntryPoint, _: u32| Reply { code: 1, value: 5 };
    assert!(matches!(nvml.device_count(refuse), Err(NvmlError::Uninitialized)));
    assert!(matches!(nvml.unit_count(refuse), Err(NvmlError::Uninitialized)));
    assert!(matches!(nvml.blacklist_device_count(refuse), Err(NvmlError::Uninitialized)));
    let r = nvml.sys_cuda_driver_version(|entry, version| {
        assert_eq!((entry, version), (7, 0));
        Reply { code: 13, value: 0 }
    });
    assert!(matches!(r, Err(NvmlError::FunctionNotFound)));
}

#[test]
fn versions_are_read_from_blank_buffers() {
    let nvml = nvml();
    let r = nvml.sys_driver_version(|entry, buffer, length| {
        assert_eq!((entry, length), (5, 80));
        assert_eq!(buffer, vec![0; 80]);
        Reply { code: 0, value: fill(buffer, "375.51") }
    });
    assert_eq!(r.unwrap(), "375.51");
    let r = nvml.sys_nvml_version(|entry, buffer, length| {
        assert_eq!((entry, length), (6, 80));
        assert_eq!(buffer, vec![0; 80]);
        Reply { code: 0, value: fill(buffer, "10.375.51") }
    });
    assert_eq!(r.unwrap(), "10.375.51");
    let r = nvml.sys_driver_version(|_, _, _| Reply { code: 0, value: vec![b'a', 0xff, 0] });
    match r {
        Err(NvmlError::Utf8Error(error)) => assert_eq!(error.valid_up_to(), 1),
        other => panic!("{:?}", other),
    }
    let r = nvml.sys_nvml_version(|_, _, _| Reply { code: 999, value: vec![0xff] });
    assert!(matches!(r, Err(NvmlError::Unknown)));
}

#[test]
fn process_name_is_cropped_to_its_buffer() {
    let nvml = nvml();
    let r = nvml.sys_process_name(77, 8, |entry, pid, mut buffer, length| {
        assert_eq!((entry, pid, length), (8, 77, 8));
        assert_eq!(buffer, vec![0; 8]);
        buffer.copy_from_slice(b"firefox\0");
        Reply { code: 0, value: buffer }
    });
    assert_eq!(r.unwrap(), "firefox");
    let r = nvml.sys_process_name(77, 4, |_, _, _, _| Reply { code: 0, value: b"fire".to_vec() });
    assert_eq!(r.unwrap(), "fire");
    assert_eq!(nvml_wrapper::nvml::announced_size(0), 0);
    assert_eq!(nvml_wrapper::nvml::announced_size(64), 64);
    assert_eq!(nvml_wrapper::nvml::announced_size(0xffff_ffff), 0xffff_ffff);
    assert_eq!(nvml_wrapper::nvml::announced_size(0x1_0000_0000), 0xffff_ffff);
    assert_eq!(nvml_wrapper::nvml::announced_size(usize::MAX), 0xffff_ffff);
    let r = nvml.sys_process_name(77, 0, |_, _, buffer, length| {
        assert_eq!((buffer.len(), length), (0, 0));
        Reply { code: 2, value: buffer }
    });
    assert!(matches!(r, Err(NvmlError::InvalidArg)));
}

#[test]
fn devices_have_the_handle_that_came_back() {
    let nvml = nvml();
    match nvml.device_by_index(3, |entry, index, handle| {
        assert_eq!((entry, index, handle), (9, 3, 0));
        Reply { code: 0, value: 0x1003 }
    }) {
        Ok(device) => {
            assert_eq!(device.handle(), 0x1003);
            assert!(std::ptr::eq(device.nvml(), &nvml));
        }
        Err(error) => panic!("{:?}", error),
    }
    let r = nvml.device_by_index(9, |_, _, _| Reply { code: 2, value: 0x1009 });
    assert!(matches!(r, Err(NvmlError::InvalidArg)));

    let look_up = |entry: EntryPoint, text: Vec<u8>, handle: Handle| {
        assert_eq!((text, handle), (b"GPU-1\0".to_vec(), 0));
        Reply { code: 0, value: 0x1000 + entry }
    };
    assert!(matches!(nvml.device_by_pci_bus_id("GPU-1", look_up), Ok(d) if d.handle() == 0x100a));
    assert!(matches!(nvml.device_by_serial("GPU-1", look_up), Ok(d) if d.handle() == 0x100b));
    assert!(matches!(nvml.device_by_uuid("GPU-1", look_up), Ok(d) if d.handle() == 0x100c));
    let lose = |_: EntryPoint, _: Vec<u8>, _: Handle| Reply { code: 15, value: 0x1000 };
    assert!(matches!(nvml.device_by_pci_bus_id("GPU-1", lose), Err(NvmlError::GpuLost)));
    assert!(matches!(nvml.device_by_serial("GPU-1", lose), Err(NvmlError::GpuLost)));
    assert!(matches!(nvml.device_by_uuid("GPU-1", lose), Err(NvmlError::GpuLost)));
}

#[test]
fn texts_with_a_zero_byte_are_not_looked_up() {
    let nvml = nvml();
    let errors = vec![
        nvml.device_by_pci_bus_id("ab\0c\0", |_, _, _| unreachable!()).err(),
        nvml.device_by_serial("ab\0c\0", |_, _, _| unreachable!()).err(),
        nvml.device_by_uuid("ab\0c\0", |_, _, _| unreachable!()).err(),
    ];
    for error in errors {
        match error {
            Some(NvmlError::NulError(error)) => {
                assert_eq!(error.nul_position, 2);
                assert_eq!(error.bytes, b"ab\0c\0".to_vec());
            }
            other => panic!("{:?}", other),
        }
    }
}

#[test]
fn units_and_event_sets_have_the_handle_that_came_back() {
    let nvml = nvml();
    match nvml.unit_by_index(1, |entry, index, handle| {
        assert_eq!((entry, index, handle), (14, 1, 0));
        Reply { code: 0, value: 0x2001 }
    }) {
        Ok(unit) => {
            assert_eq!(unit.handle(), 0x2001);
            assert!(std::ptr::eq(unit.nvml(), &nvml));
        }
        Err(error) => panic!("{:?}", error),
    }
    let r = nvml.unit_by_index(1, |_, _, _| Reply { code: 2, value: 0x2001 });
    assert!(matches!(r, Err(NvmlError::InvalidArg)));
    match nvml.create_event_set(|entry, handle| {
        assert_eq!((entry, handle), (19, 0));
        Reply { code: 0, value: 0x3001 }
    }) {
        Ok(set) => {
            assert_eq!(set.handle(), 0x3001);
            assert!(std::ptr::eq(set.nvml(), &nvml));
        }
        Err(error) => panic!("{:?}", error),
    }
    let r = nvml.create_event_set(|_, _| Reply { code: 1, value: 0x3001 });
    assert!(matches!(r, Err(NvmlError::Uninitialized)));
}

#[test]
fn pairs_of_devices_are_handed_over_in_order() {
    let nvml = nvml();
    let device1 = device_at(&nvml, 1);
    let device2 = device_at(&nvml, 2);
    let r = nvml.topology_common_ancestor(&device1, &device2, |entry, first, second, level| {
        assert_eq!((entry, first, second, level), (13, 0x1001, 0x1002, 0));
        Reply { code: 0, value: 50 }
    });
    assert!(matches!(r, Ok(TopologyLevel::System)));
    let answer = |level| {
        nvml.topology_common_ancestor(&device1, &device2, |_, _, _, _| Reply {
            code: 0,
            value: level,
        })
    };
    assert!(matches!(answer(0), Ok(TopologyLevel::Internal)));
    assert!(matches!(answer(10), Ok(TopologyLevel::Single)));
    assert!(matches!(answer(20), Ok(TopologyLevel::Multiple)));
    assert!(matches!(answer(30), Ok(TopologyLevel::HostBridge)));
    assert!(matches!(answer(40), Ok(TopologyLevel::Node)));
    assert!(matches!(answer(41), Err(NvmlError::UnexpectedVariant(41))));
    let r = nvml.topology_common_ancestor(&device1, &device2, |_, _, _, _| Reply {
        code: 3,
        value: 41,
    });
    assert!(matches!(r, Err(NvmlError::NotSupported)));

    let answer = |code, value| {
        nvml.are_devices_on_same_board(&device1, &device2, |entry, first, second, same| {
            assert_eq!((entry, first, second, same), (15, 0x1001, 0x1002, 0));
            Reply { code, value }
        })
    };
    assert!(matches!(answer(0, 0), Ok(false)));
    assert!(matches!(answer(0, 1), Ok(true)));
    assert!(matches!(answer(0, -7), Ok(true)));
    assert!(matches!(answer(2, 1), Err(NvmlError::InvalidArg)));
}

#[test]
fn devices_and_their_session_agree() {
    let nvml = nvml();
    let device1 = device_at(&nvml, 1);
    let device2 = device_at(&nvml, 2);
    for (code, value) in vec![(0, 0), (0, 1), (15, 1)] {
        let answer = |entry: EntryPoint, first: Handle, second: Handle, same: i32| {
            assert_eq!((entry, first, second, same), (15, 0x1001, 0x1002, 0));
            Reply { code, value }
        };
        let of_session = nvml.are_devices_on_same_board(&device1, &device2, answer);
        let of_device = device1.is_on_same_board_as(&device2, answer);
        assert_eq!(format!("{:?}", of_session), format!("{:?}", of_device));
    }
    for (code, value) in vec![(0, 10), (0, 11), (3, 10)] {
        let answer = |entry: EntryPoint, first: Handle, second: Handle, level: u32| {
            assert_eq!((entry, first, second, level), (13, 0x1001, 0x1002, 0));
            Reply { code, value }
        };
        let of_session = nvml.topology_common_ancestor(&device1, &device2, answer);
        let of_device = device1.topology_common_ancestor(&device2, answer);
        assert_eq!(format!("{:?}", of_session), format!("{:?}", of_device));
    }
}

#[test]
fn gpu_set_is_asked_for_after_its_count() {
    let nvml = nvml();
    let r = nvml.topology_gpu_set(
        6,
        |entry, cpu, count| {
            assert_eq!((entry, cpu, count), (16, 6, 0));
            Reply { code: 0, value: 3 }
        },
        |entry, cpu, count, handles| {
            assert_eq!((entry, cpu, count), (16, 6, 3));
            assert_eq!(handles, vec![0, 0, 0]);
            Reply { code: 0, value: vec![0x1002, 0x1000, 0x1001] }
        },
    );
    match r {
        Ok(devices) => {
            let handles: Vec<Handle> = devices.iter().map(|device| device.handle()).collect();
            assert_eq!(handles, vec![0x1002, 0x1000, 0x1001]);
        }
        Err(error) => panic!("{:?}", error),
    }
    let r =
        nvml.topology_gpu_set(6, |_, _, _| Reply { code: 0, value: 0 }, |_, _, _, _| unreachable!());
    assert!(matches!(r, Ok(devices) if devices.is_empty()));
    let r =
        nvml.topology_gpu_set(6, |_, _, _| Reply { code: 2, value: 3 }, |_, _, _, _| unreachable!());
    assert!(matches!(r, Err(NvmlError::InvalidArg)));
    let r = nvml.topology_gpu_set(
        6,
        |_, _, _| Reply { code: 0, value: 1 },
        |_, _, _, handles| Reply { code: 3, value: handles },
    );
    assert!(matches!(r, Err(NvmlError::NotSupported)));
}

#[test]
fn hic_count_is_known_when_the_room_is_too_small() {
    let nvml = nvml();
    let answer = |code, value| {
        nvml.hic_count(|entry, count, room| {
            assert_eq!((entry, count, room.len()), (17, 1, 1));
            assert_eq!((room[0].hwbcId, room[0].firmwareVersion), (0, [0; 32]));
            Reply { code, value }
        })
    };
    assert!(matches!(answer(0, 0), Ok(0)));
    assert!(matches!(answer(0, 1), Ok(1)));
    assert!(matches!(answer(7, 5), Ok(5)));
    assert!(matches!(answer(1, 5), Err(NvmlError::Uninitialized)));
    assert!(matches!(answer(12345, 5), Err(NvmlError::Unknown)));
}

#[test]
fn hic_versions_are_read_in_order() {
    let nvml = nvml();
    let r = nvml.hic_versions(
        |entry, count, room| {
            assert_eq!((entry, count, room.len()), (17, 1, 1));
            Reply { code: 7, value: 2 }
        },
        |entry, count, entries| {
            assert_eq!((entry, count, entries.len()), (17, 2, 2));
            assert_eq!((entries[1].hwbcId, entries[1].firmwareVersion), (0, [0; 32]));
            Reply { code: 0, value: vec![hwbc(7, b"1.2"), hwbc(3, b"0.9\0beta")] }
        },
    );
    match r {
        Ok(entries) => {
            assert_eq!(entries.len(), 2);
            assert_eq!((entries[0].id, entries[0].firmware_version.as_str()), (7, "1.2"));
            assert_eq!((entries[1].id, entries[1].firmware_version.as_str()), (3, "0.9"));
        }
        Err(error) => panic!("{:?}", error),
    }
    let r = nvml.hic_versions(|_, _, _| Reply { code: 0, value: 0 }, |_, _, _| unreachable!());
    assert!(matches!(r, Ok(entries) if entries.is_empty()));
    let r = nvml.hic_versions(|_, _, _| Reply { code: 1, value: 2 }, |_, _, _| unreachable!());
    assert!(matches!(r, Err(NvmlError::Uninitialized)));
    let r = nvml.hic_versions(
        |_, _, _| Reply { code: 7, value: 3 },
        |_, _, entries| Reply { code: 7, value: entries },
    );
    assert!(matches!(r, Err(NvmlError::InsufficientSize)));
    let r = nvml.hic_versions(
        |_, _, _| Reply { code: 7, value: 3 },
        |_, _, _| Reply {
            code: 0,
            value: vec![hwbc(1, b"ok"), hwbc(2, b"abc\xff"), hwbc(3, b"\xff")],
        },
    );
    match r {
        Err(NvmlError::Utf8Error(error)) => assert_eq!(error.valid_up_to(), 3),
        other => panic!("{:?}", other),
    }
}

#[test]
fn discovery_is_handed_the_pci_attributes() {
    let nvml = nvml();
    let seen: Cell<Option<RawPciInfo>> = Cell::new(None);
    let r = nvml.discover_gpus(pci_info(), |entry, raw| {
        assert_eq!(entry, 20);
        seen.set(Some(raw));
        0
    });
    assert!(matches!(r, Ok(())));
    let raw = seen.get().expect("call");
    assert_eq!(raw.busIdLegacy, [0; 16]);
    assert_eq!((raw.domain, raw.bus, raw.device), (0, 1, 0));
    assert_eq!((raw.pciDeviceId, raw.pciSubSystemId), (0x17c8_10de, 0x8499_1043));
    assert_eq!(&raw.busId[..16], b"00000000:01:00.0");
    assert_eq!(&raw.busId[16..], &[0; 16]);

    assert!(matches!(nvml.discover_gpus(pci_info(), |_, _| 4), Err(NvmlError::NoPermission)));
    let mut broken = pci_info();
    broken.bus_id = "0\0".to_string();
    let r = nvml.discover_gpus(broken, |_, _| unreachable!());
    assert!(matches!(r, Err(NvmlError::NulError(error)) if error.nul_position == 1));
    let mut long = pci_info();
    long.bus_id = "x".repeat(32);
    let r = nvml.discover_gpus(long, |_, _| unreachable!());
    assert!(matches!(r, Err(NvmlError::StringTooLong { max_len: 32, actual_len: 33 })));
}

#[test]
fn blacklisted_device_is_read() {
    let nvml = nvml();
    let r = nvml.blacklist_device_info(2, |entry, index, info| {
        assert_eq!((entry, index, info.uuid, info.pciInfo.busId), (22, 2, [0; 80], [0; 32]));
        let mut info: RawBlacklistDeviceInfo = info;
        info.uuid[..5].copy_from_slice(b"GPU-1");
        info.pciInfo.busId[..4].copy_from_slice(b"0:1:");
        info.pciInfo.bus = 9;
        info.pciInfo.pciSubSystemId = 4;
        Reply { code: 0, value: info }
    });
    match r {
        Ok(info) => {
            assert_eq!(info.uuid, "GPU-1");
            assert_eq!((info.pci_info.bus_id.as_str(), info.pci_info.bus), ("0:1:", 9));
            assert_eq!(info.pci_info.pci_sub_system_id, Some(4));
        }
        Err(error) => panic!("{:?}", error),
    }
    let broken = |bus_id: u8, uuid: u8| {
        nvml.blacklist_device_info(2, |_, _, mut info| {
            info.pciInfo.busId[0] = bus_id;
            info.uuid[0] = b'x';
            info.uuid[1] = uuid;
            Reply { code: 0, value: info }
        })
    };
    assert!(matches!(broken(0xff, 0xff), Err(NvmlError::Utf8Error(e)) if e.valid_up_to() == 0));
    assert!(matches!(broken(b'0', 0xff), Err(NvmlError::Utf8Error(e)) if e.valid_up_to() == 1));
    let r = nvml.blacklist_device_info(2, |_, _, info| Reply { code: 2, value: info });
    assert!(matches!(r, Err(NvmlError::InvalidArg)));
}
