//! The session with the NVML library.
//!
//! A method is handed the calls on the library that it may have to make, as functions: such a
//! function takes the address of the entry point and the arguments of the call, and returns what
//! came back. An out-parameter is handed over as it stands before the call and comes back in the
//! [`Reply`].
//!
//! What a method requires of such a function is that it can be called on certain arguments: no
//! other call is ever made, and none at all where the entry point is missing or an argument is
//! refused. Each function is called at most once. What a method ensures is what it makes of each
//! reply.
use crate::bindings::{
    EntryPoint, Handle, NvmlLib, RawBlacklistDeviceInfo, RawHwbcEntry, RawPciInfo, Reply,
    NVML_SYSTEM_DRIVER_VERSION_BUFFER_SIZE, NVML_SYSTEM_NVML_VERSION_BUFFER_SIZE,
};
use crate::bitmasks::InitFlags;
use crate::c_string::{c_string, read_text};
use crate::device::Device;
use crate::enum_wrappers::device::TopologyLevel;
use crate::error::{nvml_sym, nvml_try, NvmlError, NVML_ERROR_INSUFFICIENT_SIZE, NVML_SUCCESS};
use crate::event::EventSet;
use crate::struct_wrappers::device::PciInfo;
use crate::struct_wrappers::unit::HwbcEntry;
use crate::struct_wrappers::BlacklistDeviceInfo;
use crate::unit::Unit;
use vstd::prelude::*;
use vstd::utf8::*;

verus! {

/// The file name of the NVML library on Linux.
pub const LIB_PATH_LINUX: &'static str = "libnvidia-ml.so";

/// The file name of the NVML library on other systems.
pub const LIB_PATH_OTHER: &'static str = "nvml.dll";

/// The kind of system that the program runs on.
#[derive(Debug, Clone, Copy, PartialEq, Eq, Structural)]
pub enum Platform {
    Linux,
    Other,
}

impl Platform {
    /// The file name of the NVML library.
    pub open spec fn spec_lib_path(self) -> &'static str {
        match self {
            Platform::Linux => LIB_PATH_LINUX,
            Platform::Other => LIB_PATH_OTHER,
        }
    }

    /// The file name of the NVML library.
    pub fn lib_path(self) -> (r: &'static str)
        ensures
            r == self.spec_lib_path(),
    {
        match self {
            Platform::Linux => LIB_PATH_LINUX,
            Platform::Other => LIB_PATH_OTHER,
        }
    }
}

/// The main type of this crate: an NVML library that has been initialized.
///
/// NVIDIA leaves it to the user to call `nvmlInit()` before any other function, and
/// `nvmlShutdown()` once NVML is no longer used. A value of this type only comes from an
/// initialization that succeeded, every other call is a method of it, and [`NVML::shutdown`] and
/// [`NVML::discard`] take it away. What comes out of it, such as a [`Device`], borrows it.
///
/// A session that merely goes out of scope closes its library, but does not shut NVML down: whoever
/// holds one has to end it.
pub struct NVML {
    lib: NvmlLib,
}

impl View for NVML {
    type V = NvmlLib;

    closed spec fn view(&self) -> NvmlLib {
        self.lib
    }
}

/// `r` is the session on `lib` after an initialization that returned `code`; the library is
/// closed if that was no success.
pub open spec fn is_started(r: Result<NVML, NvmlError>, lib: NvmlLib, code: u32) -> bool {
    if code == NVML_SUCCESS {
        r matches Ok(nvml) && nvml@ == lib
    } else {
        r == Err::<NVML, NvmlError>(crate::error::error_of(code)) && is_released(lib.library)
    }
}

/// The library was closed, with whatever result.
pub open spec fn is_released(library: libloading::Library) -> bool {
    exists|closed: Result<(), libloading::Error>|
        call_ensures(libloading::Library::close, (library,), closed)
}

/// `r` is the result of closing the library.
pub open spec fn is_closed(
    r: Result<(), NvmlError>,
    closed: Result<(), libloading::Error>,
) -> bool {
    match closed {
        Ok(()) => r == Ok::<(), NvmlError>(()),
        Err(error) => r == Err::<(), NvmlError>(NvmlError::LibloadingError(error)),
    }
}

/// `r` is the result of a shutdown in which `nvmlShutdown` returned `code` and the library was
/// closed with the result `closed`, which only counts after a success.
pub open spec fn is_shut_down(
    r: Result<(), NvmlError>,
    code: u32,
    closed: Result<(), libloading::Error>,
) -> bool {
    if code == NVML_SUCCESS {
        is_closed(r, closed)
    } else {
        r == Err::<(), NvmlError>(crate::error::error_of(code))
    }
}

/// The size that is announced for the buffer of a process name: its length, or the largest number
/// that NVML can be told if it is longer.
pub open spec fn process_name_size(length: usize) -> u32 {
    if length > u32::MAX {
        u32::MAX
    } else {
        length as u32
    }
}

/// `buffer` consists of `length` zero bytes.
pub open spec fn is_blank(buffer: Seq<u8>, length: nat) -> bool {
    buffer == Seq::new(length, |i: int| 0u8)
}

/// `handles` consists of `length` null handles.
pub open spec fn is_null(handles: Seq<Handle>, length: nat) -> bool {
    handles == Seq::new(length, |i: int| 0usize)
}

/// `entries` consists of `length` entries of zero bytes.
pub open spec fn is_zeroed(entries: Seq<RawHwbcEntry>, length: nat) -> bool {
    &&& entries.len() == length
    &&& forall|i: int| 0 <= i < length ==> (#[trigger] entries[i]).is_zeroed()
}

/// `r` says what NVML wrote into the buffer of `reply`, or with which error it refused.
pub open spec fn is_text_reply(r: Result<String, NvmlError>, reply: Reply<Vec<u8>>) -> bool {
    match reply.outcome() {
        Ok(buffer) => crate::c_string::is_text_of(r, buffer@),
        Err(error) => r == Err::<String, NvmlError>(error),
    }
}

/// `r` is the device of `nvml` whose handle came back in `reply`, or the error that came back.
pub open spec fn is_device_reply(
    r: Result<Device, NvmlError>,
    reply: Reply<Handle>,
    nvml: NVML,
) -> bool {
    match reply.outcome() {
        Ok(handle) => r matches Ok(device) && device.is(handle, nvml),
        Err(error) => r == Err::<Device, NvmlError>(error),
    }
}

/// `r` is the unit of `nvml` whose handle came back in `reply`, or the error that came back.
pub open spec fn is_unit_reply(
    r: Result<Unit, NvmlError>,
    reply: Reply<Handle>,
    nvml: NVML,
) -> bool {
    match reply.outcome() {
        Ok(handle) => r matches Ok(unit) && unit.is(handle, nvml),
        Err(error) => r == Err::<Unit, NvmlError>(error),
    }
}

/// `r` is the event set of `nvml` whose handle came back in `reply`, or the error that came
/// back.
pub open spec fn is_event_set_reply(
    r: Result<EventSet, NvmlError>,
    reply: Reply<Handle>,
    nvml: NVML,
) -> bool {
    match reply.outcome() {
        Ok(handle) => r matches Ok(set) && set.is(handle, nvml),
        Err(error) => r == Err::<EventSet, NvmlError>(error),
    }
}

/// `r` holds the devices of `nvml` whose handles came back in `reply`, in their order, or the
/// error that came back.
pub open spec fn is_device_set_reply(
    r: Result<Vec<Device>, NvmlError>,
    reply: Reply<Vec<Handle>>,
    nvml: NVML,
) -> bool {
    match reply.outcome() {
        Ok(handles) => r matches Ok(devices) && devices@.len() == handles@.len() && forall|i: int|
            0 <= i < handles@.len() ==> (#[trigger] devices@[i]).is(handles@[i], nvml),
        Err(error) => r == Err::<Vec<Device>, NvmlError>(error),
    }
}

/// `r` is the topology level whose number came back in `reply`, or the error that came back.
pub open spec fn is_level_reply(r: Result<TopologyLevel, NvmlError>, reply: Reply<u32>) -> bool {
    match reply.outcome() {
        Ok(level) => TopologyLevel::is_level_of(r, level),
        Err(error) => r == Err::<TopologyLevel, NvmlError>(error),
    }
}

/// What a C truth value that came back says: anything but zero is true.
pub open spec fn truth_of(reply: Reply<i32>) -> Result<bool, NvmlError> {
    match reply.outcome() {
        Ok(value) => Ok(value != 0),
        Err(error) => Err(error),
    }
}

/// How many host interface cards there are, by the reply to a call that had room for one: that
/// the room was too small is no error, since the number comes back all the same.
pub open spec fn hic_count_of(reply: Reply<u32>) -> Result<u32, NvmlError> {
    if reply.code == NVML_SUCCESS || reply.code == NVML_ERROR_INSUFFICIENT_SIZE {
        Ok(reply.value)
    } else {
        Err(crate::error::error_of(reply.code))
    }
}

/// `r` holds what the entries of `reply` hold, in their order, or the error of the first entry
/// that cannot be read, or the error that came back.
pub open spec fn is_hic_reply(
    r: Result<Vec<HwbcEntry>, NvmlError>,
    reply: Reply<Vec<RawHwbcEntry>>,
) -> bool {
    match reply.outcome() {
        Ok(raw) => HwbcEntry::are_entries_of(r, raw@),
        Err(error) => r == Err::<Vec<HwbcEntry>, NvmlError>(error),
    }
}

/// `r` is what NVML says of a blacklisted device in `reply`, or the error that came back.
pub open spec fn is_info_reply(
    r: Result<BlacklistDeviceInfo, NvmlError>,
    reply: Reply<RawBlacklistDeviceInfo>,
) -> bool {
    match reply.outcome() {
        Ok(raw) => BlacklistDeviceInfo::is_info_of(r, raw),
        Err(error) => r == Err::<BlacklistDeviceInfo, NvmlError>(error),
    }
}

/// `length` zero bytes.
fn blank(length: usize) -> (r: Vec<u8>)
    ensures
        is_blank(r@, length as nat),
{
    let buffer: Vec<u8> = vec![0; length];
    assert(buffer@ =~= Seq::new(length as nat, |i: int| 0u8));
    buffer
}

/// The text in the buffer that came back.
pub fn text_reply(reply: Reply<Vec<u8>>) -> (r: Result<String, NvmlError>)
    ensures
        is_text_reply(r, reply),
{
    let buffer = reply.into_result()?;
    read_text(buffer.as_slice())
}

/// The topology level whose number came back.
pub fn level_reply(reply: Reply<u32>) -> (r: Result<TopologyLevel, NvmlError>)
    ensures
        is_level_reply(r, reply),
{
    let level: u32 = reply.into_result()?;
    TopologyLevel::try_from(level)
}

/// The truth value that came back.
pub fn truth_reply(reply: Reply<i32>) -> (r: Result<bool, NvmlError>)
    ensures
        r == truth_of(reply),
{
    match reply.into_result()? {
        0 => Ok(false),
        _ => Ok(true),
    }
}

/// The number of host interface cards that came back.
///
/// - If there are none, or there is one, NVML succeeds and reports the number.
/// - If there are more, NVML says that the room for one is too small, and reports the number.
pub fn hic_count_reply(reply: Reply<u32>) -> (r: Result<u32, NvmlError>)
    ensures
        r == hic_count_of(reply),
{
    match reply.code {
        NVML_SUCCESS | NVML_ERROR_INSUFFICIENT_SIZE => Ok(reply.value),
        other => match nvml_try(other) {
            Ok(()) => Ok(0),
            Err(error) => Err(error),
        },
    }
}

/// The host interface cards that came back.
pub fn hic_reply(reply: Reply<Vec<RawHwbcEntry>>) -> (r: Result<Vec<HwbcEntry>, NvmlError>)
    ensures
        is_hic_reply(r, reply),
{
    let raw = reply.into_result()?;
    HwbcEntry::try_from_all(raw.as_slice())
}

/// The blacklisted device that came back.
pub fn info_reply(reply: Reply<RawBlacklistDeviceInfo>) -> (r: Result<
    BlacklistDeviceInfo,
    NvmlError,
>)
    ensures
        is_info_reply(r, reply),
{
    let raw = reply.into_result()?;
    BlacklistDeviceInfo::try_from(raw)
}

/// The result of closing the library.
pub fn closed_with(closed: Result<(), libloading::Error>) -> (r: Result<(), NvmlError>)
    ensures
        is_closed(r, closed),
{
    match closed {
        Ok(()) => Ok(()),
        Err(error) => Err(NvmlError::from(error)),
    }
}

/// Closes the library and ignores errors.
fn release(library: libloading::Library)
    ensures
        is_released(library),
{
    let closed = library.close();
    assert(call_ensures(libloading::Library::close, (library,), closed));
}

/// The size that is announced for the buffer of a process name.
pub fn announced_size(length: usize) -> (r: u32)
    ensures
        r == process_name_size(length),
{
    if length > 0xffff_ffff {
        0xffff_ffff
    } else {
        length as u32
    }
}

impl NVML {
    /// Opens the NVML library and initializes it. This comes before anything else.
    ///
    /// The function can be called several times, and several sessions can be in use at once:
    /// NVML counts its initializations, and only shuts down with the last of them. NVML is
    /// initialized, but no GPU is, so that it can talk to a GPU even when others are unstable.
    ///
    /// `load` opens the library under the name that it has on this platform; `init` is
    /// `nvmlInit_v2`. A library that was opened and could not be initialized is closed again.
    ///
    /// # Errors
    ///
    /// * `LibloadingError`, if the library cannot be opened
    /// * `FailedToLoadSymbol`, if it has no such entry point
    /// * `DriverNotLoaded`, if the NVIDIA driver is not running
    /// * `NoPermission`, if NVML may not talk to the driver
    /// * `Unknown`, on any unexpected error
    pub fn init<L, I>(platform: Platform, load: L, init: I) -> (r: Result<NVML, NvmlError>) where
        L: FnOnce(&'static str) -> Result<NvmlLib, libloading::Error>,
        I: FnOnce(EntryPoint) -> u32,

        requires
            call_requires(load, (platform.spec_lib_path(),)),
            forall|lib: NvmlLib, entry: EntryPoint|
                #![trigger
                    call_ensures(load, (platform.spec_lib_path(),), Ok(lib)),
                    call_requires(init, (entry,))
                ]
                call_ensures(load, (platform.spec_lib_path(),), Ok(lib)) && lib.nvmlInit_v2 == Ok::<
                    EntryPoint,
                    libloading::Error,
                >(entry) ==> call_requires(init, (entry,)),
        ensures
            exists|loaded: Result<NvmlLib, libloading::Error>|
                call_ensures(load, (platform.spec_lib_path(),), loaded) && match loaded {
                    Err(error) => r == Err::<NVML, NvmlError>(NvmlError::LibloadingError(error)),
                    Ok(lib) => match lib.nvmlInit_v2 {
                        Err(error) => crate::error::missing_symbol(r, error) && is_released(
                            lib.library,
                        ),
                        Ok(entry) => exists|code: u32|
                            call_ensures(init, (entry,), code) && is_started(r, lib, code),
                    },
                },
    {
        let lib = match load(platform.lib_path()) {
            Ok(lib) => lib,
            Err(error) => return Err(NvmlError::from(error)),
        };
        let entry: EntryPoint = match nvml_sym(&lib.nvmlInit_v2) {
            Ok(entry) => entry,
            Err(error) => {
                release(lib.library);
                return Err(error);
            },
        };
        let code: u32 = init(entry);
        NVML::started(lib, code)
    }

    /// Opens the NVML library and initializes it, with flags that control how.
    ///
    /// This is the same as [`NVML::init`] except for the flags; `init` is `nvmlInitWithFlags`.
    ///
    /// # Errors
    ///
    /// * `LibloadingError`, if the library cannot be opened
    /// * `FailedToLoadSymbol`, if it has no such entry point
    /// * `DriverNotLoaded`, if the NVIDIA driver is not running
    /// * `NoPermission`, if NVML may not talk to the driver
    /// * `Unknown`, on any unexpected error
    pub fn init_with_flags<L, I>(
        platform: Platform,
        flags: InitFlags,
        load: L,
        init: I,
    ) -> (r: Result<NVML, NvmlError>) where
        L: FnOnce(&'static str) -> Result<NvmlLib, libloading::Error>,
        I: FnOnce(EntryPoint, u32) -> u32,

        requires
            call_requires(load, (platform.spec_lib_path(),)),
            forall|lib: NvmlLib, entry: EntryPoint|
                #![trigger
                    call_ensures(load, (platform.spec_lib_path(),), Ok(lib)),
                    call_requires(init, (entry, flags@))
                ]
                call_ensures(load, (platform.spec_lib_path(),), Ok(lib)) && lib.nvmlInitWithFlags == Ok::<
                    EntryPoint,
                    libloading::Error,
                >(entry) ==> call_requires(init, (entry, flags@)),
        ensures
            exists|loaded: Result<NvmlLib, libloading::Error>|
                call_ensures(load, (platform.spec_lib_path(),), loaded) && match loaded {
                    Err(error) => r == Err::<NVML, NvmlError>(NvmlError::LibloadingError(error)),
                    Ok(lib) => match lib.nvmlInitWithFlags {
                        Err(error) => crate::error::missing_symbol(r, error) && is_released(
                            lib.library,
                        ),
                        Ok(entry) => exists|code: u32|
                            call_ensures(init, (entry, flags@), code) && is_started(r, lib, code),
                    },
                },
    {
        let lib = match load(platform.lib_path()) {
            Ok(lib) => lib,
            Err(error) => return Err(NvmlError::from(error)),
        };
        let entry: EntryPoint = match nvml_sym(&lib.nvmlInitWithFlags) {
            Ok(entry) => entry,
            Err(error) => {
                release(lib.library);
                return Err(error);
            },
        };
        let code: u32 = init(entry, flags.bits());
        NVML::started(lib, code)
    }

    /// The library that the session is on, with its entry points.
    pub fn lib(&self) -> (r: &NvmlLib)
        ensures
            *r == self@,
    {
        &self.lib
    }

    /// The session on a library whose initialization returned `code`.
    fn started(lib: NvmlLib, code: u32) -> (r: Result<NVML, NvmlError>)
        ensures
            is_started(r, lib, code),
    {
        match nvml_try(code) {
            Ok(()) => Ok(NVML { lib }),
            Err(error) => {
                release(lib.library);
                Err(error)
            },
        }
    }

    /// Shuts NVML down and closes its library, for those who care about errors.
    ///
    /// Whatever happens, the session is gone afterwards. `shutdown` is `nvmlShutdown`. If that
    /// succeeds, closing the library decides. If not, its error is reported, and the session is
    /// discarded as [`NVML::discard`] does it, where `discard` is `nvmlShutdown` again. A library
    /// without that entry point is just closed. Both calls borrow the library: they are made while
    /// it is still open.
    ///
    /// # Errors
    ///
    /// * `FailedToLoadSymbol`, if the library has no such entry point
    /// * `Uninitialized`, if the library has not been initialized
    /// * `LibloadingError`, if the library cannot be closed
    /// * `Unknown`, on any unexpected error
    pub fn shutdown<S, D>(self, shutdown: S, discard: D) -> (r: Result<(), NvmlError>) where
        S: FnOnce(EntryPoint, &libloading::Library) -> u32,
        D: FnOnce(EntryPoint, &libloading::Library) -> u32,

        requires
            self@.nvmlShutdown matches Ok(entry) ==> {
                &&& call_requires(shutdown, (entry, &self@.library))
                &&& forall|code: u32| #[trigger]
                    call_ensures(shutdown, (entry, &self@.library), code) && code != NVML_SUCCESS
                        ==> call_requires(discard, (entry, &self@.library))
            },
        ensures
            match self@.nvmlShutdown {
                Err(error) => crate::error::missing_symbol(r, error) && is_released(self@.library),
                Ok(entry) => exists|code: u32, closed: Result<(), libloading::Error>|
                    {
                        &&& #[trigger] call_ensures(shutdown, (entry, &self@.library), code)
                        &&& code != NVML_SUCCESS ==> exists|again: u32|
                            call_ensures(discard, (entry, &self@.library), again)
                        &&& #[trigger] call_ensures(
                            libloading::Library::close,
                            (self@.library,),
                            closed,
                        )
                        &&& is_shut_down(r, code, closed)
                    },
            },
    {
        let entry: EntryPoint = match nvml_sym(&self.lib.nvmlShutdown) {
            Ok(entry) => entry,
            Err(error) => {
                release(self.lib.library);
                return Err(error);
            },
        };
        let code: u32 = shutdown(entry, &self.lib.library);
        match nvml_try(code) {
            Ok(()) => {
                let closed = self.lib.library.close();
                closed_with(closed)
            },
            Err(error) => {
                self.discard(discard);
                Err(error)
            },
        }
    }

    /// Ends the session, for those who do not care about errors: shuts NVML down and closes its
    /// library, whatever comes back.
    ///
    /// `shutdown` is `nvmlShutdown`, and borrows the library: it is called while that is still
    /// open. The library has to have that entry point.
    pub fn discard<S>(self, shutdown: S) where S: FnOnce(EntryPoint, &libloading::Library) -> u32
        requires
            self@.nvmlShutdown matches Ok(entry) && call_requires(shutdown, (entry, &self@.library)),
        ensures
            exists|code: u32| call_ensures(shutdown, (self@.nvmlShutdown->Ok_0, &self@.library), code),
            is_released(self@.library),
    {
        if let Ok(entry) = self.lib.nvmlShutdown {
            let code: u32 = shutdown(entry, &self.lib.library);
            assert(call_ensures(shutdown, (entry, &self@.library), code));
        }
        release(self.lib.library);
    }

    /// The number of compute devices in the system, one for each GPU.
    ///
    /// Devices that may not be accessed are counted too. `get_count` is
    /// `nvmlDeviceGetCount_v2`.
    ///
    /// # Errors
    ///
    /// * `Uninitialized`, if the library has not been initialized
    /// * `Unknown`, on any unexpected error
    pub fn device_count<F>(&self, get_count: F) -> (r: Result<u32, NvmlError>) where
        F: FnOnce(EntryPoint, u32) -> Reply<u32>,

        requires
            self@.nvmlDeviceGetCount_v2 matches Ok(entry) ==> call_requires(
                get_count,
                (entry, 0u32),
            ),
        ensures
            match self@.nvmlDeviceGetCount_v2 {
                Err(error) => crate::error::missing_symbol(r, error),
                Ok(entry) => exists|reply: Reply<u32>|
                    call_ensures(get_count, (entry, 0u32), reply) && r == reply.outcome(),
            },
    {
        let entry: EntryPoint = nvml_sym(&self.lib.nvmlDeviceGetCount_v2)?;
        get_count(entry, 0).into_result()
    }

    /// The version of the system's graphics driver, as an alphanumeric text.
    ///
    /// `get_version` is `nvmlSystemGetDriverVersion`, with the buffer and its size.
    ///
    /// # Errors
    ///
    /// * `Uninitialized`, if the library has not been initialized
    /// * `Utf8Error`, if the text is not UTF-8
    pub fn sys_driver_version<F>(&self, get_version: F) -> (r: Result<String, NvmlError>) where
        F: FnOnce(EntryPoint, Vec<u8>, u32) -> Reply<Vec<u8>>,

        requires
            self@.nvmlSystemGetDriverVersion matches Ok(entry) ==> forall|buffer: Vec<u8>|
                is_blank(buffer@, NVML_SYSTEM_DRIVER_VERSION_BUFFER_SIZE as nat)
                    ==> #[trigger] call_requires(
                    get_version,
                    (entry, buffer, NVML_SYSTEM_DRIVER_VERSION_BUFFER_SIZE),
                ),
        ensures
            match self@.nvmlSystemGetDriverVersion {
                Err(error) => crate::error::missing_symbol(r, error),
                Ok(entry) => exists|buffer: Vec<u8>, reply: Reply<Vec<u8>>|
                    is_blank(buffer@, NVML_SYSTEM_DRIVER_VERSION_BUFFER_SIZE as nat)
                        && #[trigger] call_ensures(
                        get_version,
                        (entry, buffer, NVML_SYSTEM_DRIVER_VERSION_BUFFER_SIZE),
                        reply,
                    ) && is_text_reply(r, reply),
            },
    {
        let entry: EntryPoint = nvml_sym(&self.lib.nvmlSystemGetDriverVersion)?;
        let buffer = blank(NVML_SYSTEM_DRIVER_VERSION_BUFFER_SIZE as usize);
        text_reply(get_version(entry, buffer, NVML_SYSTEM_DRIVER_VERSION_BUFFER_SIZE))
    }

    /// The version of the system's NVML library, as an alphanumeric text.
    ///
    /// `get_version` is `nvmlSystemGetNVMLVersion`, with the buffer and its size.
    ///
    /// # Errors
    ///
    /// * `Utf8Error`, if the text is not UTF-8
    pub fn sys_nvml_version<F>(&self, get_version: F) -> (r: Result<String, NvmlError>) where
        F: FnOnce(EntryPoint, Vec<u8>, u32) -> Reply<Vec<u8>>,

        requires
            self@.nvmlSystemGetNVMLVersion matches Ok(entry) ==> forall|buffer: Vec<u8>|
                is_blank(buffer@, NVML_SYSTEM_NVML_VERSION_BUFFER_SIZE as nat)
                    ==> #[trigger] call_requires(
                    get_version,
                    (entry, buffer, NVML_SYSTEM_NVML_VERSION_BUFFER_SIZE),
                ),
        ensures
            match self@.nvmlSystemGetNVMLVersion {
                Err(error) => crate::error::missing_symbol(r, error),
                Ok(entry) => exists|buffer: Vec<u8>, reply: Reply<Vec<u8>>|
                    is_blank(buffer@, NVML_SYSTEM_NVML_VERSION_BUFFER_SIZE as nat)
                        && #[trigger] call_ensures(
                        get_version,
                        (entry, buffer, NVML_SYSTEM_NVML_VERSION_BUFFER_SIZE),
                        reply,
                    ) && is_text_reply(r, reply),
            },
    {
        let entry: EntryPoint = nvml_sym(&self.lib.nvmlSystemGetNVMLVersion)?;
        let buffer = blank(NVML_SYSTEM_NVML_VERSION_BUFFER_SIZE as usize);
        text_reply(get_version(entry, buffer, NVML_SYSTEM_NVML_VERSION_BUFFER_SIZE))
    }

    /// The version of the system's CUDA driver.
    ///
    /// [`cuda_driver_version_major`](crate::cuda_driver_version_major) and
    /// [`cuda_driver_version_minor`](crate::cuda_driver_version_minor) take this number apart.
    /// `get_version` is `nvmlSystemGetCudaDriverVersion_v2`.
    ///
    /// # Errors
    ///
    /// * `FunctionNotFound`, if the CUDA library cannot tell its version
    /// * `LibraryNotFound`, if the CUDA library cannot be found
    pub fn sys_cuda_driver_version<F>(&self, get_version: F) -> (r: Result<i32, NvmlError>) where
        F: FnOnce(EntryPoint, i32) -> Reply<i32>,

        requires
            self@.nvmlSystemGetCudaDriverVersion_v2 matches Ok(entry) ==> call_requires(
                get_version,
                (entry, 0i32),
            ),
        ensures
            match self@.nvmlSystemGetCudaDriverVersion_v2 {
                Err(error) => crate::error::missing_symbol(r, error),
                Ok(entry) => exists|reply: Reply<i32>|
                    call_ensures(get_version, (entry, 0i32), reply) && r == reply.outcome(),
            },
    {
        let entry: EntryPoint = nvml_sym(&self.lib.nvmlSystemGetCudaDriverVersion_v2)?;
        get_version(entry, 0).into_result()
    }

    /// The name of the process with the given ID, cropped to the given length.
    ///
    /// `get_name` is `nvmlSystemGetProcessName`, with the ID, the buffer and its size. NVML takes
    /// the size as 32 bits: a longer buffer is announced with the largest size there is. A length
    /// that no allocation can have is not allowed.
    ///
    /// # Errors
    ///
    /// * `Uninitialized`, if the library has not been initialized
    /// * `InvalidArg`, if the length is 0
    /// * `NotFound`, if the process does not exist
    /// * `NoPermission`, if the user may not do this
    /// * `Utf8Error`, if the name is not UTF-8; NVIDIA says that its encoding is ANSI
    /// * `Unknown`, on any unexpected error
    pub fn sys_process_name<F>(&self, pid: u32, length: usize, get_name: F) -> (r: Result<
        String,
        NvmlError,
    >) where F: FnOnce(EntryPoint, u32, Vec<u8>, u32) -> Reply<Vec<u8>>
        requires
            length <= isize::MAX,
            self@.nvmlSystemGetProcessName matches Ok(entry) ==> forall|buffer: Vec<u8>|
                is_blank(buffer@, length as nat) ==> #[trigger] call_requires(
                    get_name,
                    (entry, pid, buffer, process_name_size(length)),
                ),
        ensures
            match self@.nvmlSystemGetProcessName {
                Err(error) => crate::error::missing_symbol(r, error),
                Ok(entry) => exists|buffer: Vec<u8>, reply: Reply<Vec<u8>>|
                    is_blank(buffer@, length as nat) && #[trigger] call_ensures(
                        get_name,
                        (entry, pid, buffer, process_name_size(length)),
                        reply,
                    ) && is_text_reply(r, reply),
            },
    {
        let entry: EntryPoint = nvml_sym(&self.lib.nvmlSystemGetProcessName)?;
        let buffer = blank(length);
        text_reply(get_name(entry, pid, buffer, announced_size(length)))
    }

    /// The device with the given index, counted from 0.
    ///
    /// NVML initializes the GPU, and others too if the GPU is an SLI slave. The valid indices are
    /// those below [`NVML::device_count`]. They need not stay the same between reboots, and are
    /// not those of other APIs: it is better to look a device up by its UUID or its PCI bus ID.
    /// `get_handle` is `nvmlDeviceGetHandleByIndex_v2`.
    ///
    /// # Errors
    ///
    /// * `Uninitialized`, if the library has not been initialized
    /// * `InvalidArg`, if the index is invalid
    /// * `InsufficientPower`, if a device's external power cables are not attached properly
    /// * `NoPermission`, if the user may not talk to this device
    /// * `IrqIssue`, if the NVIDIA kernel detected an interrupt issue with the GPUs
    /// * `GpuLost`, if the GPU has fallen off the bus or is otherwise inaccessible
    /// * `Unknown`, on any unexpected error
    pub fn device_by_index<'nvml, F>(&'nvml self, index: u32, get_handle: F) -> (r: Result<
        Device<'nvml>,
        NvmlError,
    >) where F: FnOnce(EntryPoint, u32, Handle) -> Reply<Handle>
        requires
            self@.nvmlDeviceGetHandleByIndex_v2 matches Ok(entry) ==> call_requires(
                get_handle,
                (entry, index, 0usize),
            ),
        ensures
            match self@.nvmlDeviceGetHandleByIndex_v2 {
                Err(error) => crate::error::missing_symbol(r, error),
                Ok(entry) => exists|reply: Reply<Handle>|
                    call_ensures(get_handle, (entry, index, 0usize), reply) && is_device_reply(
                        r,
                        reply,
                        *self,
                    ),
            },
    {
        let entry: EntryPoint = nvml_sym(&self.lib.nvmlDeviceGetHandleByIndex_v2)?;
        self.device_reply(get_handle(entry, index, 0))
    }

    /// The device whose handle came back.
    pub fn device_reply<'nvml>(&'nvml self, reply: Reply<Handle>) -> (r: Result<
        Device<'nvml>,
        NvmlError,
    >)
        ensures
            is_device_reply(r, reply, *self),
    {
        let handle: Handle = reply.into_result()?;
        Ok(Device::new(handle, self))
    }

    /// The device with the given PCI bus ID, which is the `bus_id` of a [`PciInfo`].
    ///
    /// NVML initializes the GPU, and others too if the GPU is an SLI slave. `get_handle` is
    /// `nvmlDeviceGetHandleByPciBusId_v2`.
    ///
    /// # Errors
    ///
    /// * `Uninitialized`, if the library has not been initialized
    /// * `InvalidArg`, if `pci_bus_id` is invalid
    /// * `NotFound`, if `pci_bus_id` does not match a valid device on the system
    /// * `InsufficientPower`, if a device's external power cables are not attached properly
    /// * `NoPermission`, if the user may not talk to this device
    /// * `IrqIssue`, if the NVIDIA kernel detected an interrupt issue with the GPUs
    /// * `GpuLost`, if the GPU has fallen off the bus or is otherwise inaccessible
    /// * `NulError`, if `pci_bus_id` has a zero byte in it
    /// * `Unknown`, on any unexpected error
    pub fn device_by_pci_bus_id<'nvml, F>(&'nvml self, pci_bus_id: &str, get_handle: F) -> (r:
        Result<Device<'nvml>, NvmlError>) where
        F: FnOnce(EntryPoint, Vec<u8>, Handle) -> Reply<Handle>,

        requires
            self@.nvmlDeviceGetHandleByPciBusId_v2 matches Ok(entry) ==> forall|id: Vec<u8>|
                crate::c_string::is_c_string(id@, pci_bus_id@) ==> #[trigger] call_requires(
                    get_handle,
                    (entry, id, 0usize),
                ),
        ensures
            match self@.nvmlDeviceGetHandleByPciBusId_v2 {
                Err(error) => crate::error::missing_symbol(r, error),
                Ok(entry) => match encode_utf8(pci_bus_id@).index_of_first(0u8) {
                    Some(position) => crate::c_string::is_nul_error(
                        r,
                        encode_utf8(pci_bus_id@),
                        position,
                    ),
                    None => exists|id: Vec<u8>, reply: Reply<Handle>|
                        crate::c_string::is_c_string(id@, pci_bus_id@) && #[trigger] call_ensures(
                            get_handle,
                            (entry, id, 0usize),
                            reply,
                        ) && is_device_reply(r, reply, *self),
                },
            },
    {
        let entry: EntryPoint = nvml_sym(&self.lib.nvmlDeviceGetHandleByPciBusId_v2)?;
        let id = c_string(pci_bus_id)?;
        self.device_reply(get_handle(entry, id, 0))
    }

    /// The device with the given serial number of its board.
    ///
    /// Use [`NVML::device_by_uuid`] instead: this fails on boards with two GPUs. `get_handle` is
    /// `nvmlDeviceGetHandleBySerial`.
    pub fn device_by_serial<'nvml, F>(&'nvml self, board_serial: &str, get_handle: F) -> (r: Result<
        Device<'nvml>,
        NvmlError,
    >) where F: FnOnce(EntryPoint, Vec<u8>, Handle) -> Reply<Handle>
        requires
            self@.nvmlDeviceGetHandleBySerial matches Ok(entry) ==> forall|serial: Vec<u8>|
                crate::c_string::is_c_string(serial@, board_serial@) ==> #[trigger] call_requires(
                    get_handle,
                    (entry, serial, 0usize),
                ),
        ensures
            match self@.nvmlDeviceGetHandleBySerial {
                Err(error) => crate::error::missing_symbol(r, error),
                Ok(entry) => match encode_utf8(board_serial@).index_of_first(0u8) {
                    Some(position) => crate::c_string::is_nul_error(
                        r,
                        encode_utf8(board_serial@),
                        position,
                    ),
                    None => exists|serial: Vec<u8>, reply: Reply<Handle>|
                        crate::c_string::is_c_string(serial@, board_serial@)
                            && #[trigger] call_ensures(get_handle, (entry, serial, 0usize), reply)
                            && is_device_reply(r, reply, *self),
                },
            },
    {
        let entry: EntryPoint = nvml_sym(&self.lib.nvmlDeviceGetHandleBySerial)?;
        let serial = c_string(board_serial)?;
        self.device_reply(get_handle(entry, serial, 0))
    }

    /// The device with the given globally unique, immutable ID.
    ///
    /// NVML initializes the GPU, and others too while it searches. `get_handle` is
    /// `nvmlDeviceGetHandleByUUID`.
    ///
    /// # Errors
    ///
    /// * `Uninitialized`, if the library has not been initialized
    /// * `InvalidArg`, if `uuid` is invalid
    /// * `NotFound`, if `uuid` does not match a valid device on the system
    /// * `InsufficientPower`, if a device's external power cables are not attached properly
    /// * `IrqIssue`, if the NVIDIA kernel detected an interrupt issue with the GPUs
    /// * `GpuLost`, if the GPU has fallen off the bus or is otherwise inaccessible
    /// * `NulError`, if `uuid` has a zero byte in it
    /// * `Unknown`, on any unexpected error
    pub fn device_by_uuid<'nvml, F>(&'nvml self, uuid: &str, get_handle: F) -> (r: Result<
        Device<'nvml>,
        NvmlError,
    >) where F: FnOnce(EntryPoint, Vec<u8>, Handle) -> Reply<Handle>
        requires
            self@.nvmlDeviceGetHandleByUUID matches Ok(entry) ==> forall|id: Vec<u8>|
                crate::c_string::is_c_string(id@, uuid@) ==> #[trigger] call_requires(
                    get_handle,
                    (entry, id, 0usize),
                ),
        ensures
            match self@.nvmlDeviceGetHandleByUUID {
                Err(error) => crate::error::missing_symbol(r, error),
                Ok(entry) => match encode_utf8(uuid@).index_of_first(0u8) {
                    Some(position) => crate::c_string::is_nul_error(
                        r,
                        encode_utf8(uuid@),
                        position,
                    ),
                    None => exists|id: Vec<u8>, reply: Reply<Handle>|
                        crate::c_string::is_c_string(id@, uuid@) && #[trigger] call_ensures(
                            get_handle,
                            (entry, id, 0usize),
                            reply,
                        ) && is_device_reply(r, reply, *self),
                },
            },
    {
        let entry: EntryPoint = nvml_sym(&self.lib.nvmlDeviceGetHandleByUUID)?;
        let id = c_string(uuid)?;
        self.device_reply(get_handle(entry, id, 0))
    }

    /// The common ancestor of two devices. Only Linux supports this.
    ///
    /// `get_level` is `nvmlDeviceGetTopologyCommonAncestor`.
    ///
    /// # Errors
    ///
    /// * `InvalidArg`, if the device is invalid
    /// * `NotSupported`, if the device or the system does not support this
    /// * `UnexpectedVariant`, if NVML has a level of that number that is not known here
    /// * `Unknown`, on any unexpected error
    pub fn topology_common_ancestor<F>(
        &self,
        device1: &Device,
        device2: &Device,
        get_level: F,
    ) -> (r: Result<TopologyLevel, NvmlError>) where
        F: FnOnce(EntryPoint, Handle, Handle, u32) -> Reply<u32>,

        requires
            self@.nvmlDeviceGetTopologyCommonAncestor matches Ok(entry) ==> call_requires(
                get_level,
                (entry, device1.spec_handle(), device2.spec_handle(), 0u32),
            ),
        ensures
            match self@.nvmlDeviceGetTopologyCommonAncestor {
                Err(error) => crate::error::missing_symbol(r, error),
                Ok(entry) => exists|reply: Reply<u32>|
                    call_ensures(
                        get_level,
                        (entry, device1.spec_handle(), device2.spec_handle(), 0u32),
                        reply,
                    ) && is_level_reply(r, reply),
            },
    {
        let entry: EntryPoint = nvml_sym(&self.lib.nvmlDeviceGetTopologyCommonAncestor)?;
        level_reply(get_level(entry, device1.handle(), device2.handle(), 0))
    }

    /// The unit with the given index, for S-class products.
    ///
    /// The valid indices are those below [`NVML::unit_count`]. They need not stay the same
    /// between reboots. `get_handle` is `nvmlUnitGetHandleByIndex`.
    ///
    /// # Errors
    ///
    /// * `Uninitialized`, if the library has not been initialized
    /// * `InvalidArg`, if the index is invalid
    /// * `Unknown`, on any unexpected error
    pub fn unit_by_index<'nvml, F>(&'nvml self, index: u32, get_handle: F) -> (r: Result<
        Unit<'nvml>,
        NvmlError,
    >) where F: FnOnce(EntryPoint, u32, Handle) -> Reply<Handle>
        requires
            self@.nvmlUnitGetHandleByIndex matches Ok(entry) ==> call_requires(
                get_handle,
                (entry, index, 0usize),
            ),
        ensures
            match self@.nvmlUnitGetHandleByIndex {
                Err(error) => crate::error::missing_symbol(r, error),
                Ok(entry) => exists|reply: Reply<Handle>|
                    call_ensures(get_handle, (entry, index, 0usize), reply) && is_unit_reply(
                        r,
                        reply,
                        *self,
                    ),
            },
    {
        let entry: EntryPoint = nvml_sym(&self.lib.nvmlUnitGetHandleByIndex)?;
        self.unit_reply(get_handle(entry, index, 0))
    }

    /// The unit whose handle came back.
    pub fn unit_reply<'nvml>(&'nvml self, reply: Reply<Handle>) -> (r: Result<
        Unit<'nvml>,
        NvmlError,
    >)
        ensures
            is_unit_reply(r, reply, *self),
    {
        let handle: Handle = reply.into_result()?;
        Ok(Unit::new(handle, self))
    }

    /// Whether two devices are on the same physical board.
    ///
    /// `on_same_board` is `nvmlDeviceOnSameBoard`.
    ///
    /// # Errors
    ///
    /// * `Uninitialized`, if the library has not been initialized
    /// * `InvalidArg`, if either device is invalid
    /// * `NotSupported`, if the device does not support this check
    /// * `GpuLost`, if the device has fallen off the bus or is otherwise inaccessible
    /// * `Unknown`, on any unexpected error
    pub fn are_devices_on_same_board<F>(
        &self,
        device1: &Device,
        device2: &Device,
        on_same_board: F,
    ) -> (r: Result<bool, NvmlError>) where
        F: FnOnce(EntryPoint, Handle, Handle, i32) -> Reply<i32>,

        requires
            self@.nvmlDeviceOnSameBoard matches Ok(entry) ==> call_requires(
                on_same_board,
                (entry, device1.spec_handle(), device2.spec_handle(), 0i32),
            ),
        ensures
            match self@.nvmlDeviceOnSameBoard {
                Err(error) => crate::error::missing_symbol(r, error),
                Ok(entry) => exists|reply: Reply<i32>|
                    call_ensures(
                        on_same_board,
                        (entry, device1.spec_handle(), device2.spec_handle(), 0i32),
                        reply,
                    ) && r == truth_of(reply),
            },
    {
        let entry: EntryPoint = nvml_sym(&self.lib.nvmlDeviceOnSameBoard)?;
        truth_reply(on_same_board(entry, device1.handle(), device2.handle(), 0))
    }

    /// The GPUs that have an affinity with the given CPU. Only Linux supports this.
    ///
    /// `get_count` is `nvmlSystemGetTopologyGpuSet` with a null array, which asks for the number
    /// of GPUs alone, and `get_set` is the same with an array of that many null handles. It is
    /// not called if there are none.
    ///
    /// # Errors
    ///
    /// * `InvalidArg`, if `cpu_number` is invalid
    /// * `NotSupported`, if the device or the system does not support this
    /// * `Unknown`, if an error occurred in the discovery of the topology
    pub fn topology_gpu_set<'nvml, C, F>(
        &'nvml self,
        cpu_number: u32,
        get_count: C,
        get_set: F,
    ) -> (r: Result<Vec<Device<'nvml>>, NvmlError>) where
        C: FnOnce(EntryPoint, u32, u32) -> Reply<u32>,
        F: FnOnce(EntryPoint, u32, u32, Vec<Handle>) -> Reply<Vec<Handle>>,

        requires
            self@.nvmlSystemGetTopologyGpuSet matches Ok(entry) ==> {
                &&& call_requires(get_count, (entry, cpu_number, 0u32))
                &&& forall|count: Reply<u32>, handles: Vec<Handle>|
                    #![trigger
                        call_ensures(get_count, (entry, cpu_number, 0u32), count),
                        call_requires(get_set, (entry, cpu_number, count.value, handles))
                    ]
                    call_ensures(get_count, (entry, cpu_number, 0u32), count) && count.code
                        == NVML_SUCCESS && count.value > 0 && is_null(handles@, count.value as nat)
                        ==> call_requires(get_set, (entry, cpu_number, count.value, handles))
            },
        ensures
            match self@.nvmlSystemGetTopologyGpuSet {
                Err(error) => crate::error::missing_symbol(r, error),
                Ok(entry) => exists|count: Reply<u32>|
                    call_ensures(get_count, (entry, cpu_number, 0u32), count)
                        && match count.outcome() {
                        Err(error) => r == Err::<Vec<Device>, NvmlError>(error),
                        Ok(count) => if count == 0 {
                            r matches Ok(devices) && devices@.len() == 0
                        } else {
                            exists|handles: Vec<Handle>, reply: Reply<Vec<Handle>>|
                                is_null(handles@, count as nat) && #[trigger] call_ensures(
                                    get_set,
                                    (entry, cpu_number, count, handles),
                                    reply,
                                ) && is_device_set_reply(r, reply, *self)
                        },
                    },
            },
    {
        let entry: EntryPoint = nvml_sym(&self.lib.nvmlSystemGetTopologyGpuSet)?;
        let count: u32 = match self.topology_gpu_set_count(cpu_number, get_count)? {
            0 => return Ok(vec![]),
            value => value,
        };
        let handles: Vec<Handle> = vec![0; count as usize];
        assert(handles@ =~= Seq::new(count as nat, |i: int| 0usize));
        self.device_set_reply(get_set(entry, cpu_number, count, handles))
    }

    /// The number of GPUs that have an affinity with the given CPU.
    fn topology_gpu_set_count<C>(&self, cpu_number: u32, get_count: C) -> (r: Result<
        u32,
        NvmlError,
    >) where C: FnOnce(EntryPoint, u32, u32) -> Reply<u32>
        requires
            self@.nvmlSystemGetTopologyGpuSet matches Ok(entry) ==> call_requires(
                get_count,
                (entry, cpu_number, 0u32),
            ),
        ensures
            match self@.nvmlSystemGetTopologyGpuSet {
                Err(error) => crate::error::missing_symbol(r, error),
                Ok(entry) => exists|count: Reply<u32>|
                    call_ensures(get_count, (entry, cpu_number, 0u32), count) && r
                        == count.outcome(),
            },
    {
        let entry: EntryPoint = nvml_sym(&self.lib.nvmlSystemGetTopologyGpuSet)?;
        get_count(entry, cpu_number, 0).into_result()
    }

    /// The devices whose handles came back.
    pub fn device_set_reply<'nvml>(&'nvml self, reply: Reply<Vec<Handle>>) -> (r: Result<
        Vec<Device<'nvml>>,
        NvmlError,
    >)
        ensures
            is_device_set_reply(r, reply, *self),
    {
        let handles = reply.into_result()?;
        let mut devices: Vec<Device<'nvml>> = Vec::new();
        let mut i: usize = 0;
        while i < handles.len()
            invariant
                i <= handles@.len(),
                devices@.len() == i,
                forall|j: int| 0 <= j < i ==> (#[trigger] devices@[j]).is(handles@[j], *self),
            decreases handles@.len() - i,
        {
            devices.push(Device::new(handles[i], self));
            i = i + 1;
        }
        Ok(devices)
    }

    /// The IDs and firmware versions of the host interface cards, for S-class products.
    ///
    /// `get_count` and `get_versions` are `nvmlSystemGetHicVersion`: the former as
    /// [`NVML::hic_count`] calls it, the latter with room for as many cards as there are. It is
    /// not called if there are none.
    ///
    /// # Errors
    ///
    /// * `Uninitialized`, if the library has not been initialized
    /// * `Utf8Error`, if a firmware version is not UTF-8
    pub fn hic_versions<C, F>(&self, get_count: C, get_versions: F) -> (r: Result<
        Vec<HwbcEntry>,
        NvmlError,
    >) where
        C: FnOnce(EntryPoint, u32, Vec<RawHwbcEntry>) -> Reply<u32>,
        F: FnOnce(EntryPoint, u32, Vec<RawHwbcEntry>) -> Reply<Vec<RawHwbcEntry>>,

        requires
            self@.nvmlSystemGetHicVersion matches Ok(entry) ==> {
                &&& forall|room: Vec<RawHwbcEntry>|
                    is_zeroed(room@, 1) ==> #[trigger] call_requires(get_count, (entry, 1u32, room))
                &&& forall|
                    room: Vec<RawHwbcEntry>,
                    count: Reply<u32>,
                    total: u32,
                    entries: Vec<RawHwbcEntry>,
                |
                    #![trigger
                        call_ensures(get_count, (entry, 1u32, room), count),
                        call_requires(get_versions, (entry, total, entries))
                    ]
                    is_zeroed(room@, 1) && call_ensures(get_count, (entry, 1u32, room), count)
                        && hic_count_of(count) == Ok::<u32, NvmlError>(total) && total > 0
                        && is_zeroed(entries@, total as nat) ==> call_requires(
                        get_versions,
                        (entry, total, entries),
                    )
            },
        ensures
            match self@.nvmlSystemGetHicVersion {
                Err(error) => crate::error::missing_symbol(r, error),
                Ok(entry) => exists|room: Vec<RawHwbcEntry>, count: Reply<u32>|
                    is_zeroed(room@, 1) && #[trigger] call_ensures(
                        get_count,
                        (entry, 1u32, room),
                        count,
                    ) && match hic_count_of(count) {
                        Err(error) => r == Err::<Vec<HwbcEntry>, NvmlError>(error),
                        Ok(total) => if total == 0 {
                            r matches Ok(entries) && entries@.len() == 0
                        } else {
                            exists|entries: Vec<RawHwbcEntry>, reply: Reply<Vec<RawHwbcEntry>>|
                                is_zeroed(entries@, total as nat) && #[trigger] call_ensures(
                                    get_versions,
                                    (entry, total, entries),
                                    reply,
                                ) && is_hic_reply(r, reply)
                        },
                    },
            },
    {
        let entry: EntryPoint = nvml_sym(&self.lib.nvmlSystemGetHicVersion)?;
        let count: u32 = match self.hic_count(get_count)? {
            0 => return Ok(vec![]),
            value => value,
        };
        let entries = RawHwbcEntry::zeroed_vec(count as usize);
        hic_reply(get_versions(entry, count, entries))
    }

    /// The number of host interface cards in the system, for S-class products.
    ///
    /// `get_count` is `nvmlSystemGetHicVersion` with room for one card.
    ///
    /// # Errors
    ///
    /// * `Uninitialized`, if the library has not been initialized
    pub fn hic_count<C>(&self, get_count: C) -> (r: Result<u32, NvmlError>) where
        C: FnOnce(EntryPoint, u32, Vec<RawHwbcEntry>) -> Reply<u32>,

        requires
            self@.nvmlSystemGetHicVersion matches Ok(entry) ==> forall|room: Vec<RawHwbcEntry>|
                is_zeroed(room@, 1) ==> #[trigger] call_requires(get_count, (entry, 1u32, room)),
        ensures
            match self@.nvmlSystemGetHicVersion {
                Err(error) => crate::error::missing_symbol(r, error),
                Ok(entry) => exists|room: Vec<RawHwbcEntry>, count: Reply<u32>|
                    is_zeroed(room@, 1) && #[trigger] call_ensures(
                        get_count,
                        (entry, 1u32, room),
                        count,
                    ) && r == hic_count_of(count),
            },
    {
        let entry: EntryPoint = nvml_sym(&self.lib.nvmlSystemGetHicVersion)?;
        let room = RawHwbcEntry::zeroed_vec(1);
        hic_count_reply(get_count(entry, 1, room))
    }

    /// The number of units in the system, for S-class products.
    ///
    /// `get_count` is `nvmlUnitGetCount`.
    ///
    /// # Errors
    ///
    /// * `Uninitialized`, if the library has not been initialized
    /// * `Unknown`, on any unexpected error
    pub fn unit_count<F>(&self, get_count: F) -> (r: Result<u32, NvmlError>) where
        F: FnOnce(EntryPoint, u32) -> Reply<u32>,

        requires
            self@.nvmlUnitGetCount matches Ok(entry) ==> call_requires(get_count, (entry, 0u32)),
        ensures
            match self@.nvmlUnitGetCount {
                Err(error) => crate::error::missing_symbol(r, error),
                Ok(entry) => exists|reply: Reply<u32>|
                    call_ensures(get_count, (entry, 0u32), reply) && r == reply.outcome(),
            },
    {
        let entry: EntryPoint = nvml_sym(&self.lib.nvmlUnitGetCount)?;
        get_count(entry, 0).into_result()
    }

    /// An empty set of events, for Fermi and newer devices.
    ///
    /// `create` is `nvmlEventSetCreate`.
    ///
    /// # Errors
    ///
    /// * `Uninitialized`, if the library has not been initialized
    /// * `Unknown`, on any unexpected error
    pub fn create_event_set<'nvml, F>(&'nvml self, create: F) -> (r: Result<
        EventSet<'nvml>,
        NvmlError,
    >) where F: FnOnce(EntryPoint, Handle) -> Reply<Handle>
        requires
            self@.nvmlEventSetCreate matches Ok(entry) ==> call_requires(create, (entry, 0usize)),
        ensures
            match self@.nvmlEventSetCreate {
                Err(error) => crate::error::missing_symbol(r, error),
                Ok(entry) => exists|reply: Reply<Handle>|
                    call_ensures(create, (entry, 0usize), reply) && is_event_set_reply(
                        r,
                        reply,
                        *self,
                    ),
            },
    {
        let entry: EntryPoint = nvml_sym(&self.lib.nvmlEventSetCreate)?;
        self.event_set_reply(create(entry, 0))
    }

    /// The event set whose handle came back.
    pub fn event_set_reply<'nvml>(&'nvml self, reply: Reply<Handle>) -> (r: Result<
        EventSet<'nvml>,
        NvmlError,
    >)
        ensures
            is_event_set_reply(r, reply, *self),
    {
        let handle: Handle = reply.into_result()?;
        Ok(EventSet::new(handle, self))
    }

    /// Asks the system and the NVIDIA kernel driver to look again for GPUs that were removed, in
    /// a part of the PCI subsystem. Only Linux supports this, for Pascal and newer devices and
    /// some Kepler devices, and only administrators may do it.
    ///
    /// The part is narrowed down by the domain, bus and device of `pci_info`. If all of these are
    /// zero, the entire PCI tree is searched. GPUs that are found are initialized and have their
    /// ECC scrubbed, which may take several seconds for each. Device handles may not be valid
    /// any more afterwards. `discover` is `nvmlDeviceDiscoverGpus`.
    ///
    /// # Errors
    ///
    /// * `Uninitialized`, if the library has not been initialized
    /// * `OperatingSystem`, if the operating system denies this
    /// * `NoPermission`, if the process may not do this
    /// * `NulError`, if the bus ID has a zero byte in it
    /// * `StringTooLong`, if the bus ID does not fit
    /// * `Unknown`, on any unexpected error
    pub fn discover_gpus<F>(&self, pci_info: PciInfo, discover: F) -> (r: Result<
        (),
        NvmlError,
    >) where F: FnOnce(EntryPoint, RawPciInfo) -> u32
        requires
            self@.nvmlDeviceDiscoverGpus matches Ok(entry) ==> forall|raw: RawPciInfo|
                pci_info.is_raw_of(Ok(raw)) ==> #[trigger] call_requires(discover, (entry, raw)),
        ensures
            match self@.nvmlDeviceDiscoverGpus {
                Err(error) => crate::error::missing_symbol(r, error),
                Ok(entry) => exists|written: Result<RawPciInfo, NvmlError>| #[trigger]
                    pci_info.is_raw_of(written) && match written {
                        Err(error) => r == Err::<(), NvmlError>(error),
                        Ok(raw) => exists|code: u32|
                            call_ensures(discover, (entry, raw), code) && r == (if code
                                == NVML_SUCCESS {
                                Ok(())
                            } else {
                                Err(crate::error::error_of(code))
                            }),
                    },
            },
    {
        let entry: EntryPoint = nvml_sym(&self.lib.nvmlDeviceDiscoverGpus)?;
        let written = pci_info.try_into();
        assert(pci_info.is_raw_of(written));
        let raw = written?;
        nvml_try(discover(entry, raw))
    }

    /// The number of blacklisted GPUs in the system.
    ///
    /// `get_count` is `nvmlGetBlacklistDeviceCount`.
    pub fn blacklist_device_count<F>(&self, get_count: F) -> (r: Result<u32, NvmlError>) where
        F: FnOnce(EntryPoint, u32) -> Reply<u32>,

        requires
            self@.nvmlGetBlacklistDeviceCount matches Ok(entry) ==> call_requires(
                get_count,
                (entry, 0u32),
            ),
        ensures
            match self@.nvmlGetBlacklistDeviceCount {
                Err(error) => crate::error::missing_symbol(r, error),
                Ok(entry) => exists|reply: Reply<u32>|
                    call_ensures(get_count, (entry, 0u32), reply) && r == reply.outcome(),
            },
    {
        let entry: EntryPoint = nvml_sym(&self.lib.nvmlGetBlacklistDeviceCount)?;
        get_count(entry, 0).into_result()
    }

    /// What NVML knows of the blacklisted device with the given index.
    ///
    /// `get_info` is `nvmlGetBlacklistDeviceInfoByIndex`.
    ///
    /// # Errors
    ///
    /// * `InvalidArg`, if the index is invalid
    /// * `Utf8Error`, if a text that came back is not UTF-8
    pub fn blacklist_device_info<F>(&self, index: u32, get_info: F) -> (r: Result<
        BlacklistDeviceInfo,
        NvmlError,
    >) where F: FnOnce(EntryPoint, u32, RawBlacklistDeviceInfo) -> Reply<RawBlacklistDeviceInfo>
        requires
            self@.nvmlGetBlacklistDeviceInfoByIndex matches Ok(entry) ==> forall|
                info: RawBlacklistDeviceInfo,
            |
                info.is_zeroed() ==> #[trigger] call_requires(get_info, (entry, index, info)),
        ensures
            match self@.nvmlGetBlacklistDeviceInfoByIndex {
                Err(error) => crate::error::missing_symbol(r, error),
                Ok(entry) => exists|
                    info: RawBlacklistDeviceInfo,
                    reply: Reply<RawBlacklistDeviceInfo>,
                |
                    info.is_zeroed() && #[trigger] call_ensures(
                        get_info,
                        (entry, index, info),
                        reply,
                    ) && is_info_reply(r, reply),
            },
    {
        let entry: EntryPoint = nvml_sym(&self.lib.nvmlGetBlacklistDeviceInfoByIndex)?;
        info_reply(get_info(entry, index, RawBlacklistDeviceInfo::zeroed()))
    }
}

/// Only an initialization that NVML reports as a success starts a session, and the session is
/// then on the library that was initialized.
pub proof fn only_success_starts_a_session(r: Result<NVML, NvmlError>, lib: NvmlLib, code: u32)
    requires
        is_started(r, lib, code),
    ensures
        r is Ok <==> code == NVML_SUCCESS,
        r matches Ok(nvml) ==> nvml@ == lib,
{
}

/// Initializing with flags is the same as initializing without, except for the flags: where the
/// library has both entry points and opening it and NVML answer both alike, both start a session
/// or both fail with one error.
pub proof fn flags_do_not_change_the_outcome(
    loaded: Result<NvmlLib, libloading::Error>,
    code: u32,
    without_flags: Result<NVML, NvmlError>,
    with_flags: Result<NVML, NvmlError>,
)
    requires
        match loaded {
            Err(error) => {
                &&& without_flags == Err::<NVML, NvmlError>(NvmlError::LibloadingError(error))
                &&& with_flags == Err::<NVML, NvmlError>(NvmlError::LibloadingError(error))
            },
            Ok(lib) => is_started(without_flags, lib, code) && is_started(with_flags, lib, code),
        },
    ensures
        match (without_flags, with_flags) {
            (Ok(nvml1), Ok(nvml2)) => nvml1@ == nvml2@,
            (Err(error1), Err(error2)) => error1 == error2,
            _ => false,
        },
{
}

/// Only a length of zero is announced as no room at all, and no more room is announced than there
/// is.
pub proof fn announced_size_is_honest(length: usize)
    ensures
        process_name_size(length) == 0 <==> length == 0,
        process_name_size(length) <= length,
        length <= u32::MAX ==> process_name_size(length) == length,
{
}

/// However many host interface cards there are, their number is reported: with success, or with
/// the complaint that the room for one is too small. Any other reply is an error.
pub proof fn hic_count_is_reported(reply: Reply<u32>)
    ensures
        hic_count_of(reply) is Ok <==> reply.code == NVML_SUCCESS || reply.code
            == NVML_ERROR_INSUFFICIENT_SIZE,
        hic_count_of(reply) matches Ok(count) ==> count == reply.value,
        hic_count_of(reply) matches Err(error) ==> reply.outcome() == Err::<u32, NvmlError>(error),
{
}

} // verus!
