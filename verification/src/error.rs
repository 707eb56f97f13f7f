//! Everything that can go wrong, and the two checks that every call of the library passes:
//! was its entry point found, and what does the code that it returned mean.
use crate::bindings::EntryPoint;
use vstd::prelude::*;
use vstd::string::*;

verus! {

pub const NVML_SUCCESS: u32 = 0;

pub const NVML_ERROR_UNINITIALIZED: u32 = 1;

pub const NVML_ERROR_INVALID_ARGUMENT: u32 = 2;

pub const NVML_ERROR_NOT_SUPPORTED: u32 = 3;

pub const NVML_ERROR_NO_PERMISSION: u32 = 4;

pub const NVML_ERROR_ALREADY_INITIALIZED: u32 = 5;

pub const NVML_ERROR_NOT_FOUND: u32 = 6;

pub const NVML_ERROR_INSUFFICIENT_SIZE: u32 = 7;

pub const NVML_ERROR_INSUFFICIENT_POWER: u32 = 8;

pub const NVML_ERROR_DRIVER_NOT_LOADED: u32 = 9;

pub const NVML_ERROR_TIMEOUT: u32 = 10;

pub const NVML_ERROR_IRQ_ISSUE: u32 = 11;

pub const NVML_ERROR_LIBRARY_NOT_FOUND: u32 = 12;

pub const NVML_ERROR_FUNCTION_NOT_FOUND: u32 = 13;

pub const NVML_ERROR_CORRUPTED_INFOROM: u32 = 14;

pub const NVML_ERROR_GPU_IS_LOST: u32 = 15;

pub const NVML_ERROR_RESET_REQUIRED: u32 = 16;

pub const NVML_ERROR_OPERATING_SYSTEM: u32 = 17;

pub const NVML_ERROR_LIB_RM_VERSION_MISMATCH: u32 = 18;

pub const NVML_ERROR_IN_USE: u32 = 19;

pub const NVML_ERROR_MEMORY: u32 = 20;

pub const NVML_ERROR_NO_DATA: u32 = 21;

pub const NVML_ERROR_VGPU_ECC_NOT_SUPPORTED: u32 = 22;

pub const NVML_ERROR_INSUFFICIENT_RESOURCES: u32 = 23;

pub const NVML_ERROR_UNKNOWN: u32 = 999;

/// `libloading::Error`: why a library could not be opened, closed or searched. It is carried
/// through, never looked into.
#[verifier::external_type_specification]
#[verifier::external_body]
pub struct ExLibloadingError(libloading::Error);

/// `core::str::Utf8Error`: where a byte string stops being UTF-8. It is carried through, never
/// looked into.
#[verifier::external_type_specification]
#[verifier::external_body]
pub struct ExUtf8Error(core::str::Utf8Error);

/// A zero byte inside a text that has to become a C string.
#[derive(Debug)]
pub struct NulError {
    /// The position of the first zero byte.
    pub nul_position: usize,
    /// The bytes of the text that was refused.
    pub bytes: Vec<u8>,
}

/// What can go wrong on the way to NVML and back.
#[derive(Debug)]
pub enum NvmlError {
    /// The shared library could not be opened or closed.
    LibloadingError(libloading::Error),
    /// The shared library lacks an entry point; the text is what the loader says of it.
    FailedToLoadSymbol(String),
    /// A text that came back from NVML is not UTF-8.
    Utf8Error(core::str::Utf8Error),
    /// A text that is meant for NVML has a zero byte in it.
    NulError(NulError),
    /// A text that is meant for NVML does not fit its buffer, counted with the closing zero byte.
    StringTooLong { max_len: usize, actual_len: usize },
    /// NVML returned a value that its enumeration does not have.
    UnexpectedVariant(u32),
    Uninitialized,
    InvalidArg,
    NotSupported,
    NoPermission,
    AlreadyInitialized,
    NotFound,
    InsufficientSize,
    InsufficientPower,
    DriverNotLoaded,
    Timeout,
    IrqIssue,
    LibraryNotFound,
    FunctionNotFound,
    CorruptedInfoROM,
    GpuLost,
    ResetRequired,
    OperatingSystem,
    LibRmVersionMismatch,
    InUse,
    InsufficientMemory,
    NoData,
    VgpuEccNotSupported,
    InsufficientResources,
    /// Any unexpected error.
    Unknown,
}

impl From<libloading::Error> for NvmlError {
    fn from(error: libloading::Error) -> (r: Self) {
        NvmlError::LibloadingError(error)
    }
}

impl vstd::std_specs::convert::FromSpecImpl<libloading::Error> for NvmlError {
    open spec fn obeys_from_spec() -> bool {
        true
    }

    open spec fn from_spec(error: libloading::Error) -> Self {
        NvmlError::LibloadingError(error)
    }
}

/// `r` reports that an entry point is missing, in the words that the loader's `error` displays.
pub open spec fn missing_symbol<T>(r: Result<T, NvmlError>, error: libloading::Error) -> bool {
    r matches Err(NvmlError::FailedToLoadSymbol(text)) && to_string_from_display_ensures(
        &error,
        text,
    )
}

/// The entry point that the loader found, or the error that says it found none.
pub fn nvml_sym(symbol: &Result<EntryPoint, libloading::Error>) -> (r: Result<
    EntryPoint,
    NvmlError,
>)
    ensures
        match *symbol {
            Ok(entry) => r == Ok::<EntryPoint, NvmlError>(entry),
            Err(error) => missing_symbol(r, error),
        },
{
    match symbol {
        Ok(entry) => Ok(*entry),
        Err(error) => Err(NvmlError::FailedToLoadSymbol(error.to_string())),
    }
}

/// The error that a code other than `NVML_SUCCESS` stands for.
pub open spec fn error_of(code: u32) -> NvmlError {
    if code == NVML_ERROR_UNINITIALIZED {
        NvmlError::Uninitialized
    } else if code == NVML_ERROR_INVALID_ARGUMENT {
        NvmlError::InvalidArg
    } else if code == NVML_ERROR_NOT_SUPPORTED {
        NvmlError::NotSupported
    } else if code == NVML_ERROR_NO_PERMISSION {
        NvmlError::NoPermission
    } else if code == NVML_ERROR_ALREADY_INITIALIZED {
        NvmlError::AlreadyInitialized
    } else if code == NVML_ERROR_NOT_FOUND {
        NvmlError::NotFound
    } else if code == NVML_ERROR_INSUFFICIENT_SIZE {
        NvmlError::InsufficientSize
    } else if code == NVML_ERROR_INSUFFICIENT_POWER {
        NvmlError::InsufficientPower
    } else if code == NVML_ERROR_DRIVER_NOT_LOADED {
        NvmlError::DriverNotLoaded
    } else if code == NVML_ERROR_TIMEOUT {
        NvmlError::Timeout
    } else if code == NVML_ERROR_IRQ_ISSUE {
        NvmlError::IrqIssue
    } else if code == NVML_ERROR_LIBRARY_NOT_FOUND {
        NvmlError::LibraryNotFound
    } else if code == NVML_ERROR_FUNCTION_NOT_FOUND {
        NvmlError::FunctionNotFound
    } else if code == NVML_ERROR_CORRUPTED_INFOROM {
        NvmlError::CorruptedInfoROM
    } else if code == NVML_ERROR_GPU_IS_LOST {
        NvmlError::GpuLost
    } else if code == NVML_ERROR_RESET_REQUIRED {
        NvmlError::ResetRequired
    } else if code == NVML_ERROR_OPERATING_SYSTEM {
        NvmlError::OperatingSystem
    } else if code == NVML_ERROR_LIB_RM_VERSION_MISMATCH {
        NvmlError::LibRmVersionMismatch
    } else if code == NVML_ERROR_IN_USE {
        NvmlError::InUse
    } else if code == NVML_ERROR_MEMORY {
        NvmlError::InsufficientMemory
    } else if code == NVML_ERROR_NO_DATA {
        NvmlError::NoData
    } else if code == NVML_ERROR_VGPU_ECC_NOT_SUPPORTED {
        NvmlError::VgpuEccNotSupported
    } else if code == NVML_ERROR_INSUFFICIENT_RESOURCES {
        NvmlError::InsufficientResources
    } else {
        NvmlError::Unknown
    }
}

/// Turns a return code into a result: only `NVML_SUCCESS` is a success, and a code that has no
/// error of its own is `Unknown`.
pub fn nvml_try(code: u32) -> (r: Result<(), NvmlError>)
    ensures
        r == (if code == NVML_SUCCESS {
            Ok(())
        } else {
            Err(error_of(code))
        }),
{
    match code {
        NVML_SUCCESS => Ok(()),
        NVML_ERROR_UNINITIALIZED => Err(NvmlError::Uninitialized),
        NVML_ERROR_INVALID_ARGUMENT => Err(NvmlError::InvalidArg),
        NVML_ERROR_NOT_SUPPORTED => Err(NvmlError::NotSupported),
        NVML_ERROR_NO_PERMISSION => Err(NvmlError::NoPermission),
        NVML_ERROR_ALREADY_INITIALIZED => Err(NvmlError::AlreadyInitialized),
        NVML_ERROR_NOT_FOUND => Err(NvmlError::NotFound),
        NVML_ERROR_INSUFFICIENT_SIZE => Err(NvmlError::InsufficientSize),
        NVML_ERROR_INSUFFICIENT_POWER => Err(NvmlError::InsufficientPower),
        NVML_ERROR_DRIVER_NOT_LOADED => Err(NvmlError::DriverNotLoaded),
        NVML_ERROR_TIMEOUT => Err(NvmlError::Timeout),
        NVML_ERROR_IRQ_ISSUE => Err(NvmlError::IrqIssue),
        NVML_ERROR_LIBRARY_NOT_FOUND => Err(NvmlError::LibraryNotFound),
        NVML_ERROR_FUNCTION_NOT_FOUND => Err(NvmlError::FunctionNotFound),
        NVML_ERROR_CORRUPTED_INFOROM => Err(NvmlError::CorruptedInfoROM),
        NVML_ERROR_GPU_IS_LOST => Err(NvmlError::GpuLost),
        NVML_ERROR_RESET_REQUIRED => Err(NvmlError::ResetRequired),
        NVML_ERROR_OPERATING_SYSTEM => Err(NvmlError::OperatingSystem),
        NVML_ERROR_LIB_RM_VERSION_MISMATCH => Err(NvmlError::LibRmVersionMismatch),
        NVML_ERROR_IN_USE => Err(NvmlError::InUse),
        NVML_ERROR_MEMORY => Err(NvmlError::InsufficientMemory),
        NVML_ERROR_NO_DATA => Err(NvmlError::NoData),
        NVML_ERROR_VGPU_ECC_NOT_SUPPORTED => Err(NvmlError::VgpuEccNotSupported),
        NVML_ERROR_INSUFFICIENT_RESOURCES => Err(NvmlError::InsufficientResources),
        _ => Err(NvmlError::Unknown),
    }
}

/// Two codes that mean different things are never reported alike: codes with one error are
/// the same code, or neither has an error of its own.
pub proof fn errors_tell_codes_apart(code1: u32, code2: u32)
    requires
        code1 != NVML_SUCCESS,
        code2 != NVML_SUCCESS,
        error_of(code1) == error_of(code2),
    ensures
        code1 == code2 || error_of(code1) is Unknown,
{
}

} // verus!
